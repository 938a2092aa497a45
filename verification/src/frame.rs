//! The input-frame model: one consistent sample of all joystick data plus
//! the control-mode word and the station identifier, captured together.

use vstd::prelude::*;

verus! {

/// Number of joystick ports the protocol supports.
pub const MAX_JOYSTICK_PORTS: usize = 6;

/// Number of axes per port the protocol supports.
pub const MAX_JOYSTICK_AXES: usize = 12;

/// Number of POV hats per port the protocol supports.
pub const MAX_JOYSTICK_POVS: usize = 12;

/// Number of buttons per port: the button state is a 32-bit bitset.
pub const MAX_JOYSTICK_BUTTONS: usize = 32;

/// One port's joystick reading: axis values in raw signed units, POV angles
/// in degrees (-1 for neutral), the button state as a bitset, and for each
/// of the three the count the attached device actually reports.
pub struct JoystickPort {
    /// Axis values in raw signed units; always `MAX_JOYSTICK_AXES` entries.
    pub axes: Vec<i16>,
    /// How many axes the attached device reports.
    pub axis_count: usize,
    /// POV hat angles in degrees, -1 for neutral; always `MAX_JOYSTICK_POVS`
    /// entries.
    pub povs: Vec<i16>,
    /// How many POV hats the attached device reports.
    pub pov_count: usize,
    /// Button state, one bit per button; bit 0 is button 1.
    pub buttons: u32,
    /// How many buttons the attached device reports.
    pub button_count: usize,
}

impl JoystickPort {
    /// Well-formedness: the value arrays span the full protocol range and
    /// every reported count stays within the protocol maximum.
    pub open spec fn wf(&self) -> bool {
        &&& self.axes@.len() == MAX_JOYSTICK_AXES
        &&& self.axis_count <= MAX_JOYSTICK_AXES
        &&& self.povs@.len() == MAX_JOYSTICK_POVS
        &&& self.pov_count <= MAX_JOYSTICK_POVS
        &&& self.button_count <= MAX_JOYSTICK_BUTTONS
    }

    /// Runtime check of `wf`, for frames that arrive through the shared slot.
    pub fn is_wf(&self) -> (r: bool)
        ensures
            r == self.wf(),
    {
        self.axes.len() == MAX_JOYSTICK_AXES && self.axis_count <= MAX_JOYSTICK_AXES
            && self.povs.len() == MAX_JOYSTICK_POVS && self.pov_count <= MAX_JOYSTICK_POVS
            && self.button_count <= MAX_JOYSTICK_BUTTONS
    }

    /// The reading of a port with nothing attached: all counts zero, all
    /// values neutral.
    pub fn unplugged() -> (r: JoystickPort)
        ensures
            r.wf(),
            r.axis_count == 0,
            r.pov_count == 0,
            r.button_count == 0,
            r.buttons == 0,
    {
        JoystickPort {
            axes: vec![0i16; MAX_JOYSTICK_AXES],
            axis_count: 0,
            povs: vec![0i16; MAX_JOYSTICK_POVS],
            pov_count: 0,
            buttons: 0,
            button_count: 0,
        }
    }
}

/// The control-mode word: bit flags describing enable state, the selected
/// mode, emergency stop, and driver-station/field attachment.
#[derive(Clone, Copy, PartialEq, Eq, Structural, Debug)]
pub struct ControlWord {
    /// Outputs are enabled.
    pub enabled: bool,
    /// Autonomous mode is selected.
    pub autonomous: bool,
    /// Test mode is selected.
    pub test: bool,
    /// The robot is emergency-stopped.
    pub e_stop: bool,
    /// A field-management system is attached.
    pub fms_attached: bool,
    /// A driver station is attached.
    pub ds_attached: bool,
}

impl ControlWord {
    /// The control word of a robot with no connection: everything off.
    pub fn neutral() -> (r: ControlWord)
        ensures
            r == (ControlWord {
                enabled: false,
                autonomous: false,
                test: false,
                e_stop: false,
                fms_attached: false,
                ds_attached: false,
            }),
    {
        ControlWord {
            enabled: false,
            autonomous: false,
            test: false,
            e_stop: false,
            fms_attached: false,
            ds_attached: false,
        }
    }
}

/// The robot's state, derived from the control word.
#[derive(Clone, Copy, PartialEq, Eq, Structural, Debug)]
pub enum RobotState {
    /// Outputs disabled, no emergency stop.
    Disabled,
    /// Enabled, running the autonomous routine.
    Autonomous,
    /// Enabled, driven by an operator.
    Teleop,
    /// Test mode. The derivation below never produces this state: the
    /// control word's test bit takes no precedence over the enabled and
    /// autonomous bits, so the variant exists only for callers that set the
    /// state themselves.
    Test,
    /// Emergency-stopped.
    EStop,
}

/// How the robot state follows from the control word, in fixed precedence:
/// enabled and autonomous give `Autonomous`; enabled alone gives `Teleop`;
/// otherwise emergency stop gives `EStop`, and everything else is
/// `Disabled`.
pub open spec fn robot_state_of(cw: ControlWord) -> RobotState {
    if cw.enabled {
        if cw.autonomous {
            RobotState::Autonomous
        } else {
            RobotState::Teleop
        }
    } else if cw.e_stop {
        RobotState::EStop
    } else {
        RobotState::Disabled
    }
}

impl RobotState {
    /// Derive the robot state from a control word.
    pub fn of_control_word(cw: &ControlWord) -> (r: RobotState)
        ensures
            r == robot_state_of(*cw),
    {
        if cw.enabled {
            if cw.autonomous {
                RobotState::Autonomous
            } else {
                RobotState::Teleop
            }
        } else if cw.e_stop {
            RobotState::EStop
        } else {
            RobotState::Disabled
        }
    }
}

/// The mode-precedence law: an enabled control word is `Autonomous` or
/// `Teleop` by its autonomous bit alone, and a disabled one is `EStop` or
/// `Disabled` by its emergency-stop bit alone.
pub proof fn lemma_robot_state_precedence(cw: ControlWord)
    ensures
        cw.enabled && cw.autonomous ==> robot_state_of(cw) == RobotState::Autonomous,
        cw.enabled && !cw.autonomous ==> robot_state_of(cw) == RobotState::Teleop,
        !cw.enabled && cw.e_stop ==> robot_state_of(cw) == RobotState::EStop,
        !cw.enabled && !cw.e_stop ==> robot_state_of(cw) == RobotState::Disabled,
{
}

/// One consistent sample of all per-port joystick readings plus the control
/// word and the station identifier. Immutable once constructed.
pub struct InputFrame {
    /// Per-port readings; always `MAX_JOYSTICK_PORTS` entries.
    pub ports: Vec<JoystickPort>,
    /// The control-mode word sampled with the readings.
    pub control_word: ControlWord,
    /// The raw station identifier sampled with the readings; the six known
    /// values are `0` to `5` (see `station`).
    pub station_id: i32,
}

impl InputFrame {
    /// Well-formedness: one reading per supported port, each well-formed.
    pub open spec fn wf(&self) -> bool {
        &&& self.ports@.len() == MAX_JOYSTICK_PORTS
        &&& forall|i: int| 0 <= i < self.ports@.len() ==> (#[trigger] self.ports@[i]).wf()
    }

    /// Runtime check of `wf`, for frames that arrive through the shared slot.
    pub fn is_wf(&self) -> (r: bool)
        ensures
            r == self.wf(),
    {
        if self.ports.len() != MAX_JOYSTICK_PORTS {
            return false;
        }
        let mut i: usize = 0;
        while i < self.ports.len()
            invariant
                i <= self.ports@.len(),
                forall|j: int| 0 <= j < i ==> (#[trigger] self.ports@[j]).wf(),
            decreases self.ports@.len() - i,
        {
            if !self.ports[i].is_wf() {
                return false;
            }
            i = i + 1;
        }
        true
    }

    /// Build a frame from freshly sampled readings. Returns `None` exactly
    /// when the sample is not well-formed (wrong port count, or a count
    /// beyond the protocol maximum), so a bad sample can be skipped with the
    /// previous frame retained.
    pub fn new(ports: Vec<JoystickPort>, control_word: ControlWord, station_id: i32) -> (r: Option<
        InputFrame,
    >)
        ensures
            ({
                let f = InputFrame { ports, control_word, station_id };
                if f.wf() {
                    r == Some(f)
                } else {
                    r == None::<InputFrame>
                }
            }),
    {
        let f = InputFrame { ports, control_word, station_id };
        if f.is_wf() {
            Some(f)
        } else {
            None
        }
    }

    /// The frame a consumer starts from before anything was published:
    /// every port unplugged, the control word neutral, and a station
    /// identifier outside the six known values.
    pub fn initial() -> (r: InputFrame)
        ensures
            r.wf(),
            r.control_word == (ControlWord {
                enabled: false,
                autonomous: false,
                test: false,
                e_stop: false,
                fms_attached: false,
                ds_attached: false,
            }),
            r.station_id == -1,
            forall|i: int| 0 <= i < r.ports@.len() ==> (#[trigger] r.ports@[i]).axis_count == 0,
            forall|i: int| 0 <= i < r.ports@.len() ==> (#[trigger] r.ports@[i]).pov_count == 0,
            forall|i: int| 0 <= i < r.ports@.len() ==> (#[trigger] r.ports@[i]).button_count == 0,
    {
        let mut ports: Vec<JoystickPort> = Vec::new();
        let mut i: usize = 0;
        while i < MAX_JOYSTICK_PORTS
            invariant
                i <= MAX_JOYSTICK_PORTS,
                ports@.len() == i,
                forall|j: int| 0 <= j < i ==> (#[trigger] ports@[j]).wf(),
                forall|j: int|
                    0 <= j < i ==> ((#[trigger] ports@[j]).axis_count == 0 && ports@[j].pov_count
                        == 0 && ports@[j].button_count == 0),
            decreases MAX_JOYSTICK_PORTS - i,
        {
            ports.push(JoystickPort::unplugged());
            i = i + 1;
        }
        InputFrame { ports, control_word: ControlWord::neutral(), station_id: -1 }
    }
}

} // verus!
