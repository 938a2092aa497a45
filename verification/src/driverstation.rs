//! The consumer facade: the single logical access point through which the
//! control loop reads joystick state, the derived robot mode, and the
//! alliance assignment.
//!
//! Every accessor first refreshes: it atomically takes any pending frame
//! from the publication slot into a private cache (a no-op if nothing is
//! pending), so a read never observes a frame older than the last one it
//! observed, though intermediate frames may be skipped. Query errors are
//! returned to the caller and additionally queue a rate-limited diagnostic
//! report; reporting is a best-effort side channel that never aborts input
//! processing.

use crate::frame::robot_state_of;
use crate::frame::InputFrame;
use crate::frame::RobotState;
use crate::frame::MAX_JOYSTICK_AXES;
use crate::frame::MAX_JOYSTICK_PORTS;
use crate::frame::MAX_JOYSTICK_POVS;
use crate::gate::WaitGate;
use crate::report::report_matches;
use crate::report::DiagnosticReport;
use crate::slot::PublicationSlot;
use crate::throttler::Throttler;
use std::time::Duration;
use vstd::prelude::*;

verus! {

/// Some error involving joysticks.
#[derive(Clone, Copy, PartialEq, Eq, Structural, Debug)]
pub enum JoystickError {
    /// The port index is at or beyond the supported port count.
    JoystickDNE,
    /// The channel exists in the protocol but the attached device does not
    /// report it: the controller is missing or only partially populated.
    ChannelUnplugged,
    /// The channel index is beyond the protocol maximum, or a button index
    /// is zero.
    ChannelDNE,
}

/// An alliance, red or blue.
#[derive(Clone, Copy, PartialEq, Eq, Structural, Debug)]
pub enum AllianceId {
    /// The red alliance.
    Red,
    /// The blue alliance.
    Blue,
}

/// A station identifier outside the six known values: an unrecoverable
/// mapping error, never silently defaulted.
#[derive(Clone, Copy, PartialEq, Eq, Structural, Debug)]
pub struct MappingError;

/// The alliance a station identifier belongs to. The six known identifiers
/// run from `0` to `5`: red stations 1 to 3, then blue stations 1 to 3.
pub open spec fn spec_alliance(station_id: i32) -> Result<AllianceId, MappingError> {
    if 0 <= station_id <= 2 {
        Ok(AllianceId::Red)
    } else if 3 <= station_id <= 5 {
        Ok(AllianceId::Blue)
    } else {
        Err(MappingError)
    }
}

/// The station number (1 to 3) a station identifier names, within its
/// alliance.
pub open spec fn spec_station(station_id: i32) -> Result<i32, MappingError> {
    if station_id == 0 || station_id == 3 {
        Ok(1)
    } else if station_id == 1 || station_id == 4 {
        Ok(2)
    } else if station_id == 2 || station_id == 5 {
        Ok(3)
    } else {
        Err(MappingError)
    }
}

/// Map a station identifier to its alliance.
pub fn alliance_from_id(station_id: i32) -> (r: Result<AllianceId, MappingError>)
    ensures
        r == spec_alliance(station_id),
{
    if 0 <= station_id && station_id <= 2 {
        Ok(AllianceId::Red)
    } else if 3 <= station_id && station_id <= 5 {
        Ok(AllianceId::Blue)
    } else {
        Err(MappingError)
    }
}

/// Map a station identifier to its station number within the alliance.
pub fn station_from_id(station_id: i32) -> (r: Result<i32, MappingError>)
    ensures
        r == spec_station(station_id),
{
    if station_id == 0 || station_id == 3 {
        Ok(1)
    } else if station_id == 1 || station_id == 4 {
        Ok(2)
    } else if station_id == 2 || station_id == 5 {
        Ok(3)
    } else {
        Err(MappingError)
    }
}

/// The station mapping law: the identifiers for red station 1 and blue
/// station 1 map to station number 1 under their alliance, and every
/// identifier outside the six known values is a mapping error for both
/// queries — never a default alliance.
pub proof fn lemma_station_mapping()
    ensures
        spec_alliance(0) == Ok::<AllianceId, MappingError>(AllianceId::Red),
        spec_station(0) == Ok::<i32, MappingError>(1),
        spec_alliance(3) == Ok::<AllianceId, MappingError>(AllianceId::Blue),
        spec_station(3) == Ok::<i32, MappingError>(1),
        forall|id: i32|
            !(0 <= id <= 5) ==> #[trigger] spec_alliance(id) == Err::<
                AllianceId,
                MappingError,
            >(MappingError),
        forall|id: i32|
            !(0 <= id <= 5) ==> #[trigger] spec_station(id) == Err::<i32, MappingError>(
                MappingError,
            ),
{
}

/// What `get_joystick_axis` answers from a cached frame: three-tier
/// validation (supported port, protocol axis range, axis actually reported
/// by the attached device), then the cached raw value.
pub open spec fn axis_query(f: InputFrame, stick: usize, axis: usize) -> Result<
    i16,
    JoystickError,
> {
    if stick >= MAX_JOYSTICK_PORTS {
        Err(JoystickError::JoystickDNE)
    } else if axis >= MAX_JOYSTICK_AXES {
        Err(JoystickError::ChannelDNE)
    } else if axis >= f.ports@[stick as int].axis_count {
        Err(JoystickError::ChannelUnplugged)
    } else {
        Ok(f.ports@[stick as int].axes@[axis as int])
    }
}

/// What `get_joystick_pov` answers from a cached frame, validated against
/// the POV-specific limits.
pub open spec fn pov_query(f: InputFrame, stick: usize, pov: usize) -> Result<i16, JoystickError> {
    if stick >= MAX_JOYSTICK_PORTS {
        Err(JoystickError::JoystickDNE)
    } else if pov >= MAX_JOYSTICK_POVS {
        Err(JoystickError::ChannelDNE)
    } else if pov >= f.ports@[stick as int].pov_count {
        Err(JoystickError::ChannelUnplugged)
    } else {
        Ok(f.ports@[stick as int].povs@[pov as int])
    }
}

/// What `get_joystick_button` answers from a cached frame: button indices
/// are 1-based, a zero index is an error distinct from out-of-range, and a
/// button within the reported count answers bit `button - 1` of the cached
/// bitset.
pub open spec fn button_query(f: InputFrame, stick: usize, button: usize) -> Result<
    bool,
    JoystickError,
> {
    if stick >= MAX_JOYSTICK_PORTS {
        Err(JoystickError::JoystickDNE)
    } else if button == 0 {
        Err(JoystickError::ChannelDNE)
    } else if button > f.ports@[stick as int].button_count {
        Err(JoystickError::ChannelUnplugged)
    } else {
        Ok((f.ports@[stick as int].buttons >> ((button - 1) as u32)) & 1 == 1)
    }
}

/// The diagnostic message each axis-query error carries.
pub open spec fn axis_error_message(e: JoystickError) -> Seq<char> {
    match e {
        JoystickError::JoystickDNE => "Bad joystick"@,
        JoystickError::ChannelDNE => "Bad joystick axis"@,
        JoystickError::ChannelUnplugged => "Joystick axis missing, check if all controllers are plugged in"@,
    }
}

/// The diagnostic message each POV-query error carries.
pub open spec fn pov_error_message(e: JoystickError) -> Seq<char> {
    match e {
        JoystickError::JoystickDNE => "Bad joystick"@,
        JoystickError::ChannelDNE => "Bad joystick pov"@,
        JoystickError::ChannelUnplugged => "Joystick pov missing, check if all controllers are plugged in"@,
    }
}

/// The diagnostic message each button-query error carries.
pub open spec fn button_error_message(e: JoystickError) -> Seq<char> {
    match e {
        JoystickError::JoystickDNE => "Bad joystick"@,
        JoystickError::ChannelDNE => "Bad joystick button (button IDs start from 1)"@,
        JoystickError::ChannelUnplugged => "Joystick button missing, check if all controllers are plugged in"@,
    }
}

/// The fixed time handed to the rate limiter on each throttled report. The
/// hardware time source is not wired in, so with the default interval of
/// zero the limiter degenerates to "always permit"; a real deployment
/// configures a positive interval and feeds a real clock here.
pub const THROTTLE_NOW: u64 = 1;

/// An interface to the driver station, field management and joysticks: the
/// process-wide consumer facade over one publication slot and one wait
/// gate.
pub struct DriverStation {
    /// The handle to the publication slot frames arrive through.
    pub data: PublicationSlot,
    /// The handle to the wait gate the poller signals.
    pub gate: WaitGate,
    /// The cached frame, the one every query answers from; managed by the
    /// refresh step.
    pub cache: InputFrame,
    /// The state that the robot is currently in, derived from the cached
    /// control word.
    pub state: RobotState,
    /// Whether the robot is attached to the field-management system.
    pub fms_attached: bool,
    /// Whether the robot has connection to the driver station.
    pub ds_attached: bool,
    /// The rate limiter guarding throttled reports.
    pub report_throttler: Throttler,
    /// The queued diagnostic reports, oldest first.
    pub pending_reports: Vec<DiagnosticReport>,
}

impl DriverStation {
    /// Well-formedness: the cached frame is well-formed and the three
    /// public fields hold exactly what the cached control word derives to.
    pub open spec fn wf(self) -> bool {
        &&& self.cache.wf()
        &&& self.state == robot_state_of(self.cache.control_word)
        &&& self.fms_attached == self.cache.control_word.fms_attached
        &&& self.ds_attached == self.cache.control_word.ds_attached
    }

    /// The input side (cached frame and the fields derived from it) is the
    /// same in both states.
    pub open spec fn same_inputs(a: DriverStation, b: DriverStation) -> bool {
        &&& a.cache == b.cache
        &&& a.state == b.state
        &&& a.fms_attached == b.fms_attached
        &&& a.ds_attached == b.ds_attached
    }

    /// The reporting side (rate limiter and queued reports) is the same in
    /// both states.
    pub open spec fn same_reports(a: DriverStation, b: DriverStation) -> bool {
        &&& a.report_throttler == b.report_throttler
        &&& a.pending_reports@ == b.pending_reports@
    }

    /// The state `post` holds frame `f` as its cache, with the derived
    /// fields recomputed from it.
    pub open spec fn frame_applied(post: DriverStation, f: InputFrame) -> bool {
        &&& post.cache == f
        &&& post.state == robot_state_of(f.control_word)
        &&& post.fms_attached == f.control_word.fms_attached
        &&& post.ds_attached == f.control_word.ds_attached
    }

    /// A refresh step from `pre` to `post`: either nothing was pending and
    /// the input side is untouched, or some well-formed frame was taken and
    /// applied.
    pub open spec fn refreshed(pre: DriverStation, post: DriverStation) -> bool {
        ||| Self::same_inputs(pre, post)
        ||| exists|f: InputFrame| #[trigger] f.wf() && Self::frame_applied(post, f)
    }

    /// One throttled-report step at level `is_error` with message `msg`:
    /// the rate limiter advances by its step, and exactly when it fired, a
    /// matching report (code 1, empty location and stack trace) was queued.
    pub open spec fn throttled_emit(
        pre: DriverStation,
        post: DriverStation,
        is_error: bool,
        msg: Seq<char>,
    ) -> bool {
        &&& post.report_throttler == pre.report_throttler.stepped(THROTTLE_NOW)
        &&& if pre.report_throttler.fires(THROTTLE_NOW) {
            &&& post.pending_reports@.len() == pre.pending_reports@.len() + 1
            &&& post.pending_reports@.drop_last() == pre.pending_reports@
            &&& report_matches(post.pending_reports@.last(), is_error, 1, msg)
        } else {
            post.pending_reports@ == pre.pending_reports@
        }
    }

    /// Create the facade over the given slot and gate handles, with the
    /// given throttle interval for repeated diagnostics. The cache starts
    /// from the initial frame: everything unplugged, the control word
    /// neutral (so the robot is `Disabled`), and no station assignment.
    pub fn new(data: PublicationSlot, gate: WaitGate, throttle_interval: u64) -> (ds: DriverStation)
        ensures
            ds.wf(),
            ds.state == RobotState::Disabled,
            !ds.fms_attached,
            !ds.ds_attached,
            ds.cache.station_id == -1,
            forall|i: int|
                0 <= i < ds.cache.ports@.len() ==> (#[trigger] ds.cache.ports@[i]).axis_count
                    == 0 && ds.cache.ports@[i].pov_count == 0
                    && ds.cache.ports@[i].button_count == 0,
            ds.pending_reports@ == Seq::<DiagnosticReport>::empty(),
            ds.report_throttler.next_send == throttle_interval,
            ds.report_throttler.interval == throttle_interval,
    {
        DriverStation {
            data,
            gate,
            cache: InputFrame::initial(),
            state: RobotState::Disabled,
            fms_attached: false,
            ds_attached: false,
            report_throttler: Throttler::new(0, throttle_interval),
            pending_reports: Vec::new(),
        }
    }

    /// Read new joystick and control word data: take the pending frame from
    /// the publication slot, if one exists, into the cache, and re-derive
    /// the robot state and attachment flags; keep the previous cache
    /// otherwise. Never touches the report queue.
    pub fn update_data(&mut self)
        requires
            old(self).wf(),
        ensures
            final(self).wf(),
            Self::refreshed(*old(self), *final(self)),
            Self::same_reports(*old(self), *final(self)),
    {
        match self.data.take() {
            Some(frame) => {
                self.state = RobotState::of_control_word(&frame.control_word);
                self.fms_attached = frame.control_word.fms_attached;
                self.ds_attached = frame.control_word.ds_attached;
                self.cache = frame;
                proof {
                    assert(self.cache.wf());
                    assert(Self::frame_applied(*self, self.cache));
                }
            },
            None => {},
        }
    }

    /// Queue a diagnostic report in its most general form. Delivering the
    /// queued reports to the diagnostic sink is the embedder's best-effort
    /// side channel; see `take_pending_reports`.
    pub fn report(&mut self, is_error: bool, code: i32, error: &str, location: &str, stack: &str)
        ensures
            Self::same_inputs(*old(self), *final(self)),
            final(self).report_throttler == old(self).report_throttler,
            final(self).pending_reports@.len() == old(self).pending_reports@.len() + 1,
            final(self).pending_reports@.drop_last() == old(self).pending_reports@,
            final(self).pending_reports@.last().is_error == is_error,
            final(self).pending_reports@.last().code == code,
            final(self).pending_reports@.last().message@ == error@,
            final(self).pending_reports@.last().location@ == location@,
            final(self).pending_reports@.last().stack_trace@ == stack@,
    {
        let rep = DiagnosticReport::new(is_error, code, error, location, stack);
        self.pending_reports.push(rep);
        proof {
            assert(self.pending_reports@.drop_last() =~= old(self).pending_reports@);
        }
    }

    /// Queue an error report under the general code 1.
    pub fn report_error(&mut self, error: &str)
        ensures
            Self::same_inputs(*old(self), *final(self)),
            final(self).report_throttler == old(self).report_throttler,
            final(self).pending_reports@.len() == old(self).pending_reports@.len() + 1,
            final(self).pending_reports@.drop_last() == old(self).pending_reports@,
            report_matches(final(self).pending_reports@.last(), true, 1, error@),
    {
        proof {
            reveal_strlit("");
        }
        self.report(true, 1, error, "", "");
    }

    /// Queue a warning report under the general code 1.
    pub fn report_warning(&mut self, warning: &str)
        ensures
            Self::same_inputs(*old(self), *final(self)),
            final(self).report_throttler == old(self).report_throttler,
            final(self).pending_reports@.len() == old(self).pending_reports@.len() + 1,
            final(self).pending_reports@.drop_last() == old(self).pending_reports@,
            report_matches(final(self).pending_reports@.last(), false, 1, warning@),
    {
        proof {
            reveal_strlit("");
        }
        self.report(false, 1, warning, "", "");
    }

    /// Queue a report at a throttled rate: the rate limiter is consulted
    /// with the current time, and the report is queued only if it permits.
    /// The hardware time source is not wired in, so the fixed placeholder
    /// time `THROTTLE_NOW` stands for "now".
    pub fn report_throttled(&mut self, is_error: bool, message: &str)
        ensures
            Self::same_inputs(*old(self), *final(self)),
            Self::throttled_emit(*old(self), *final(self), is_error, message@),
    {
        proof {
            reveal_strlit("");
        }
        if self.report_throttler.update(THROTTLE_NOW) {
            self.report(is_error, 1, message, "", "");
        }
    }

    /// Hand out the queued diagnostic reports, oldest first, leaving the
    /// queue empty. The embedder forwards them to the diagnostic sink;
    /// failures there are swallowed, never escalated.
    pub fn take_pending_reports(&mut self) -> (r: Vec<DiagnosticReport>)
        ensures
            Self::same_inputs(*old(self), *final(self)),
            final(self).report_throttler == old(self).report_throttler,
            final(self).pending_reports@.len() == 0,
            r@ == old(self).pending_reports@,
    {
        let mut out: Vec<DiagnosticReport> = Vec::new();
        core::mem::swap(&mut out, &mut self.pending_reports);
        out
    }

    /// Get an axis on a joystick, as a raw signed value. Refreshes first;
    /// answers `axis_query` on the refreshed cache; queues a throttled
    /// error report on every error path.
    pub fn get_joystick_axis(&mut self, stick: usize, axis: usize) -> (r: Result<
        i16,
        JoystickError,
    >)
        requires
            old(self).wf(),
        ensures
            final(self).wf(),
            Self::refreshed(*old(self), *final(self)),
            r == axis_query(final(self).cache, stick, axis),
            r is Ok ==> Self::same_reports(*old(self), *final(self)),
            r matches Err(e) ==> Self::throttled_emit(
                *old(self),
                *final(self),
                true,
                axis_error_message(e),
            ),
    {
        self.update_data();

        if stick >= MAX_JOYSTICK_PORTS {
            self.report_throttled(true, "Bad joystick");
            Err(JoystickError::JoystickDNE)
        } else if axis >= MAX_JOYSTICK_AXES {
            self.report_throttled(true, "Bad joystick axis");
            Err(JoystickError::ChannelDNE)
        } else if axis >= self.cache.ports[stick].axis_count {
            self.report_throttled(
                true,
                "Joystick axis missing, check if all controllers are plugged in",
            );
            Err(JoystickError::ChannelUnplugged)
        } else {
            Ok(self.cache.ports[stick].axes[axis])
        }
    }

    /// Get the position of a POV switch, in degrees (-1 for neutral).
    /// Refreshes first; answers `pov_query` on the refreshed cache; queues
    /// a throttled error report on every error path.
    pub fn get_joystick_pov(&mut self, stick: usize, pov: usize) -> (r: Result<i16, JoystickError>)
        requires
            old(self).wf(),
        ensures
            final(self).wf(),
            Self::refreshed(*old(self), *final(self)),
            r == pov_query(final(self).cache, stick, pov),
            r is Ok ==> Self::same_reports(*old(self), *final(self)),
            r matches Err(e) ==> Self::throttled_emit(
                *old(self),
                *final(self),
                true,
                pov_error_message(e),
            ),
    {
        self.update_data();

        if stick >= MAX_JOYSTICK_PORTS {
            self.report_throttled(true, "Bad joystick");
            Err(JoystickError::JoystickDNE)
        } else if pov >= MAX_JOYSTICK_POVS {
            self.report_throttled(true, "Bad joystick pov");
            Err(JoystickError::ChannelDNE)
        } else if pov >= self.cache.ports[stick].pov_count {
            self.report_throttled(
                true,
                "Joystick pov missing, check if all controllers are plugged in",
            );
            Err(JoystickError::ChannelUnplugged)
        } else {
            Ok(self.cache.ports[stick].povs[pov])
        }
    }

    /// Get the state of a button on a joystick. Button indices start from
    /// 1; index 0 is an error in its own right. Refreshes first; answers
    /// `button_query` on the refreshed cache; queues a throttled error
    /// report on every error path.
    pub fn get_joystick_button(&mut self, stick: usize, button: usize) -> (r: Result<
        bool,
        JoystickError,
    >)
        requires
            old(self).wf(),
        ensures
            final(self).wf(),
            Self::refreshed(*old(self), *final(self)),
            r == button_query(final(self).cache, stick, button),
            r is Ok ==> Self::same_reports(*old(self), *final(self)),
            r matches Err(e) ==> Self::throttled_emit(
                *old(self),
                *final(self),
                true,
                button_error_message(e),
            ),
    {
        self.update_data();

        if stick >= MAX_JOYSTICK_PORTS {
            self.report_throttled(true, "Bad joystick");
            Err(JoystickError::JoystickDNE)
        } else if button == 0 {
            self.report_throttled(true, "Bad joystick button (button IDs start from 1)");
            Err(JoystickError::ChannelDNE)
        } else if button > self.cache.ports[stick].button_count {
            self.report_throttled(
                true,
                "Joystick button missing, check if all controllers are plugged in",
            );
            Err(JoystickError::ChannelUnplugged)
        } else {
            let shift: u32 = (button - 1) as u32;
            Ok((self.cache.ports[stick].buttons >> shift) & 1 == 1)
        }
    }

    /// Get the alliance the robot is on, from the station identifier of
    /// the refreshed cache.
    pub fn get_alliance(&mut self) -> (r: Result<AllianceId, MappingError>)
        requires
            old(self).wf(),
        ensures
            final(self).wf(),
            Self::refreshed(*old(self), *final(self)),
            Self::same_reports(*old(self), *final(self)),
            r == spec_alliance(final(self).cache.station_id),
    {
        self.update_data();
        alliance_from_id(self.cache.station_id)
    }

    /// Get the number of the station the driver station is at, from the
    /// station identifier of the refreshed cache.
    pub fn get_station(&mut self) -> (r: Result<i32, MappingError>)
        requires
            old(self).wf(),
        ensures
            final(self).wf(),
            Self::refreshed(*old(self), *final(self)),
            Self::same_reports(*old(self), *final(self)),
            r == spec_station(final(self).cache.station_id),
    {
        self.update_data();
        station_from_id(self.cache.station_id)
    }

    /// Block until some frame has been published. Returns at once if one
    /// ever was: the has-data flag is never cleared.
    pub fn wait_for_data(&self) {
        self.gate.wait();
    }

    /// Block until some frame has been published or the timeout elapses;
    /// true exactly when the has-data flag was observed set.
    pub fn wait_for_data_or_timeout(&self, timeout: Duration) -> bool {
        self.gate.wait_timeout(timeout)
    }
}

/// Idempotence of reads: each query is a function of the cached frame and
/// its arguments alone. A second accessor call whose refresh finds nothing
/// pending (no publish intervened) leaves the input side untouched by
/// `update_data`'s contract, so by this lemma it returns the same value.
pub proof fn lemma_reads_idempotent(
    a: DriverStation,
    b: DriverStation,
    stick: usize,
    channel: usize,
)
    requires
        DriverStation::same_inputs(a, b),
    ensures
        axis_query(a.cache, stick, channel) == axis_query(b.cache, stick, channel),
        pov_query(a.cache, stick, channel) == pov_query(b.cache, stick, channel),
        button_query(a.cache, stick, channel) == button_query(
            b.cache,
            stick,
            channel,
        ),
{
}

/// The port-validation law: for every port at or beyond the supported
/// count, every accessor answers `JoystickDNE`, whatever the cached frame
/// and the channel.
pub proof fn lemma_port_out_of_range(f: InputFrame, stick: usize, channel: usize)
    requires
        stick >= MAX_JOYSTICK_PORTS,
    ensures
        axis_query(f, stick, channel) == Err::<i16, JoystickError>(JoystickError::JoystickDNE),
        pov_query(f, stick, channel) == Err::<i16, JoystickError>(JoystickError::JoystickDNE),
        button_query(f, stick, channel) == Err::<bool, JoystickError>(JoystickError::JoystickDNE),
{
}

/// The button law: on a supported port, button index 0 is `ChannelDNE`,
/// and a button within the reported count answers exactly bit
/// `button - 1` of the cached bitset.
pub proof fn lemma_button_semantics(f: InputFrame, stick: usize, button: usize)
    requires
        stick < MAX_JOYSTICK_PORTS,
        f.wf(),
    ensures
        button == 0 ==> button_query(f, stick, button) == Err::<bool, JoystickError>(
            JoystickError::ChannelDNE,
        ),
        1 <= button <= f.ports@[stick as int].button_count ==> button_query(f, stick, button)
            == Ok::<bool, JoystickError>(
            (f.ports@[stick as int].buttons >> ((button - 1) as u32)) & 1 == 1,
        ),
{
}

} // verus!
