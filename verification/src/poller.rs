//! The publish side of the snapshot pipeline: one cycle of the background
//! poller. The poller loops for the process lifetime — block until the
//! hardware source signals a new input event, fetch the per-port readings
//! and the control word, then hand them to `publish_sample`. Blocking on
//! the source and fetching from it are the embedder's work; everything from
//! the fetched values on is verified here.

use crate::frame::ControlWord;
use crate::frame::InputFrame;
use crate::frame::JoystickPort;
use crate::gate::WaitGate;
use crate::slot::PublicationSlot;
use vstd::prelude::*;

verus! {

/// Publish one freshly sampled set of readings: build the frame, exchange
/// it into the publication slot (the previous unread frame, if any, is
/// discarded — latest wins), and signal the wait gate. A sample that does
/// not form a well-formed frame is skipped — nothing is published or
/// signalled, and the previous frame stays in the slot — so a failed
/// sample never aborts the polling loop. Returns whether the sample was
/// published.
pub fn publish_sample(
    slot: &PublicationSlot,
    gate: &WaitGate,
    ports: Vec<JoystickPort>,
    control_word: ControlWord,
    station_id: i32,
) -> (published: bool)
    ensures
        published == (InputFrame { ports, control_word, station_id }).wf(),
{
    match InputFrame::new(ports, control_word, station_id) {
        Some(frame) => {
            slot.publish(frame);
            gate.signal();
            true
        },
        None => false,
    }
}

} // verus!
