//! The publication slot: single-writer, shared-read storage holding at most
//! one pending frame. The poller swaps each fresh frame in ("latest wins" —
//! an unread frame is discarded, not queued) and a consumer takes the
//! pending frame out, at most once.
//!
//! The slot is an atomic swap cell of the `atom` crate, shared between the
//! poller thread and the consumer facade. What another thread holds in the
//! cell at any moment is outside this library's reasoning, so the trusted
//! wrappers below promise nothing about which value an operation meets; the
//! facade validates every frame it takes before using it.

use crate::frame::InputFrame;
use crate::handles::arc_clone;
use std::sync::Arc;
use vstd::prelude::*;

verus! {

/// An atomic pointer cell holding at most one boxed frame. The field is an
/// `atom::Atom`, whose declaration Verus refuses (its type parameter is
/// bound by the crate's own raw-pointer traits), so the whole struct is
/// opaque and is touched only through the trusted wrappers below.
#[verifier::external_body]
struct FrameCell {
    cell: atom::Atom<Box<InputFrame>>,
}

/// Relies on `atom::Atom::empty`: a cell that holds nothing.
#[verifier::external_body]
fn cell_empty() -> FrameCell {
    FrameCell { cell: atom::Atom::empty() }
}

/// Relies on `atom::Atom::swap`: stores the given value and hands back the
/// one it displaced, if the cell held any. Another thread may change the
/// cell at any moment, so nothing is promised of the displaced value.
#[verifier::external_body]
fn cell_swap(c: &FrameCell, v: Box<InputFrame>) -> Option<Box<InputFrame>> {
    c.cell.swap(v, std::sync::atomic::Ordering::AcqRel)
}

/// Relies on `atom::Atom::take`: empties the cell and hands back what it
/// held, if anything. Another thread may change the cell at any moment, so
/// nothing is promised of the taken value.
#[verifier::external_body]
fn cell_take(c: &FrameCell) -> Option<Box<InputFrame>> {
    c.cell.take(std::sync::atomic::Ordering::AcqRel)
}

/// A shared handle to the publication slot. Every handle cloned from one
/// `new` call reaches the same cell.
pub struct PublicationSlot {
    cell: Arc<FrameCell>,
}

impl PublicationSlot {
    /// Create a fresh, empty slot.
    pub fn new() -> PublicationSlot {
        PublicationSlot { cell: Arc::new(cell_empty()) }
    }

    /// Another handle to the same slot.
    pub fn share(&self) -> PublicationSlot {
        PublicationSlot { cell: arc_clone(&self.cell) }
    }

    /// Publish a frame: store it as the pending frame, discarding any
    /// pending frame a consumer had not taken yet.
    pub fn publish(&self, frame: InputFrame)
        requires
            frame.wf(),
    {
        let _displaced = cell_swap(&self.cell, Box::new(frame));
    }

    /// Take the pending frame, if one exists, leaving the slot empty; only
    /// the first taker receives a published frame. A frame that does not
    /// pass the well-formedness check is dropped as if nothing were
    /// pending.
    pub fn take(&self) -> (r: Option<InputFrame>)
        ensures
            r matches Some(f) ==> f.wf(),
    {
        match cell_take(&self.cell) {
            Some(boxed) => {
                let frame = *boxed;
                if frame.is_wf() {
                    Some(frame)
                } else {
                    None
                }
            },
            None => None,
        }
    }
}

} // verus!
