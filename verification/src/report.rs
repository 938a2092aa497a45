//! Diagnostic reports: leveled text events destined for the external
//! diagnostic sink. The library only formats and queues them; delivering
//! them is the caller's best-effort side channel.

use vstd::prelude::*;

verus! {

/// One diagnostic event: an error or warning with a numeric code, a
/// human-readable message, and optional location and stack-trace text.
pub struct DiagnosticReport {
    /// True for an error, false for a warning.
    pub is_error: bool,
    /// The numeric code the sink files the event under.
    pub code: i32,
    /// The human-readable explanation.
    pub message: String,
    /// Where the event arose, or empty.
    pub location: String,
    /// A stack trace, or empty.
    pub stack_trace: String,
}

/// Whether a report carries exactly the given level, code and message, with
/// empty location and stack-trace text.
pub open spec fn report_matches(
    rep: DiagnosticReport,
    is_error: bool,
    code: i32,
    msg: Seq<char>,
) -> bool {
    &&& rep.is_error == is_error
    &&& rep.code == code
    &&& rep.message@ == msg
    &&& rep.location@.len() == 0
    &&& rep.stack_trace@.len() == 0
}

impl DiagnosticReport {
    /// Build a report from its parts.
    pub fn new(is_error: bool, code: i32, message: &str, location: &str, stack_trace: &str) -> (r:
        DiagnosticReport)
        ensures
            r.is_error == is_error,
            r.code == code,
            r.message@ == message@,
            r.location@ == location@,
            r.stack_trace@ == stack_trace@,
    {
        DiagnosticReport {
            is_error,
            code,
            message: message.to_owned(),
            location: location.to_owned(),
            stack_trace: stack_trace.to_owned(),
        }
    }
}

} // verus!
