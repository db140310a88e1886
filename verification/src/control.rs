//! The report-id taxonomy and the reader's control-transfer decisions.
//!
//! Host-originated get/set-report control requests address a logical
//! report through the request's value field: report type in the high
//! byte, report id in the low byte. The reader matches that field to a
//! [`ReportId`], delegates to the application's request handler, and
//! translates the handler's answer into the USB-level response.

use vstd::prelude::*;

verus! {

/// Identifies which logical report a control transfer refers to. A
/// closed set used only as a lookup key into the request handler; it
/// carries no payload of its own.
#[derive(Clone, Copy, PartialEq, Eq, Structural, Debug)]
pub enum ReportId {
    /// The primary input report streamed to the host.
    In(u8),
    /// The output report pushed by the host (rumble, LED pattern).
    Out(u8),
    /// A feature report exchanged over the control endpoint.
    Feature(u8),
}

/// The report id addressed by the value field of a get/set-report
/// control request: report type in the high byte (1 input, 2 output,
/// 3 feature), report id in the low byte. Any other type is unknown.
pub open spec fn report_id_of_value(value: u16) -> Option<ReportId> {
    let kind = value / 256;
    let id = (value % 256) as u8;
    if kind == 1 {
        Some(ReportId::In(id))
    } else if kind == 2 {
        Some(ReportId::Out(id))
    } else if kind == 3 {
        Some(ReportId::Feature(id))
    } else {
        None
    }
}

impl ReportId {
    /// Match a control request's value field to the report id it
    /// addresses, or nothing when the report type is unknown.
    pub fn from_control_value(value: u16) -> (r: Option<ReportId>)
        ensures
            r == report_id_of_value(value),
    {
        let kind: u16 = value / 256;
        let id: u8 = (value % 256) as u8;
        if kind == 1 {
            Some(ReportId::In(id))
        } else if kind == 2 {
            Some(ReportId::Out(id))
        } else if kind == 3 {
            Some(ReportId::Feature(id))
        } else {
            None
        }
    }
}

/// The outcome the request handler reports for a host-pushed output or
/// feature report: accepted, or rejected so the reader answers with a
/// USB-level negative acknowledgement.
#[derive(Clone, Copy, PartialEq, Eq, Structural, Debug)]
pub enum SetReportOutcome {
    Accepted,
    Rejected,
}

/// The reader's answer to a get-report control transfer: respond with
/// the first `n` bytes the handler wrote, or stall the transfer.
#[derive(Clone, Copy, PartialEq, Eq, Structural, Debug)]
pub enum ControlInDecision {
    Respond(usize),
    Stall,
}

/// The decision owed for a get-report request, given the handler's
/// answer and the control buffer's capacity: an unsupported report
/// (no byte count) stalls the transfer rather than succeeding with zero
/// bytes, a count beyond the buffer stalls it, and any other count is
/// answered with exactly that many bytes.
pub open spec fn get_report_decision_spec(answer: Option<usize>, capacity: usize) -> ControlInDecision {
    match answer {
        Option::Some(n) => if n <= capacity {
            ControlInDecision::Respond(n)
        } else {
            ControlInDecision::Stall
        },
        Option::None => ControlInDecision::Stall,
    }
}

/// Translate the request handler's get-report answer into the USB-level
/// response.
pub fn get_report_decision(answer: Option<usize>, capacity: usize) -> (d: ControlInDecision)
    ensures
        d == get_report_decision_spec(answer, capacity),
{
    match answer {
        Option::Some(n) => if n <= capacity {
            ControlInDecision::Respond(n)
        } else {
            ControlInDecision::Stall
        },
        Option::None => ControlInDecision::Stall,
    }
}

/// The report id the reader attaches to a received interrupt-OUT
/// transfer: the payload's leading byte when this device identity
/// prefixes output reports with a report id, else id zero.
pub fn output_report_id(use_report_ids: bool, first_byte: u8) -> (id: ReportId)
    ensures
        use_report_ids ==> id == ReportId::Out(first_byte),
        !use_report_ids ==> id == ReportId::Out(0u8),
{
    if use_report_ids {
        ReportId::Out(first_byte)
    } else {
        ReportId::Out(0u8)
    }
}

/// The capability the class engine calls into for host-originated
/// get/set-report requests; supplied by application code, the only
/// extension point for host-to-device features. Implementations must not
/// block: the reader calls them synchronously from its own scheduling
/// slot, and blocking here would stall all future host control traffic.
pub trait RequestHandler {
    /// Fill `buf` with the current contents of report `id` and return
    /// how many bytes were written, or nothing to have the transfer
    /// stalled as unsupported.
    fn get_report(&self, id: ReportId, buf: &mut Vec<u8>) -> Option<usize>;

    /// Inspect or apply a host-pushed report (rumble intensities, LED
    /// pattern) and state whether it was accepted.
    fn set_report(&self, id: ReportId, data: &Vec<u8>) -> SetReportOutcome;
}

} // verus!
