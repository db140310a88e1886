use xinput::control::get_report_decision;
use xinput::control::output_report_id;
use xinput::control::ControlInDecision;
use xinput::control::ReportId;
use xinput::control::RequestHandler;
use xinput::control::SetReportOutcome;

/// The application handler of the firmware: no report is readable and
/// every host-pushed report is accepted.
struct PermissiveHandler;

impl RequestHandler for PermissiveHandler {
    fn get_report(&self, _id: ReportId, _buf: &mut Vec<u8>) -> Option<usize> {
        None
    }

    fn set_report(&self, _id: ReportId, _data: &Vec<u8>) -> SetReportOutcome {
        SetReportOutcome::Accepted
    }
}

#[test]
fn unsupported_get_report_stalls_rather_than_answering_empty() {
    let handler = PermissiveHandler;
    let mut buf = vec![0u8; 64];
    let answer = handler.get_report(ReportId::Out(0), &mut buf);
    assert_eq!(answer, None);
    // None must become a stall, never a zero-byte success.
    assert_eq!(get_report_decision(answer, buf.len()), ControlInDecision::Stall);
}

#[test]
fn supported_get_report_answers_with_the_byte_count() {
    assert_eq!(get_report_decision(Some(5), 64), ControlInDecision::Respond(5));
    assert_eq!(get_report_decision(Some(0), 64), ControlInDecision::Respond(0));
}

#[test]
fn oversized_get_report_answer_stalls() {
    assert_eq!(get_report_decision(Some(65), 64), ControlInDecision::Stall);
}

#[test]
fn set_report_outcome_of_the_permissive_handler() {
    let handler = PermissiveHandler;
    let data = vec![0u8, 1, 2];
    assert_eq!(handler.set_report(ReportId::Out(0), &data), SetReportOutcome::Accepted);
}

#[test]
fn report_ids_match_the_request_value_field() {
    assert_eq!(ReportId::from_control_value(0x0101), Some(ReportId::In(1)));
    assert_eq!(ReportId::from_control_value(0x0203), Some(ReportId::Out(3)));
    assert_eq!(ReportId::from_control_value(0x0305), Some(ReportId::Feature(5)));
    assert_eq!(ReportId::from_control_value(0x0100), Some(ReportId::In(0)));
    assert_eq!(ReportId::from_control_value(0x0000), None);
    assert_eq!(ReportId::from_control_value(0x0442), None);
}

#[test]
fn output_report_id_uses_the_leading_byte_only_when_asked() {
    assert_eq!(output_report_id(true, 7), ReportId::Out(7));
    assert_eq!(output_report_id(false, 7), ReportId::Out(0));
}
