//! Tests for the command catalog, the frame codec, the report decoder, the
//! device-id parser and the polling session.

use hci_codec::catalog::{lookup, parse_name, HciCommand};
use hci_codec::device_id::parse_device;
use hci_codec::errors::ProtocolError;
use hci_codec::frame::{decode_event, encode, pack_opcode, CommandSpec};
use hci_codec::poll::{run_session, PollAction, PollSession, ReceiveOutcome};
use hci_codec::report::{decode_report, extend_sign, DecodedReport};

#[test]
fn encode_lookup_reset_exact_bytes() {
    let spec = lookup("hci_reset").unwrap();
    assert_eq!(spec.opcode, 0x0C03);
    assert_eq!(encode(&spec), vec![0x03, 0x0C, 0x00]);
}

#[test]
fn encode_lookup_read_bd_addr_exact_bytes() {
    let spec = lookup("hci_read_bd_addr").unwrap();
    assert_eq!(spec.opcode, 0x1009);
    assert_eq!(encode(&spec), vec![0x09, 0x10, 0x00]);
}

#[test]
fn command_value_matches_documented_bytes() {
    assert_eq!(HciCommand::HciReset.value(), vec![0x03, 0x0C, 0x00]);
    assert_eq!(HciCommand::HciReadBdAddr.value(), vec![0x09, 0x10, 0x00]);
}

#[test]
fn lookup_unknown_name_fails() {
    assert_eq!(lookup("hci_sleep").unwrap_err(), ProtocolError::UnknownCommand);
    assert_eq!(lookup("").unwrap_err(), ProtocolError::UnknownCommand);
    assert_eq!(lookup("HCI_RESET").unwrap_err(), ProtocolError::UnknownCommand);
}

#[test]
fn parse_name_resolves_catalog_names() {
    assert_eq!(parse_name("hci_reset").unwrap(), HciCommand::HciReset);
    assert_eq!(parse_name("hci_read_bd_addr").unwrap(), HciCommand::HciReadBdAddr);
    assert_eq!(parse_name("reset").unwrap_err(), ProtocolError::UnknownCommand);
}

#[test]
fn pack_opcode_matches_catalog_opcodes() {
    assert_eq!(pack_opcode(0x03, 0x0003), 0x0C03);
    assert_eq!(pack_opcode(0x04, 0x0009), 0x1009);
}

#[test]
fn encode_frame_with_parameters() {
    let spec = CommandSpec { opcode: 0x1009, params: vec![0xAA, 0xBB] };
    assert_eq!(encode(&spec), vec![0x09, 0x10, 0x02, 0xAA, 0xBB]);
}

#[test]
fn decode_event_with_echoed_opcode() {
    let frame = decode_event(&[0x0E, 0x04, 0x03, 0x0C, 0x00, 0x11]).unwrap();
    assert_eq!(frame.event_code, 0x0E);
    assert_eq!(frame.param_count, 0x04);
    assert_eq!(frame.opcode, Some(0x0C03));
    assert_eq!(frame.return_params, vec![0x00, 0x11]);
    assert!(frame.count_matches);
}

#[test]
fn decode_event_without_opcode() {
    let frame = decode_event(&[0x13, 0x01, 0x05]).unwrap();
    assert_eq!(frame.event_code, 0x13);
    assert_eq!(frame.param_count, 0x01);
    assert_eq!(frame.opcode, None);
    assert_eq!(frame.return_params, vec![0x05]);
    assert!(frame.count_matches);
}

#[test]
fn decode_event_flags_count_mismatch() {
    let frame = decode_event(&[0x0E, 0x09, 0x03, 0x0C]).unwrap();
    assert_eq!(frame.opcode, Some(0x0C03));
    assert_eq!(frame.return_params, vec![]);
    assert!(!frame.count_matches);
}

#[test]
fn decode_event_too_short_fails() {
    assert_eq!(decode_event(&[0x0E]).unwrap_err(), ProtocolError::FrameTooShort);
    assert_eq!(decode_event(&[]).unwrap_err(), ProtocolError::FrameTooShort);
}

#[test]
fn decode_report_is_deterministic() {
    let buf = [0x03, 0x12, 0xA4, 0xFE, 0x05];
    let first = decode_report(&buf).unwrap();
    let second = decode_report(&buf).unwrap();
    assert_eq!(first, second);
}

#[test]
fn decode_report_all_zero_is_quiet() {
    let report = decode_report(&[0x00, 0x00, 0x00, 0x00, 0x00]).unwrap();
    assert_eq!(
        report,
        DecodedReport { buttons: 0, x_delta: 0, y_delta: 0, wheel_delta: 0 }
    );
}

#[test]
fn decode_report_maximal_negative_x() {
    let report = decode_report(&[0x00, 0xFF, 0x0F, 0x00, 0x00]).unwrap();
    assert_eq!(report.x_delta, -1);
    assert_eq!(report.y_delta, 0);
}

#[test]
fn decode_report_small_positive_x() {
    let report = decode_report(&[0x00, 0x01, 0x00, 0x00, 0x00]).unwrap();
    assert_eq!(report.x_delta, 1);
    assert_eq!(report.y_delta, 0);
}

#[test]
fn decode_report_twelve_bit_extremes() {
    // 0x800 is the most negative 12-bit value, 0x7FF the most positive.
    let most_negative = decode_report(&[0x00, 0x00, 0x08, 0x80, 0x00]).unwrap();
    assert_eq!(most_negative.x_delta, -2048);
    assert_eq!(most_negative.y_delta, -2048);
    let most_positive = decode_report(&[0x00, 0xFF, 0xF7, 0x7F, 0x00]).unwrap();
    assert_eq!(most_positive.x_delta, 2047);
    assert_eq!(most_positive.y_delta, 2047);
}

#[test]
fn decode_report_buttons_one_and_three() {
    let report = decode_report(&[0x05, 0x00, 0x00, 0x00, 0x00]).unwrap();
    assert!(report.button_pressed(1));
    assert!(!report.button_pressed(2));
    assert!(report.button_pressed(3));
}

#[test]
fn decode_report_masks_reserved_button_bits() {
    let report = decode_report(&[0xF8, 0x00, 0x00, 0x00, 0x00]).unwrap();
    assert_eq!(report.buttons, 0);
}

#[test]
fn decode_report_wheel_values() {
    let negative = decode_report(&[0x00, 0x00, 0x00, 0x00, 0xFF]).unwrap();
    assert_eq!(negative.wheel_delta, -1);
    let positive = decode_report(&[0x00, 0x00, 0x00, 0x00, 0x7F]).unwrap();
    assert_eq!(positive.wheel_delta, 127);
}

#[test]
fn decode_report_short_buffer_fails() {
    assert_eq!(
        decode_report(&[0x01, 0x02, 0x03]).unwrap_err(),
        ProtocolError::BufferTooShort
    );
    assert_eq!(decode_report(&[]).unwrap_err(), ProtocolError::BufferTooShort);
}

#[test]
fn decode_report_ignores_padding_bytes() {
    let report = decode_report(&[0x01, 0x02, 0x00, 0x00, 0x01, 0xDE, 0xAD]).unwrap();
    assert_eq!(report.x_delta, 2);
    assert_eq!(report.wheel_delta, 1);
}

#[test]
fn extend_sign_twelve_bit_boundaries() {
    assert_eq!(extend_sign(0x000, 12), 0);
    assert_eq!(extend_sign(0x7FF, 12), 2047);
    assert_eq!(extend_sign(0x800, 12), -2048);
    assert_eq!(extend_sign(0xFFF, 12), -1);
}

#[test]
fn parse_device_accepts_hex_pair() {
    assert_eq!(parse_device("046d:c52b".to_string()).unwrap(), (0x046D, 0xC52B));
    assert_eq!(parse_device("46D:C52B".to_string()).unwrap(), (0x046D, 0xC52B));
    assert_eq!(parse_device("0:0".to_string()).unwrap(), (0, 0));
    assert_eq!(parse_device("+ffff:+1".to_string()).unwrap(), (0xFFFF, 1));
}

#[test]
fn parse_device_rejects_missing_colon() {
    assert_eq!(
        parse_device("046dc52b".to_string()).unwrap_err(),
        "Device must be in form of XXXX:YYYY"
    );
}

#[test]
fn parse_device_rejects_bad_vendor() {
    assert_eq!(parse_device("xyz:c52b".to_string()).unwrap_err(), "Not a valid VID");
    assert_eq!(parse_device(":c52b".to_string()).unwrap_err(), "Not a valid VID");
    assert_eq!(parse_device("12345:c52b".to_string()).unwrap_err(), "Not a valid VID");
}

#[test]
fn parse_device_rejects_bad_product() {
    assert_eq!(parse_device("046d:".to_string()).unwrap_err(), "Not a valid PID");
    assert_eq!(parse_device("046d:g1".to_string()).unwrap_err(), "Not a valid PID");
    assert_eq!(parse_device("046d:10000".to_string()).unwrap_err(), "Not a valid PID");
}

#[test]
fn session_releases_once_on_exhausted_budget() {
    let outcomes = vec![
        ReceiveOutcome::Received(vec![0x01, 0x02, 0x00, 0x00, 0x00]),
        ReceiveOutcome::TimedOut,
        ReceiveOutcome::Received(vec![0x00, 0xFF, 0x0F, 0x00, 0x00]),
    ];
    let log = run_session(3, &outcomes);
    assert_eq!(log.release_count, 1);
    assert_eq!(log.reports.len(), 2);
    assert_eq!(log.reports[0].x_delta, 2);
    assert_eq!(log.reports[1].x_delta, -1);
}

#[test]
fn session_releases_once_after_transport_errors() {
    let outcomes = vec![
        ReceiveOutcome::Failed,
        ReceiveOutcome::Failed,
        ReceiveOutcome::Received(vec![0x00, 0x00, 0x00, 0x00, 0x7F]),
    ];
    let log = run_session(10, &outcomes);
    assert_eq!(log.release_count, 1);
    assert_eq!(log.reports.len(), 1);
    assert_eq!(log.reports[0].wheel_delta, 127);
}

#[test]
fn session_continues_past_short_buffers() {
    let outcomes = vec![
        ReceiveOutcome::Received(vec![0x01, 0x02]),
        ReceiveOutcome::Received(vec![0x00, 0x00, 0x00, 0x00, 0x01]),
    ];
    let log = run_session(2, &outcomes);
    assert_eq!(log.release_count, 1);
    assert_eq!(log.reports.len(), 1);
    assert_eq!(log.reports[0].wheel_delta, 1);
}

#[test]
fn session_with_zero_budget_still_releases() {
    let log = run_session(0, &Vec::new());
    assert_eq!(log.release_count, 1);
    assert!(log.reports.is_empty());
}

#[test]
fn session_machine_demands_release_exactly_once() {
    let mut session = PollSession::begin(1);
    assert_eq!(session.next_action(), PollAction::Receive);
    let report = session.handle_outcome(&ReceiveOutcome::TimedOut);
    assert!(report.is_none());
    assert_eq!(session.next_action(), PollAction::Release);
    session.confirm_release();
    assert_eq!(session.next_action(), PollAction::Finished);
}

#[test]
fn session_cancellation_skips_to_release() {
    let mut session = PollSession::begin(100);
    assert_eq!(session.next_action(), PollAction::Receive);
    session.cancel();
    assert_eq!(session.next_action(), PollAction::Release);
}

#[test]
fn error_descriptions() {
    assert_eq!(ProtocolError::UnknownCommand.describe(), "unknown command name");
    assert_eq!(ProtocolError::FrameTooShort.describe(), "event frame too short");
    assert_eq!(ProtocolError::BufferTooShort.describe(), "report buffer too short");
}
