//! Tests of the HID protocol class: descriptor bytes, control transfer
//! dispatch, the LED round trip, and a structural parse of the Report
//! descriptor.

use key_ripper::hid::hid_descriptor;
use key_ripper::hid::keyboard_report_descriptor;
use key_ripper::hid::ControlRequest;
use key_ripper::hid::HidClass;
use key_ripper::hid::LedState;
use key_ripper::hid::RequestKind;
use key_ripper::hid::GET_DESCRIPTOR_REQUEST;
use key_ripper::hid::GET_REPORT_REQUEST;
use key_ripper::hid::SET_REPORT_REQUEST;

/// One Input or Output field of a report descriptor, as a generic HID
/// item parser recovers it: (report count, report size in bits, the main
/// item's first data byte).
#[derive(Debug, PartialEq, Clone, Copy)]
struct ReportField {
    count: u32,
    size: u32,
    flags: u8,
}

/// A minimal generic HID short-item parser: walks the items, tracks the
/// Report Size and Report Count globals, and records every Input and
/// Output main item.
fn parse_report_descriptor(bytes: &[u8]) -> (Vec<ReportField>, Vec<ReportField>) {
    let mut inputs = Vec::new();
    let mut outputs = Vec::new();
    let mut report_size: u32 = 0;
    let mut report_count: u32 = 0;
    let mut collection_depth: i32 = 0;

    let mut i = 0;
    while i < bytes.len() {
        let prefix = bytes[i];
        let data_len = match prefix & 0x03 {
            3 => 4,
            n => n as usize,
        };
        assert!(i + 1 + data_len <= bytes.len(), "truncated HID item");
        let data0 = if data_len > 0 { bytes[i + 1] } else { 0 };
        let item_type = (prefix >> 2) & 0x03;
        let tag = prefix >> 4;
        match (item_type, tag) {
            // Global items.
            (1, 7) => report_size = data0 as u32,
            (1, 9) => report_count = data0 as u32,
            // Main items.
            (0, 8) => inputs.push(ReportField { count: report_count, size: report_size, flags: data0 }),
            (0, 9) => outputs.push(ReportField { count: report_count, size: report_size, flags: data0 }),
            (0, 10) => collection_depth += 1,
            (0, 12) => collection_depth -= 1,
            _ => {}
        }
        i += 1 + data_len;
    }
    assert_eq!(collection_depth, 0, "unbalanced collections");
    (inputs, outputs)
}

#[test]
fn report_descriptor_round_trip() {
    let descriptor = keyboard_report_descriptor();
    let (inputs, outputs) = parse_report_descriptor(&descriptor);

    // Input fields: 8 modifier bits (variable), 1 reserved byte
    // (constant), 6 one-byte keycodes (array).
    assert_eq!(
        inputs,
        vec![
            ReportField { count: 8, size: 1, flags: 0x02 },
            ReportField { count: 1, size: 8, flags: 0x01 },
            ReportField { count: 6, size: 8, flags: 0x00 },
        ]
    );

    // Output fields: 5 LED bits (variable) plus 3 bits of constant
    // padding.
    assert_eq!(
        outputs,
        vec![
            ReportField { count: 5, size: 1, flags: 0x02 },
            ReportField { count: 1, size: 3, flags: 0x01 },
        ]
    );

    // The fields tile the 8-byte input report and the 1-byte output
    // report exactly.
    let input_bits: u32 = inputs.iter().map(|f| f.count * f.size).sum();
    let output_bits: u32 = outputs.iter().map(|f| f.count * f.size).sum();
    assert_eq!(input_bits, 64);
    assert_eq!(output_bits, 8);
}

#[test]
fn hid_descriptor_bytes_are_exact() {
    // HID 1.11, no country code, one class descriptor: the Report
    // descriptor, 64 bytes, little endian.
    assert_eq!(hid_descriptor(), [0x11, 0x01, 0x00, 0x01, 0x22, 0x40, 0x00]);
    assert_eq!(keyboard_report_descriptor().len(), 64);
}

fn request(kind: RequestKind, request: u8, value: u16, index: u16) -> ControlRequest {
    ControlRequest { request_type: kind, request, value, index }
}

#[test]
fn get_descriptor_hid_answers_prefixed_descriptor() {
    let hid = HidClass::new(0);
    let response = hid
        .control_in_response(&request(RequestKind::Standard, GET_DESCRIPTOR_REQUEST, 0x2100, 0))
        .expect("GET_DESCRIPTOR(HID) must be answered");
    assert_eq!(response.len(), 9);
    assert_eq!(response[0], 9);
    assert_eq!(response[1], 0x21);
    assert_eq!(&response[2..], &hid_descriptor());
}

#[test]
fn get_descriptor_report_answers_report_descriptor() {
    let hid = HidClass::new(0);
    let response = hid
        .control_in_response(&request(RequestKind::Standard, GET_DESCRIPTOR_REQUEST, 0x2200, 0))
        .expect("GET_DESCRIPTOR(Report) must be answered");
    assert_eq!(response, keyboard_report_descriptor().to_vec());
}

#[test]
fn get_report_input_answers_last_committed_report() {
    let mut hid = HidClass::new(0);
    let req = request(RequestKind::Class, GET_REPORT_REQUEST, 0x0100, 0);

    // Before anything was transmitted: the all-zero report.
    let response = hid.control_in_response(&req).expect("GET_REPORT(Input) must be answered");
    assert_eq!(response, vec![0u8; 8]);

    let report = [0x02, 0x00, 0x04, 0x05, 0, 0, 0, 0];
    hid.commit_report(&report);
    let response = hid.control_in_response(&req).expect("GET_REPORT(Input) must be answered");
    assert_eq!(response, report.to_vec());
}

#[test]
fn unrecognized_in_requests_are_left_unhandled() {
    let hid = HidClass::new(0);
    // Unknown descriptor type.
    assert!(hid
        .control_in_response(&request(RequestKind::Standard, GET_DESCRIPTOR_REQUEST, 0x2300, 0))
        .is_none());
    // GET_REPORT for a non-Input report type.
    assert!(hid
        .control_in_response(&request(RequestKind::Class, GET_REPORT_REQUEST, 0x0200, 0))
        .is_none());
    // Class-typed GET_DESCRIPTOR code is not a descriptor request.
    assert!(hid
        .control_in_response(&request(RequestKind::Class, GET_DESCRIPTOR_REQUEST, 0x2200, 0))
        .is_none());
}

#[test]
fn requests_for_another_interface_are_ignored() {
    let mut hid = HidClass::new(0);
    assert!(hid
        .control_in_response(&request(RequestKind::Standard, GET_DESCRIPTOR_REQUEST, 0x2200, 1))
        .is_none());
    let accepted = hid.control_out_update(
        &request(RequestKind::Class, SET_REPORT_REQUEST, 0x0200, 1),
        &[0b11],
    );
    assert!(!accepted);
    assert_eq!(hid.led_state(), LedState::default());
}

#[test]
fn set_report_round_trips_the_led_byte() {
    let mut hid = HidClass::new(0);
    let accepted = hid.control_out_update(
        &request(RequestKind::Class, SET_REPORT_REQUEST, 0x0200, 0),
        &[0b0000_0011],
    );
    assert!(accepted);
    let leds = hid.led_state();
    assert!(leds.num_lock);
    assert!(leds.caps_lock);
    assert!(!leds.scroll_lock);
    assert!(!leds.compose);
    assert!(!leds.kana);
}

#[test]
fn set_report_without_data_changes_nothing() {
    let mut hid = HidClass::new(0);
    let accepted = hid.control_out_update(
        &request(RequestKind::Class, SET_REPORT_REQUEST, 0x0200, 0),
        &[],
    );
    assert!(accepted);
    assert_eq!(hid.led_state(), LedState::default());
}

#[test]
fn other_out_transfers_to_this_interface_are_accepted_but_ignored() {
    let mut hid = HidClass::new(0);
    // SET_IDLE, for instance.
    let accepted = hid.control_out_update(&request(RequestKind::Class, 0x0A, 0, 0), &[0x08]);
    assert!(accepted);
    assert_eq!(hid.led_state(), LedState::default());
}

#[test]
fn led_state_unpacks_every_bit() {
    let all = LedState::from(0b0001_1111);
    assert!(all.num_lock && all.caps_lock && all.scroll_lock && all.compose && all.kana);
    let kana_only = LedState::from(0b0001_0000);
    assert!(!kana_only.num_lock && !kana_only.caps_lock && !kana_only.scroll_lock);
    assert!(!kana_only.compose && kana_only.kana);
    // Bits past the five LEDs are ignored.
    assert_eq!(LedState::from(0b1110_0000), LedState::default());
}
