//! Tests of layer resolution and report construction: the six-keycode cap,
//! layer switching, modifier accumulation, and the wire form.

use key_ripper::key_codes::KeyCode;
use key_ripper::key_mapping::fn_layer_mapping;
use key_ripper::key_mapping::normal_layer_mapping;
use key_ripper::key_mapping::transpose;
use key_ripper::key_mapping::transposed_normal_layer_mapping;
use key_ripper::key_scan::build_passthrough_mask;
use key_ripper::key_scan::KeyboardReport;
use key_ripper::key_scan::KeyScan;
use key_ripper::NUM_COLS;
use key_ripper::NUM_ROWS;

fn frame_with(pressed: &[(usize, usize)]) -> [[bool; NUM_ROWS]; NUM_COLS] {
    let mut frame = [[false; NUM_ROWS]; NUM_COLS];
    for &(col, row) in pressed {
        frame[col][row] = true;
    }
    frame
}

fn resolve(pressed: &[(usize, usize)]) -> KeyboardReport {
    KeyboardReport::from(KeyScan { matrix: frame_with(pressed) })
}

#[test]
fn eight_keys_cap_at_first_six_in_scan_order() {
    // Eight regular keys; column-major scan order puts them in the order
    // Num1, Q, W, E, R, T, Y, U. Only the first six survive.
    let report = resolve(&[
        (1, 1), // Num1
        (1, 2), // Q
        (2, 2), // W
        (3, 2), // E
        (4, 2), // R
        (5, 2), // T
        (6, 2), // Y
        (7, 2), // U
    ]);
    assert_eq!(report.modifier, 0);
    assert_eq!(report.keycodes, [0x1E, 0x14, 0x1A, 0x08, 0x15, 0x17]);
}

#[test]
fn layer_shift_selects_function_layer_and_reverts() {
    // F12 sits at column 13, row 0; the layer-shift key at column 0, row 5.
    let with_fn = resolve(&[(0, 5), (13, 0)]);
    // On the Function layer the position resolves to VolumeUp, and the held
    // layer-shift key itself is emitted neither as a keycode nor as a
    // modifier bit.
    assert_eq!(with_fn.modifier, 0);
    assert_eq!(with_fn.keycodes, [0x80, 0, 0, 0, 0, 0]);

    // Layer-shift key released, the other key still held: Normal layer
    // again, F12.
    let without_fn = resolve(&[(13, 0)]);
    assert_eq!(without_fn.modifier, 0);
    assert_eq!(without_fn.keycodes, [0x45, 0, 0, 0, 0, 0]);
}

#[test]
fn modifiers_accumulate_in_the_modifier_byte() {
    // LeftShift (column 0, row 4) and A (column 1, row 3).
    let report = resolve(&[(0, 4), (1, 3)]);
    assert_eq!(report.modifier, 1 << 1);
    assert_eq!(report.keycodes, [0x04, 0, 0, 0, 0, 0]);

    // LeftCtrl (column 0, row 3) joins: both bits set.
    let report = resolve(&[(0, 4), (0, 3), (1, 3)]);
    assert_eq!(report.modifier, (1 << 1) | (1 << 0));
    assert_eq!(report.keycodes, [0x04, 0, 0, 0, 0, 0]);
}

#[test]
fn empty_positions_are_never_emitted() {
    // Column 6, row 0 holds no key on either layer.
    let report = resolve(&[(6, 0)]);
    assert_eq!(report.modifier, 0);
    assert_eq!(report.keycodes, [0, 0, 0, 0, 0, 0]);
}

#[test]
fn identical_frames_resolve_to_equal_reports() {
    let a = resolve(&[(1, 2), (0, 4)]);
    let b = resolve(&[(1, 2), (0, 4)]);
    assert!(a == b);
    let c = resolve(&[(1, 2)]);
    assert!(a != c);
}

#[test]
fn raw_input_layout_is_modifier_reserved_then_keycodes() {
    let report = KeyboardReport {
        modifier: 0x05,
        reserved: 0,
        leds: 0,
        keycodes: [1, 2, 3, 4, 5, 6],
    };
    assert_eq!(report.as_raw_input(), [0x05, 0x00, 1, 2, 3, 4, 5, 6]);
}

#[test]
fn transpose_swaps_rows_and_columns() {
    let normal = normal_layer_mapping();
    let transposed = transpose(normal);
    for row in 0..NUM_ROWS {
        for col in 0..NUM_COLS {
            assert!(transposed[col][row] == normal[row][col]);
        }
    }
}

#[test]
fn passthrough_mask_marks_exactly_the_modifier_positions() {
    let mask = build_passthrough_mask(&transposed_normal_layer_mapping());
    // The layer-shift key and the left modifiers on the bottom row.
    assert!(mask[0][5]); // Fn
    assert!(mask[1][5]); // LeftCtrl
    assert!(mask[2][5]); // LeftAlt
    assert!(mask[3][5]); // LeftCmd
    assert!(mask[0][3]); // LeftCtrl (home row)
    assert!(mask[0][4]); // LeftShift
    // Regular keys are debounced.
    assert!(!mask[1][1]); // Num1
    assert!(!mask[1][2]); // Q
    assert!(!mask[6][5]); // Space
}

#[test]
fn function_layer_rebinds_only_the_expected_positions() {
    let normal = normal_layer_mapping();
    let fn_layer = fn_layer_mapping();
    assert!(fn_layer[0][11] == KeyCode::VolumeMute);
    assert!(fn_layer[0][12] == KeyCode::VolumeDown);
    assert!(fn_layer[0][13] == KeyCode::VolumeUp);
    assert!(fn_layer[5][0] == KeyCode::Empty);
    // Everything else matches the Normal layer.
    for row in 0..NUM_ROWS {
        for col in 0..NUM_COLS {
            let rebound = (row == 0 && col >= 11) || (row == 5 && col == 0);
            if !rebound {
                assert!(fn_layer[row][col] == normal[row][col]);
            }
        }
    }
}

#[test]
fn boot_entry_key_is_position_zero_zero() {
    let scan = KeyScan { matrix: frame_with(&[(0, 0)]) };
    assert!(scan.boot_entry_pressed());
    let scan = KeyScan { matrix: frame_with(&[(1, 1)]) };
    assert!(!scan.boot_entry_pressed());
}

#[test]
fn full_pipeline_from_raw_frame_to_report() {
    // Raw frame through debouncer, layer resolution and wire form in one
    // go: Shift+A pressed on a fresh debouncer.
    let mask = build_passthrough_mask(&transposed_normal_layer_mapping());
    let mut debounce = key_ripper::debounce::Debounce::new(6, mask);

    let scan = KeyScan::scan(&frame_with(&[(0, 4), (1, 3)]), &mut debounce);
    let report = KeyboardReport::from(scan);
    assert_eq!(report.as_raw_input(), [0x02, 0x00, 0x04, 0, 0, 0, 0, 0]);

    // Released: the modifier drops instantly (passthrough) while A is
    // still held open by the debounce countdown.
    let scan = KeyScan::scan(&frame_with(&[]), &mut debounce);
    let report = KeyboardReport::from(scan);
    assert_eq!(report.as_raw_input(), [0x00, 0x00, 0x04, 0, 0, 0, 0, 0]);
}

#[test]
fn keycode_classification() {
    assert_eq!(KeyCode::LeftCtrl.modifier_bitmask(), Some(1 << 0));
    assert_eq!(KeyCode::LeftShift.modifier_bitmask(), Some(1 << 1));
    assert_eq!(KeyCode::LeftAlt.modifier_bitmask(), Some(1 << 2));
    assert_eq!(KeyCode::LeftCmd.modifier_bitmask(), Some(1 << 3));
    assert_eq!(KeyCode::RightCtrl.modifier_bitmask(), Some(1 << 4));
    assert_eq!(KeyCode::RightShift.modifier_bitmask(), Some(1 << 5));
    assert_eq!(KeyCode::RightAlt.modifier_bitmask(), Some(1 << 6));
    assert_eq!(KeyCode::RightCmd.modifier_bitmask(), Some(1 << 7));
    assert_eq!(KeyCode::Fn.modifier_bitmask(), None);
    assert_eq!(KeyCode::A.modifier_bitmask(), None);
    assert!(KeyCode::Fn.is_modifier());
    assert!(KeyCode::LeftShift.is_modifier());
    assert!(!KeyCode::A.is_modifier());
    assert_eq!(KeyCode::A.usage_id(), 0x04);
    assert_eq!(KeyCode::Empty.usage_id(), 0x00);
    assert_eq!(KeyCode::F12.usage_id(), 0x45);
}
