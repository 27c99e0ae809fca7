//! Behavioral tests of the debounce engine: eager press reporting, release
//! expiry timing, re-press coalescing, and passthrough exemption.

use key_ripper::debounce::Debounce;
use key_ripper::NUM_COLS;
use key_ripper::NUM_ROWS;

fn empty_frame() -> [[bool; NUM_ROWS]; NUM_COLS] {
    [[false; NUM_ROWS]; NUM_COLS]
}

fn frame_with(pressed: &[(usize, usize)]) -> [[bool; NUM_ROWS]; NUM_COLS] {
    let mut frame = empty_frame();
    for &(col, row) in pressed {
        frame[col][row] = true;
    }
    frame
}

fn no_mask() -> [[bool; NUM_ROWS]; NUM_COLS] {
    [[false; NUM_ROWS]; NUM_COLS]
}

#[test]
fn press_is_reported_on_first_scan() {
    let mut debounce = Debounce::new(6, no_mask());
    let out = debounce.report_and_tick(&frame_with(&[(2, 3)]));
    assert!(out[2][3]);
    assert!(!out[0][0]);
}

#[test]
fn held_key_reports_pressed_on_every_tick() {
    let mut debounce = Debounce::new(6, no_mask());
    let frame = frame_with(&[(2, 3)]);
    for _ in 0..20 {
        let out = debounce.report_and_tick(&frame);
        assert!(out[2][3]);
    }
}

#[test]
fn release_expires_after_expiration_ticks() {
    let expiration: u8 = 6;
    let mut debounce = Debounce::new(expiration, no_mask());
    let pressed = frame_with(&[(2, 3)]);
    let released = empty_frame();

    // Hold the key well past the expiration.
    for _ in 0..10 {
        let out = debounce.report_and_tick(&pressed);
        assert!(out[2][3]);
    }

    // After release the countdown keeps the key reported for
    // expiration - 1 further ticks; the expiration-th released scan reads
    // released.
    for tick in 1..=(expiration as usize - 1) {
        let out = debounce.report_and_tick(&released);
        assert!(out[2][3], "tick {tick} after release should still report pressed");
    }
    let out = debounce.report_and_tick(&released);
    assert!(!out[2][3]);

    // And it stays released.
    for _ in 0..5 {
        let out = debounce.report_and_tick(&released);
        assert!(!out[2][3]);
    }
}

#[test]
fn repress_within_expiration_is_one_continuous_press() {
    let expiration: u8 = 6;
    let mut debounce = Debounce::new(expiration, no_mask());
    let pressed = frame_with(&[(2, 3)]);
    let released = empty_frame();

    let out = debounce.report_and_tick(&pressed);
    assert!(out[2][3]);

    // Five released ticks: fewer than the expiration.
    for _ in 0..(expiration as usize - 1) {
        let out = debounce.report_and_tick(&released);
        assert!(out[2][3], "no released output may appear between press and re-press");
    }

    // Re-press: still one continuous press.
    let out = debounce.report_and_tick(&pressed);
    assert!(out[2][3]);
}

#[test]
fn passthrough_cell_tracks_raw_input_exactly() {
    let mut mask = no_mask();
    mask[0][5] = true;
    // A large expiration must make no difference for a masked cell.
    let mut debounce = Debounce::new(200, mask);

    let pressed = frame_with(&[(0, 5)]);
    let released = empty_frame();

    for _ in 0..3 {
        let out = debounce.report_and_tick(&pressed);
        assert!(out[0][5]);
        let out = debounce.report_and_tick(&released);
        assert!(!out[0][5], "a masked cell must release with zero latency");
    }
}

#[test]
fn released_key_never_underflows() {
    let mut debounce = Debounce::new(6, no_mask());
    let released = empty_frame();
    // Ticking a never-pressed matrix saturates at zero instead of wrapping.
    for _ in 0..300 {
        let out = debounce.report_and_tick(&released);
        assert!(!out[2][3]);
    }
}

#[test]
fn zero_expiration_still_reports_presses_eagerly() {
    // Even with a zero expiration a pressed scan reads as pressed — the
    // countdown only governs how long the release is delayed, which here
    // is not at all.
    let mut debounce = Debounce::new(0, no_mask());
    let out = debounce.report_and_tick(&frame_with(&[(1, 1)]));
    assert!(out[1][1]);
    let out = debounce.report_and_tick(&empty_frame());
    assert!(!out[1][1]);
}
