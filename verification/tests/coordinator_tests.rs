//! Tests of the producer/consumer handshake: report diffing, the
//! send-on-change discipline, retry after a transient failure, and the
//! remote-wakeup request flag.

use key_ripper::coordinator::Coordinator;
use key_ripper::key_scan::KeyboardReport;
use key_ripper::key_scan::KeyScan;
use key_ripper::NUM_COLS;
use key_ripper::NUM_ROWS;

fn report_for(pressed: &[(usize, usize)]) -> KeyboardReport {
    let mut matrix = [[false; NUM_ROWS]; NUM_COLS];
    for &(col, row) in pressed {
        matrix[col][row] = true;
    }
    KeyboardReport::from(KeyScan { matrix })
}

#[test]
fn identical_scans_are_not_retransmitted() {
    let idle = report_for(&[]);
    let mut coordinator = Coordinator::new(idle);
    // The same resolved state again: nothing to send.
    assert!(coordinator.on_scan(&report_for(&[])).is_none());
    assert!(coordinator.on_scan(&report_for(&[])).is_none());
}

#[test]
fn a_change_is_sent_once_and_only_resent_on_failure() {
    let idle = report_for(&[]);
    let pressed = report_for(&[(1, 2)]);
    let mut coordinator = Coordinator::new(idle);

    // The change is offered for transmission, as the report's wire form.
    let bytes = coordinator.on_scan(&pressed).expect("a changed report must be sent");
    assert_eq!(bytes, pressed.as_raw_input());

    // Transport accepted: the report is the new baseline and an identical
    // scan sends nothing.
    coordinator.on_send_outcome(&pressed, true);
    assert!(coordinator.on_scan(&pressed).is_none());

    // Back to idle, but the endpoint is busy: the baseline stays, so the
    // next cycle retries the same intended state.
    let sent = coordinator.on_scan(&idle).expect("a changed report must be sent");
    assert_eq!(sent, idle.as_raw_input());
    coordinator.on_send_outcome(&idle, false);
    let retried = coordinator.on_scan(&idle).expect("an unsent change must be retried");
    assert_eq!(retried, idle.as_raw_input());
}

#[test]
fn wakeup_is_requested_on_change_and_cleared_by_the_consumer() {
    let idle = report_for(&[]);
    let pressed = report_for(&[(1, 2)]);
    let mut coordinator = Coordinator::new(idle);

    // No change yet: a poll on a suspended bus asks for no wakeup.
    assert!(!coordinator.on_usb_poll(true, true));

    // A change requests a wakeup, whatever became of the transmission.
    let _ = coordinator.on_scan(&pressed);
    coordinator.on_send_outcome(&pressed, false);

    // The wakeup fires only while suspended with remote wakeup enabled,
    // and servicing clears the request.
    assert!(coordinator.on_usb_poll(true, true));
    assert!(!coordinator.on_usb_poll(true, true));

    // A request on an awake bus is consumed without firing.
    let _ = coordinator.on_scan(&pressed);
    assert!(!coordinator.on_usb_poll(false, true));
    assert!(!coordinator.on_usb_poll(true, true));

    // Remote wakeup disabled by the host: never fires.
    let _ = coordinator.on_scan(&pressed);
    assert!(!coordinator.on_usb_poll(true, false));
}
