//! The handshake between the periodic scan loop (producer) and the USB
//! interrupt handler (consumer).
//!
//! The producer resolves each scan into a report and hands it in with
//! [`Coordinator::on_scan`]; a report is transmitted only when it differs
//! from the last successfully sent one, and a change also requests a remote
//! wakeup in case the bus is suspended. The consumer services the bus and
//! asks [`Coordinator::on_usb_poll`] whether a wakeup is due; pending
//! requests follow a last-write-wins discipline, so a report superseded
//! before it was serviced is simply dropped. The caller is responsible for
//! the mutual exclusion between the two contexts (a critical section around
//! every call); this type holds the shared state and the decisions alone.

use vstd::prelude::*;

use crate::key_scan::KeyboardReport;
use crate::key_scan::spec_raw_input;

verus! {

/// Whether a freshly resolved report must be transmitted, given the last
/// successfully transmitted one: only on change.
pub open spec fn spec_should_send(last: KeyboardReport, report: KeyboardReport) -> bool {
    report != last
}

/// The shared state between the scan loop and the interrupt handler: the
/// last successfully transmitted report and the pending remote-wakeup
/// request.
pub struct Coordinator {
    /// The report most recently handed to the transport successfully; the
    /// baseline for change detection.
    last_report: KeyboardReport,
    /// Set by the producer whenever the report changes; cleared by the
    /// consumer once it has serviced the bus.
    attempt_remote_wakeup: bool,
}

impl Coordinator {
    /// The last successfully transmitted report.
    pub closed spec fn last_report(self) -> KeyboardReport {
        self.last_report
    }

    /// Whether a remote wakeup is pending.
    pub closed spec fn wakeup_requested(self) -> bool {
        self.attempt_remote_wakeup
    }

    /// Start from the report of the power-on scan, with no wakeup pending.
    /// Seeding with a real scan's report keeps a key held during power-on
    /// from being reported as a change later.
    pub fn new(initial_report: KeyboardReport) -> (c: Coordinator)
        ensures
            c.last_report() == initial_report,
            !c.wakeup_requested(),
    {
        Coordinator { last_report: initial_report, attempt_remote_wakeup: false }
    }

    /// Hand in the report of one scan cycle. Returns the 8-byte wire form
    /// to transmit where the report differs from the last transmitted one,
    /// and `None` where it does not (no retransmission of identical
    /// state). A change also requests a remote wakeup; the baseline is not
    /// advanced until the transport accepts the bytes
    /// ([`Self::on_send_outcome`]).
    pub fn on_scan(&mut self, report: &KeyboardReport) -> (send: Option<[u8; 8]>)
        ensures
            send is Some == spec_should_send(old(self).last_report(), *report),
            send matches Some(bytes) ==> bytes@ == spec_raw_input(*report),
            final(self).last_report() == old(self).last_report(),
            final(self).wakeup_requested() == (old(self).wakeup_requested() || spec_should_send(
                old(self).last_report(),
                *report,
            )),
    {
        if !(*report == self.last_report) {
            self.attempt_remote_wakeup = true;
            Some(report.as_raw_input())
        } else {
            None
        }
    }

    /// Record the transport's verdict on a transmission attempt: on
    /// success the report becomes the new baseline, on a transient failure
    /// the baseline stays, so the next differing scan (including a retry
    /// of this very state) is transmitted again.
    pub fn on_send_outcome(&mut self, report: &KeyboardReport, sent: bool)
        ensures
            final(self).last_report() == (
            if sent {
                *report
            } else {
                old(self).last_report()
            }),
            final(self).wakeup_requested() == old(self).wakeup_requested(),
    {
        if sent {
            self.last_report = *report;
        }
    }

    /// Consumer side, run on every bus interrupt after servicing the
    /// device: report whether a remote wakeup should be signalled (one was
    /// requested while the bus is suspended and the host enabled remote
    /// wakeup), and clear the pending request either way — a spurious
    /// extra request is harmless and a stale one is worthless.
    pub fn on_usb_poll(&mut self, suspended: bool, remote_wakeup_enabled: bool) -> (do_wakeup:
        bool)
        ensures
            do_wakeup == (old(self).wakeup_requested() && suspended && remote_wakeup_enabled),
            !final(self).wakeup_requested(),
            final(self).last_report() == old(self).last_report(),
    {
        let do_wakeup = self.attempt_remote_wakeup && suspended && remote_wakeup_enabled;
        self.attempt_remote_wakeup = false;
        do_wakeup
    }
}

/// Report diffing: resolution is a function of the frame, so two identical
/// consecutive scans yield equal reports, and a report equal to the last
/// transmitted one is never transmitted again.
pub proof fn lemma_report_diffing(last: KeyboardReport, report: KeyboardReport)
    requires
        report == last,
    ensures
        !spec_should_send(last, report),
{
}

} // verus!
