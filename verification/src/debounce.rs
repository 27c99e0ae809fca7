//! Tick-based, allocation-free "eager" key debouncer.
//!
//! A press is reported on the very first scan that sees it; only the release
//! is delayed. Each non-passthrough cell keeps a countdown: a pressed scan
//! reloads it to `expiration_ticks`, a released scan decrements it towards
//! zero, and the cell reads as pressed while the countdown is nonzero. A key
//! released and re-pressed within fewer than `expiration_ticks` ticks is
//! therefore reported as one continuous press. Cells in the passthrough mask
//! (modifiers and the layer-shift key) bypass the filter entirely, so key
//! chords keep their exact timing.

use vstd::prelude::*;

use crate::NUM_COLS;
use crate::NUM_ROWS;

verus! {

/// One debounce tick of a single cell's countdown: a pressed scan reloads it
/// to `expiration`, a released scan decrements it, saturating at zero.
pub open spec fn debounce_step(counter: u8, pressed: bool, expiration: u8) -> u8 {
    if pressed {
        expiration
    } else if counter > 0 {
        (counter - 1) as u8
    } else {
        0
    }
}

/// What a cell reports on one tick: its raw input verbatim if the cell is in
/// the passthrough mask; otherwise pressed immediately on a pressed scan,
/// whatever the countdown holds, and on a released scan whether the
/// countdown is still running after this tick's update.
pub open spec fn spec_cell_output(mask: bool, counter: u8, pressed: bool, expiration: u8) -> bool {
    if mask {
        pressed
    } else if pressed {
        true
    } else {
        debounce_step(counter, pressed, expiration) != 0
    }
}

/// A cell's countdown after consuming a sequence of raw inputs, one tick
/// each, starting from `counter`.
pub open spec fn cell_state(counter: u8, expiration: u8, inputs: Seq<bool>) -> u8
    decreases inputs.len(),
{
    if inputs.len() == 0 {
        counter
    } else {
        cell_state(debounce_step(counter, inputs[0], expiration), expiration, inputs.drop_first())
    }
}

/// What a non-passthrough cell reports on tick `i` (0-based) of the raw
/// input sequence `inputs`, starting from `counter`: pressed immediately on
/// a pressed scan, otherwise whether the countdown survived tick `i`.
pub open spec fn cell_output(counter: u8, expiration: u8, inputs: Seq<bool>, i: int) -> bool {
    if inputs[i] {
        true
    } else {
        cell_state(counter, expiration, inputs.take(i + 1)) != 0
    }
}

/// The per-cell countdown filter. Owns one countdown per key position; the
/// passthrough mask and the expiration are fixed at construction.
pub struct Debounce {
    /// The state matrix of debounce countdowns per key, column-major.
    countdown_matrix: [[u8; NUM_ROWS]; NUM_COLS],
    /// The cells that are not debounced: the modifier and layer-shift
    /// positions.
    passthrough_mask: [[bool; NUM_ROWS]; NUM_COLS],
    /// The countdown start value loaded on every pressed scan.
    expiration_ticks: u8,
}

impl Debounce {
    /// The current countdown of every cell.
    pub closed spec fn counters(self) -> [[u8; NUM_ROWS]; NUM_COLS] {
        self.countdown_matrix
    }

    /// The passthrough mask this filter was built with.
    pub closed spec fn mask(self) -> [[bool; NUM_ROWS]; NUM_COLS] {
        self.passthrough_mask
    }

    /// The expiration this filter was built with.
    pub closed spec fn expiration(self) -> u8 {
        self.expiration_ticks
    }

    /// Every countdown lies in `[0, expiration_ticks]`.
    pub open spec fn wf(self) -> bool {
        forall|c: int, r: int|
            0 <= c < NUM_COLS && 0 <= r < NUM_ROWS ==> self.counters()[c][r] <= self.expiration()
    }

    /// Create a filter with all countdowns expired: until the first pressed
    /// scan, every non-passthrough cell reads as released.
    pub fn new(expiration_ticks: u8, passthrough_mask: [[bool; NUM_ROWS]; NUM_COLS]) -> (d:
        Debounce)
        ensures
            d.expiration() == expiration_ticks,
            d.mask() == passthrough_mask,
            forall|c: int, r: int|
                0 <= c < NUM_COLS && 0 <= r < NUM_ROWS ==> d.counters()[c][r] == 0,
            d.wf(),
    {
        Debounce {
            countdown_matrix: [[0u8; NUM_ROWS]; NUM_COLS],
            passthrough_mask,
            expiration_ticks,
        }
    }

    /// Consume one raw scan and report the debounced frame for this tick.
    ///
    /// Must be called once per tick at the agreed cadence. Passthrough cells
    /// report their raw input verbatim and keep their countdown untouched;
    /// every other cell's countdown takes one `debounce_step`, and the cell
    /// reports pressed on a pressed scan and otherwise whether the countdown
    /// is still running.
    pub fn report_and_tick(&mut self, report_matrix: &[[bool; NUM_ROWS]; NUM_COLS]) -> (out: [[
        bool; NUM_ROWS]; NUM_COLS])
        requires
            old(self).wf(),
        ensures
            final(self).mask() == old(self).mask(),
            final(self).expiration() == old(self).expiration(),
            final(self).wf(),
            forall|c: int, r: int|
                0 <= c < NUM_COLS && 0 <= r < NUM_ROWS ==> final(self).counters()[c][r] == (
                if old(self).mask()[c][r] {
                    old(self).counters()[c][r]
                } else {
                    debounce_step(old(self).counters()[c][r], report_matrix[c][r], old(self).expiration())
                }),
            forall|c: int, r: int|
                0 <= c < NUM_COLS && 0 <= r < NUM_ROWS ==> out[c][r] == spec_cell_output(
                    old(self).mask()[c][r],
                    old(self).counters()[c][r],
                    report_matrix[c][r],
                    old(self).expiration(),
                ),
    {
        let mut debounced_matrix: [[bool; NUM_ROWS]; NUM_COLS] = [[false; NUM_ROWS]; NUM_COLS];

        let mut col: usize = 0;
        while col < NUM_COLS
            invariant
                col <= NUM_COLS,
                old(self).wf(),
                self.passthrough_mask == old(self).mask(),
                self.expiration_ticks == old(self).expiration(),
                forall|c: int, r: int|
                    col <= c < NUM_COLS && 0 <= r < NUM_ROWS ==> self.countdown_matrix[c][r]
                        == old(self).counters()[c][r],
                forall|c: int, r: int|
                    0 <= c < col && 0 <= r < NUM_ROWS ==> self.countdown_matrix[c][r] == (
                    if old(self).mask()[c][r] {
                        old(self).counters()[c][r]
                    } else {
                        debounce_step(old(self).counters()[c][r], report_matrix[c][r], old(self).expiration())
                    }),
                forall|c: int, r: int|
                    0 <= c < col && 0 <= r < NUM_ROWS ==> debounced_matrix[c][r]
                        == spec_cell_output(
                        old(self).mask()[c][r],
                        old(self).counters()[c][r],
                        report_matrix[c][r],
                        old(self).expiration(),
                    ),
            decreases NUM_COLS - col,
        {
            let mut out_entries: [bool; NUM_ROWS] = [false; NUM_ROWS];
            let mut cnt_entries: [u8; NUM_ROWS] = self.countdown_matrix[col];

            let mut row: usize = 0;
            while row < NUM_ROWS
                invariant
                    row <= NUM_ROWS,
                    col < NUM_COLS,
                    old(self).wf(),
                    self.passthrough_mask == old(self).mask(),
                    self.expiration_ticks == old(self).expiration(),
                    forall|r: int|
                        row <= r < NUM_ROWS ==> cnt_entries[r] == old(self).counters()[col as int][r],
                    forall|r: int|
                        0 <= r < row ==> cnt_entries[r] == (
                        if old(self).mask()[col as int][r] {
                            old(self).counters()[col as int][r]
                        } else {
                            debounce_step(
                                old(self).counters()[col as int][r],
                                report_matrix[col as int][r],
                                old(self).expiration(),
                            )
                        }),
                    forall|r: int|
                        0 <= r < row ==> out_entries[r] == spec_cell_output(
                            old(self).mask()[col as int][r],
                            old(self).counters()[col as int][r],
                            report_matrix[col as int][r],
                            old(self).expiration(),
                        ),
                decreases NUM_ROWS - row,
            {
                if self.passthrough_mask[col][row] {
                    out_entries[row] = report_matrix[col][row];
                } else if report_matrix[col][row] {
                    cnt_entries[row] = self.expiration_ticks;
                    out_entries[row] = true;
                } else {
                    let updated: u8 = if cnt_entries[row] > 0 {
                        cnt_entries[row] - 1
                    } else {
                        0
                    };
                    cnt_entries[row] = updated;
                    out_entries[row] = updated != 0;
                }
                row = row + 1;
            }

            self.countdown_matrix[col] = cnt_entries;
            debounced_matrix[col] = out_entries;
            col = col + 1;
        }

        debounced_matrix
    }
}

/// A sequence-extension step: consuming one more input takes one
/// `debounce_step` from the state reached on the inputs before it.
proof fn lemma_cell_state_push(counter: u8, expiration: u8, inputs: Seq<bool>, b: bool)
    ensures
        cell_state(counter, expiration, inputs.push(b)) == debounce_step(
            cell_state(counter, expiration, inputs),
            b,
            expiration,
        ),
    decreases inputs.len(),
{
    reveal_with_fuel(cell_state, 2);
    assert(inputs.push(b)[0] == if inputs.len() == 0 { b } else { inputs[0] });
    if inputs.len() == 0 {
        assert(inputs.push(b).drop_first() =~= inputs);
        assert(cell_state(counter, expiration, inputs.push(b)) == cell_state(
            debounce_step(counter, b, expiration),
            expiration,
            inputs,
        ));
    } else {
        assert(inputs.push(b).drop_first() =~= inputs.drop_first().push(b));
        lemma_cell_state_push(
            debounce_step(counter, inputs[0], expiration),
            expiration,
            inputs.drop_first(),
            b,
        );
        assert(cell_state(counter, expiration, inputs.push(b)) == cell_state(
            debounce_step(counter, inputs[0], expiration),
            expiration,
            inputs.drop_first().push(b),
        ));
    }
}

/// Eager reporting: on any tick whose raw input is pressed, the debounced
/// output is pressed, whatever came before and whatever the expiration.
pub proof fn lemma_debounce_eager_press(counter: u8, expiration: u8, inputs: Seq<bool>, t: int)
    requires
        0 <= t < inputs.len(),
        inputs[t],
    ensures
        cell_output(counter, expiration, inputs, t),
{
}

/// After a pressed tick at `t` followed by `k` released ticks, the countdown
/// has fallen from `expiration` to `expiration - k` (saturating at zero).
proof fn lemma_release_countdown(counter: u8, expiration: u8, inputs: Seq<bool>, t: int, k: int)
    requires
        0 <= t,
        t + k < inputs.len(),
        0 <= k,
        inputs[t],
        forall|j: int| t < j <= t + k ==> !inputs[j],
    ensures
        cell_state(counter, expiration, inputs.take(t + k + 1)) == (
        if k <= expiration {
            expiration - k
        } else {
            0
        }),
    decreases k,
{
    if k == 0 {
        assert(inputs.take(t + 1) =~= inputs.take(t).push(inputs[t]));
        lemma_cell_state_push(counter, expiration, inputs.take(t), inputs[t]);
    } else {
        lemma_release_countdown(counter, expiration, inputs, t, k - 1);
        assert(inputs.take(t + k + 1) =~= inputs.take(t + k).push(inputs[t + k]));
        lemma_cell_state_push(counter, expiration, inputs.take(t + k), inputs[t + k]);
    }
}

/// Debounce idempotence, release half: after a pressed tick, a run of
/// released ticks still reads as pressed for exactly `expiration - 1`
/// further ticks; from the `expiration`-th released tick on it reads as
/// released. (Together with `lemma_debounce_eager_press`, which gives the
/// pressed half: a continuously pressed cell reads as pressed on every
/// tick.)
pub proof fn lemma_debounce_release_timing(
    counter: u8,
    expiration: u8,
    inputs: Seq<bool>,
    t: int,
    k: int,
)
    requires
        0 <= t,
        t + k < inputs.len(),
        1 <= k,
        inputs[t],
        forall|j: int| t < j <= t + k ==> !inputs[j],
    ensures
        cell_output(counter, expiration, inputs, t + k) == (k < expiration),
{
    lemma_release_countdown(counter, expiration, inputs, t, k);
}

/// Re-press coalescing: a release followed by a re-press within fewer than
/// `expiration` ticks never produces a released output in between — the two
/// presses read as one continuous press.
pub proof fn lemma_debounce_repress_coalescing(
    counter: u8,
    expiration: u8,
    inputs: Seq<bool>,
    t1: int,
    t2: int,
)
    requires
        0 <= t1 < t2 < inputs.len(),
        t2 - t1 <= expiration,
        inputs[t1],
        inputs[t2],
        forall|j: int| t1 < j < t2 ==> !inputs[j],
    ensures
        forall|i: int| t1 <= i <= t2 ==> cell_output(counter, expiration, inputs, i),
{
    lemma_debounce_eager_press(counter, expiration, inputs, t1);
    lemma_debounce_eager_press(counter, expiration, inputs, t2);
    assert forall|i: int| t1 < i < t2 implies cell_output(counter, expiration, inputs, i) by {
        lemma_debounce_release_timing(counter, expiration, inputs, t1, i - t1);
    }
}

/// Passthrough exemption: a masked cell's output equals its raw input on
/// every tick, with zero latency, regardless of the countdown state or the
/// expiration.
pub proof fn lemma_passthrough_exemption(counter: u8, expiration: u8, pressed: bool)
    ensures
        spec_cell_output(true, counter, pressed, expiration) == pressed,
{
}

} // verus!
