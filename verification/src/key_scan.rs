//! Debounced scan frames and their resolution into USB HID keyboard
//! reports.
//!
//! The caller performs the electrical scan pass (drive a column, settle,
//! sample the rows) and hands the raw boolean matrix to [`KeyScan::scan`],
//! which runs it through the debouncer. A frame is resolved into a
//! [`KeyboardReport`] in two passes over a fixed column-major scan order:
//! first layer detection (is the layer-shift key pressed on the Normal
//! layer?), then keycode resolution against the selected layer's table.

use vstd::prelude::*;

use crate::debounce::Debounce;
use crate::debounce::spec_cell_output;
use crate::debounce::debounce_step;
use crate::key_codes::KeyCode;
use crate::key_codes::spec_is_modifier;
use crate::key_codes::spec_modifier_bitmask;
use crate::key_codes::spec_usage_id;
use crate::key_mapping::spec_mapping_at;
use crate::key_mapping::transposed_fn_layer_mapping;
use crate::key_mapping::transposed_normal_layer_mapping;
use crate::NUM_COLS;
use crate::NUM_ROWS;

verus! {

/// One debounced scan frame, column-major: `matrix[column][row]` is true
/// where the key at that position currently reads as pressed.
#[derive(Clone, Copy)]
pub struct KeyScan {
    pub matrix: [[bool; NUM_ROWS]; NUM_COLS],
}

impl KeyScan {
    /// Run one raw scan frame through the debouncer and package the
    /// debounced frame. Called once per tick; this is the composition point
    /// between the matrix scanner and the debounce engine.
    pub fn scan(raw_matrix: &[[bool; NUM_ROWS]; NUM_COLS], debounce: &mut Debounce) -> (s: KeyScan)
        requires
            old(debounce).wf(),
        ensures
            final(debounce).wf(),
            final(debounce).mask() == old(debounce).mask(),
            final(debounce).expiration() == old(debounce).expiration(),
            forall|c: int, r: int|
                0 <= c < NUM_COLS && 0 <= r < NUM_ROWS ==> final(debounce).counters()[c][r] == (
                if old(debounce).mask()[c][r] {
                    old(debounce).counters()[c][r]
                } else {
                    debounce_step(
                        old(debounce).counters()[c][r],
                        raw_matrix[c][r],
                        old(debounce).expiration(),
                    )
                }),
            forall|c: int, r: int|
                0 <= c < NUM_COLS && 0 <= r < NUM_ROWS ==> s.matrix[c][r] == spec_cell_output(
                    old(debounce).mask()[c][r],
                    old(debounce).counters()[c][r],
                    raw_matrix[c][r],
                    old(debounce).expiration(),
                ),
    {
        let matrix = debounce.report_and_tick(raw_matrix);
        KeyScan { matrix }
    }

    /// Whether the designated boot-entry key is pressed in this frame: the
    /// key at matrix position (0, 0), Escape on the Normal layer. The very
    /// first frame after power-on is probed with this, so that holding the
    /// key during boot can divert into the bootloader.
    pub fn boot_entry_pressed(&self) -> (r: bool)
        ensures
            r == self.matrix[0][0],
    {
        self.matrix[0][0]
    }
}

/// Build the debouncer's passthrough mask from a layer table in scan
/// orientation: exactly the modifier and layer-shift positions are exempt
/// from debouncing.
pub fn build_passthrough_mask(mapping: &[[KeyCode; NUM_ROWS]; NUM_COLS]) -> (mask: [[bool;
    NUM_ROWS]; NUM_COLS])
    ensures
        forall|c: int, r: int|
            0 <= c < NUM_COLS && 0 <= r < NUM_ROWS ==> mask[c][r] == spec_is_modifier(
                mapping[c][r],
            ),
{
    let mut mask: [[bool; NUM_ROWS]; NUM_COLS] = [[false; NUM_ROWS]; NUM_COLS];
    let mut col: usize = 0;
    while col < NUM_COLS
        invariant
            col <= NUM_COLS,
            forall|c: int, r: int|
                0 <= c < col && 0 <= r < NUM_ROWS ==> mask[c][r] == spec_is_modifier(
                    mapping[c][r],
                ),
        decreases NUM_COLS - col,
    {
        let mut entries: [bool; NUM_ROWS] = [false; NUM_ROWS];
        let mut row: usize = 0;
        while row < NUM_ROWS
            invariant
                row <= NUM_ROWS,
                col < NUM_COLS,
                forall|r: int|
                    0 <= r < row ==> entries[r] == spec_is_modifier(mapping[col as int][r]),
            decreases NUM_ROWS - row,
        {
            entries[row] = mapping[col][row].is_modifier();
            row = row + 1;
        }
        mask[col] = entries;
        col = col + 1;
    }
    mask
}

/// Whether the Function layer is selected for a frame: some pressed cell
/// maps to the layer-shift key on the Normal layer. Detection always reads
/// the Normal-layer table, whatever layer ends up selected.
pub open spec fn spec_fn_layer_active(m: [[bool; NUM_ROWS]; NUM_COLS]) -> bool {
    exists|c: int, r: int|
        0 <= c < NUM_COLS && 0 <= r < NUM_ROWS && m[c][r] && spec_mapping_at(false, r, c)
            == KeyCode::Fn
}

/// The modifier byte accumulated over the cells that precede position
/// (`col`, `row`) in column-major scan order: each pressed cell whose
/// selected-layer keycode is a modifier contributes its bit.
pub open spec fn spec_modifier_byte_upto(
    m: [[bool; NUM_ROWS]; NUM_COLS],
    fn_layer: bool,
    col: int,
    row: int,
) -> u8
    decreases col, row,
{
    if col <= 0 && row <= 0 {
        0
    } else if row <= 0 {
        spec_modifier_byte_upto(m, fn_layer, col - 1, NUM_ROWS as int)
    } else {
        let prev = spec_modifier_byte_upto(m, fn_layer, col, row - 1);
        let k = spec_mapping_at(fn_layer, row - 1, col);
        if m[col][row - 1] && spec_modifier_bitmask(k) is Some {
            prev | spec_modifier_bitmask(k)->Some_0
        } else {
            prev
        }
    }
}

/// The modifier byte of a whole frame under the selected layer.
pub open spec fn spec_modifier_byte(m: [[bool; NUM_ROWS]; NUM_COLS], fn_layer: bool) -> u8 {
    spec_modifier_byte_upto(m, fn_layer, NUM_COLS as int, 0)
}

/// The usage IDs of the pressed regular keys among the cells that precede
/// position (`col`, `row`) in column-major scan order: pressed cells whose
/// selected-layer keycode is neither a modifier nor `Empty`, in scan order,
/// without any cap.
pub open spec fn spec_keycode_seq_upto(
    m: [[bool; NUM_ROWS]; NUM_COLS],
    fn_layer: bool,
    col: int,
    row: int,
) -> Seq<u8>
    decreases col, row,
{
    if col <= 0 && row <= 0 {
        Seq::empty()
    } else if row <= 0 {
        spec_keycode_seq_upto(m, fn_layer, col - 1, NUM_ROWS as int)
    } else {
        let prev = spec_keycode_seq_upto(m, fn_layer, col, row - 1);
        let k = spec_mapping_at(fn_layer, row - 1, col);
        if m[col][row - 1] && spec_modifier_bitmask(k) is None && k != KeyCode::Empty {
            prev.push(spec_usage_id(k))
        } else {
            prev
        }
    }
}

/// The usage IDs of all pressed regular keys of a frame, in scan order.
pub open spec fn spec_keycode_seq(m: [[bool; NUM_ROWS]; NUM_COLS], fn_layer: bool) -> Seq<u8> {
    spec_keycode_seq_upto(m, fn_layer, NUM_COLS as int, 0)
}

/// The byte in keycode slot `i` of the report: the `i`-th pressed regular
/// key in scan order, or zero padding. Keys past the sixth are dropped.
pub open spec fn spec_keycode_slot(codes: Seq<u8>, i: int) -> u8 {
    if 0 <= i < codes.len() {
        codes[i]
    } else {
        0
    }
}

/// The report a frame resolves to: layer detection over the Normal table,
/// then modifier accumulation and the first six regular keycodes in scan
/// order from the selected table.
pub open spec fn spec_resolve(m: [[bool; NUM_ROWS]; NUM_COLS]) -> KeyboardReport {
    let fn_layer = spec_fn_layer_active(m);
    let codes = spec_keycode_seq(m, fn_layer);
    KeyboardReport {
        modifier: spec_modifier_byte(m, fn_layer),
        reserved: 0,
        leds: 0,
        keycodes: [
            spec_keycode_slot(codes, 0),
            spec_keycode_slot(codes, 1),
            spec_keycode_slot(codes, 2),
            spec_keycode_slot(codes, 3),
            spec_keycode_slot(codes, 4),
            spec_keycode_slot(codes, 5),
        ],
    }
}

/// A USB boot-keyboard input report: one modifier bitmask byte, one
/// reserved byte, and up to six regular keycodes, zero-padded,
/// first-detected-first-filled. `leds` echoes the host's LED output state
/// when the report is embedded in the wider protocol context; it is not
/// part of the 8-byte wire form.
#[derive(Clone, Copy, Debug)]
pub struct KeyboardReport {
    pub modifier: u8,
    pub reserved: u8,
    pub leds: u8,
    pub keycodes: [u8; 6],
}

impl PartialEq for KeyboardReport {
    fn eq(&self, other: &KeyboardReport) -> (r: bool) {
        self.modifier == other.modifier && self.reserved == other.reserved && self.leds
            == other.leds && {
            let mut i: usize = 0;
            let mut same = true;
            while i < 6
                invariant
                    i <= 6,
                    same == (forall|j: int| 0 <= j < i ==> self.keycodes[j] == other.keycodes[j]),
                decreases 6 - i,
            {
                same = same && self.keycodes[i] == other.keycodes[i];
                i = i + 1;
            }
            same
        }
    }
}

impl vstd::std_specs::cmp::PartialEqSpecImpl for KeyboardReport {
    open spec fn obeys_eq_spec() -> bool {
        true
    }

    open spec fn eq_spec(&self, other: &KeyboardReport) -> bool {
        self.modifier == other.modifier && self.reserved == other.reserved && self.leds
            == other.leds && self.keycodes =~= other.keycodes
    }
}

/// The 8-byte wire form of a report: modifier byte, reserved zero byte, six
/// keycode bytes. The LED echo field is not part of the wire form.
pub open spec fn spec_raw_input(r: KeyboardReport) -> Seq<u8> {
    seq![
        r.modifier,
        0u8,
        r.keycodes[0],
        r.keycodes[1],
        r.keycodes[2],
        r.keycodes[3],
        r.keycodes[4],
        r.keycodes[5],
    ]
}

impl KeyboardReport {
    /// The 8-byte wire form of this report: modifier byte, reserved zero
    /// byte, six keycode bytes.
    pub fn as_raw_input(&self) -> (raw: [u8; 8])
        ensures
            raw@ == spec_raw_input(*self),
    {
        let raw: [u8; 8] = [
            self.modifier,
            0x0,  // Reserved byte
            self.keycodes[0],
            self.keycodes[1],
            self.keycodes[2],
            self.keycodes[3],
            self.keycodes[4],
            self.keycodes[5],
        ];
        assert(raw@ =~= seq![
            self.modifier,
            0u8,
            self.keycodes@[0],
            self.keycodes@[1],
            self.keycodes@[2],
            self.keycodes@[3],
            self.keycodes@[4],
            self.keycodes@[5],
        ]);
        raw
    }
}

impl From<KeyScan> for KeyboardReport {
    /// Resolve a debounced frame into a report: detect the layer against
    /// the Normal table, then collect modifier bits and the first six
    /// regular keycodes in scan order from the selected table.
    fn from(scan: KeyScan) -> (report: KeyboardReport) {

        // Layer-detection pass: the Normal-layer table decides whether the
        // layer-shift key is among the pressed cells.
        let normal = transposed_normal_layer_mapping();
        let mut fn_layer = false;
        let mut col: usize = 0;
        while col < NUM_COLS
            invariant
                col <= NUM_COLS,
                forall|c: int, r: int|
                    0 <= c < NUM_COLS && 0 <= r < NUM_ROWS ==> normal[c][r] == spec_mapping_at(
                        false,
                        r,
                        c,
                    ),
                fn_layer == exists|c: int, r: int|
                    0 <= c < col && 0 <= r < NUM_ROWS && scan.matrix[c][r] && spec_mapping_at(false, r, c)
                        == KeyCode::Fn,
            decreases NUM_COLS - col,
        {
            let mut row: usize = 0;
            while row < NUM_ROWS
                invariant
                    row <= NUM_ROWS,
                    col < NUM_COLS,
                    forall|c: int, r: int|
                        0 <= c < NUM_COLS && 0 <= r < NUM_ROWS ==> normal[c][r] == spec_mapping_at(
                            false,
                            r,
                            c,
                        ),
                    fn_layer == exists|c: int, r: int|
                        0 <= c < NUM_COLS && 0 <= r < NUM_ROWS && (c < col || (c == col && r
                            < row)) && scan.matrix[c][r] && spec_mapping_at(false, r, c) == KeyCode::Fn,
                decreases NUM_ROWS - row,
            {
                if scan.matrix[col][row] && normal[col][row] == KeyCode::Fn {
                    fn_layer = true;
                }
                proof {
                    let ci = col as int;
                    let ri = row as int;
                    if scan.matrix[ci][ri] && spec_mapping_at(false, ri, ci) == KeyCode::Fn {
                        // This cell witnesses the invariant's existential.
                        assert(fn_layer);
                        assert(scan.matrix[ci][ri] && spec_mapping_at(false, ri, ci)
                            == KeyCode::Fn);
                    }
                }
                row = row + 1;
            }
            col = col + 1;
        }
        assert(fn_layer == spec_fn_layer_active(scan.matrix));

        // Resolution pass against the selected layer's table.
        let mapping = if fn_layer {
            transposed_fn_layer_mapping()
        } else {
            transposed_normal_layer_mapping()
        };
        let ghost active: bool = fn_layer;

        let mut keycodes: [u8; 6] = [0u8; 6];
        let mut keycode_index: usize = 0;
        let mut modifier: u8 = 0;

        let mut col: usize = 0;
        while col < NUM_COLS
            invariant
                col <= NUM_COLS,
                keycode_index <= 6,
                active == spec_fn_layer_active(scan.matrix),
                forall|c: int, r: int|
                    0 <= c < NUM_COLS && 0 <= r < NUM_ROWS ==> mapping[c][r] == spec_mapping_at(
                        active,
                        r,
                        c,
                    ),
                modifier == spec_modifier_byte_upto(scan.matrix, active, col as int, 0),
                keycode_index == min_of_6(
                    spec_keycode_seq_upto(scan.matrix, active, col as int, 0).len() as int,
                ),
                forall|i: int|
                    0 <= i < keycode_index ==> keycodes[i] == spec_keycode_seq_upto(
                        scan.matrix,
                        active,
                        col as int,
                        0,
                    )[i],
                forall|i: int| keycode_index <= i < 6 ==> keycodes[i] == 0,
            decreases NUM_COLS - col,
        {
            let mut row: usize = 0;
            while row < NUM_ROWS
                invariant
                    row <= NUM_ROWS,
                    col < NUM_COLS,
                    keycode_index <= 6,
                    active == spec_fn_layer_active(scan.matrix),
                    forall|c: int, r: int|
                        0 <= c < NUM_COLS && 0 <= r < NUM_ROWS ==> mapping[c][r]
                            == spec_mapping_at(active, r, c),
                    modifier == spec_modifier_byte_upto(
                        scan.matrix,
                        active,
                        col as int,
                        row as int,
                    ),
                    keycode_index == min_of_6(
                        spec_keycode_seq_upto(scan.matrix, active, col as int, row as int).len()
                            as int,
                    ),
                    forall|i: int|
                        0 <= i < keycode_index ==> keycodes[i] == spec_keycode_seq_upto(
                            scan.matrix,
                            active,
                            col as int,
                            row as int,
                        )[i],
                    forall|i: int| keycode_index <= i < 6 ==> keycodes[i] == 0,
                decreases NUM_ROWS - row,
            {
                if scan.matrix[col][row] {
                    let code = mapping[col][row];
                    if let Some(bitmask) = code.modifier_bitmask() {
                        modifier = modifier | bitmask;
                    } else if code != KeyCode::Empty {
                        if keycode_index < 6 {
                            keycodes[keycode_index] = code.usage_id();
                            keycode_index = keycode_index + 1;
                        }
                    }
                }
                row = row + 1;
            }
            col = col + 1;
        }

        let report = KeyboardReport { modifier, reserved: 0, leds: 0, keycodes };
        proof {
            assert(report.keycodes =~= spec_resolve(scan.matrix).keycodes);
        }
        report
    }
}

/// `n` clipped to the six keycode slots of a boot-keyboard report.
pub open spec fn min_of_6(n: int) -> int {
    if n < 6 {
        n
    } else {
        6
    }
}

/// Over the cells that precede position (`col`, `row`) in scan order, a
/// frame in which no pressed cell carries a modifier keycode under the
/// selected layer accumulates an all-zero modifier byte.
proof fn lemma_modifier_byte_without_modifiers(
    m: [[bool; NUM_ROWS]; NUM_COLS],
    fn_layer: bool,
    col: int,
    row: int,
)
    requires
        0 <= col <= NUM_COLS,
        0 <= row <= NUM_ROWS,
        col == NUM_COLS ==> row == 0,
        forall|c: int, r: int|
            0 <= c < NUM_COLS && 0 <= r < NUM_ROWS && m[c][r] ==> spec_modifier_bitmask(
                spec_mapping_at(fn_layer, r, c),
            ) is None,
    ensures
        spec_modifier_byte_upto(m, fn_layer, col, row) == 0,
    decreases col, row,
{
    if col <= 0 && row <= 0 {
    } else if row <= 0 {
        lemma_modifier_byte_without_modifiers(m, fn_layer, col - 1, NUM_ROWS as int);
    } else {
        lemma_modifier_byte_without_modifiers(m, fn_layer, col, row - 1);
    }
}

/// Over the cells that precede position (`col`, `row`) in scan order, a
/// frame in which position (`xc`, `xr`) is the only pressed cell carrying a
/// regular keycode under the selected layer accumulates exactly that one
/// usage ID, once (`xc`, `xr`) has been passed, and nothing before.
proof fn lemma_keycode_seq_single_contributor(
    m: [[bool; NUM_ROWS]; NUM_COLS],
    fn_layer: bool,
    xc: int,
    xr: int,
    col: int,
    row: int,
)
    requires
        0 <= xc < NUM_COLS,
        0 <= xr < NUM_ROWS,
        m[xc][xr],
        spec_modifier_bitmask(spec_mapping_at(fn_layer, xr, xc)) is None,
        spec_mapping_at(fn_layer, xr, xc) != KeyCode::Empty,
        forall|c: int, r: int|
            0 <= c < NUM_COLS && 0 <= r < NUM_ROWS && m[c][r] && !(c == xc && r == xr)
                ==> (spec_modifier_bitmask(spec_mapping_at(fn_layer, r, c)) is Some
                || spec_mapping_at(fn_layer, r, c) == KeyCode::Empty),
        0 <= col <= NUM_COLS,
        0 <= row <= NUM_ROWS,
        col == NUM_COLS ==> row == 0,
    ensures
        spec_keycode_seq_upto(m, fn_layer, col, row) == (
        if xc < col || (xc == col && xr < row) {
            seq![spec_usage_id(spec_mapping_at(fn_layer, xr, xc))]
        } else {
            Seq::<u8>::empty()
        }),
    decreases col, row,
{
    if col <= 0 && row <= 0 {
    } else if row <= 0 {
        lemma_keycode_seq_single_contributor(m, fn_layer, xc, xr, col - 1, NUM_ROWS as int);
    } else {
        lemma_keycode_seq_single_contributor(m, fn_layer, xc, xr, col, row - 1);
        if col == xc && row - 1 == xr {
            assert(Seq::<u8>::empty().push(spec_usage_id(spec_mapping_at(fn_layer, xr, xc)))
                =~= seq![spec_usage_id(spec_mapping_at(fn_layer, xr, xc))]);
        }
    }
}

/// Layer switch, stated over whole frames: with only the layer-shift cell
/// and one other key X pressed, the report carries exactly X's
/// Function-layer code and no modifier bit — the held layer-shift key is
/// emitted neither as a keycode nor as a modifier; with the layer-shift
/// key released and the same X still pressed, the report reverts to
/// exactly X's Normal-layer code. General in the position of X; with more
/// keys pressed the six-slot cap of `spec_resolve` governs which codes
/// appear.
pub proof fn lemma_layer_switch_two_keys(
    m_shift: [[bool; NUM_ROWS]; NUM_COLS],
    m_plain: [[bool; NUM_ROWS]; NUM_COLS],
    fc: int,
    fr: int,
    xc: int,
    xr: int,
)
    requires
        0 <= fc < NUM_COLS,
        0 <= fr < NUM_ROWS,
        0 <= xc < NUM_COLS,
        0 <= xr < NUM_ROWS,
        !(fc == xc && fr == xr),
        // The layer-shift position: `Fn` on the Normal layer, and inert
        // (`Empty`) on the Function layer it selects.
        spec_mapping_at(false, fr, fc) == KeyCode::Fn,
        spec_mapping_at(true, fr, fc) == KeyCode::Empty,
        // X carries a regular, non-modifier key on both layers.
        spec_modifier_bitmask(spec_mapping_at(true, xr, xc)) is None,
        spec_mapping_at(true, xr, xc) != KeyCode::Empty,
        spec_modifier_bitmask(spec_mapping_at(false, xr, xc)) is None,
        spec_mapping_at(false, xr, xc) != KeyCode::Empty,
        spec_mapping_at(false, xr, xc) != KeyCode::Fn,
        // Exactly the layer-shift cell and X are pressed ...
        forall|c: int, r: int|
            0 <= c < NUM_COLS && 0 <= r < NUM_ROWS ==> m_shift[c][r] == ((c == fc && r == fr) || (
            c == xc && r == xr)),
        // ... and afterwards exactly X.
        forall|c: int, r: int|
            0 <= c < NUM_COLS && 0 <= r < NUM_ROWS ==> m_plain[c][r] == (c == xc && r == xr),
    ensures
        spec_fn_layer_active(m_shift),
        !spec_fn_layer_active(m_plain),
        spec_resolve(m_shift).modifier == 0,
        spec_resolve(m_shift).keycodes[0] == spec_usage_id(spec_mapping_at(true, xr, xc)),
        forall|i: int| 1 <= i < 6 ==> spec_resolve(m_shift).keycodes[i] == 0,
        spec_resolve(m_plain).modifier == 0,
        spec_resolve(m_plain).keycodes[0] == spec_usage_id(spec_mapping_at(false, xr, xc)),
        forall|i: int| 1 <= i < 6 ==> spec_resolve(m_plain).keycodes[i] == 0,
{
    assert(m_shift[fc][fr] && spec_mapping_at(false, fr, fc) == KeyCode::Fn);
    assert(spec_fn_layer_active(m_shift));
    assert(!spec_fn_layer_active(m_plain));

    lemma_modifier_byte_without_modifiers(m_shift, true, NUM_COLS as int, 0);
    lemma_keycode_seq_single_contributor(m_shift, true, xc, xr, NUM_COLS as int, 0);

    lemma_modifier_byte_without_modifiers(m_plain, false, NUM_COLS as int, 0);
    lemma_keycode_seq_single_contributor(m_plain, false, xc, xr, NUM_COLS as int, 0);
}

/// Report keycode cap: slot `i` of any resolved report carries the `i`-th
/// pressed regular key in the fixed scan order, and only the first six
/// slots exist — keys pressed beyond the sixth are dropped, not wrapped
/// into an error or a rollover encoding.
pub proof fn lemma_keycode_cap(m: [[bool; NUM_ROWS]; NUM_COLS])
    ensures
        forall|i: int|
            0 <= i < 6 ==> spec_resolve(m).keycodes[i] == spec_keycode_slot(
                spec_keycode_seq(m, spec_fn_layer_active(m)),
                i,
            ),
        spec_resolve(m).keycodes@.len() == 6,
{
}

/// Layer switch: keycode resolution consults the Function-layer table
/// exactly while some pressed cell is the layer-shift key on the Normal
/// table, and reverts to the Normal-layer table once that key is released.
/// Stated per cell: what position (`c`, `r`) contributes to the keycode
/// sequence is read from the selected layer's table — its usage ID if it is
/// pressed and carries a regular keycode there, nothing otherwise.
pub proof fn lemma_layer_switch(m: [[bool; NUM_ROWS]; NUM_COLS], c: int, r: int)
    requires
        0 <= c < NUM_COLS,
        0 <= r < NUM_ROWS,
    ensures
        spec_fn_layer_active(m) == exists|c2: int, r2: int|
            0 <= c2 < NUM_COLS && 0 <= r2 < NUM_ROWS && m[c2][r2] && spec_mapping_at(false, r2, c2)
                == KeyCode::Fn,
        ({
            let layer = spec_fn_layer_active(m);
            let k = spec_mapping_at(layer, r, c);
            spec_keycode_seq_upto(m, layer, c, r + 1) == (
            if m[c][r] && spec_modifier_bitmask(k) is None && k != KeyCode::Empty {
                spec_keycode_seq_upto(m, layer, c, r).push(spec_usage_id(k))
            } else {
                spec_keycode_seq_upto(m, layer, c, r)
            })
        }),
{
}

impl vstd::std_specs::convert::FromSpecImpl<KeyScan> for KeyboardReport {
    open spec fn obeys_from_spec() -> bool {
        true
    }

    open spec fn from_spec(scan: KeyScan) -> KeyboardReport {
        spec_resolve(scan.matrix)
    }
}

} // verus!
