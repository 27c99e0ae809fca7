//! The two keycode layer tables (Normal and Function) and the transpose
//! helper that turns them into scan orientation.
//!
//! The tables are written row-major (`[row][column]`), the way the physical
//! keyboard reads; the scanner and resolver index column-major
//! (`[column][row]`), so the transposed form of each table is what the rest
//! of the pipeline consumes.

use vstd::prelude::*;

use crate::key_codes::KeyCode;
use crate::NUM_COLS;
use crate::NUM_ROWS;

verus! {

/// The Normal-layer table, row-major. `Fn` at the lower-left corner is the
/// layer-shift key; `Empty` marks positions with no key.
pub open spec fn spec_normal_layer_mapping() -> [[KeyCode; NUM_COLS]; NUM_ROWS] {
    [
        [KeyCode::Escape, KeyCode::F1, KeyCode::F2, KeyCode::F3, KeyCode::F4, KeyCode::F5, KeyCode::Empty, KeyCode::F6, KeyCode::F7, KeyCode::F8, KeyCode::F9, KeyCode::F10, KeyCode::F11, KeyCode::F12],
        [KeyCode::Tilde, KeyCode::Num1, KeyCode::Num2, KeyCode::Num3, KeyCode::Num4, KeyCode::Num5, KeyCode::Num6, KeyCode::Num7, KeyCode::Num8, KeyCode::Num9, KeyCode::Num0, KeyCode::Minus, KeyCode::Equals, KeyCode::Backspace],
        [KeyCode::Tab, KeyCode::Q, KeyCode::W, KeyCode::E, KeyCode::R, KeyCode::T, KeyCode::Y, KeyCode::U, KeyCode::I, KeyCode::O, KeyCode::P, KeyCode::LeftSquareBracket, KeyCode::RightSquareBracket, KeyCode::BackSlash],
        [KeyCode::LeftCtrl, KeyCode::A, KeyCode::S, KeyCode::D, KeyCode::F, KeyCode::G, KeyCode::H, KeyCode::J, KeyCode::K, KeyCode::L, KeyCode::Semicolon, KeyCode::SingleQuote, KeyCode::Enter, KeyCode::Empty],
        [KeyCode::LeftShift, KeyCode::Empty, KeyCode::Z, KeyCode::X, KeyCode::C, KeyCode::V, KeyCode::B, KeyCode::N, KeyCode::M, KeyCode::Comma, KeyCode::Period, KeyCode::ForwardSlash, KeyCode::Up, KeyCode::Empty],
        [KeyCode::Fn, KeyCode::LeftCtrl, KeyCode::LeftAlt, KeyCode::LeftCmd, KeyCode::Empty, KeyCode::Empty, KeyCode::Space, KeyCode::Empty, KeyCode::Empty, KeyCode::Empty, KeyCode::CapsLock, KeyCode::Left, KeyCode::Down, KeyCode::Right],
    ]
}

/// The Function-layer table, row-major. Relative to the Normal layer it
/// rebinds the top-right keys to volume controls and maps the layer-shift
/// position itself to `Empty`, so the held `Fn` key is never emitted as a
/// keycode.
pub open spec fn spec_fn_layer_mapping() -> [[KeyCode; NUM_COLS]; NUM_ROWS] {
    [
        [KeyCode::Escape, KeyCode::F1, KeyCode::F2, KeyCode::F3, KeyCode::F4, KeyCode::F5, KeyCode::Empty, KeyCode::F6, KeyCode::F7, KeyCode::F8, KeyCode::F9, KeyCode::VolumeMute, KeyCode::VolumeDown, KeyCode::VolumeUp],
        [KeyCode::Tilde, KeyCode::Num1, KeyCode::Num2, KeyCode::Num3, KeyCode::Num4, KeyCode::Num5, KeyCode::Num6, KeyCode::Num7, KeyCode::Num8, KeyCode::Num9, KeyCode::Num0, KeyCode::Minus, KeyCode::Equals, KeyCode::Backspace],
        [KeyCode::Tab, KeyCode::Q, KeyCode::W, KeyCode::E, KeyCode::R, KeyCode::T, KeyCode::Y, KeyCode::U, KeyCode::I, KeyCode::O, KeyCode::P, KeyCode::LeftSquareBracket, KeyCode::RightSquareBracket, KeyCode::BackSlash],
        [KeyCode::LeftCtrl, KeyCode::A, KeyCode::S, KeyCode::D, KeyCode::F, KeyCode::G, KeyCode::H, KeyCode::J, KeyCode::K, KeyCode::L, KeyCode::Semicolon, KeyCode::SingleQuote, KeyCode::Enter, KeyCode::Empty],
        [KeyCode::LeftShift, KeyCode::Empty, KeyCode::Z, KeyCode::X, KeyCode::C, KeyCode::V, KeyCode::B, KeyCode::N, KeyCode::M, KeyCode::Comma, KeyCode::Period, KeyCode::ForwardSlash, KeyCode::Up, KeyCode::Empty],
        [KeyCode::Empty, KeyCode::LeftCtrl, KeyCode::LeftAlt, KeyCode::LeftCmd, KeyCode::Empty, KeyCode::Empty, KeyCode::Space, KeyCode::Empty, KeyCode::Empty, KeyCode::Empty, KeyCode::CapsLock, KeyCode::Left, KeyCode::Down, KeyCode::Right],
    ]
}

/// The keycode at matrix position (`row`, `col`) on the selected layer.
pub open spec fn spec_mapping_at(fn_layer: bool, row: int, col: int) -> KeyCode {
    if fn_layer {
        spec_fn_layer_mapping()[row][col]
    } else {
        spec_normal_layer_mapping()[row][col]
    }
}

/// The Normal-layer table as a value.
pub fn normal_layer_mapping() -> (m: [[KeyCode; NUM_COLS]; NUM_ROWS])
    ensures
        m == spec_normal_layer_mapping(),
{
    [
        [KeyCode::Escape, KeyCode::F1, KeyCode::F2, KeyCode::F3, KeyCode::F4, KeyCode::F5, KeyCode::Empty, KeyCode::F6, KeyCode::F7, KeyCode::F8, KeyCode::F9, KeyCode::F10, KeyCode::F11, KeyCode::F12],
        [KeyCode::Tilde, KeyCode::Num1, KeyCode::Num2, KeyCode::Num3, KeyCode::Num4, KeyCode::Num5, KeyCode::Num6, KeyCode::Num7, KeyCode::Num8, KeyCode::Num9, KeyCode::Num0, KeyCode::Minus, KeyCode::Equals, KeyCode::Backspace],
        [KeyCode::Tab, KeyCode::Q, KeyCode::W, KeyCode::E, KeyCode::R, KeyCode::T, KeyCode::Y, KeyCode::U, KeyCode::I, KeyCode::O, KeyCode::P, KeyCode::LeftSquareBracket, KeyCode::RightSquareBracket, KeyCode::BackSlash],
        [KeyCode::LeftCtrl, KeyCode::A, KeyCode::S, KeyCode::D, KeyCode::F, KeyCode::G, KeyCode::H, KeyCode::J, KeyCode::K, KeyCode::L, KeyCode::Semicolon, KeyCode::SingleQuote, KeyCode::Enter, KeyCode::Empty],
        [KeyCode::LeftShift, KeyCode::Empty, KeyCode::Z, KeyCode::X, KeyCode::C, KeyCode::V, KeyCode::B, KeyCode::N, KeyCode::M, KeyCode::Comma, KeyCode::Period, KeyCode::ForwardSlash, KeyCode::Up, KeyCode::Empty],
        [KeyCode::Fn, KeyCode::LeftCtrl, KeyCode::LeftAlt, KeyCode::LeftCmd, KeyCode::Empty, KeyCode::Empty, KeyCode::Space, KeyCode::Empty, KeyCode::Empty, KeyCode::Empty, KeyCode::CapsLock, KeyCode::Left, KeyCode::Down, KeyCode::Right],
    ]
}

/// The Function-layer table as a value.
pub fn fn_layer_mapping() -> (m: [[KeyCode; NUM_COLS]; NUM_ROWS])
    ensures
        m == spec_fn_layer_mapping(),
{
    [
        [KeyCode::Escape, KeyCode::F1, KeyCode::F2, KeyCode::F3, KeyCode::F4, KeyCode::F5, KeyCode::Empty, KeyCode::F6, KeyCode::F7, KeyCode::F8, KeyCode::F9, KeyCode::VolumeMute, KeyCode::VolumeDown, KeyCode::VolumeUp],
        [KeyCode::Tilde, KeyCode::Num1, KeyCode::Num2, KeyCode::Num3, KeyCode::Num4, KeyCode::Num5, KeyCode::Num6, KeyCode::Num7, KeyCode::Num8, KeyCode::Num9, KeyCode::Num0, KeyCode::Minus, KeyCode::Equals, KeyCode::Backspace],
        [KeyCode::Tab, KeyCode::Q, KeyCode::W, KeyCode::E, KeyCode::R, KeyCode::T, KeyCode::Y, KeyCode::U, KeyCode::I, KeyCode::O, KeyCode::P, KeyCode::LeftSquareBracket, KeyCode::RightSquareBracket, KeyCode::BackSlash],
        [KeyCode::LeftCtrl, KeyCode::A, KeyCode::S, KeyCode::D, KeyCode::F, KeyCode::G, KeyCode::H, KeyCode::J, KeyCode::K, KeyCode::L, KeyCode::Semicolon, KeyCode::SingleQuote, KeyCode::Enter, KeyCode::Empty],
        [KeyCode::LeftShift, KeyCode::Empty, KeyCode::Z, KeyCode::X, KeyCode::C, KeyCode::V, KeyCode::B, KeyCode::N, KeyCode::M, KeyCode::Comma, KeyCode::Period, KeyCode::ForwardSlash, KeyCode::Up, KeyCode::Empty],
        [KeyCode::Empty, KeyCode::LeftCtrl, KeyCode::LeftAlt, KeyCode::LeftCmd, KeyCode::Empty, KeyCode::Empty, KeyCode::Space, KeyCode::Empty, KeyCode::Empty, KeyCode::Empty, KeyCode::CapsLock, KeyCode::Left, KeyCode::Down, KeyCode::Right],
    ]
}

/// Turn a row-major table into the column-major orientation the scanner
/// uses.
pub fn transpose(matrix: [[KeyCode; NUM_COLS]; NUM_ROWS]) -> (t: [[KeyCode; NUM_ROWS]; NUM_COLS])
    ensures
        forall|c: int, r: int|
            0 <= c < NUM_COLS && 0 <= r < NUM_ROWS ==> t[c][r] == matrix[r][c],
{
    let mut t: [[KeyCode; NUM_ROWS]; NUM_COLS] = [[KeyCode::Empty; NUM_ROWS]; NUM_COLS];

    let mut col: usize = 0;
    while col < NUM_COLS
        invariant
            col <= NUM_COLS,
            forall|c: int, r: int| 0 <= c < col && 0 <= r < NUM_ROWS ==> t[c][r] == matrix[r][c],
        decreases NUM_COLS - col,
    {
        let mut entries: [KeyCode; NUM_ROWS] = [KeyCode::Empty; NUM_ROWS];
        let mut row: usize = 0;
        while row < NUM_ROWS
            invariant
                row <= NUM_ROWS,
                col < NUM_COLS,
                forall|r: int| 0 <= r < row ==> entries[r] == matrix[r][col as int],
            decreases NUM_ROWS - row,
        {
            entries[row] = matrix[row][col];
            row = row + 1;
        }
        t[col] = entries;
        col = col + 1;
    }

    t
}

/// The Normal-layer table in scan orientation (`[column][row]`).
pub fn transposed_normal_layer_mapping() -> (m: [[KeyCode; NUM_ROWS]; NUM_COLS])
    ensures
        forall|c: int, r: int|
            0 <= c < NUM_COLS && 0 <= r < NUM_ROWS ==> m[c][r] == spec_mapping_at(false, r, c),
{
    transpose(normal_layer_mapping())
}

/// The Function-layer table in scan orientation (`[column][row]`).
pub fn transposed_fn_layer_mapping() -> (m: [[KeyCode; NUM_ROWS]; NUM_COLS])
    ensures
        forall|c: int, r: int|
            0 <= c < NUM_COLS && 0 <= r < NUM_ROWS ==> m[c][r] == spec_mapping_at(true, r, c),
{
    transpose(fn_layer_mapping())
}

} // verus!
