//! Input pipeline of a USB boot-keyboard controller.
//!
//! The pipeline runs: debounced matrix scan ([`debounce`], [`key_scan`]) →
//! layer-aware keycode resolution ([`key_mapping`], [`key_scan`]) → USB HID
//! protocol state machine ([`hid`]), with the producer/consumer handshake
//! between the periodic scan loop and the USB interrupt handler modeled in
//! [`coordinator`]. Every step carries a contract that pins down its result;
//! the electrical scan pass and the USB transport itself are the caller's
//! business and hand this library plain values.

use vstd::prelude::*;

pub mod key_codes;
pub mod key_mapping;
pub mod debounce;
pub mod key_scan;
pub mod hid;
pub mod coordinator;

verus! {

/// Number of sense rows in the key matrix.
pub const NUM_ROWS: usize = 6;

/// Number of drive columns in the key matrix.
pub const NUM_COLS: usize = 14;

} // verus!
