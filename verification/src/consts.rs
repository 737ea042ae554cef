//! Fixed hardware constants of the board.

use vstd::prelude::*;

verus! {

/// Baud rate of the single-wire diagnostic output.
pub const SWO_BAUD_RATE: u32 = 115_200;

/// Frequency of the internal 8 MHz RC oscillator, in Hz.
pub const HSI_CLK: u32 = 8_000_000;

/// Frequency of the high-speed external clock input, in Hz.
pub const HSE_CLK: u32 = 48_000_000;

/// Highest core frequency, in Hz, that the hardware is specified for.
pub const MAX_HCLK: u32 = 72_000_000;

} // verus!
