//! The prescaler of the single-wire diagnostic output, which has to follow
//! the core clock for the output to stay at its baud rate.

use vstd::prelude::*;
use crate::consts::SWO_BAUD_RATE;

verus! {

/// Prescaler for a core clock of `hclk` Hz: the number of core clock cycles
/// per transmitted bit, less one.
pub open spec fn spec_prescaler(hclk: u32) -> int {
    hclk as int / SWO_BAUD_RATE as int - 1
}

/// Computes the prescaler for a core clock of `hclk` Hz. The core must run
/// at least as fast as the output transmits.
pub fn prescaler(hclk: u32) -> (p: u32)
    requires
        hclk >= SWO_BAUD_RATE,
    ensures
        p as int == spec_prescaler(hclk),
{
    hclk / SWO_BAUD_RATE - 1
}

} // verus!
