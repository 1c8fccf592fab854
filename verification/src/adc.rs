//! Analog front-end constants: channel count of the scan and the 12-bit
//! converter's range. The DMA scanner itself is hardware I/O.
use vstd::prelude::*;

verus! {

/// Channels sampled per scan (sticks, switches, pots, battery).
pub const NUM_CHANNELS: usize = 11;

/// Lowest 12-bit conversion result.
pub const ADC_MIN: u16 = 0;

/// Mid-scale conversion result.
pub const ADC_CENTER: u16 = 2048;

/// Highest 12-bit conversion result.
pub const ADC_MAX: u16 = 4095;

} // verus!
