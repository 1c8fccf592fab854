//! Transceiver front-end control words: the GPIO set/reset word that puts
//! the PA/LNA switch in transmit, receive or off, and the antenna diversity
//! toggle. The caller writes the words to the port's set/reset register.
use vstd::prelude::*;

verus! {

/// The two front-end control bits for a mode (bit 0 drives PE8, bit 1
/// PE9): the mode's bits swapped.
pub open spec fn front_end_bits(mode: u8) -> u8 {
    (((mode << 1u8) & 0x02) | ((mode >> 1u8) & 0x01)) as u8
}

/// Set/reset word for PE8/PE9: reset both, then set the mode's bits.
pub open spec fn front_end_word(mode: u8) -> u32 {
    (0x0300u32 << 16u32) | ((front_end_bits(mode) as u32) << 8u32)
}

/// The set/reset word that selects a front-end mode: transmit (PE8 high),
/// receive (PE9 high) or off.
pub fn set_tx_rx_mode(mode: u8) -> (w: u32)
    ensures
        w == front_end_word(mode),
{
    let tmp: u8 = ((mode << 1) & 0x02) | ((mode >> 1) & 0x01);
    (0x0300u32 << 16) | ((tmp as u32) << 8)
}

/// Which antenna the next switch selects (0: antenna 0 next).
pub struct AntennaSwitch {
    pub state: u8,
}

impl AntennaSwitch {
    pub fn new() -> (a: Self)
        ensures
            a.state == 0,
    {
        AntennaSwitch { state: 0 }
    }

    /// Alternate between the antennas; returns the set/reset word: antenna
    /// 0 is PE10 high and PE11 low, antenna 1 the other way round.
    pub fn switch_antenna(&mut self) -> (w: u32)
        ensures
            old(self).state == 0 ==> w == ((1u32 << 10u32) | (1u32 << 27u32)) && final(self).state == 1,
            old(self).state != 0 ==> w == ((1u32 << 26u32) | (1u32 << 11u32)) && final(self).state == 0,
    {
        if self.state == 0 {
            self.state = 1;
            (1u32 << 10) | (1u32 << 27)
        } else {
            self.state = 0;
            (1u32 << 26) | (1u32 << 11)
        }
    }
}

} // verus!
