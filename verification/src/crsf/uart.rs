//! Serial port side of the CRSF link: baud divisors, the module power pin,
//! and the receive ring the port interrupt fills. Register work is the
//! caller's.
use vstd::prelude::*;

verus! {

/// USART baud-rate divisor for a baud index on the 48 MHz clock:
/// 420 000, 416 666, 115 200 and 921 600 bit/s; unknown indices use the
/// first.
pub open spec fn brr_of(baud_idx: u8) -> u32 {
    if baud_idx == 1 {
        115
    } else if baud_idx == 2 {
        417
    } else if baud_idx == 3 {
        52
    } else {
        114
    }
}

/// Baud rate divisors for the 48 MHz clock tree.
pub fn get_brr_for_baud(baud_idx: u8) -> (brr: u32)
    ensures
        brr == brr_of(baud_idx),
{
    match baud_idx {
        0 => 114,
        1 => 115,
        2 => 417,
        3 => 52,
        _ => 114,
    }
}

/// Level of the module power pin: the power state, inverted for an
/// active-low switch.
pub open spec fn power_pin_level(active_high: bool, power_on: bool) -> bool {
    if active_high { power_on } else { !power_on }
}

/// The external module's power switch: its polarity and whether the module
/// is powered.
pub struct ModulePower {
    pub active_high: bool,
    pub power_on: bool,
}

impl ModulePower {
    /// Unpowered, with the given polarity.
    pub fn new(active_high: bool) -> (p: Self)
        ensures
            p == (ModulePower { active_high, power_on: false }),
    {
        ModulePower { active_high, power_on: false }
    }

    /// Set the switch polarity; returns the pin level to drive.
    pub fn set_power_polarity(&mut self, active_high: bool) -> (high: bool)
        ensures
            *final(self) == (ModulePower { active_high, ..*old(self) }),
            high == power_pin_level(active_high, old(self).power_on),
    {
        self.active_high = active_high;
        if self.active_high { self.power_on } else { !self.power_on }
    }

    /// Power the module on or off; returns the pin level to drive.
    pub fn set_module_power(&mut self, power_on: bool) -> (high: bool)
        ensures
            *final(self) == (ModulePower { power_on, ..*old(self) }),
            high == power_pin_level(old(self).active_high, power_on),
    {
        self.power_on = power_on;
        if self.active_high { self.power_on } else { !self.power_on }
    }
}

/// Size of the receive ring (a power of two).
pub const RX_RING_SIZE: usize = 128;

/// Single-producer single-consumer byte ring: the port interrupt appends
/// at `head`, the control loop takes from `tail`; one slot stays free.
pub struct RxRing {
    pub buf: [u8; 128],
    pub head: usize,
    pub tail: usize,
}

impl View for RxRing {
    type V = Seq<u8>;

    /// The bytes waiting, oldest first.
    open spec fn view(&self) -> Seq<u8> {
        let n = if self.head >= self.tail { self.head - self.tail } else { self.head + RX_RING_SIZE - self.tail };
        Seq::new(n as nat, |i: int| self.buf@[(self.tail + i) % (RX_RING_SIZE as int)])
    }
}

impl RxRing {
    pub open spec fn wf(&self) -> bool {
        self.head < RX_RING_SIZE && self.tail < RX_RING_SIZE
    }

    /// Empty.
    pub fn new() -> (r: Self)
        ensures
            r.wf(),
            r@ == Seq::<u8>::empty(),
    {
        let r = RxRing { buf: [0u8; 128], head: 0, tail: 0 };
        assert(r@ =~= Seq::<u8>::empty());
        r
    }

    /// Forget everything queued (the port was reconfigured).
    pub fn clear(&mut self)
        requires
            old(self).wf(),
        ensures
            final(self).wf(),
            final(self)@ == Seq::<u8>::empty(),
    {
        self.head = 0;
        self.tail = 0;
        assert(self@ =~= Seq::<u8>::empty());
    }

    /// Queue a received byte (interrupt side); dropped when the ring holds
    /// 127 bytes already. Returns whether it was kept.
    pub fn push(&mut self, b: u8) -> (kept: bool)
        requires
            old(self).wf(),
        ensures
            final(self).wf(),
            kept == (old(self)@.len() < RX_RING_SIZE - 1),
            kept ==> final(self)@ == old(self)@.push(b),
            !kept ==> final(self)@ == old(self)@,
    {
        let h = self.head;
        let h1 = h + 1;
        let next_head = h1 & (RX_RING_SIZE - 1);
        assert(h1 & 127 == h1 % 128) by (bit_vector)
            requires h1 <= 128usize;
        if next_head != self.tail {
            let ghost old_view = self@;
            self.buf[self.head] = b;
            self.head = next_head;
            assert(self@ =~= old_view.push(b)) by {
                assert forall|i: int| 0 <= i < old_view.len() implies #[trigger] self@[i] == old_view[i] by {
                    let j = (self.tail + i) % 128;
                    assert(j != h as int);
                }
            }
            true
        } else {
            false
        }
    }

    /// Take the oldest queued byte (control loop side).
    pub fn read_byte(&mut self) -> (b: Option<u8>)
        requires
            old(self).wf(),
        ensures
            final(self).wf(),
            old(self)@.len() == 0 ==> b is None && final(self)@ == old(self)@,
            old(self)@.len() > 0 ==> b == Some(old(self)@[0]) && final(self)@ == old(self)@.drop_first(),
    {
        if self.head != self.tail {
            let t = self.tail;
            let v = self.buf[t];
            let t1 = t + 1;
            assert(t1 & 127 == t1 % 128) by (bit_vector)
                requires t1 <= 128usize;
            self.tail = t1 & (RX_RING_SIZE - 1);
            assert(self@ =~= old(self)@.drop_first());
            Some(v)
        } else {
            None
        }
    }
}

} // verus!
