//! ST7567 LCD controller: the 1 KB page-organised frame buffer, pixel
//! drawing into it, the controller's command bytes, the byte stream that
//! copies the buffer to the panel, and the backlight duty. The caller
//! drives the parallel bus and the PWM timer.
use vstd::prelude::*;

verus! {

pub const WIDTH: usize = 128;
pub const HEIGHT: usize = 64;
pub const BUFFER_SIZE: usize = 1024;

/// One byte on the controller's bus: a command (RS low) or display data
/// (RS high).
#[derive(Copy, Clone, Debug, PartialEq, Eq, Structural)]
pub struct LcdByte {
    pub value: u8,
    pub is_data: bool,
}

/// Backlight output: whether the enable pin is on, and the PWM compare
/// value out of 999.
#[derive(Copy, Clone, Debug, PartialEq, Eq, Structural)]
pub struct Backlight {
    pub enabled: bool,
    pub duty: u32,
}

/// The frame buffer: eight pages of 128 columns; bit `y % 8` of byte
/// `(y / 8) * 128 + x` is pixel (x, y).
pub struct St7567 {
    pub framebuffer: [u8; BUFFER_SIZE],
}

/// Whether pixel (x, y) is on in a frame buffer.
pub open spec fn pixel(fb: Seq<u8>, x: int, y: int) -> bool {
    (fb[(y / 8) * 128 + x] >> ((y % 8) as u8)) & 1 == 1
}

/// The byte holding pixel bit `bit` set to `on`.
pub open spec fn with_bit(b: u8, bit: u8, on: bool) -> u8 {
    if on {
        b | (1u8 << bit)
    } else {
        b & !(1u8 << bit)
    }
}

proof fn lemma_with_bit(b: u8, bit: u8, on: bool, k: u8)
    requires
        bit < 8,
        k < 8,
    ensures
        ((with_bit(b, bit, on) >> k) & 1 == 1) == (if k == bit { on } else { (b >> k) & 1 == 1 }),
{
    if on {
        assert(((b | (1u8 << bit)) >> k) & 1 == 1 <==> (if k == bit { true } else { (b >> k) & 1 == 1 })) by (bit_vector)
            requires bit < 8, k < 8;
    } else {
        assert(((b & !(1u8 << bit)) >> k) & 1 == 1 <==> (if k == bit { false } else { (b >> k) & 1 == 1 })) by (bit_vector)
            requires bit < 8, k < 8;
    }
}

/// The command bytes that bring up the controller after its reset: reset,
/// display off, RAM mode, 1/7 bias, COM normal, SEG reversed, all power on,
/// regulator ratio 3, contrast 0x25, start line 0, page 0, column 4, on.
pub open spec fn init_commands_spec() -> Seq<u8> {
    seq![0xE2u8, 0xAE, 0xA4, 0xA3, 0xC0, 0xA1, 0x2F, 0x23, 0x81, 0x25, 0x40, 0xB0, 0x04, 0x10, 0xAF]
}

/// The bus bytes that copy page `page` of a frame buffer to the panel:
/// page address, column 4 (low and high nibble), then the 128 bytes.
pub open spec fn page_stream(fb: Seq<u8>, page: int) -> Seq<LcdByte> {
    seq![
        LcdByte { value: (0xB0 + page) as u8, is_data: false },
        LcdByte { value: 0x04, is_data: false },
        LcdByte { value: 0x10, is_data: false },
    ] + Seq::new(128, |i: int| LcdByte { value: fb[page * 128 + i], is_data: true })
}

/// The bus bytes of the first `n` pages.
pub open spec fn flush_stream(fb: Seq<u8>, n: int) -> Seq<LcdByte>
    decreases n,
{
    if n <= 0 {
        seq![]
    } else {
        flush_stream(fb, n - 1) + page_stream(fb, n - 1)
    }
}

/// Backlight for a brightness percentage: off at 0, otherwise on with duty
/// min(pct, 100) * 999 / 100.
pub open spec fn backlight_of(pct: u8) -> Backlight {
    if pct == 0 {
        Backlight { enabled: false, duty: 0 }
    } else {
        let p = if pct < 100 { pct as int } else { 100 };
        Backlight { enabled: true, duty: (p * 999 / 100) as u32 }
    }
}

impl St7567 {
    /// A blank frame buffer.
    pub fn new() -> (d: Self)
        ensures
            d.framebuffer@ == Seq::new(1024, |i: int| 0u8),
    {
        let d = St7567 { framebuffer: [0u8; 1024] };
        assert(d.framebuffer@ =~= Seq::new(1024, |i: int| 0u8));
        d
    }

    /// The controller's bring-up command bytes.
    pub fn init_commands(&self) -> (c: [u8; 15])
        ensures
            c@ == init_commands_spec(),
    {
        let c = [0xE2u8, 0xAE, 0xA4, 0xA3, 0xC0, 0xA1, 0x2F, 0x23, 0x81, 0x25, 0x40, 0xB0, 0x04, 0x10, 0xAF];
        assert(c@ =~= init_commands_spec());
        c
    }

    /// Backlight output for a brightness percentage.
    pub fn set_backlight_level(&self, pct: u8) -> (b: Backlight)
        ensures
            b == backlight_of(pct),
    {
        if pct == 0 {
            Backlight { enabled: false, duty: 0 }
        } else {
            let p: u32 = if pct < 100 { pct as u32 } else { 100 };
            Backlight { enabled: true, duty: (p * 999) / 100 }
        }
    }

    /// Backlight fully on or off.
    pub fn set_backlight(&self, on: bool) -> (b: Backlight)
        ensures
            b == backlight_of(if on { 100 } else { 0 }),
    {
        self.set_backlight_level(if on { 100 } else { 0 })
    }

    /// A command byte.
    pub fn write_cmd(&self, cmd: u8) -> (b: LcdByte)
        ensures
            b == (LcdByte { value: cmd, is_data: false }),
    {
        LcdByte { value: cmd, is_data: false }
    }

    /// A display data byte.
    pub fn write_data(&self, data: u8) -> (b: LcdByte)
        ensures
            b == (LcdByte { value: data, is_data: true }),
    {
        LcdByte { value: data, is_data: true }
    }

    /// The contrast command: electronic volume (0x81), then the level
    /// capped at 63.
    pub fn set_contrast(&self, ev: u8) -> (c: [LcdByte; 2])
        ensures
            c@ == seq![
                LcdByte { value: 0x81, is_data: false },
                LcdByte { value: if ev < 63 { ev } else { 63u8 }, is_data: false },
            ],
    {
        let val = if ev < 63 { ev } else { 63 };
        let c = [self.write_cmd(0x81), self.write_cmd(val)];
        assert(c@ =~= seq![
            LcdByte { value: 0x81, is_data: false },
            LcdByte { value: if ev < 63 { ev } else { 63u8 }, is_data: false },
        ]);
        c
    }

    /// The bus bytes that copy the whole buffer to the panel, page by page.
    pub fn flush(&self) -> (s: Vec<LcdByte>)
        ensures
            s@ == flush_stream(self.framebuffer@, 8),
    {
        let mut out: Vec<LcdByte> = Vec::new();
        let mut page: usize = 0;
        while page < 8
            invariant
                page <= 8,
                out@ == flush_stream(self.framebuffer@, page as int),
            decreases 8 - page,
        {
            let ghost before = out@;
            out.push(LcdByte { value: 0xB0 | (page as u8), is_data: false });
            assert((0xB0u8 | (page as u8)) == (0xB0 + page) as u8) by (bit_vector)
                requires page < 8;
            out.push(LcdByte { value: 0x04, is_data: false });
            out.push(LcdByte { value: 0x10, is_data: false });
            let ghost head = out@;
            let mut i: usize = 0;
            while i < 128
                invariant
                    page < 8,
                    i <= 128,
                    head.len() == before.len() + 3,
                    out@.len() == head.len() + i,
                    out@.subrange(0, head.len() as int) == head,
                    forall|k: int| 0 <= k < i ==> #[trigger] out@[head.len() + k] == (LcdByte { value: self.framebuffer@[page * 128 + k], is_data: true }),
                decreases 128 - i,
            {
                out.push(LcdByte { value: self.framebuffer[page * 128 + i], is_data: true });
                i += 1;
            }
            assert(out@ =~= before + page_stream(self.framebuffer@, page as int)) by {
                assert(head =~= before + seq![
                    LcdByte { value: (0xB0 + page) as u8, is_data: false },
                    LcdByte { value: 0x04, is_data: false },
                    LcdByte { value: 0x10, is_data: false },
                ]);
                assert forall|k: int| 0 <= k < out@.len() implies out@[k] == (before + page_stream(self.framebuffer@, page as int))[k] by {
                    if k >= head.len() {
                        assert(out@[head.len() + (k - head.len())] == out@[k]);
                    } else {
                        assert(out@.subrange(0, head.len() as int)[k] == out@[k]);
                    }
                }
            }
            page += 1;
        }
        out
    }

    /// Blank the whole buffer.
    pub fn clear_buffer(&mut self)
        ensures
            final(self).framebuffer@ == Seq::new(1024, |i: int| 0u8),
    {
        self.fill(false);
    }

    /// Set every pixel on or off.
    pub fn fill(&mut self, on: bool)
        ensures
            final(self).framebuffer@ == Seq::new(1024, |i: int| if on { 0xFFu8 } else { 0u8 }),
    {
        let v: u8 = if on { 0xFF } else { 0 };
        let mut i: usize = 0;
        while i < 1024
            invariant
                i <= 1024,
                forall|k: int| 0 <= k < i ==> self.framebuffer@[k] == v,
            decreases 1024 - i,
        {
            self.framebuffer[i] = v;
            i += 1;
        }
        assert(self.framebuffer@ =~= Seq::new(1024, |i: int| if on { 0xFFu8 } else { 0u8 }));
    }

    /// Draw one pixel; points off the 128x64 panel are ignored. Only that
    /// pixel changes.
    pub fn set_pixel(&mut self, x: i32, y: i32, on: bool)
        ensures
            (0 <= x < 128 && 0 <= y < 64) ==> final(self).framebuffer@ == old(self).framebuffer@.update(
                (y / 8) * 128 + x,
                with_bit(old(self).framebuffer@[(y / 8) * 128 + x], (y % 8) as u8, on),
            ),
            !(0 <= x < 128 && 0 <= y < 64) ==> final(self).framebuffer@ == old(self).framebuffer@,
            (0 <= x < 128 && 0 <= y < 64) ==> forall|px: int, py: int| 0 <= px < 128 && 0 <= py < 64 ==>
                #[trigger] pixel(final(self).framebuffer@, px, py) == if px == x && py == y { on } else { pixel(old(self).framebuffer@, px, py) },
    {
        if x >= 0 && x < 128 && y >= 0 && y < 64 {
            let xu = x as usize;
            let yu = y as usize;
            let page = yu / 8;
            let bit = (yu % 8) as u8;
            let index = page * 128 + xu;
            let b = self.framebuffer[index];
            let nb = if on { b | (1u8 << bit) } else { b & !(1u8 << bit) };
            self.framebuffer[index] = nb;
            proof {
                let fb0 = old(self).framebuffer@;
                let fb1 = self.framebuffer@;
                assert forall|px: int, py: int| 0 <= px < 128 && 0 <= py < 64 implies #[trigger] pixel(fb1, px, py) == if px == x && py == y { on } else { pixel(fb0, px, py) } by {
                    let j = (py / 8) * 128 + px;
                    if j == index {
                        assert(py / 8 == y / 8 && px == x);
                        lemma_with_bit(b, bit, on, (py % 8) as u8);
                    } else {
                        assert(!(px == x && py == y));
                    }
                }
            }
        }
    }
}

} // verus!
