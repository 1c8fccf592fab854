//! The 128-byte stored images of the radio settings and of a model
//! profile: little-endian fields at fixed offsets, padding and reserved
//! bytes included, so that an image and a record determine each other.
use vstd::prelude::*;
use crate::storage::{ChannelCalib, MixLine, ModelConfig, RadioConfig};

verus! {

pub open spec fn le16(x: u16) -> Seq<u8> {
    seq![(x & 0xFF) as u8, (x >> 8u16) as u8]
}

pub open spec fn le32(x: u32) -> Seq<u8> {
    seq![(x & 0xFF) as u8, ((x >> 8u32) & 0xFF) as u8, ((x >> 16u32) & 0xFF) as u8, (x >> 24u32) as u8]
}

/// The 8 stored bytes of a calibration record.
pub open spec fn calib_bytes(c: ChannelCalib) -> Seq<u8> {
    le16(c.min) + le16(c.center) + le16(c.max) + le16(c._pad)
}

/// The 6 stored bytes of a mix rule.
pub open spec fn mix_bytes(x: MixLine) -> Seq<u8> {
    seq![x.target_ch, x.source, x.weight as u8, x.offset as u8, x.switch, x.mode]
}

/// Signed bytes stored as their two's complement.
pub open spec fn i8_bytes(v: Seq<i8>) -> Seq<u8> {
    v.map_values(|x: i8| x as u8)
}

/// `b` is the stored image of radio settings `r`.
pub open spec fn radio_image(r: RadioConfig, b: Seq<u8>) -> bool {
    &&& b.len() == 128
    &&& b.subrange(0, 4) == le32(r.magic)
    &&& b.subrange(4, 8) == le32(r.version)
    &&& b[8] == r.active_model
    &&& b[9] == r.throttle_trim
    &&& b[10] == r.audio_enabled
    &&& b[11] == r.backlight_timeout
    &&& b[12] == r.backlight_brightness
    &&& b[13] == r.vbat_warn_deci
    &&& b[14] == r.lcd_contrast
    &&& b[15] == r.usb_mode
    &&& forall|i: int| 0 <= i < 4 ==> b.subrange(16 + 8 * i, 24 + 8 * i) == calib_bytes(#[trigger] r.sticks@[i])
    &&& forall|i: int| 0 <= i < 2 ==> b.subrange(48 + 8 * i, 56 + 8 * i) == calib_bytes(#[trigger] r.pots@[i])
    &&& b[64] == r.ext_module_pwr
    &&& b[65] == r.tone_style
    &&& b.subrange(66, 128) == r._reserved@
}

/// `b` is the stored image of model profile `m`.
pub open spec fn model_image(m: ModelConfig, b: Seq<u8>) -> bool {
    &&& b.len() == 128
    &&& b.subrange(0, 10) == m.name@
    &&& b[10] == m.model_type
    &&& b[11] == m._pad0
    &&& b.subrange(12, 16) == le32(m.rx_id)
    &&& b.subrange(16, 20) == i8_bytes(m.trims@)
    &&& b.subrange(20, 22) == le16(m.channel_reverse)
    &&& b[22] == m.dr_switch
    &&& b[23] == m.thr_curve_pts
    &&& b[24] == m.thr_curve_smooth
    &&& b.subrange(25, 34) == m.thr_curve@
    &&& b.subrange(34, 37) == m.dr_high@
    &&& b.subrange(37, 40) == m.dr_low@
    &&& b.subrange(40, 43) == i8_bytes(m.expo_high@)
    &&& b.subrange(43, 46) == i8_bytes(m.expo_low@)
    &&& b.subrange(46, 48) == le16(m.timer_secs)
    &&& b[48] == m.timer_source
    &&& b[49] == m.protocol_subtype
    &&& b.subrange(50, 52) == le16(m.failsafe_thr)
    &&& b.subrange(52, 62) == m.aux_channels@
    &&& b[62] == m.wing_tail_mix
    &&& b[63] == m.template_diff as u8
    &&& forall|i: int| 0 <= i < 8 ==> b.subrange(64 + 6 * i, 70 + 6 * i) == mix_bytes(#[trigger] m.mixes@[i])
    &&& b[112] == m.failsafe_mode
    &&& b[113] == m.failsafe_timeout
    &&& b[114] == m.rf_protocol
    &&& b[115] == m.crsf_baud
    &&& b[116] == m.arm_switch
    &&& b.subrange(117, 128) == m._reserved@
}

proof fn lemma_le16_inj(x: u16, y: u16)
    requires
        le16(x) == le16(y),
    ensures
        x == y,
{
    assert(le16(x)[0] == le16(y)[0] && le16(x)[1] == le16(y)[1]);
    assert(((x & 0xFF) as u8 == (y & 0xFF) as u8 && (x >> 8u16) as u8 == (y >> 8u16) as u8) ==> x == y) by (bit_vector);
}

proof fn lemma_le32_inj(x: u32, y: u32)
    requires
        le32(x) == le32(y),
    ensures
        x == y,
{
    assert(le32(x)[0] == le32(y)[0] && le32(x)[1] == le32(y)[1] && le32(x)[2] == le32(y)[2] && le32(x)[3] == le32(y)[3]);
    assert(((x & 0xFF) as u8 == (y & 0xFF) as u8 && ((x >> 8u32) & 0xFF) as u8 == ((y >> 8u32) & 0xFF) as u8
        && ((x >> 16u32) & 0xFF) as u8 == ((y >> 16u32) & 0xFF) as u8 && (x >> 24u32) as u8 == (y >> 24u32) as u8) ==> x == y) by (bit_vector);
}

proof fn lemma_i8_inj(x: i8, y: i8)
    requires
        x as u8 == y as u8,
    ensures
        x == y,
{
    assert(x as u8 == y as u8 ==> x == y) by (bit_vector);
}

proof fn lemma_i8_seq_inj(a: Seq<i8>, b: Seq<i8>)
    requires
        a.len() == b.len(),
        i8_bytes(a) == i8_bytes(b),
    ensures
        a == b,
{
    assert forall|i: int| 0 <= i < a.len() implies a[i] == b[i] by {
        assert(i8_bytes(a)[i] == i8_bytes(b)[i]);
        assert(i8_bytes(a)[i] == a[i] as u8 && i8_bytes(b)[i] == b[i] as u8);
        lemma_i8_inj(a[i], b[i]);
    }
    assert(a =~= b);
}

proof fn lemma_calib_inj(c: ChannelCalib, d: ChannelCalib)
    requires
        calib_bytes(c) == calib_bytes(d),
    ensures
        c == d,
{
    let bc = calib_bytes(c);
    let bd = calib_bytes(d);
    assert(bc.subrange(0, 2) =~= le16(c.min) && bd.subrange(0, 2) =~= le16(d.min));
    assert(bc.subrange(2, 4) =~= le16(c.center) && bd.subrange(2, 4) =~= le16(d.center));
    assert(bc.subrange(4, 6) =~= le16(c.max) && bd.subrange(4, 6) =~= le16(d.max));
    assert(bc.subrange(6, 8) =~= le16(c._pad) && bd.subrange(6, 8) =~= le16(d._pad));
    lemma_le16_inj(c.min, d.min);
    lemma_le16_inj(c.center, d.center);
    lemma_le16_inj(c.max, d.max);
    lemma_le16_inj(c._pad, d._pad);
}

proof fn lemma_mix_inj(x: MixLine, y: MixLine)
    requires
        mix_bytes(x) == mix_bytes(y),
    ensures
        x == y,
{
    assert(mix_bytes(x)[2] == mix_bytes(y)[2] && mix_bytes(x)[3] == mix_bytes(y)[3]);
    assert(mix_bytes(x)[0] == mix_bytes(y)[0] && mix_bytes(x)[1] == mix_bytes(y)[1]);
    assert(mix_bytes(x)[4] == mix_bytes(y)[4] && mix_bytes(x)[5] == mix_bytes(y)[5]);
    lemma_i8_inj(x.weight, y.weight);
    lemma_i8_inj(x.offset, y.offset);
}

/// An image holds one radio record only: decoding what was encoded gives
/// the record back.
pub proof fn lemma_radio_image_unique(r1: RadioConfig, r2: RadioConfig, b: Seq<u8>)
    requires
        radio_image(r1, b),
        radio_image(r2, b),
    ensures
        r1 == r2,
{
    broadcast use vstd::array::axiom_array_ext_equal;
    lemma_le32_inj(r1.magic, r2.magic);
    lemma_le32_inj(r1.version, r2.version);
    assert forall|i: int| 0 <= i < 4 implies #[trigger] r1.sticks@[i] == r2.sticks@[i] by {
        lemma_calib_inj(r1.sticks@[i], r2.sticks@[i]);
    }
    assert forall|i: int| 0 <= i < 2 implies #[trigger] r1.pots@[i] == r2.pots@[i] by {
        lemma_calib_inj(r1.pots@[i], r2.pots@[i]);
    }
    assert(r1.sticks@ =~= r2.sticks@);
    assert(r1.pots@ =~= r2.pots@);
    assert(r1._reserved@ =~= r2._reserved@);
    assert(r1.sticks == r2.sticks);
    assert(r1.pots == r2.pots);
    assert(r1._reserved == r2._reserved);
}

/// A radio record has one image only: encoding what was decoded gives the
/// bytes back.
pub proof fn lemma_radio_image_determined(r: RadioConfig, b1: Seq<u8>, b2: Seq<u8>)
    requires
        radio_image(r, b1),
        radio_image(r, b2),
    ensures
        b1 == b2,
{
    assert forall|k: int| 0 <= k < 128 implies b1[k] == b2[k] by {
        if k < 4 {
            assert(b1.subrange(0, 4)[k] == b2.subrange(0, 4)[k]);
        } else if k < 8 {
            assert(b1.subrange(4, 8)[k - 4] == b2.subrange(4, 8)[k - 4]);
        } else if 16 <= k < 48 {
            let i = (k - 16) / 8;
            assert(b1.subrange(16 + 8 * i, 24 + 8 * i) == calib_bytes(r.sticks@[i]));
            assert(b1.subrange(16 + 8 * i, 24 + 8 * i)[k - 16 - 8 * i] == b2.subrange(16 + 8 * i, 24 + 8 * i)[k - 16 - 8 * i]);
        } else if 48 <= k < 64 {
            let i = (k - 48) / 8;
            assert(b1.subrange(48 + 8 * i, 56 + 8 * i) == calib_bytes(r.pots@[i]));
            assert(b1.subrange(48 + 8 * i, 56 + 8 * i)[k - 48 - 8 * i] == b2.subrange(48 + 8 * i, 56 + 8 * i)[k - 48 - 8 * i]);
        } else if k >= 66 {
            assert(b1.subrange(66, 128)[k - 66] == b2.subrange(66, 128)[k - 66]);
        }
    }
    assert(b1 =~= b2);
}

proof fn lemma_same_range(b1: Seq<u8>, b2: Seq<u8>, lo: int, hi: int)
    requires
        0 <= lo <= hi <= b1.len(),
        hi <= b2.len(),
        b1.subrange(lo, hi) == b2.subrange(lo, hi),
    ensures
        forall|k: int| lo <= k < hi ==> b1[k] == b2[k],
{
    assert forall|k: int| lo <= k < hi implies b1[k] == b2[k] by {
        assert(b1[k] == b1.subrange(lo, hi)[k - lo]);
        assert(b2[k] == b2.subrange(lo, hi)[k - lo]);
    }
}

/// An image holds one model profile only: decoding what was encoded gives
/// the profile back.
pub proof fn lemma_model_image_unique(m1: ModelConfig, m2: ModelConfig, b: Seq<u8>)
    requires
        model_image(m1, b),
        model_image(m2, b),
    ensures
        m1 == m2,
{
    broadcast use vstd::array::axiom_array_ext_equal;
    lemma_le32_inj(m1.rx_id, m2.rx_id);
    lemma_le16_inj(m1.channel_reverse, m2.channel_reverse);
    lemma_le16_inj(m1.timer_secs, m2.timer_secs);
    lemma_le16_inj(m1.failsafe_thr, m2.failsafe_thr);
    lemma_i8_seq_inj(m1.trims@, m2.trims@);
    lemma_i8_seq_inj(m1.expo_high@, m2.expo_high@);
    lemma_i8_seq_inj(m1.expo_low@, m2.expo_low@);
    lemma_i8_inj(m1.template_diff, m2.template_diff);
    assert forall|i: int| 0 <= i < 8 implies #[trigger] m1.mixes@[i] == m2.mixes@[i] by {
        lemma_mix_inj(m1.mixes@[i], m2.mixes@[i]);
    }
    assert(m1.mixes@ =~= m2.mixes@);
    assert(m1.name@ =~= m2.name@);
    assert(m1.thr_curve@ =~= m2.thr_curve@);
    assert(m1.dr_high@ =~= m2.dr_high@);
    assert(m1.dr_low@ =~= m2.dr_low@);
    assert(m1.aux_channels@ =~= m2.aux_channels@);
    assert(m1._reserved@ =~= m2._reserved@);
    assert(m1.name == m2.name);
    assert(m1.trims == m2.trims);
    assert(m1.thr_curve == m2.thr_curve);
    assert(m1.dr_high == m2.dr_high);
    assert(m1.dr_low == m2.dr_low);
    assert(m1.expo_high == m2.expo_high);
    assert(m1.expo_low == m2.expo_low);
    assert(m1.aux_channels == m2.aux_channels);
    assert(m1.mixes == m2.mixes);
    assert(m1._reserved == m2._reserved);
}

/// A model profile has one image only: encoding what was decoded gives the
/// bytes back.
pub proof fn lemma_model_image_determined(m: ModelConfig, b1: Seq<u8>, b2: Seq<u8>)
    requires
        model_image(m, b1),
        model_image(m, b2),
    ensures
        b1 == b2,
{
    lemma_same_range(b1, b2, 0, 10);
    lemma_same_range(b1, b2, 12, 16);
    lemma_same_range(b1, b2, 16, 20);
    lemma_same_range(b1, b2, 20, 22);
    lemma_same_range(b1, b2, 25, 34);
    lemma_same_range(b1, b2, 34, 37);
    lemma_same_range(b1, b2, 37, 40);
    lemma_same_range(b1, b2, 40, 43);
    lemma_same_range(b1, b2, 43, 46);
    lemma_same_range(b1, b2, 46, 48);
    lemma_same_range(b1, b2, 50, 52);
    lemma_same_range(b1, b2, 52, 62);
    lemma_same_range(b1, b2, 117, 128);
    assert forall|k: int| 64 <= k < 112 implies b1[k] == b2[k] by {
        let i = (k - 64) / 6;
        assert(64 + 6 * i <= k < 70 + 6 * i);
        assert(b1.subrange(64 + 6 * i, 70 + 6 * i) == mix_bytes(m.mixes@[i]));
        lemma_same_range(b1, b2, 64 + 6 * i, 70 + 6 * i);
    }
    assert(b1 =~= b2);
}

fn push16(v: &mut Vec<u8>, x: u16)
    ensures
        final(v)@ == old(v)@ + le16(x),
{
    v.push((x & 0xFF) as u8);
    v.push((x >> 8) as u8);
    assert(v@ =~= old(v)@ + le16(x));
}

fn push32(v: &mut Vec<u8>, x: u32)
    ensures
        final(v)@ == old(v)@ + le32(x),
{
    v.push((x & 0xFF) as u8);
    v.push(((x >> 8) & 0xFF) as u8);
    v.push(((x >> 16) & 0xFF) as u8);
    v.push((x >> 24) as u8);
    assert(v@ =~= old(v)@ + le32(x));
}

fn push_bytes(v: &mut Vec<u8>, src: &[u8])
    ensures
        final(v)@ == old(v)@ + src@,
{
    let mut i: usize = 0;
    while i < src.len()
        invariant
            i <= src@.len(),
            v@ == old(v)@ + src@.subrange(0, i as int),
        decreases src@.len() - i,
    {
        v.push(src[i]);
        i += 1;
        assert(v@ =~= old(v)@ + src@.subrange(0, i as int));
    }
    assert(src@.subrange(0, src@.len() as int) =~= src@);
}

fn push_i8s(v: &mut Vec<u8>, src: &[i8])
    ensures
        final(v)@ == old(v)@ + i8_bytes(src@),
{
    let mut i: usize = 0;
    while i < src.len()
        invariant
            i <= src@.len(),
            v@ == old(v)@ + i8_bytes(src@.subrange(0, i as int)),
        decreases src@.len() - i,
    {
        v.push(src[i] as u8);
        i += 1;
        assert(v@ =~= old(v)@ + i8_bytes(src@.subrange(0, i as int)));
    }
    assert(src@.subrange(0, src@.len() as int) =~= src@);
}

fn push_calib(v: &mut Vec<u8>, c: ChannelCalib)
    ensures
        final(v)@ == old(v)@ + calib_bytes(c),
{
    push16(v, c.min);
    push16(v, c.center);
    push16(v, c.max);
    push16(v, c._pad);
    assert(v@ =~= old(v)@ + calib_bytes(c));
}

fn push_mix(v: &mut Vec<u8>, x: MixLine)
    ensures
        final(v)@ == old(v)@ + mix_bytes(x),
{
    v.push(x.target_ch);
    v.push(x.source);
    v.push(x.weight as u8);
    v.push(x.offset as u8);
    v.push(x.switch);
    v.push(x.mode);
    assert(v@ =~= old(v)@ + mix_bytes(x));
}

fn get16(b: &[u8], at: usize) -> (x: u16)
    requires
        at + 2 <= b.len(),
    ensures
        le16(x) == b@.subrange(at as int, at + 2),
{
    let lo = b[at];
    let hi = b[at + 1];
    let x = (lo as u16) | ((hi as u16) << 8);
    assert((x & 0xFF) as u8 == lo && (x >> 8u16) as u8 == hi) by (bit_vector)
        requires x == (lo as u16) | ((hi as u16) << 8u16);
    assert(le16(x) =~= b@.subrange(at as int, at + 2));
    x
}

fn get32(b: &[u8], at: usize) -> (x: u32)
    requires
        at + 4 <= b.len(),
    ensures
        le32(x) == b@.subrange(at as int, at + 4),
{
    let b0 = b[at];
    let b1 = b[at + 1];
    let b2 = b[at + 2];
    let b3 = b[at + 3];
    let x = (b0 as u32) | ((b1 as u32) << 8) | ((b2 as u32) << 16) | ((b3 as u32) << 24);
    assert((x & 0xFF) as u8 == b0 && ((x >> 8u32) & 0xFF) as u8 == b1 && ((x >> 16u32) & 0xFF) as u8 == b2
        && (x >> 24u32) as u8 == b3) by (bit_vector)
        requires x == (b0 as u32) | ((b1 as u32) << 8u32) | ((b2 as u32) << 16u32) | ((b3 as u32) << 24u32);
    assert(le32(x) =~= b@.subrange(at as int, at + 4));
    x
}

pub(crate) fn get_calib(b: &[u8], at: usize) -> (c: ChannelCalib)
    requires
        at + 8 <= b.len(),
    ensures
        calib_bytes(c) == b@.subrange(at as int, at + 8),
{
    let c = ChannelCalib { min: get16(b, at), center: get16(b, at + 2), max: get16(b, at + 4), _pad: get16(b, at + 6) };
    assert(calib_bytes(c) =~= b@.subrange(at as int, at + 8));
    c
}

fn get_mix(b: &[u8], at: usize) -> (x: MixLine)
    requires
        at + 6 <= b.len(),
    ensures
        mix_bytes(x) == b@.subrange(at as int, at + 6),
{
    let w = b[at + 2];
    let o = b[at + 3];
    let x = MixLine { target_ch: b[at], source: b[at + 1], weight: #[verifier::truncate] (w as i8), offset: #[verifier::truncate] (o as i8), switch: b[at + 4], mode: b[at + 5] };
    assert((w as i8) as u8 == w && (o as i8) as u8 == o) by (bit_vector);
    assert(mix_bytes(x) =~= b@.subrange(at as int, at + 6));
    x
}

pub(crate) fn get_bytes(b: &[u8], at: usize, dst: &mut [u8])
    requires
        at + old(dst)@.len() <= b.len(),
    ensures
        final(dst)@ == b@.subrange(at as int, at + old(dst)@.len()),
{
    let n = dst.len();
    let mut i: usize = 0;
    while i < n
        invariant
            n == dst@.len(),
            i <= n,
            at + n <= b.len(),
            forall|k: int| 0 <= k < i ==> dst@[k] == b@[at + k],
        decreases n - i,
    {
        dst[i] = b[at + i];
        i += 1;
    }
    assert(dst@ =~= b@.subrange(at as int, at + n));
}

fn get_i8s(b: &[u8], at: usize, dst: &mut [i8])
    requires
        at + old(dst)@.len() <= b.len(),
    ensures
        i8_bytes(final(dst)@) == b@.subrange(at as int, at + old(dst)@.len()),
        final(dst)@.len() == old(dst)@.len(),
{
    let n = dst.len();
    let mut i: usize = 0;
    while i < n
        invariant
            n == dst@.len(),
            i <= n,
            at + n <= b.len(),
            forall|k: int| 0 <= k < i ==> dst@[k] as u8 == b@[at + k],
        decreases n - i,
    {
        let v = b[at + i];
        dst[i] = #[verifier::truncate] (v as i8);
        assert((v as i8) as u8 == v) by (bit_vector);
        i += 1;
    }
    assert(i8_bytes(dst@) =~= b@.subrange(at as int, at + n));
}

impl RadioConfig {
    /// The stored image of these settings.
    pub fn to_bytes(&self) -> (b: Vec<u8>)
        ensures
            radio_image(*self, b@),
    {
        let mut v: Vec<u8> = Vec::new();
        push32(&mut v, self.magic);
        push32(&mut v, self.version);
        v.push(self.active_model);
        v.push(self.throttle_trim);
        v.push(self.audio_enabled);
        v.push(self.backlight_timeout);
        v.push(self.backlight_brightness);
        v.push(self.vbat_warn_deci);
        v.push(self.lcd_contrast);
        v.push(self.usb_mode);
        let ghost h = v@;
        assert(h.subrange(0, 4) =~= le32(self.magic));
        assert(h.subrange(4, 8) =~= le32(self.version));
        let mut i: usize = 0;
        while i < 4
            invariant
                i <= 4,
                h.len() == 16,
                v@.len() == 16 + 8 * i,
                v@.subrange(0, 16) == h,
                forall|k: int| 0 <= k < i ==> v@.subrange(16 + 8 * k, 24 + 8 * k) == calib_bytes(#[trigger] self.sticks@[k]),
            decreases 4 - i,
        {
            let ghost before = v@;
            push_calib(&mut v, self.sticks[i]);
            assert forall|k: int| 0 <= k <= i implies v@.subrange(16 + 8 * k, 24 + 8 * k) == calib_bytes(#[trigger] self.sticks@[k]) by {
                assert(v@.subrange(16 + 8 * k, 24 + 8 * k) =~= if k < i { before.subrange(16 + 8 * k, 24 + 8 * k) } else { calib_bytes(self.sticks@[k]) });
            }
            assert(v@.subrange(0, 16) =~= before.subrange(0, 16));
            i += 1;
        }
        let ghost h2 = v@;
        let mut j: usize = 0;
        while j < 2
            invariant
                j <= 2,
                h2.len() == 48,
                v@.len() == 48 + 8 * j,
                v@.subrange(0, 48) == h2,
                forall|k: int| 0 <= k < j ==> v@.subrange(48 + 8 * k, 56 + 8 * k) == calib_bytes(#[trigger] self.pots@[k]),
            decreases 2 - j,
        {
            let ghost before = v@;
            push_calib(&mut v, self.pots[j]);
            assert forall|k: int| 0 <= k <= j implies v@.subrange(48 + 8 * k, 56 + 8 * k) == calib_bytes(#[trigger] self.pots@[k]) by {
                assert(v@.subrange(48 + 8 * k, 56 + 8 * k) =~= if k < j { before.subrange(48 + 8 * k, 56 + 8 * k) } else { calib_bytes(self.pots@[k]) });
            }
            assert(v@.subrange(0, 48) =~= before.subrange(0, 48));
            j += 1;
        }
        let ghost h3 = v@;
        v.push(self.ext_module_pwr);
        v.push(self.tone_style);
        push_bytes(&mut v, &self._reserved);
        assert(v@.subrange(0, 48) =~= h3.subrange(0, 48));
        assert(v@.subrange(0, 16) =~= h);
        assert forall|k: int| 0 <= k < 4 implies v@.subrange(16 + 8 * k, 24 + 8 * k) == calib_bytes(#[trigger] self.sticks@[k]) by {
            assert(v@.subrange(16 + 8 * k, 24 + 8 * k) =~= h2.subrange(16 + 8 * k, 24 + 8 * k));
        }
        assert forall|k: int| 0 <= k < 2 implies v@.subrange(48 + 8 * k, 56 + 8 * k) == calib_bytes(#[trigger] self.pots@[k]) by {
            assert(v@.subrange(48 + 8 * k, 56 + 8 * k) =~= h3.subrange(48 + 8 * k, 56 + 8 * k));
        }
        assert(v@.subrange(0, 4) =~= h.subrange(0, 4));
        assert(v@.subrange(4, 8) =~= h.subrange(4, 8));
        assert(v@[8] == h[8] && v@[9] == h[9] && v@[10] == h[10] && v@[11] == h[11]);
        assert(v@[12] == h[12] && v@[13] == h[13] && v@[14] == h[14] && v@[15] == h[15]);
        assert(v@.subrange(66, 128) =~= self._reserved@);
        v
    }

    /// The settings stored in an image.
    pub fn from_bytes(b: &[u8; 128]) -> (r: Self)
        ensures
            radio_image(r, b@),
    {
        let s0 = get_calib(b, 16);
        let s1 = get_calib(b, 24);
        let s2 = get_calib(b, 32);
        let s3 = get_calib(b, 40);
        let p0 = get_calib(b, 48);
        let p1 = get_calib(b, 56);
        let mut reserved = [0u8; 62];
        get_bytes(b, 66, &mut reserved);
        let r = RadioConfig {
            magic: get32(b, 0),
            version: get32(b, 4),
            active_model: b[8],
            throttle_trim: b[9],
            audio_enabled: b[10],
            backlight_timeout: b[11],
            backlight_brightness: b[12],
            vbat_warn_deci: b[13],
            lcd_contrast: b[14],
            usb_mode: b[15],
            sticks: [s0, s1, s2, s3],
            pots: [p0, p1],
            ext_module_pwr: b[64],
            tone_style: b[65],
            _reserved: reserved,
        };
        assert forall|i: int| 0 <= i < 4 implies b@.subrange(16 + 8 * i, 24 + 8 * i) == calib_bytes(#[trigger] r.sticks@[i]) by {
            if i == 0 {} else if i == 1 {} else if i == 2 {} else {}
        }
        assert forall|i: int| 0 <= i < 2 implies b@.subrange(48 + 8 * i, 56 + 8 * i) == calib_bytes(#[trigger] r.pots@[i]) by {
            if i == 0 {} else {}
        }
        r
    }
}

/// Stored bytes of the first `k` mix rules.
pub open spec fn mixes_bytes(ms: Seq<MixLine>, k: int) -> Seq<u8>
    decreases k,
{
    if k <= 0 {
        seq![]
    } else {
        mixes_bytes(ms, k - 1) + mix_bytes(ms[k - 1])
    }
}

proof fn lemma_mixes_bytes(ms: Seq<MixLine>, k: int)
    requires
        0 <= k,
    ensures
        mixes_bytes(ms, k).len() == 6 * k,
        forall|i: int| 0 <= i < k ==> mixes_bytes(ms, k).subrange(6 * i, 6 * i + 6) == mix_bytes(#[trigger] ms[i]),
    decreases k,
{
    if k > 0 {
        lemma_mixes_bytes(ms, k - 1);
        let a = mixes_bytes(ms, k - 1);
        assert forall|i: int| 0 <= i < k implies mixes_bytes(ms, k).subrange(6 * i, 6 * i + 6) == mix_bytes(#[trigger] ms[i]) by {
            if i < k - 1 {
                assert(mixes_bytes(ms, k).subrange(6 * i, 6 * i + 6) =~= a.subrange(6 * i, 6 * i + 6));
            } else {
                assert(mixes_bytes(ms, k).subrange(6 * i, 6 * i + 6) =~= mix_bytes(ms[i]));
            }
        }
    }
}

/// The stored bytes of a model profile, field after field.
pub open spec fn model_bytes(m: ModelConfig) -> Seq<u8> {
    m.name@ + seq![m.model_type, m._pad0] + le32(m.rx_id) + i8_bytes(m.trims@) + le16(m.channel_reverse)
        + seq![m.dr_switch, m.thr_curve_pts, m.thr_curve_smooth] + m.thr_curve@ + m.dr_high@ + m.dr_low@
        + i8_bytes(m.expo_high@) + i8_bytes(m.expo_low@) + le16(m.timer_secs) + seq![m.timer_source, m.protocol_subtype]
        + le16(m.failsafe_thr) + m.aux_channels@ + seq![m.wing_tail_mix, m.template_diff as u8]
        + mixes_bytes(m.mixes@, 8)
        + seq![m.failsafe_mode, m.failsafe_timeout, m.rf_protocol, m.crsf_baud, m.arm_switch] + m._reserved@
}

proof fn lemma_model_bytes_image(m: ModelConfig)
    ensures
        model_image(m, model_bytes(m)),
{
    lemma_mixes_bytes(m.mixes@, 8);
    let b = model_bytes(m);
    let mb = mixes_bytes(m.mixes@, 8);
    assert(b.len() == 128);
    assert(b.subrange(0, 10) =~= m.name@);
    assert(b.subrange(12, 16) =~= le32(m.rx_id));
    assert(b.subrange(16, 20) =~= i8_bytes(m.trims@));
    assert(b.subrange(20, 22) =~= le16(m.channel_reverse));
    assert(b.subrange(25, 34) =~= m.thr_curve@);
    assert(b.subrange(34, 37) =~= m.dr_high@);
    assert(b.subrange(37, 40) =~= m.dr_low@);
    assert(b.subrange(40, 43) =~= i8_bytes(m.expo_high@));
    assert(b.subrange(43, 46) =~= i8_bytes(m.expo_low@));
    assert(b.subrange(46, 48) =~= le16(m.timer_secs));
    assert(b.subrange(50, 52) =~= le16(m.failsafe_thr));
    assert(b.subrange(52, 62) =~= m.aux_channels@);
    assert(b.subrange(64, 112) =~= mb);
    assert forall|i: int| 0 <= i < 8 implies b.subrange(64 + 6 * i, 70 + 6 * i) == mix_bytes(#[trigger] m.mixes@[i]) by {
        assert(b.subrange(64 + 6 * i, 70 + 6 * i) =~= mb.subrange(6 * i, 6 * i + 6));
    }
    assert(b.subrange(117, 128) =~= m._reserved@);
}

impl ModelConfig {
    /// The stored image of this profile.
    pub fn to_bytes(&self) -> (b: Vec<u8>)
        ensures
            model_image(*self, b@),
    {
        let mut v: Vec<u8> = Vec::new();
        push_bytes(&mut v, &self.name);
        v.push(self.model_type);
        v.push(self._pad0);
        push32(&mut v, self.rx_id);
        push_i8s(&mut v, &self.trims);
        push16(&mut v, self.channel_reverse);
        v.push(self.dr_switch);
        v.push(self.thr_curve_pts);
        v.push(self.thr_curve_smooth);
        push_bytes(&mut v, &self.thr_curve);
        push_bytes(&mut v, &self.dr_high);
        push_bytes(&mut v, &self.dr_low);
        push_i8s(&mut v, &self.expo_high);
        push_i8s(&mut v, &self.expo_low);
        push16(&mut v, self.timer_secs);
        v.push(self.timer_source);
        v.push(self.protocol_subtype);
        push16(&mut v, self.failsafe_thr);
        push_bytes(&mut v, &self.aux_channels);
        v.push(self.wing_tail_mix);
        v.push(self.template_diff as u8);
        let ghost head = v@;
        let mut i: usize = 0;
        while i < 8
            invariant
                i <= 8,
                v@ == head + mixes_bytes(self.mixes@, i as int),
            decreases 8 - i,
        {
            push_mix(&mut v, self.mixes[i]);
            i += 1;
            assert(v@ =~= head + mixes_bytes(self.mixes@, i as int));
        }
        v.push(self.failsafe_mode);
        v.push(self.failsafe_timeout);
        v.push(self.rf_protocol);
        v.push(self.crsf_baud);
        v.push(self.arm_switch);
        push_bytes(&mut v, &self._reserved);
        assert(v@ =~= model_bytes(*self));
        proof { lemma_model_bytes_image(*self); }
        v
    }

    /// The profile stored in an image.
    pub fn from_bytes(b: &[u8; 128]) -> (m: Self)
        ensures
            model_image(m, b@),
    {
        let mut name = [0u8; 10];
        get_bytes(b, 0, &mut name);
        let mut trims = [0i8; 4];
        get_i8s(b, 16, &mut trims);
        let mut thr_curve = [0u8; 9];
        get_bytes(b, 25, &mut thr_curve);
        let mut dr_high = [0u8; 3];
        get_bytes(b, 34, &mut dr_high);
        let mut dr_low = [0u8; 3];
        get_bytes(b, 37, &mut dr_low);
        let mut expo_high = [0i8; 3];
        get_i8s(b, 40, &mut expo_high);
        let mut expo_low = [0i8; 3];
        get_i8s(b, 43, &mut expo_low);
        let mut aux = [0u8; 10];
        get_bytes(b, 52, &mut aux);
        let mut reserved = [0u8; 11];
        get_bytes(b, 117, &mut reserved);
        let td = b[63];
        assert((td as i8) as u8 == td) by (bit_vector);
        let mixes = [
            get_mix(b, 64),
            get_mix(b, 70),
            get_mix(b, 76),
            get_mix(b, 82),
            get_mix(b, 88),
            get_mix(b, 94),
            get_mix(b, 100),
            get_mix(b, 106),
        ];
        let m = ModelConfig {
            name,
            model_type: b[10],
            _pad0: b[11],
            rx_id: get32(b, 12),
            trims,
            channel_reverse: get16(b, 20),
            dr_switch: b[22],
            thr_curve_pts: b[23],
            thr_curve_smooth: b[24],
            thr_curve,
            dr_high,
            dr_low,
            expo_high,
            expo_low,
            timer_secs: get16(b, 46),
            timer_source: b[48],
            protocol_subtype: b[49],
            failsafe_thr: get16(b, 50),
            aux_channels: aux,
            wing_tail_mix: b[62],
            template_diff: #[verifier::truncate] (td as i8),
            mixes,
            failsafe_mode: b[112],
            failsafe_timeout: b[113],
            rf_protocol: b[114],
            crsf_baud: b[115],
            arm_switch: b[116],
            _reserved: reserved,
        };
        assert forall|i: int| 0 <= i < 8 implies b@.subrange(64 + 6 * i, 70 + 6 * i) == mix_bytes(#[trigger] m.mixes@[i]) by {
            if i == 0 {} else if i == 1 {} else if i == 2 {} else if i == 3 {} else if i == 4 {} else if i == 5 {} else if i == 6 {} else {}
        }
        m
    }
}

/// Encoding settings and decoding the image gives the settings back, and
/// decoding an image and encoding the settings gives the image back.
pub proof fn lemma_radio_image_roundtrip(r: RadioConfig, b: Seq<u8>, r2: RadioConfig, b2: Seq<u8>)
    requires
        radio_image(r, b),
        radio_image(r2, b),
        radio_image(r2, b2),
    ensures
        r2 == r,
        b2 == b,
{
    lemma_radio_image_unique(r, r2, b);
    lemma_radio_image_determined(r2, b, b2);
}

/// Encoding a profile and decoding the image gives the profile back, and
/// decoding an image and encoding the profile gives the image back.
pub proof fn lemma_model_image_roundtrip(m: ModelConfig, b: Seq<u8>, m2: ModelConfig, b2: Seq<u8>)
    requires
        model_image(m, b),
        model_image(m2, b),
        model_image(m2, b2),
    ensures
        m2 == m,
        b2 == b,
{
    lemma_model_image_unique(m, m2, b);
    lemma_model_image_determined(m2, b, b2);
}

/// Little-endian 32-bit word at `at`.
pub open spec fn le32_at(b: Seq<u8>, at: int) -> u32 {
    (b[at] as int + b[at + 1] as int * 256 + b[at + 2] as int * 65536 + b[at + 3] as int * 16777216) as u32
}

/// Read the little-endian 32-bit word at `at`.
pub fn read_le32(b: &[u8], at: usize) -> (w: u32)
    requires
        at + 4 <= b.len(),
    ensures
        w == le32_at(b@, at as int),
{
    b[at] as u32 + (b[at + 1] as u32) * 256 + (b[at + 2] as u32) * 65536 + (b[at + 3] as u32) * 16777216
}

} // verus!
