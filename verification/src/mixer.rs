//! Flight control input conditioning and the 14-channel mixer: dual rates and
//! cubic expo, wing/tail templates, auxiliary channel sources, the freeform
//! matrix mixer (add, multiply, replace), trims and channel reversing.
use vstd::prelude::*;
use crate::arith::{clamp, clamp_i32, tdiv};
use crate::input::{SwitchPos, Switches};
use crate::storage::{MixLine, ModelConfig};
use crate::trim::{self, TrimController};

verus! {

pub const NUM_CHANNELS: usize = 14;

pub const MIXER_MIN: i16 = -1000;
pub const MIXER_CENTER: i16 = 0;
pub const MIXER_MAX: i16 = 1000;

pub const CHANNEL_MIN_US: u16 = 988;
pub const CHANNEL_CENTER_US: u16 = 1500;
pub const CHANNEL_MAX_US: u16 = 2012;
pub const CHANNEL_SPAN_US: u32 = 1024;
pub const CHANNEL_HALF_SPAN_US: i32 = 512;
pub const CHANNEL_REVERSE_SUM: u16 = 3000;

/// Physical source identifiers for auxiliary channels and mix lines
/// (12..=25 stand for channels 1..=14).
#[derive(Copy, Clone, Debug, PartialEq, Eq, Structural)]
pub enum MixSource {
    NoSource,
    Roll,
    Pitch,
    Throttle,
    Yaw,
    Vra,
    Vrb,
    Sa,
    Sb,
    Sc,
    Sd,
    Max,
}

/// Wing and tail mixing templates.
#[derive(Copy, Clone, Debug, PartialEq, Eq, Structural)]
pub enum WingTailTemplate {
    Normal,
    Elevon,
    VTail,
    Flaperon,
}

/// The template a stored code selects; unknown codes mean Normal.
pub open spec fn template_of(val: u8) -> WingTailTemplate {
    if val == 1 {
        WingTailTemplate::Elevon
    } else if val == 2 {
        WingTailTemplate::VTail
    } else if val == 3 {
        WingTailTemplate::Flaperon
    } else {
        WingTailTemplate::Normal
    }
}

impl WingTailTemplate {
    pub fn from_u8(val: u8) -> (t: Self)
        ensures
            t == template_of(val),
    {
        match val {
            1 => WingTailTemplate::Elevon,
            2 => WingTailTemplate::VTail,
            3 => WingTailTemplate::Flaperon,
            _ => WingTailTemplate::Normal,
        }
    }
}

/// The rate-scaled stick value (rate limited to 30..=100 percent).
pub open spec fn rated(input: int, rate: int) -> int {
    tdiv(input * clamp(rate, 30, 100), 100)
}

/// Inputs for which the cubic expo term fits in 32 bits.
pub open spec fn dr_expo_defined(input: int, rate: int, expo: int) -> bool {
    expo == 0 || (-1290 <= rated(input, rate) <= 1290)
}

/// Dual rate and cubic expo: positive expo blends toward the cubic curve
/// (softer center), negative expo away from it (sharper center).
pub open spec fn dr_expo(input: int, rate: int, expo: int) -> int {
    let x = rated(input, rate);
    if expo == 0 {
        clamp(x, -1000, 1000)
    } else {
        let e = clamp(expo, -100, 100);
        let cubic = tdiv(x * x * x, 1_000_000);
        let res = if e > 0 {
            tdiv(x * (100 - e) + cubic * e, 100)
        } else {
            x + tdiv((x - cubic) * (-e), 100)
        };
        clamp(res, -1000, 1000)
    }
}

/// Apply dual rate and integer cubic expo to a normalized stick input.
pub fn apply_dr_expo(input: i16, rate: u8, expo: i8) -> (r: i16)
    requires
        dr_expo_defined(input as int, rate as int, expo as int),
    ensures
        r as int == dr_expo(input as int, rate as int, expo as int),
        -1000 <= r <= 1000,
{
    let rate_clamped: i32 = if rate < 30 { 30 } else if rate > 100 { 100 } else { rate as i32 };
    assert(-3276800 <= (input as i32) * rate_clamped <= 3276700) by (nonlinear_arith)
        requires
            30 <= rate_clamped <= 100,
    ;
    let x = ((input as i32) * rate_clamped) / 100;
    if expo == 0 {
        return clamp_i32(x, -1000, 1000) as i16;
    }
    let expo_val: i32 = if expo < -100 { -100 } else if expo > 100 { 100 } else { expo as i32 };
    assert(-2147483648 <= x * x * x <= 2147483647) by (nonlinear_arith)
        requires
            -1290 <= x <= 1290,
    ;
    assert(-1664100 <= x * x <= 1664100) by (nonlinear_arith)
        requires
            -1290 <= x <= 1290,
    ;
    let x_cubic = (x * x * x) / 1_000_000;
    assert(-2148 <= x_cubic <= 2148);
    let result = if expo_val > 0 {
        assert(-258000 <= x * (100 - expo_val) <= 258000) by (nonlinear_arith)
            requires
                -1290 <= x <= 1290,
                0 < expo_val <= 100,
        ;
        assert(-2148 <= x_cubic <= 2148);
        assert(-214800 <= x_cubic * expo_val <= 214800) by (nonlinear_arith)
            requires
                -2148 <= x_cubic <= 2148,
                0 < expo_val <= 100,
        ;
        (x * (100 - expo_val) + x_cubic * expo_val) / 100
    } else {
        let abs_expo = -expo_val;
        assert(-3500 <= x - x_cubic <= 3500);
        assert(-350000 <= (x - x_cubic) * abs_expo <= 350000) by (nonlinear_arith)
            requires
                -3500 <= x - x_cubic <= 3500,
                0 <= abs_expo <= 100,
        ;
        x + ((x - x_cubic) * abs_expo) / 100
    };
    clamp_i32(result, -1000, 1000) as i16
}

/// Whether a switch condition code holds: 0 always, then SA up/down,
/// SB up/mid/down, SC up/mid/down, SD up/down; unknown codes hold too.
pub open spec fn switch_active(condition: u8, s: Switches) -> bool {
    if condition == 1 {
        s.sa == SwitchPos::Up
    } else if condition == 2 {
        s.sa == SwitchPos::Down
    } else if condition == 3 {
        s.sb == SwitchPos::Up
    } else if condition == 4 {
        s.sb == SwitchPos::Mid
    } else if condition == 5 {
        s.sb == SwitchPos::Down
    } else if condition == 6 {
        s.sc == SwitchPos::Up
    } else if condition == 7 {
        s.sc == SwitchPos::Mid
    } else if condition == 8 {
        s.sc == SwitchPos::Down
    } else if condition == 9 {
        s.sd == SwitchPos::Up
    } else if condition == 10 {
        s.sd == SwitchPos::Down
    } else {
        true
    }
}

/// Check if a physical switch satisfies a mixer line activation condition.
pub fn is_switch_active(condition: u8, switches: &Switches) -> (b: bool)
    ensures
        b == switch_active(condition, *switches),
{
    match condition {
        0 => true,
        1 => switches.sa == SwitchPos::Up,
        2 => switches.sa == SwitchPos::Down,
        3 => switches.sb == SwitchPos::Up,
        4 => switches.sb == SwitchPos::Mid,
        5 => switches.sb == SwitchPos::Down,
        6 => switches.sc == SwitchPos::Up,
        7 => switches.sc == SwitchPos::Mid,
        8 => switches.sc == SwitchPos::Down,
        9 => switches.sd == SwitchPos::Up,
        10 => switches.sd == SwitchPos::Down,
        _ => true,
    }
}

/// High rates are active when no switch is assigned, or the assigned
/// switch (SA, SB, SC, SD for 1..=4) is up; unknown codes mean high.
pub open spec fn dr_high(dr_switch: u8, s: Switches) -> bool {
    if dr_switch == 1 {
        s.sa == SwitchPos::Up
    } else if dr_switch == 2 {
        s.sb == SwitchPos::Up
    } else if dr_switch == 3 {
        s.sc == SwitchPos::Up
    } else if dr_switch == 4 {
        s.sd == SwitchPos::Up
    } else {
        true
    }
}

/// Determine whether High Rates (true) or Low Rates (false) are active.
pub fn is_dr_high(dr_switch: u8, switches: &Switches) -> (b: bool)
    ensures
        b == dr_high(dr_switch, *switches),
{
    match dr_switch {
        0 => true,
        1 => switches.sa == SwitchPos::Up,
        2 => switches.sb == SwitchPos::Up,
        3 => switches.sc == SwitchPos::Up,
        4 => switches.sd == SwitchPos::Up,
        _ => true,
    }
}

/// -1000, 0 or +1000 for a switch position (up, mid, down).
pub open spec fn three_pos_value(p: SwitchPos) -> int {
    match p {
        SwitchPos::Up => -1000,
        SwitchPos::Mid => 0,
        SwitchPos::Down => 1000,
    }
}

/// The value of a source: conditioned sticks, pots, switches (two-position
/// switches give -1000 when up and +1000 otherwise), full scale, or the
/// current value of channel `src - 11`; unknown sources give 0.
pub open spec fn source_value(src: u8, cond: Seq<i16>, pots: Seq<i16>, s: Switches, chans: Seq<i32>) -> int {
    if src == 1 {
        cond[0] as int
    } else if src == 2 {
        cond[1] as int
    } else if src == 3 {
        cond[2] as int
    } else if src == 4 {
        cond[3] as int
    } else if src == 5 {
        pots[0] as int
    } else if src == 6 {
        pots[1] as int
    } else if src == 7 {
        if s.sa == SwitchPos::Up { -1000 } else { 1000 }
    } else if src == 8 {
        three_pos_value(s.sb)
    } else if src == 9 {
        three_pos_value(s.sc)
    } else if src == 10 {
        if s.sd == SwitchPos::Up { -1000 } else { 1000 }
    } else if src == 11 {
        1000
    } else if 12 <= src <= 25 {
        chans[src - 12] as int
    } else {
        0
    }
}

/// Evaluate a source identifier to its current value.
pub fn evaluate_source(
    src: u8,
    cond_sticks: &[i16; 4],
    pots: &[i16; 2],
    switches: &Switches,
    channels: &[i32; 14],
) -> (v: i32)
    ensures
        v as int == source_value(src, cond_sticks@, pots@, *switches, channels@),
{
    match src {
        0 => 0,
        1 => cond_sticks[0] as i32,
        2 => cond_sticks[1] as i32,
        3 => cond_sticks[2] as i32,
        4 => cond_sticks[3] as i32,
        5 => pots[0] as i32,
        6 => pots[1] as i32,
        7 => if switches.sa == SwitchPos::Up { -1000 } else { 1000 },
        8 => match switches.sb {
            SwitchPos::Up => -1000,
            SwitchPos::Mid => 0,
            SwitchPos::Down => 1000,
        },
        9 => match switches.sc {
            SwitchPos::Up => -1000,
            SwitchPos::Mid => 0,
            SwitchPos::Down => 1000,
        },
        10 => if switches.sd == SwitchPos::Up { -1000 } else { 1000 },
        11 => 1000,
        12..=25 => channels[(src - 12) as usize],
        _ => 0,
    }
}

/// Every value lies in the mixer range.
pub open spec fn in_mixer_range(s: Seq<i32>) -> bool {
    forall|i: int| 0 <= i < s.len() ==> -1000 <= #[trigger] s[i] <= 1000
}

/// Every value lies in the mixer range.
pub open spec fn in_mixer_range16(s: Seq<i16>) -> bool {
    forall|i: int| 0 <= i < s.len() ==> -1000 <= #[trigger] s[i] <= 1000
}

/// Every value fits in 16 bits (aux channels copied from a pot can leave
/// the mixer range).
pub open spec fn in_i16_range(s: Seq<i32>) -> bool {
    forall|i: int| 0 <= i < s.len() ==> -32768 <= #[trigger] s[i] <= 32767
}

/// `v` limited to the mixer range, as a 32-bit value.
pub open spec fn mix_clamp(v: int) -> i32 {
    clamp(v, -1000, 1000) as i32
}

/// Channel values after the wing/tail template, before auxiliary sources.
pub open spec fn template_values(template: u8, aux_flap: u8, cond: Seq<i16>, pots: Seq<i16>, s: Switches) -> Seq<i32> {
    let zero = Seq::new(14, |i: int| 0i32);
    let r = cond[0] as int;
    let p = cond[1] as int;
    let t = cond[2] as int;
    let y = cond[3] as int;
    let tpl = template_of(template);
    if tpl == WingTailTemplate::Elevon {
        zero.update(0, mix_clamp(p - r)).update(1, mix_clamp(p + r)).update(2, t as i32).update(3, y as i32)
    } else if tpl == WingTailTemplate::VTail {
        zero.update(0, r as i32).update(1, mix_clamp(p + y)).update(2, t as i32).update(3, mix_clamp(p - y))
    } else if tpl == WingTailTemplate::Flaperon {
        let flap = source_value(aux_flap, cond, pots, s, zero);
        zero.update(0, mix_clamp(r + tdiv(flap, 2))).update(1, p as i32).update(2, t as i32)
            .update(3, y as i32).update(5, mix_clamp(-r + tdiv(flap, 2)))
    } else {
        zero.update(0, r as i32).update(1, p as i32).update(2, t as i32).update(3, y as i32)
    }
}

/// Channel values after the first `k` auxiliary sources (CH5 onward) were
/// applied in order; with the Flaperon template CH6 is left to the template.
pub open spec fn after_aux(m: ModelConfig, cond: Seq<i16>, pots: Seq<i16>, s: Switches, k: nat) -> Seq<i32>
    decreases k,
{
    if k == 0 {
        template_values(m.wing_tail_mix, m.aux_channels@[1], cond, pots, s)
    } else {
        let prev = after_aux(m, cond, pots, s, (k - 1) as nat);
        let i = k - 1;
        if template_of(m.wing_tail_mix) == WingTailTemplate::Flaperon && i == 1 {
            prev
        } else {
            prev.update(4 + i, source_value(m.aux_channels@[i], cond, pots, s, prev) as i32)
        }
    }
}

/// Channel values after one mix line: lines without a target in 1..=14 or
/// whose switch condition is false change nothing; otherwise the term
/// `source * weight / 100 + offset * 10` is added, multiplied in (scaled by
/// 1/1000) or replaces the target, and the result is limited to the mixer range.
pub open spec fn mix_step(mix: MixLine, cond: Seq<i16>, pots: Seq<i16>, s: Switches, vals: Seq<i32>) -> Seq<i32> {
    if mix.target_ch == 0 || mix.target_ch > 14 || !switch_active(mix.switch, s) {
        vals
    } else {
        let idx = mix.target_ch - 1;
        let src = source_value(mix.source, cond, pots, s, vals);
        let term = tdiv(src * mix.weight, 100) + mix.offset * 10;
        if mix.mode == 0 {
            vals.update(idx, mix_clamp(vals[idx] + term))
        } else if mix.mode == 1 {
            vals.update(idx, mix_clamp(tdiv(vals[idx] * term, 1000)))
        } else if mix.mode == 2 {
            vals.update(idx, mix_clamp(term))
        } else {
            vals
        }
    }
}

/// Channel values after the first `k` mix lines.
pub open spec fn after_mixes(m: ModelConfig, cond: Seq<i16>, pots: Seq<i16>, s: Switches, k: nat) -> Seq<i32>
    decreases k,
{
    if k == 0 {
        after_aux(m, cond, pots, s, 10)
    } else {
        mix_step(m.mixes@[k - 1], cond, pots, s, after_mixes(m, cond, pots, s, (k - 1) as nat))
    }
}

/// Pulse width in microseconds for a mixer value.
pub open spec fn pulse_of(v: int) -> int {
    clamp(tdiv(v * 512, 1000) + 1500, 988, 2012)
}

/// Whether channel `i` is reversed by the bitmask.
pub open spec fn reverse_bit(mask: u16, i: int) -> bool {
    (mask >> (i as u16)) & 1u16 == 1u16
}

/// Rates and expo selected by the dual-rate switch.
pub open spec fn selected_rates(m: ModelConfig, s: Switches) -> Seq<u8> {
    if dr_high(m.dr_switch, s) { m.dr_high@ } else { m.dr_low@ }
}

pub open spec fn selected_expos(m: ModelConfig, s: Switches) -> Seq<i8> {
    if dr_high(m.dr_switch, s) { m.expo_high@ } else { m.expo_low@ }
}

/// Conditioned roll, pitch, throttle and yaw.
pub open spec fn conditioned(raw_roll: i16, raw_pitch: i16, curved_throttle: u16, raw_yaw: i16, m: ModelConfig, s: Switches) -> Seq<i16> {
    let rates = selected_rates(m, s);
    let expos = selected_expos(m, s);
    seq![
        dr_expo(raw_roll as int, rates[0] as int, expos[0] as int) as i16,
        dr_expo(raw_pitch as int, rates[1] as int, expos[1] as int) as i16,
        clamp(curved_throttle * 2 - 1000, -1000, 1000) as i16,
        dr_expo(raw_yaw as int, rates[2] as int, expos[2] as int) as i16,
    ]
}

/// The sticks can be conditioned without overflow.
pub open spec fn sticks_defined(raw_roll: i16, raw_pitch: i16, raw_yaw: i16, m: ModelConfig, s: Switches) -> bool {
    let rates = selected_rates(m, s);
    let expos = selected_expos(m, s);
    &&& dr_expo_defined(raw_roll as int, rates[0] as int, expos[0] as int)
    &&& dr_expo_defined(raw_pitch as int, rates[1] as int, expos[1] as int)
    &&& dr_expo_defined(raw_yaw as int, rates[2] as int, expos[2] as int)
}

/// Pulse width of channel `i` before reversing: mixer value to microseconds,
/// then trims on CH1..CH4 (throttle trim by its mode), all within
/// 988..=2012.
pub open spec fn trimmed_pulse(vals: Seq<i32>, i: int, t: TrimController, thr_mode: u8) -> int {
    let p = pulse_of(vals[i] as int);
    if i == 0 {
        trim::trim_applied(p, t.values.roll as int)
    } else if i == 1 {
        trim::trim_applied(p, t.values.pitch as int)
    } else if i == 2 {
        clamp(trim::throttle_trim_applied(p, t.values.throttle as int, thr_mode), 988, 2012)
    } else if i == 3 {
        trim::trim_applied(p, t.values.yaw as int)
    } else {
        p
    }
}

/// The 14 output pulses of the complete pipeline.
pub open spec fn channels_out(
    raw_roll: i16,
    raw_pitch: i16,
    curved_throttle: u16,
    raw_yaw: i16,
    pots: Seq<i16>,
    s: Switches,
    m: ModelConfig,
    t: TrimController,
    thr_mode: u8,
    i: int,
) -> int {
    let cond = conditioned(raw_roll, raw_pitch, curved_throttle, raw_yaw, m, s);
    let vals = after_mixes(m, cond, pots, s, 8);
    let p = trimmed_pulse(vals, i, t, thr_mode);
    if reverse_bit(m.channel_reverse, i) { 3000 - p } else { p }
}

/// Sources read from in-range sticks, pots and channels are in range.
pub proof fn lemma_source_in_range(src: u8, cond: Seq<i16>, pots: Seq<i16>, s: Switches, chans: Seq<i32>)
    requires
        cond.len() == 4,
        pots.len() == 2,
        chans.len() == 14,
        in_mixer_range16(cond),
        in_mixer_range16(pots),
        in_mixer_range(chans),
    ensures
        -1000 <= source_value(src, cond, pots, s, chans) <= 1000,
{
    if 12 <= src <= 25 {
        assert(-1000 <= chans[src - 12] <= 1000);
    } else if 1 <= src <= 4 {
        assert(-1000 <= cond[src - 1] <= 1000);
    } else if 5 <= src <= 6 {
        assert(-1000 <= pots[src - 5] <= 1000);
    }
}

/// Sources read from in-range sticks and 16-bit channels fit in 16 bits.
proof fn lemma_source_fits(src: u8, cond: Seq<i16>, pots: Seq<i16>, s: Switches, chans: Seq<i32>)
    requires
        cond.len() == 4,
        pots.len() == 2,
        chans.len() == 14,
        in_mixer_range16(cond),
        in_i16_range(chans),
    ensures
        -32768 <= source_value(src, cond, pots, s, chans) <= 32767,
{
    if 12 <= src <= 25 {
        assert(-32768 <= chans[src - 12] <= 32767);
    } else if 1 <= src <= 4 {
        assert(-1000 <= cond[src - 1] <= 1000);
    }
}

/// Channel values after the wing/tail template.
fn template_stage(model: &ModelConfig, cond_sticks: &[i16; 4], pots: &[i16; 2], switches: &Switches) -> (ch_vals: [i32; 14])
    requires
        in_mixer_range16(cond_sticks@),
    ensures
        ch_vals@ == template_values(model.wing_tail_mix, model.aux_channels@[1], cond_sticks@, pots@, *switches),
        in_mixer_range(ch_vals@),
{
    let mut ch_vals = [0i32; 14];
    let r = cond_sticks[0] as i32;
    let p = cond_sticks[1] as i32;
    let t = cond_sticks[2] as i32;
    let y = cond_sticks[3] as i32;
    let ghost zero = ch_vals@;
    match WingTailTemplate::from_u8(model.wing_tail_mix) {
        WingTailTemplate::Normal => {
            ch_vals[0] = r;
            ch_vals[1] = p;
            ch_vals[2] = t;
            ch_vals[3] = y;
        },
        WingTailTemplate::Elevon => {
            ch_vals[0] = clamp_i32(p - r, -1000, 1000);
            ch_vals[1] = clamp_i32(p + r, -1000, 1000);
            ch_vals[2] = t;
            ch_vals[3] = y;
        },
        WingTailTemplate::VTail => {
            ch_vals[0] = r;
            ch_vals[1] = clamp_i32(p + y, -1000, 1000);
            ch_vals[2] = t;
            ch_vals[3] = clamp_i32(p - y, -1000, 1000);
        },
        WingTailTemplate::Flaperon => {
            proof {
                lemma_source_fits(model.aux_channels@[1], cond_sticks@, pots@, *switches, ch_vals@);
            }
            let flap = evaluate_source(model.aux_channels[1], cond_sticks, pots, switches, &ch_vals);
            assert(zero =~= Seq::new(14, |i: int| 0i32));
            ch_vals[0] = clamp_i32(r + flap / 2, -1000, 1000);
            ch_vals[1] = p;
            ch_vals[2] = t;
            ch_vals[3] = y;
            ch_vals[5] = clamp_i32(-r + flap / 2, -1000, 1000);
        },
    }
    assert(ch_vals@ =~= template_values(model.wing_tail_mix, model.aux_channels@[1], cond_sticks@, pots@, *switches));
    ch_vals
}

/// Fill CH5..CH14 from their configured sources, in order.
fn aux_stage(ch_vals: &mut [i32; 14], model: &ModelConfig, cond_sticks: &[i16; 4], pots: &[i16; 2], switches: &Switches)
    requires
        old(ch_vals)@ == after_aux(*model, cond_sticks@, pots@, *switches, 0),
        in_i16_range(old(ch_vals)@),
        in_mixer_range16(cond_sticks@),
    ensures
        final(ch_vals)@ == after_aux(*model, cond_sticks@, pots@, *switches, 10),
        in_i16_range(final(ch_vals)@),
{
    let flaperon = WingTailTemplate::from_u8(model.wing_tail_mix) == WingTailTemplate::Flaperon;
    let mut i: usize = 0;
    while i < 10
        invariant
            0 <= i <= 10,
            flaperon == (template_of(model.wing_tail_mix) == WingTailTemplate::Flaperon),
            in_mixer_range16(cond_sticks@),
            ch_vals@ == after_aux(*model, cond_sticks@, pots@, *switches, i as nat),
            in_i16_range(ch_vals@),
        decreases 10 - i,
    {
        if !(flaperon && i == 1) {
            proof {
                lemma_source_fits(model.aux_channels@[i as int], cond_sticks@, pots@, *switches, ch_vals@);
            }
            let v = evaluate_source(model.aux_channels[i], cond_sticks, pots, switches, ch_vals);
            ch_vals[4 + i] = v;
        }
        i = i + 1;
    }
}

/// Apply one mix line to the channel values.
fn apply_mix(ch_vals: &mut [i32; 14], mix: MixLine, cond_sticks: &[i16; 4], pots: &[i16; 2], switches: &Switches)
    requires
        in_i16_range(old(ch_vals)@),
        in_mixer_range16(cond_sticks@),
    ensures
        final(ch_vals)@ == mix_step(mix, cond_sticks@, pots@, *switches, old(ch_vals)@),
        in_i16_range(final(ch_vals)@),
{
    if mix.target_ch != 0 && mix.target_ch <= 14 && is_switch_active(mix.switch, switches) {
        let target_idx = (mix.target_ch - 1) as usize;
        proof {
            lemma_source_fits(mix.source, cond_sticks@, pots@, *switches, ch_vals@);
        }
        let src_val = evaluate_source(mix.source, cond_sticks, pots, switches, ch_vals);
        assert(-4194304 <= src_val * (mix.weight as i32) <= 4194304) by (nonlinear_arith)
            requires
                -32768 <= src_val <= 32767,
                -128 <= mix.weight <= 127,
        ;
        let term = (src_val * (mix.weight as i32)) / 100 + (mix.offset as i32 * 10);
        let cur = ch_vals[target_idx];
        if mix.mode == 0 {
            ch_vals[target_idx] = clamp_i32(cur + term, -1000, 1000);
        } else if mix.mode == 1 {
            assert(-1500000000 <= cur * term <= 1500000000) by (nonlinear_arith)
                requires
                    -32768 <= cur <= 32767,
                    -43223 <= term <= 43223,
            ;
            ch_vals[target_idx] = clamp_i32((cur * term) / 1000, -1000, 1000);
        } else if mix.mode == 2 {
            ch_vals[target_idx] = clamp_i32(term, -1000, 1000);
        }
    }
}

/// Apply the eight mix lines in order.
fn mix_stage(ch_vals: &mut [i32; 14], model: &ModelConfig, cond_sticks: &[i16; 4], pots: &[i16; 2], switches: &Switches)
    requires
        old(ch_vals)@ == after_mixes(*model, cond_sticks@, pots@, *switches, 0),
        in_i16_range(old(ch_vals)@),
        in_mixer_range16(cond_sticks@),
    ensures
        final(ch_vals)@ == after_mixes(*model, cond_sticks@, pots@, *switches, 8),
        in_i16_range(final(ch_vals)@),
{
    let mut k: usize = 0;
    while k < 8
        invariant
            0 <= k <= 8,
            in_mixer_range16(cond_sticks@),
            ch_vals@ == after_mixes(*model, cond_sticks@, pots@, *switches, k as nat),
            in_i16_range(ch_vals@),
        decreases 8 - k,
    {
        apply_mix(ch_vals, model.mixes[k], cond_sticks, pots, switches);
        k = k + 1;
    }
}

/// Convert mixer values to pulses, apply trims and reverse channels.
fn output_stage(ch_vals: &[i32; 14], trims: &TrimController, throttle_trim_mode: u8, rev_mask: u16) -> (out: [u16; 14])
    requires
        in_i16_range(ch_vals@),
    ensures
        forall|q: int|
            0 <= q < 14 ==> (#[trigger] out[q]) as int == (if reverse_bit(rev_mask, q) {
                3000 - trimmed_pulse(ch_vals@, q, *trims, throttle_trim_mode)
            } else {
                trimmed_pulse(ch_vals@, q, *trims, throttle_trim_mode)
            }),
{
    let ghost vals = ch_vals@;
    let ghost t = *trims;
    let mut rf_chs = [1500u16; 14];
    let mut j: usize = 0;
    while j < 14
        invariant
            0 <= j <= 14,
            ch_vals@ == vals,
            in_i16_range(vals),
            forall|q: int| 0 <= q < j ==> (#[trigger] rf_chs[q]) as int == pulse_of(vals[q] as int),
        decreases 14 - j,
    {
        let val = ch_vals[j];
        rf_chs[j] = clamp_i32((val * 512) / 1000 + 1500, 988, 2012) as u16;
        j = j + 1;
    }
    rf_chs[0] = TrimController::apply(rf_chs[0], trims.values.roll);
    rf_chs[1] = TrimController::apply(rf_chs[1], trims.values.pitch);
    let thr = TrimController::apply_throttle(rf_chs[2], trims.values.throttle, throttle_trim_mode);
    rf_chs[2] = if thr < 988 { 988 } else if thr > 2012 { 2012 } else { thr };
    rf_chs[3] = TrimController::apply(rf_chs[3], trims.values.yaw);
    assert forall|q: int| 0 <= q < 14 implies (#[trigger] rf_chs[q]) as int == trimmed_pulse(vals, q, t, throttle_trim_mode)
        && 988 <= trimmed_pulse(vals, q, t, throttle_trim_mode) <= 2012 by {
    }
    let mut c: usize = 0;
    while c < 14
        invariant
            0 <= c <= 14,
            ch_vals@ == vals,
            t == *trims,
            forall|q: int| 0 <= q < c ==> (#[trigger] rf_chs[q]) as int == (if reverse_bit(rev_mask, q) { 3000 - trimmed_pulse(vals, q, t, throttle_trim_mode) } else { trimmed_pulse(vals, q, t, throttle_trim_mode) }),
            forall|q: int| c <= q < 14 ==> (#[trigger] rf_chs[q]) as int == trimmed_pulse(vals, q, t, throttle_trim_mode),
            forall|q: int| 0 <= q < 14 ==> 988 <= #[trigger] trimmed_pulse(vals, q, t, throttle_trim_mode) <= 2012,
        decreases 14 - c,
    {
        if (rev_mask >> (c as u16)) & 1 == 1 {
            rf_chs[c] = 3000 - rf_chs[c];
        }
        c = c + 1;
    }
    rf_chs
}

/// The complete mixer pipeline producing 14 channel pulses in microseconds:
/// dual rates and expo, the throttle curve output mapped to the mixer range,
/// the wing/tail template, auxiliary sources, the mix lines, conversion to
/// 988..=2012 microseconds, trims on CH1..CH4 and channel reversing.
pub fn compute_channels(
    raw_roll: i16,
    raw_pitch: i16,
    curved_throttle: u16,
    raw_yaw: i16,
    pots: &[i16; 2],
    switches: &Switches,
    model: &ModelConfig,
    trims: &TrimController,
    throttle_trim_mode: u8,
) -> (out: [u16; 14])
    requires
        sticks_defined(raw_roll, raw_pitch, raw_yaw, *model, *switches),
    ensures
        forall|i: int| 0 <= i < 14 ==> 988 <= #[trigger] out[i] <= 2012,
        forall|i: int|
            0 <= i < 14 ==> (#[trigger] out[i]) as int == channels_out(
                raw_roll,
                raw_pitch,
                curved_throttle,
                raw_yaw,
                pots@,
                *switches,
                *model,
                *trims,
                throttle_trim_mode,
                i,
            ),
{
    let high_rate = is_dr_high(model.dr_switch, switches);
    let rates = if high_rate { model.dr_high } else { model.dr_low };
    let expos = if high_rate { model.expo_high } else { model.expo_low };
    let cond_roll = apply_dr_expo(raw_roll, rates[0], expos[0]);
    let cond_pitch = apply_dr_expo(raw_pitch, rates[1], expos[1]);
    let cond_yaw = apply_dr_expo(raw_yaw, rates[2], expos[2]);
    let cond_thr = clamp_i32(curved_throttle as i32 * 2 - 1000, -1000, 1000) as i16;
    let cond_sticks = [cond_roll, cond_pitch, cond_thr, cond_yaw];
    assert(cond_sticks@ =~= conditioned(raw_roll, raw_pitch, curved_throttle, raw_yaw, *model, *switches));
    assert(in_mixer_range16(cond_sticks@));
    let mut ch_vals = template_stage(model, &cond_sticks, pots, switches);
    aux_stage(&mut ch_vals, model, &cond_sticks, pots, switches);
    mix_stage(&mut ch_vals, model, &cond_sticks, pots, switches);
    output_stage(&ch_vals, trims, throttle_trim_mode, model.channel_reverse)
}

proof fn lemma_after_aux_same(m1: ModelConfig, m2: ModelConfig, cond: Seq<i16>, pots: Seq<i16>, s: Switches, k: nat)
    requires
        m1.aux_channels == m2.aux_channels,
        m1.wing_tail_mix == m2.wing_tail_mix,
    ensures
        after_aux(m1, cond, pots, s, k) == after_aux(m2, cond, pots, s, k),
    decreases k,
{
    if k > 0 {
        lemma_after_aux_same(m1, m2, cond, pots, s, (k - 1) as nat);
    }
}

proof fn lemma_after_mixes_same(m1: ModelConfig, m2: ModelConfig, cond: Seq<i16>, pots: Seq<i16>, s: Switches, k: nat)
    requires
        m1.aux_channels == m2.aux_channels,
        m1.wing_tail_mix == m2.wing_tail_mix,
        m1.mixes == m2.mixes,
    ensures
        after_mixes(m1, cond, pots, s, k) == after_mixes(m2, cond, pots, s, k),
    decreases k,
{
    if k == 0 {
        lemma_after_aux_same(m1, m2, cond, pots, s, 10);
    } else {
        lemma_after_mixes_same(m1, m2, cond, pots, s, (k - 1) as nat);
    }
}

/// Reversing channel `k` mirrors its pulse about 1500 us (`3000 - p`) and
/// leaves every other channel as it was, for all inputs.
pub proof fn lemma_reverse_mirrors(
    raw_roll: i16,
    raw_pitch: i16,
    curved_throttle: u16,
    raw_yaw: i16,
    pots: Seq<i16>,
    s: Switches,
    m: ModelConfig,
    t: TrimController,
    thr_mode: u8,
    k: int,
)
    requires
        0 <= k < 14,
        !reverse_bit(m.channel_reverse, k),
    ensures
        ({
            let m2 = ModelConfig { channel_reverse: m.channel_reverse | (1u16 << (k as u16)), ..m };
            &&& channels_out(raw_roll, raw_pitch, curved_throttle, raw_yaw, pots, s, m2, t, thr_mode, k)
                == 3000 - channels_out(raw_roll, raw_pitch, curved_throttle, raw_yaw, pots, s, m, t, thr_mode, k)
            &&& forall|j: int| 0 <= j < 14 && j != k ==>
                #[trigger] channels_out(raw_roll, raw_pitch, curved_throttle, raw_yaw, pots, s, m2, t, thr_mode, j)
                    == channels_out(raw_roll, raw_pitch, curved_throttle, raw_yaw, pots, s, m, t, thr_mode, j)
        }),
{
    let m2 = ModelConfig { channel_reverse: m.channel_reverse | (1u16 << (k as u16)), ..m };
    let cond = conditioned(raw_roll, raw_pitch, curved_throttle, raw_yaw, m, s);
    assert(conditioned(raw_roll, raw_pitch, curved_throttle, raw_yaw, m2, s) == cond);
    lemma_after_mixes_same(m, m2, cond, pots, s, 8);
    let mask = m.channel_reverse;
    let kk = k as u16;
    assert forall|j: u16| j < 14 implies #[trigger] reverse_bit(mask | (1u16 << kk), j as int)
        == (j == kk || reverse_bit(mask, j as int)) by {
        assert(((mask | (1u16 << kk)) >> j) & 1u16 == 1u16 <==> (j == kk || (mask >> j) & 1u16 == 1u16))
            by (bit_vector)
            requires
                kk < 14,
                j < 14,
        ;
    }
    assert(reverse_bit(mask | (1u16 << kk), kk as int));
    assert forall|j: int| 0 <= j < 14 && j != k implies
        #[trigger] channels_out(raw_roll, raw_pitch, curved_throttle, raw_yaw, pots, s, m2, t, thr_mode, j)
            == channels_out(raw_roll, raw_pitch, curved_throttle, raw_yaw, pots, s, m, t, thr_mode, j) by {
        assert(reverse_bit(mask | (1u16 << kk), (j as u16) as int) == (j as u16 == kk || reverse_bit(mask, (j as u16) as int)));
    }
}

/// Rates and expo treat both stick directions alike: mirroring the input
/// mirrors the output.
pub proof fn lemma_dr_expo_odd(input: int, rate: int, expo: int)
    ensures
        dr_expo(-input, rate, expo) == -dr_expo(input, rate, expo),
{
    let r = clamp(rate, 30, 100);
    assert((-input) * r == -(input * r)) by (nonlinear_arith);
    crate::arith::lemma_tdiv_neg(input * r, 100);
    let x = rated(input, rate);
    assert(rated(-input, rate) == -x);
    if expo != 0 {
        let e = clamp(expo, -100, 100);
        assert((-x) * (-x) * (-x) == -(x * x * x)) by (nonlinear_arith);
        crate::arith::lemma_tdiv_neg(x * x * x, 1_000_000);
        let cubic = tdiv(x * x * x, 1_000_000);
        if e > 0 {
            assert((-x) * (100 - e) + (-cubic) * e == -(x * (100 - e) + cubic * e)) by (nonlinear_arith);
            crate::arith::lemma_tdiv_neg(x * (100 - e) + cubic * e, 100);
        } else {
            assert(((-x) - (-cubic)) * (-e) == -((x - cubic) * (-e))) by (nonlinear_arith);
            crate::arith::lemma_tdiv_neg((x - cubic) * (-e), 100);
        }
    }
}


/// A multiply line (mode 1) scales its target channel by the line's term
/// read as a fraction of 1000, rounding toward zero and limiting the result
/// to the mixer range; no other channel changes. So a term of 1000 (100 %)
/// leaves an in-range channel as it was, and a line taking the constant
/// maximum (source 11) at weight 100 and offset 0 is such a line.
pub proof fn lemma_multiply_mix(mix: MixLine, cond: Seq<i16>, pots: Seq<i16>, s: Switches, vals: Seq<i32>)
    requires
        mix.mode == 1,
        1 <= mix.target_ch <= 14,
        switch_active(mix.switch, s),
        vals.len() == 14,
    ensures
        ({
            let idx = mix.target_ch - 1;
            let term = tdiv(source_value(mix.source, cond, pots, s, vals) * mix.weight, 100) + mix.offset * 10;
            let p = vals[idx] * term;
            let out = mix_step(mix, cond, pots, s, vals);
            let r = out[idx] as int;
            &&& out.len() == 14
            &&& -1000 <= r <= 1000
            &&& (r == 1000 <==> p >= 1_000_000)
            &&& (r == -1000 <==> p <= -1_000_000)
            &&& (-1000 < r < 1000 && p >= 0 ==> 1000 * r <= p < 1000 * r + 1000)
            &&& (-1000 < r < 1000 && p <= 0 ==> 1000 * r - 1000 < p <= 1000 * r)
            &&& (term == 1000 && -1000 <= vals[idx] <= 1000 ==> r == vals[idx])
            &&& (mix.source == 11 && mix.weight == 100 && mix.offset == 0 ==> term == 1000)
            &&& forall|j: int| 0 <= j < 14 && j != idx ==> #[trigger] out[j] == vals[j]
        }),
{
    let idx = mix.target_ch - 1;
    let term = tdiv(source_value(mix.source, cond, pots, s, vals) * mix.weight, 100) + mix.offset * 10;
    let p = vals[idx] * term;
    let q = tdiv(p, 1000);
    assert(p >= 0 ==> 1000 * q <= p < 1000 * q + 1000);
    assert(p < 0 ==> 1000 * q - 1000 < p <= 1000 * q);
    if term == 1000 {
        assert(p == vals[idx] * 1000);
    }
}

} // verus!
