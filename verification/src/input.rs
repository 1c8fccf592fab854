//! Input normalization, stick axis processing, switch decoding and battery
//! voltage calculation. The converter scan is read by the caller; everything
//! computed from the raw counts lives here.
use vstd::prelude::*;
use crate::adc;
use crate::arith::{clamp, tdiv};
use crate::storage::{ChannelCalib, RadioConfig};

verus! {

/// 3-position switch states.
#[derive(Copy, Clone, Debug, PartialEq, Eq, Structural)]
pub enum SwitchPos {
    Up,
    Mid,
    Down,
}

/// The display letter of a switch position.
pub open spec fn switch_char(p: SwitchPos) -> char {
    match p {
        SwitchPos::Up => 'U',
        SwitchPos::Mid => 'M',
        SwitchPos::Down => 'D',
    }
}

impl SwitchPos {
    /// One-letter label: `U`, `M` or `D`.
    pub fn as_char(&self) -> (c: char)
        ensures
            c == switch_char(*self),
    {
        match self {
            SwitchPos::Up => 'U',
            SwitchPos::Mid => 'M',
            SwitchPos::Down => 'D',
        }
    }
}

/// Normalized stick axes (-1000 .. +1000).
#[derive(Copy, Clone, Debug)]
pub struct Sticks {
    pub roll: i16,
    pub pitch: i16,
    pub throttle: i16,
    pub yaw: i16,
}

/// Normalized potentiometer dials (-1000 .. +1000).
#[derive(Copy, Clone, Debug)]
pub struct Pots {
    pub vr1: i16,
    pub vr2: i16,
}

/// Physical switch states on the radio.
#[derive(Copy, Clone, Debug, PartialEq, Eq, Structural)]
pub struct Switches {
    pub sa: SwitchPos,
    pub sb: SwitchPos,
    pub sc: SwitchPos,
    pub sd: SwitchPos,
}

/// Full processed input snapshot.
pub struct InputState {
    pub sticks: Sticks,
    pub pots: Pots,
    pub switches: Switches,
    pub battery_mv: u16,
    pub raw: [u16; 11],
}

/// Calibration data for a single analog axis.
#[derive(Copy, Clone, Debug)]
pub struct AxisCalib {
    pub min: u16,
    pub center: u16,
    pub max: u16,
    pub filtered_raw: u32,
    pub invert: bool,
}

/// The jitter filter's accumulator after a sample `raw` (four times the
/// smoothed count): a jump of 6 counts or more is taken at once, smaller
/// changes are averaged over four samples.
pub open spec fn filter_step(filtered: u32, raw: u16) -> u32 {
    let f: u32 = if filtered == 0 { (raw * 4) as u32 } else { filtered };
    let previous: u16 = (f / 4) as u16;
    let diff: int = if raw >= previous { raw - previous } else { previous - raw };
    if diff < 6 {
        (f - previous + raw) as u32
    } else {
        (raw * 4) as u32
    }
}

/// Position of a smoothed count relative to the calibrated endpoints, in
/// -1000..=1000 (before inversion). Each half uses its own span, at least 100.
pub open spec fn scale_to_axis(smoothed: int, min: int, center: int, max: int) -> int {
    if smoothed <= center {
        let span = if center - min > 100 { center - min } else { 100 };
        clamp(tdiv((smoothed - center) * 1000, span), -1000, 0)
    } else {
        let span = if max - center > 100 { max - center } else { 100 };
        clamp(tdiv((smoothed - center) * 1000, span), 0, 1000)
    }
}

/// The axis value that `normalize` reports for a calibration and filter state.
pub open spec fn axis_value(c: AxisCalib, filtered_after: u32) -> int {
    let smoothed: u16 = (filtered_after / 4) as u16;
    let v = scale_to_axis(smoothed as int, c.min as int, c.center as int, c.max as int);
    if c.invert { -v } else { v }
}

impl AxisCalib {
    pub fn new(min: u16, center: u16, max: u16, invert: bool) -> (r: Self)
        ensures
            r == (AxisCalib { min, center, max, filtered_raw: 0, invert }),
    {
        AxisCalib { min, center, max, filtered_raw: 0, invert }
    }

    /// Normalize a raw 12-bit count around the center point to -1000..+1000,
    /// passing the sample through the jitter filter.
    pub fn normalize(&mut self, raw: u16) -> (v: i16)
        requires
            old(self).min <= old(self).center <= old(self).max,
        ensures
            final(self).filtered_raw == filter_step(old(self).filtered_raw, raw),
            final(self).min == old(self).min,
            final(self).center == old(self).center,
            final(self).max == old(self).max,
            final(self).invert == old(self).invert,
            v as int == axis_value(*old(self), final(self).filtered_raw),
            -1000 <= v <= 1000,
    {
        if self.filtered_raw == 0 {
            self.filtered_raw = raw as u32 * 4;
        }
        let previous = (self.filtered_raw / 4) as u16;
        let diff: i32 = if raw >= previous { (raw - previous) as i32 } else { (previous - raw) as i32 };
        if diff < 6 {
            let f = self.filtered_raw;
            assert(f - ((f / 4) as u16) + raw <= 0xFFFF_FFFF) by (bit_vector)
                requires
                    raw <= ((f / 4) as u16) + 5,
            ;
            self.filtered_raw = (self.filtered_raw - previous as u32) + raw as u32;
        } else {
            self.filtered_raw = raw as u32 * 4;
        }
        let smoothed = (self.filtered_raw / 4) as u16;
        let val: i32 = if smoothed <= self.center {
            let d = self.center - self.min;
            let span: i32 = if d > 100 { d as i32 } else { 100 };
            let delta = smoothed as i32 - self.center as i32;
            let q = (delta * 1000) / span;
            if q < -1000 { -1000 } else if q > 0 { 0 } else { q }
        } else {
            let d = self.max - self.center;
            let span: i32 = if d > 100 { d as i32 } else { 100 };
            let delta = smoothed as i32 - self.center as i32;
            let q = (delta * 1000) / span;
            if q < 0 { 0 } else if q > 1000 { 1000 } else { q }
        };
        if self.invert {
            (-val) as i16
        } else {
            val as i16
        }
    }
}

/// Half-travel of the horizontal gimbal axes (roll, yaw) in counts.
pub const GIMBAL_H_HALF_SPAN: u16 = 1670;

/// Half-travel of the vertical gimbal axes (pitch, throttle) in counts.
pub const GIMBAL_V_HALF_SPAN: u16 = 1580;

/// Resting center of a spring-loaded stick before calibration.
pub const DEFAULT_STICK_CENTER: u16 = 2048;

/// Calibration of all six analog controls plus the battery filter state.
#[derive(Copy, Clone, Debug)]
pub struct InputCalibration {
    pub roll: AxisCalib,
    pub pitch: AxisCalib,
    pub throttle: AxisCalib,
    pub yaw: AxisCalib,
    pub vra: AxisCalib,
    pub vrb: AxisCalib,
    pub filtered_battery_mv: u32,
}

/// Every axis has its endpoints in order.
pub open spec fn calib_ordered(c: InputCalibration) -> bool {
    &&& c.roll.min <= c.roll.center <= c.roll.max
    &&& c.pitch.min <= c.pitch.center <= c.pitch.max
    &&& c.throttle.min <= c.throttle.center <= c.throttle.max
    &&& c.yaw.min <= c.yaw.center <= c.yaw.max
    &&& c.vra.min <= c.vra.center <= c.vra.max
    &&& c.vrb.min <= c.vrb.center <= c.vrb.max
}

impl InputCalibration {
    /// Factory calibration: nominal gimbal spans around mid-scale, roll and
    /// pitch inverted as on the mechanical gimbals.
    pub fn default_factory() -> (r: Self)
        ensures
            r.roll == (AxisCalib { min: 378, center: 2048, max: 3718, filtered_raw: 0, invert: true }),
            r.pitch == (AxisCalib { min: 468, center: 2048, max: 3628, filtered_raw: 0, invert: true }),
            r.throttle == (AxisCalib { min: 468, center: 2048, max: 3628, filtered_raw: 0, invert: false }),
            r.yaw == (AxisCalib { min: 378, center: 2048, max: 3718, filtered_raw: 0, invert: false }),
            r.vra == (AxisCalib { min: 98, center: 2048, max: 3998, filtered_raw: 0, invert: false }),
            r.vrb == (AxisCalib { min: 98, center: 2048, max: 3998, filtered_raw: 0, invert: false }),
            r.filtered_battery_mv == 0,
            calib_ordered(r),
    {
        InputCalibration {
            roll: AxisCalib::new(
                DEFAULT_STICK_CENTER - GIMBAL_H_HALF_SPAN,
                DEFAULT_STICK_CENTER,
                DEFAULT_STICK_CENTER + GIMBAL_H_HALF_SPAN,
                true,
            ),
            pitch: AxisCalib::new(
                DEFAULT_STICK_CENTER - GIMBAL_V_HALF_SPAN,
                DEFAULT_STICK_CENTER,
                DEFAULT_STICK_CENTER + GIMBAL_V_HALF_SPAN,
                true,
            ),
            throttle: AxisCalib::new(
                DEFAULT_STICK_CENTER - GIMBAL_V_HALF_SPAN,
                DEFAULT_STICK_CENTER,
                DEFAULT_STICK_CENTER + GIMBAL_V_HALF_SPAN,
                false,
            ),
            yaw: AxisCalib::new(
                DEFAULT_STICK_CENTER - GIMBAL_H_HALF_SPAN,
                DEFAULT_STICK_CENTER,
                DEFAULT_STICK_CENTER + GIMBAL_H_HALF_SPAN,
                false,
            ),
            vra: AxisCalib::new(2048 - 1950, 2048, 2048 + 1950, false),
            vrb: AxisCalib::new(2048 - 1950, 2048, 2048 + 1950, false),
            filtered_battery_mv: 0,
        }
    }
}

/// The position a resistor-ladder switch voltage decodes to.
pub open spec fn switch_of_raw(raw: u16) -> SwitchPos {
    if raw <= 1365 {
        SwitchPos::Up
    } else if raw <= 2730 {
        SwitchPos::Mid
    } else {
        SwitchPos::Down
    }
}

/// Decode a resistor-ladder switch voltage: 0..=1365 Up, 1366..=2730 Mid,
/// 2731 and above Down.
pub fn decode_switch(raw: u16) -> (p: SwitchPos)
    ensures
        p == switch_of_raw(raw),
{
    if raw <= 1365 {
        SwitchPos::Up
    } else if raw <= 2730 {
        SwitchPos::Mid
    } else {
        SwitchPos::Down
    }
}

/// Battery voltage in millivolts for a raw count: the 1/2 divider and the
/// 0.20 V series diode, in 10 mV steps.
pub open spec fn battery_mv_of_raw(raw: u16) -> int {
    (((raw as int * 100) / 421 + 20) * 10) as u16 as int
}

/// Battery voltage in millivolts from the raw battery-sense count.
pub fn calculate_battery_mv(raw: u16) -> (mv: u16)
    ensures
        mv as int == battery_mv_of_raw(raw),
{
    let vbat_10mv = ((raw as u32 * 100) / 421) + 20;
    (vbat_10mv * 10) as u16
}

/// Battery filter accumulator (millivolts << 8) after an instant reading.
pub open spec fn battery_filter_step(filtered: u32, instant: u16) -> u32 {
    if filtered == 0 {
        (instant as u32 * 256) as u32
    } else {
        (filtered - filtered / 32 + instant as u32 * 8) as u32
    }
}

/// Reported battery voltage for a filter state and instant reading: the
/// first reading is taken as is, later ones through a 1/32 moving average.
pub open spec fn battery_report(filtered: u32, instant: u16) -> int {
    if filtered == 0 {
        instant as int
    } else {
        (battery_filter_step(filtered, instant) / 256) as u16 as int
    }
}

/// Exponential moving average of the battery voltage (alpha = 1/32).
pub fn filter_battery(calib: &mut InputCalibration, instant_mv: u16) -> (mv: u16)
    ensures
        final(calib).filtered_battery_mv == battery_filter_step(old(calib).filtered_battery_mv, instant_mv),
        mv as int == battery_report(old(calib).filtered_battery_mv, instant_mv),
        final(calib).roll == old(calib).roll,
        final(calib).pitch == old(calib).pitch,
        final(calib).throttle == old(calib).throttle,
        final(calib).yaw == old(calib).yaw,
        final(calib).vra == old(calib).vra,
        final(calib).vrb == old(calib).vrb,
{
    if calib.filtered_battery_mv == 0 {
        calib.filtered_battery_mv = (instant_mv as u32) * 256;
        instant_mv
    } else {
        let f = calib.filtered_battery_mv;
        assert(f - f / 32 + instant_mv as u32 * 8 <= u32::MAX);
        calib.filtered_battery_mv = f - f / 32 + (instant_mv as u32) * 8;
        (calib.filtered_battery_mv / 256) as u16
    }
}

/// An axis calibration with the endpoints of a stored channel calibration,
/// keeping its filter state.
pub open spec fn with_endpoints(a: AxisCalib, c: ChannelCalib, invert: bool) -> AxisCalib {
    AxisCalib { min: c.min, center: c.center, max: c.max, filtered_raw: a.filtered_raw, invert }
}

/// The calibration after the stored endpoints of a radio configuration are
/// applied: roll and pitch inverted, the other axes not.
pub open spec fn calibration_applied(c0: InputCalibration, cfg: RadioConfig) -> InputCalibration {
    InputCalibration {
        roll: with_endpoints(c0.roll, cfg.sticks@[0], true),
        pitch: with_endpoints(c0.pitch, cfg.sticks@[1], true),
        throttle: with_endpoints(c0.throttle, cfg.sticks@[2], false),
        yaw: with_endpoints(c0.yaw, cfg.sticks@[3], false),
        vra: with_endpoints(c0.vra, cfg.pots@[0], false),
        vrb: with_endpoints(c0.vrb, cfg.pots@[1], false),
        filtered_battery_mv: c0.filtered_battery_mv,
    }
}

fn set_endpoints(a: &mut AxisCalib, c: &ChannelCalib, invert: bool)
    ensures
        *final(a) == with_endpoints(*old(a), *c, invert),
{
    a.invert = invert;
    a.min = c.min;
    a.center = c.center;
    a.max = c.max;
}

/// Apply the stored stick and pot endpoints of a radio configuration.
pub fn apply_calibration(calib: &mut InputCalibration, config: &RadioConfig)
    ensures
        *final(calib) == calibration_applied(*old(calib), *config),
{
    set_endpoints(&mut calib.roll, &config.sticks[0], true);
    set_endpoints(&mut calib.pitch, &config.sticks[1], true);
    set_endpoints(&mut calib.throttle, &config.sticks[2], false);
    set_endpoints(&mut calib.yaw, &config.sticks[3], false);
    set_endpoints(&mut calib.vra, &config.pots[0], false);
    set_endpoints(&mut calib.vrb, &config.pots[1], false);
}

/// Number of resting scans averaged to find the stick centers.
pub const CENTER_SAMPLES: usize = 16;

/// Sum of channel `k` over the first `n` scans.
pub open spec fn sample_sum(samples: Seq<[u16; 11]>, k: int, n: int) -> int
    decreases n,
{
    if n <= 0 {
        0
    } else {
        sample_sum(samples, k, n - 1) + samples[n - 1]@[k]
    }
}

proof fn lemma_sample_sum_bound(samples: Seq<[u16; 11]>, k: int, n: int)
    requires
        0 <= n,
    ensures
        0 <= sample_sum(samples, k, n) <= n * 65535,
    decreases n,
{
    if n > 0 {
        lemma_sample_sum_bound(samples, k, n - 1);
    }
}

/// A resting center replaces the stored one only when it lies in 1500..=2500.
pub open spec fn refined_center(center: u16, avg: int) -> u16 {
    if 1500 <= avg <= 2500 { avg as u16 } else { center }
}

/// Integer mean of channel `k` over the resting scans.
pub open spec fn resting_mean(samples: Seq<[u16; 11]>, k: int) -> int {
    sample_sum(samples, k, CENTER_SAMPLES as int) / (CENTER_SAMPLES as int)
}

fn mean_of_channel(samples: &[[u16; 11]; 16], k: usize) -> (avg: u16)
    requires
        k < 11,
    ensures
        avg as int == resting_mean(samples@, k as int),
{
    let mut sum: u32 = 0;
    let mut i: usize = 0;
    while i < CENTER_SAMPLES
        invariant
            i <= CENTER_SAMPLES,
            k < 11,
            sum as int == sample_sum(samples@, k as int, i as int),
        decreases CENTER_SAMPLES - i,
    {
        proof {
            lemma_sample_sum_bound(samples@, k as int, i as int);
        }
        sum = sum + samples[i][k] as u32;
        i = i + 1;
    }
    proof {
        lemma_sample_sum_bound(samples@, k as int, 16);
    }
    (sum / 16) as u16
}

/// The calibration `init` leaves: the configuration applied, then the roll,
/// pitch and yaw centers refined from the resting scans.
pub open spec fn initial_calibration(c0: InputCalibration, cfg: RadioConfig, samples: Seq<[u16; 11]>) -> InputCalibration {
    let c1 = calibration_applied(c0, cfg);
    InputCalibration {
        roll: AxisCalib { center: refined_center(c1.roll.center, resting_mean(samples, 0)), ..c1.roll },
        pitch: AxisCalib { center: refined_center(c1.pitch.center, resting_mean(samples, 1)), ..c1.pitch },
        yaw: AxisCalib { center: refined_center(c1.yaw.center, resting_mean(samples, 3)), ..c1.yaw },
        ..c1
    }
}

/// Apply the stored calibration, then take the resting roll, pitch and yaw
/// centers from the mean of the resting scans where it is plausible.
pub fn init(calib: &mut InputCalibration, config: &RadioConfig, samples: &[[u16; 11]; 16])
    ensures
        *final(calib) == initial_calibration(*old(calib), *config, samples@),
{
    apply_calibration(calib, config);
    let avg_roll = mean_of_channel(samples, 0);
    let avg_pitch = mean_of_channel(samples, 1);
    let avg_yaw = mean_of_channel(samples, 3);
    if 1500 <= avg_roll && avg_roll <= 2500 {
        calib.roll.center = avg_roll;
    }
    if 1500 <= avg_pitch && avg_pitch <= 2500 {
        calib.pitch.center = avg_pitch;
    }
    if 1500 <= avg_yaw && avg_yaw <= 2500 {
        calib.yaw.center = avg_yaw;
    }
}

/// The processed snapshot `poll` reports for a calibration and a raw scan.
pub open spec fn polled(c: InputCalibration, raw: [u16; 11], s: InputState) -> bool {
    &&& s.sticks.roll as int == axis_value(c.roll, filter_step(c.roll.filtered_raw, raw@[0]))
    &&& s.sticks.pitch as int == axis_value(c.pitch, filter_step(c.pitch.filtered_raw, raw@[1]))
    &&& s.sticks.throttle as int == axis_value(c.throttle, filter_step(c.throttle.filtered_raw, raw@[2]))
    &&& s.sticks.yaw as int == axis_value(c.yaw, filter_step(c.yaw.filtered_raw, raw@[3]))
    &&& s.pots.vr1 as int == axis_value(c.vra, filter_step(c.vra.filtered_raw, raw@[6]))
    &&& s.pots.vr2 as int == axis_value(c.vrb, filter_step(c.vrb.filtered_raw, raw@[7]))
    &&& s.switches == (Switches {
        sa: switch_of_raw(raw@[4]),
        sb: switch_of_raw(raw@[5]),
        sc: switch_of_raw(raw@[8]),
        sd: switch_of_raw(raw@[9]),
    })
    &&& s.battery_mv as int == battery_report(c.filtered_battery_mv, battery_mv_of_raw(raw@[10]) as u16)
    &&& s.raw == raw
}

/// The filter states `poll` leaves behind.
pub open spec fn poll_filters(c0: InputCalibration, raw: [u16; 11], c1: InputCalibration) -> bool {
    &&& c1.roll == AxisCalib { filtered_raw: filter_step(c0.roll.filtered_raw, raw@[0]), ..c0.roll }
    &&& c1.pitch == AxisCalib { filtered_raw: filter_step(c0.pitch.filtered_raw, raw@[1]), ..c0.pitch }
    &&& c1.throttle == AxisCalib { filtered_raw: filter_step(c0.throttle.filtered_raw, raw@[2]), ..c0.throttle }
    &&& c1.yaw == AxisCalib { filtered_raw: filter_step(c0.yaw.filtered_raw, raw@[3]), ..c0.yaw }
    &&& c1.vra == AxisCalib { filtered_raw: filter_step(c0.vra.filtered_raw, raw@[6]), ..c0.vra }
    &&& c1.vrb == AxisCalib { filtered_raw: filter_step(c0.vrb.filtered_raw, raw@[7]), ..c0.vrb }
    &&& c1.filtered_battery_mv == battery_filter_step(
        c0.filtered_battery_mv,
        battery_mv_of_raw(raw@[10]) as u16,
    )
}

/// Process one raw converter scan into stick, pot, switch and battery values:
/// channels 0..=3 are roll, pitch, throttle and yaw, 6 and 7 the pots, 4, 5,
/// 8 and 9 the switches SA, SB, SC and SD, and 10 the battery sense.
pub fn poll(calib: &mut InputCalibration, raw: &[u16; 11]) -> (s: InputState)
    requires
        calib_ordered(*old(calib)),
    ensures
        polled(*old(calib), *raw, s),
        poll_filters(*old(calib), *raw, *final(calib)),
        calib_ordered(*final(calib)),
{
    let roll = calib.roll.normalize(raw[0]);
    let pitch = calib.pitch.normalize(raw[1]);
    let throttle = calib.throttle.normalize(raw[2]);
    let yaw = calib.yaw.normalize(raw[3]);
    let vr1 = calib.vra.normalize(raw[6]);
    let vr2 = calib.vrb.normalize(raw[7]);
    let switches = Switches {
        sa: decode_switch(raw[4]),
        sb: decode_switch(raw[5]),
        sc: decode_switch(raw[8]),
        sd: decode_switch(raw[9]),
    };
    let instant_mv = calculate_battery_mv(raw[10]);
    let battery_mv = filter_battery(calib, instant_mv);
    InputState {
        sticks: Sticks { roll, pitch, throttle, yaw },
        pots: Pots { vr1, vr2 },
        switches,
        battery_mv,
        raw: *raw,
    }
}

/// A stick resting at its calibrated center reads zero, whichever way the
/// axis is inverted.
pub proof fn lemma_center_reads_zero(c: AxisCalib, filtered_after: u32)
    requires
        (filtered_after / 4) as u16 == c.center,
    ensures
        axis_value(c, filtered_after) == 0,
{
}

/// Every reading is within -1000..=1000.
pub proof fn lemma_axis_in_range(c: AxisCalib, filtered_after: u32)
    ensures
        -1000 <= axis_value(c, filtered_after) <= 1000,
{
}


/// The first sample through a fresh filter is taken as it is: a stick held
/// at its calibrated minimum reads full scale down (-1000) and one at its
/// maximum full scale up (+1000), the sign flipped for an inverted axis,
/// whenever that half of the travel spans at least 100 counts.
pub proof fn lemma_endpoints_read_full_scale(c: AxisCalib, raw: u16)
    requires
        c.min <= c.center <= c.max,
    ensures
        filter_step(0, raw) / 4 == raw,
        raw == c.min && c.center - c.min >= 100 ==> axis_value(c, filter_step(0, raw)) == (if c.invert { 1000int } else { -1000int }),
        raw == c.max && c.max - c.center >= 100 ==> axis_value(c, filter_step(0, raw)) == (if c.invert { -1000int } else { 1000int }),
{
    assert(filter_step(0, raw) == raw * 4);
    let d_lo = c.center - c.min;
    let d_hi = c.max - c.center;
    if raw == c.min && d_lo >= 100 {
        vstd::arithmetic::div_mod::lemma_div_by_multiple(1000, d_lo);
        assert((c.min - c.center) * 1000 == -(1000 * d_lo));
        assert(tdiv((c.min - c.center) * 1000, d_lo) == -1000);
    }
    if raw == c.max && d_hi >= 100 {
        vstd::arithmetic::div_mod::lemma_div_by_multiple(1000, d_hi);
        assert((c.max - c.center) * 1000 == 1000 * d_hi);
    }
}

/// A reading at or below the center depends on the lower endpoint only and
/// one above it on the upper endpoint only: each half of the travel is
/// scaled by its own span.
pub proof fn lemma_halves_scale_independently(c: AxisCalib, filtered_after: u32, other: u16)
    ensures
        (filtered_after / 4) as u16 <= c.center ==> axis_value(c, filtered_after) == axis_value(AxisCalib { max: other, ..c }, filtered_after),
        (filtered_after / 4) as u16 > c.center ==> axis_value(c, filtered_after) == axis_value(AxisCalib { min: other, ..c }, filtered_after),
{
}

} // verus!
