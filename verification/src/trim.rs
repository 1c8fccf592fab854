//! Digital trims: four axes stepped by the eight trim rocker keys with edge
//! detection, auto-repeat and audio feedback, limited to -25..=+25 steps of
//! 4 microseconds, and their application to channel pulses.
use vstd::prelude::*;
use crate::arith::{clamp, clamp_i32, tdiv};
use crate::boot::{dfu_keys_held, is_dfu_requested};
use crate::buzzer::{buzzer_wf, preset, tone_pattern, trim_step_freq, Buzzer, BuzzerView, Note};
use vstd::std_specs::bits::u8_trailing_zeros;

verus! {

pub const TRIM_MIN: i8 = -25;
pub const TRIM_MAX: i8 = 25;
pub const TRIM_STEP_US: i16 = 4;
pub const TRIM_MAX_OFFSET_US: i16 = 100;

/// Trim values for the four primary channels.
#[derive(Copy, Clone, Debug, Default)]
pub struct TrimValues {
    pub roll: i8,
    pub pitch: i8,
    pub throttle: i8,
    pub yaw: i8,
}

/// Which trim was last modified (for the temporary UI callout).
#[derive(Copy, Clone, Debug, PartialEq, Eq, Structural)]
pub enum ActiveTrim {
    NoAxis,
    Roll,
    Pitch,
    Throttle,
    Yaw,
}

/// Trim state and the key repeat machine.
pub struct TrimController {
    pub values: TrimValues,
    pub last_active: ActiveTrim,
    pub active_timer_ms: u16,
    pub throttle_enabled: bool,
    pub prev_trim_keys: u8,
    pub hold_time_ms: u16,
    pub repeat_time_ms: u16,
}

/// A pulse shifted by `trim` steps and kept within 988..=2012 microseconds.
pub open spec fn trim_applied(base: int, trim: int) -> int {
    clamp(base + trim * 4, 988, 2012)
}

/// Throttle trim by mode: 1 (idle trim) applies full authority at the
/// bottom of the stroke tapering to none at the top and keeps the pulse
/// within 888..=2112; 2 (linear) behaves like the other trims; 0 (off,
/// locked) and any other mode return the pulse unaltered.
pub open spec fn throttle_trim_applied(base: int, trim: int, mode: u8) -> int {
    if mode == 1 {
        let travel = clamp(base - 988, 0, 1024);
        let effective = tdiv(trim * 4 * (1024 - travel), 1024);
        clamp(base + effective, 888, 2112)
    } else if mode == 2 {
        trim_applied(base, trim)
    } else {
        base
    }
}

impl TrimController {
    /// All trims centered, throttle trim locked, no key held.
    pub fn new() -> (t: Self)
        ensures
            t.values.roll == 0 && t.values.pitch == 0 && t.values.throttle == 0 && t.values.yaw == 0,
            t.last_active == ActiveTrim::NoAxis,
            t.active_timer_ms == 0,
            !t.throttle_enabled,
            t.prev_trim_keys == 0 && t.hold_time_ms == 0 && t.repeat_time_ms == 0,
    {
        TrimController {
            values: TrimValues { roll: 0, pitch: 0, throttle: 0, yaw: 0 },
            last_active: ActiveTrim::NoAxis,
            active_timer_ms: 0,
            throttle_enabled: false,
            prev_trim_keys: 0,
            hold_time_ms: 0,
            repeat_time_ms: 0,
        }
    }

    /// Apply a trim offset of `trim` steps to a channel pulse.
    pub fn apply(base_us: u16, trim: i8) -> (r: u16)
        requires
            -32768 <= (base_us as i16) + trim * 4 <= 32767,
        ensures
            r as int == trim_applied((base_us as i16) as int, trim as int),
            988 <= r <= 2012,
    {
        let offset = trim as i16 * TRIM_STEP_US;
        let v = base_us as i16 + offset;
        if v < 988 {
            988
        } else if v > 2012 {
            2012
        } else {
            v as u16
        }
    }

    /// Apply the throttle trim according to the throttle trim mode.
    pub fn apply_throttle(base_us: u16, trim: i8, mode: u8) -> (r: u16)
        requires
            mode == 2 ==> -32768 <= (base_us as i16) + trim * 4 <= 32767,
        ensures
            mode == 2 ==> r as int == trim_applied((base_us as i16) as int, trim as int),
            mode != 2 ==> r as int == throttle_trim_applied(base_us as int, trim as int, mode),
    {
        match mode {
            1 => {
                let max_offset = trim as i32 * 4;
                let stick_travel = clamp_i32(base_us as i32 - 988, 0, 1024);
                assert(-512 * 1024 <= max_offset * (1024 - stick_travel) <= 512 * 1024) by (nonlinear_arith)
                    requires
                        -512 <= max_offset <= 512,
                        0 <= 1024 - stick_travel <= 1024,
                ;
                let effective_offset = (max_offset * (1024 - stick_travel)) / 1024;
                clamp_i32(base_us as i32 + effective_offset, 888, 2112) as u16
            },
            2 => Self::apply(base_us, trim),
            _ => base_us,
        }
    }
}


/// The sound a trim key press makes.
#[derive(Copy, Clone, Debug, PartialEq, Eq, Structural)]
pub enum TrimSound {
    Limit,
    Center,
    Step(i8),
}

/// The buzzer after a trim sound.
pub open spec fn sound_played(b: BuzzerView, s: TrimSound) -> BuzzerView {
    match s {
        TrimSound::Limit => preset(
            b,
            seq![Note { freq_hz: 1100, duration_ms: 40, pause_ms: 15 }, Note { freq_hz: 900, duration_ms: 60, pause_ms: 0 }],
            1100,
            45,
            0,
            0,
        ),
        TrimSound::Center => preset(
            b,
            seq![Note { freq_hz: 2400, duration_ms: 30, pause_ms: 10 }, Note { freq_hz: 3000, duration_ms: 50, pause_ms: 0 }],
            2800,
            60,
            0,
            0,
        ),
        TrimSound::Step(v) => tone_pattern(b, trim_step_freq(v) as u16, 25, 0, 0),
    }
}

/// The value of one trim axis.
pub open spec fn axis_value(v: TrimValues, axis: ActiveTrim) -> i8 {
    match axis {
        ActiveTrim::Roll => v.roll,
        ActiveTrim::Pitch => v.pitch,
        ActiveTrim::Throttle => v.throttle,
        ActiveTrim::Yaw => v.yaw,
        ActiveTrim::NoAxis => 0,
    }
}

/// Trim values with one axis replaced.
pub open spec fn with_axis(v: TrimValues, axis: ActiveTrim, x: i8) -> TrimValues {
    match axis {
        ActiveTrim::Roll => TrimValues { roll: x, ..v },
        ActiveTrim::Pitch => TrimValues { pitch: x, ..v },
        ActiveTrim::Throttle => TrimValues { throttle: x, ..v },
        ActiveTrim::Yaw => TrimValues { yaw: x, ..v },
        ActiveTrim::NoAxis => v,
    }
}

/// One trim step of `delta` on `axis`: refused with the limit sound when the
/// throttle trim is locked or the axis is already at its limit in that
/// direction; otherwise the value moves (kept within -25..=25), the axis is
/// shown for 1.5 s, and the center or step sound plays.
pub open spec fn step_result(t: TrimController, axis: ActiveTrim, delta: i8) -> (TrimController, TrimSound) {
    let curr = axis_value(t.values, axis);
    if (axis == ActiveTrim::Throttle && !t.throttle_enabled) || (delta > 0 && curr >= 25) || (delta < 0 && curr <= -25) {
        (t, TrimSound::Limit)
    } else {
        let nv = clamp(curr + delta, -25, 25) as i8;
        (
            TrimController { values: with_axis(t.values, axis, nv), last_active: axis, active_timer_ms: 1500, ..t },
            if nv == 0 { TrimSound::Center } else { TrimSound::Step(nv) },
        )
    }
}

/// The axis and direction of trim key `k` (0..=7): roll right/left, pitch
/// up/down, throttle up/down, yaw right/left.
pub open spec fn key_axis(k: u8) -> (ActiveTrim, i8) {
    if k == 0 {
        (ActiveTrim::Roll, 1i8)
    } else if k == 1 {
        (ActiveTrim::Roll, -1i8)
    } else if k == 2 {
        (ActiveTrim::Pitch, 1i8)
    } else if k == 3 {
        (ActiveTrim::Pitch, -1i8)
    } else if k == 4 {
        (ActiveTrim::Throttle, 1i8)
    } else if k == 5 {
        (ActiveTrim::Throttle, -1i8)
    } else if k == 6 {
        (ActiveTrim::Yaw, 1i8)
    } else {
        (ActiveTrim::Yaw, -1i8)
    }
}

/// The key state machine before any trim step: the display timer counts
/// down (clearing the shown axis at zero); the bootloader combination or no
/// trim key resets the repeat state; a newly pressed key (the lowest newly
/// set bit) triggers at once; a held key triggers every 90 ms after 350 ms.
pub open spec fn key_scan(t: TrimController, keys: u16, dt: u16) -> (TrimController, Option<u8>) {
    let timer = if t.active_timer_ms > 0 { t.active_timer_ms.saturating_sub(dt) } else { t.active_timer_ms };
    let shown = if t.active_timer_ms > 0 && timer == 0 { ActiveTrim::NoAxis } else { t.last_active };
    let t1 = TrimController { active_timer_ms: timer, last_active: shown, ..t };
    let trim_keys = (keys & 0xFF) as u8;
    if dfu_keys_held(keys) || trim_keys == 0 {
        (TrimController { prev_trim_keys: 0, hold_time_ms: 0, repeat_time_ms: 0, ..t1 }, None)
    } else if trim_keys != t.prev_trim_keys {
        let newly = trim_keys & !t.prev_trim_keys;
        (
            TrimController { prev_trim_keys: trim_keys, hold_time_ms: 0, repeat_time_ms: 0, ..t1 },
            if newly != 0 { Some(u8_trailing_zeros(newly) as u8) } else { None },
        )
    } else {
        let hold = t.hold_time_ms.saturating_add(dt);
        if hold >= 350 {
            let rep = t.repeat_time_ms.saturating_add(dt);
            if rep >= 90 {
                (TrimController { hold_time_ms: hold, repeat_time_ms: 0, ..t1 }, Some(u8_trailing_zeros(trim_keys) as u8))
            } else {
                (TrimController { hold_time_ms: hold, repeat_time_ms: rep, ..t1 }, None)
            }
        } else {
            (TrimController { hold_time_ms: hold, ..t1 }, None)
        }
    }
}

impl TrimController {
    /// Update the trims from a key matrix scan taken `dt_ms` after the last.
    pub fn update(&mut self, keys: u16, dt_ms: u16, buzzer: &mut Buzzer)
        requires
            buzzer_wf(old(buzzer)@),
        ensures
            buzzer_wf(final(buzzer)@),
            ({
                let (t1, key) = key_scan(*old(self), keys, dt_ms);
                match key {
                    None => *final(self) == t1 && final(buzzer)@ == old(buzzer)@,
                    Some(k) => {
                        let (t2, snd) = step_result(t1, key_axis(k).0, key_axis(k).1);
                        *final(self) == t2 && final(buzzer)@ == sound_played(old(buzzer)@, snd)
                    },
                }
            }),
    {
        if self.active_timer_ms > 0 {
            self.active_timer_ms = self.active_timer_ms.saturating_sub(dt_ms);
            if self.active_timer_ms == 0 {
                self.last_active = ActiveTrim::NoAxis;
            }
        }
        if is_dfu_requested(keys) {
            self.prev_trim_keys = 0;
            self.hold_time_ms = 0;
            self.repeat_time_ms = 0;
            return;
        }
        let trim_keys = (keys & 0x00FF) as u8;
        if trim_keys == 0 {
            self.prev_trim_keys = 0;
            self.hold_time_ms = 0;
            self.repeat_time_ms = 0;
            return;
        }
        let mut trigger_key: Option<u8> = None;
        if trim_keys != self.prev_trim_keys {
            let newly_pressed = trim_keys & !self.prev_trim_keys;
            if newly_pressed != 0 {
                trigger_key = Some(newly_pressed.trailing_zeros() as u8);
            }
            self.prev_trim_keys = trim_keys;
            self.hold_time_ms = 0;
            self.repeat_time_ms = 0;
        } else {
            self.hold_time_ms = self.hold_time_ms.saturating_add(dt_ms);
            if self.hold_time_ms >= 350 {
                self.repeat_time_ms = self.repeat_time_ms.saturating_add(dt_ms);
                if self.repeat_time_ms >= 90 {
                    self.repeat_time_ms = 0;
                    trigger_key = Some(trim_keys.trailing_zeros() as u8);
                }
            }
        }
        if let Some(key_bit) = trigger_key {
            self.process_trim_key(key_bit, buzzer);
        }
    }

    /// Process one trim click for key index 0..=7.
    pub fn process_trim_key(&mut self, key: u8, buzzer: &mut Buzzer)
        requires
            buzzer_wf(old(buzzer)@),
        ensures
            buzzer_wf(final(buzzer)@),
            key < 8 ==> ({
                let (t2, snd) = step_result(*old(self), key_axis(key).0, key_axis(key).1);
                *final(self) == t2 && final(buzzer)@ == sound_played(old(buzzer)@, snd)
            }),
            key >= 8 ==> *final(self) == *old(self) && final(buzzer)@ == old(buzzer)@,
    {
        match key {
            0 => self.step_trim(ActiveTrim::Roll, 1, buzzer),
            1 => self.step_trim(ActiveTrim::Roll, -1, buzzer),
            2 => self.step_trim(ActiveTrim::Pitch, 1, buzzer),
            3 => self.step_trim(ActiveTrim::Pitch, -1, buzzer),
            4 => self.step_trim(ActiveTrim::Throttle, 1, buzzer),
            5 => self.step_trim(ActiveTrim::Throttle, -1, buzzer),
            6 => self.step_trim(ActiveTrim::Yaw, 1, buzzer),
            7 => self.step_trim(ActiveTrim::Yaw, -1, buzzer),
            _ => {},
        }
    }

    /// Step one trim axis by `delta` (+1 or -1) with audio feedback.
    pub fn step_trim(&mut self, axis: ActiveTrim, delta: i8, buzzer: &mut Buzzer)
        requires
            buzzer_wf(old(buzzer)@),
            axis != ActiveTrim::NoAxis,
            delta == 1 || delta == -1,
        ensures
            buzzer_wf(final(buzzer)@),
            ({
                let (t2, snd) = step_result(*old(self), axis, delta);
                *final(self) == t2 && final(buzzer)@ == sound_played(old(buzzer)@, snd)
            }),
    {
        if axis == ActiveTrim::Throttle && !self.throttle_enabled {
            buzzer.trim_limit();
            return;
        }
        let curr = match axis {
            ActiveTrim::Roll => self.values.roll,
            ActiveTrim::Pitch => self.values.pitch,
            ActiveTrim::Throttle => self.values.throttle,
            ActiveTrim::Yaw => self.values.yaw,
            ActiveTrim::NoAxis => 0,
        };
        if delta > 0 && curr >= TRIM_MAX {
            buzzer.trim_limit();
            return;
        }
        if delta < 0 && curr <= TRIM_MIN {
            buzzer.trim_limit();
            return;
        }
        let sum = curr + delta;
        let new_val: i8 = if sum < -25 { -25 } else if sum > 25 { 25 } else { sum };
        match axis {
            ActiveTrim::Roll => self.values.roll = new_val,
            ActiveTrim::Pitch => self.values.pitch = new_val,
            ActiveTrim::Throttle => self.values.throttle = new_val,
            ActiveTrim::Yaw => self.values.yaw = new_val,
            ActiveTrim::NoAxis => {},
        }
        self.last_active = axis;
        self.active_timer_ms = 1500;
        if new_val == 0 {
            buzzer.trim_center();
        } else {
            buzzer.trim_step(new_val);
        }
    }
}

/// Trims stay within -25..=25: a step never moves an in-range trim out of
/// range, whatever key, timing or lock state.
pub proof fn lemma_trim_steps_stay_in_range(t: TrimController, keys: u16, dt: u16)
    requires
        trims_in_range(t.values),
    ensures
        ({
            let (t1, key) = key_scan(t, keys, dt);
            &&& trims_in_range(t1.values)
            &&& (key matches Some(k) ==> trims_in_range(step_result(t1, key_axis(k).0, key_axis(k).1).0.values))
        }),
{
}

/// All four trims within -25..=25.
pub open spec fn trims_in_range(v: TrimValues) -> bool {
    &&& -25 <= v.roll <= 25
    &&& -25 <= v.pitch <= 25
    &&& -25 <= v.throttle <= 25
    &&& -25 <= v.yaw <= 25
}


/// Trim `j` in rocker order: 0 roll, 1 pitch, 2 throttle, 3 yaw.
pub open spec fn trim_at(v: TrimValues, j: int) -> int {
    if j == 0 {
        v.roll as int
    } else if j == 1 {
        v.pitch as int
    } else if j == 2 {
        v.throttle as int
    } else {
        v.yaw as int
    }
}

/// The eight trim keys are four rockers: keys `2j` and `2j + 1` step trim
/// `j` (roll, pitch, throttle, yaw) by +1 and -1. A click on a trim that is
/// not at its limit (and, for the throttle, not locked) moves that one trim
/// by exactly one step and leaves the other three alone; the opposite key of
/// the same rocker then puts it back.
pub proof fn lemma_trim_key_steps(t: TrimController, k: u8)
    requires
        k < 8,
        trims_in_range(t.values),
        -25 < trim_at(t.values, (k / 2) as int) < 25,
        k / 2 == 2 ==> t.throttle_enabled,
    ensures
        ({
            let r = step_result(t, key_axis(k).0, key_axis(k).1).0;
            let o: u8 = if k % 2 == 0 { (k + 1) as u8 } else { (k - 1) as u8 };
            let back = step_result(r, key_axis(o).0, key_axis(o).1).0;
            &&& forall|j: int| 0 <= j < 4 ==> #[trigger] trim_at(r.values, j) == trim_at(t.values, j)
                + (if j == k / 2 { if k % 2 == 0 { 1int } else { -1int } } else { 0int })
            &&& back.values == t.values
        }),
{
}

} // verus!
