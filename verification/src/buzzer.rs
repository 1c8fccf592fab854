//! Piezo buzzer sequencing: single tones, repeated patterns and short
//! melodies advanced by a millisecond tick, plus the preset chimes and
//! alerts. The buzzer keeps the PWM setting the timer should output
//! (period and compare values at 1 microsecond per count); the caller
//! writes it to the timer.
use vstd::prelude::*;
use crate::arith::clamp;

verus! {

pub const BEEP_DEFAULT_FREQ: u16 = 2250;
pub const BEEP_CENTER_FREQ: u16 = 2800;
pub const BEEP_LIMIT_FREQ: u16 = 1100;

/// Longest melody the buzzer holds.
pub const MAX_SEQ_NOTES: usize = 8;

/// One note of a melody.
#[derive(Copy, Clone, Debug, PartialEq, Eq, Structural)]
pub struct Note {
    pub freq_hz: u16,
    pub duration_ms: u16,
    pub pause_ms: u16,
}

impl Note {
    pub fn new(freq_hz: u16, duration_ms: u16, pause_ms: u16) -> (n: Self)
        ensures
            n == (Note { freq_hz, duration_ms, pause_ms }),
    {
        Note { freq_hz, duration_ms, pause_ms }
    }
}

/// Simple single beeps or rich melodic chimes.
#[derive(Copy, Clone, Debug, PartialEq, Eq, Structural)]
pub enum ToneStyle {
    Simple,
    Rich,
}

/// The style a stored code selects: 0 is Simple, anything else Rich.
pub open spec fn tone_style_of(val: u8) -> ToneStyle {
    if val == 0 { ToneStyle::Simple } else { ToneStyle::Rich }
}

impl ToneStyle {
    pub fn from_u8(val: u8) -> (s: Self)
        ensures
            s == tone_style_of(val),
    {
        if val == 0 {
            ToneStyle::Simple
        } else {
            ToneStyle::Rich
        }
    }
}

/// What the tone timer should output.
#[derive(Copy, Clone, Debug, PartialEq, Eq, Structural)]
pub enum PwmOutput {
    Off,
    /// Auto-reload (period - 1) and compare (half period) values.
    On { arr: u32, ccr: u32 },
}

/// Buzzer playback state.
pub struct Buzzer {
    pub enabled: bool,
    pub tone_style: ToneStyle,
    pub remaining_ms: u16,
    pub pause_ms: u16,
    pub repeat_count: u8,
    pub active_freq: u16,
    pub active_len_ms: u16,
    pub active_pause_ms: u16,
    pub seq_notes: [Note; 8],
    pub seq_len: u8,
    pub seq_idx: u8,
    pub pwm: PwmOutput,
}

/// The playback state as plain values.
pub struct BuzzerView {
    pub enabled: bool,
    pub tone_style: ToneStyle,
    pub remaining_ms: u16,
    pub pause_ms: u16,
    pub repeat_count: u8,
    pub active_freq: u16,
    pub active_len_ms: u16,
    pub active_pause_ms: u16,
    pub notes: Seq<Note>,
    pub seq_len: u8,
    pub seq_idx: u8,
    pub pwm: PwmOutput,
}

impl View for Buzzer {
    type V = BuzzerView;

    open spec fn view(&self) -> BuzzerView {
        BuzzerView {
            enabled: self.enabled,
            tone_style: self.tone_style,
            remaining_ms: self.remaining_ms,
            pause_ms: self.pause_ms,
            repeat_count: self.repeat_count,
            active_freq: self.active_freq,
            active_len_ms: self.active_len_ms,
            active_pause_ms: self.active_pause_ms,
            notes: self.seq_notes@,
            seq_len: self.seq_len,
            seq_idx: self.seq_idx,
            pwm: self.pwm,
        }
    }
}

/// A melody in progress never runs past its stored notes.
pub open spec fn buzzer_wf(v: BuzzerView) -> bool {
    &&& v.notes.len() == 8
    &&& v.seq_len <= 8
    &&& v.seq_idx <= v.seq_len
}

/// Timer period in microseconds for a tone, limited to 10..=65535.
pub open spec fn tone_period(freq_hz: u16) -> int {
    clamp(1_000_000int / (freq_hz as int), 10, 65535)
}

/// Starting the tone generator: only when enabled and at 100 Hz or more,
/// with a 50% duty cycle.
pub open spec fn hw_on(v: BuzzerView, freq_hz: u16) -> BuzzerView {
    if v.enabled && freq_hz >= 100 {
        BuzzerView { pwm: PwmOutput::On { arr: (tone_period(freq_hz) - 1) as u32, ccr: (tone_period(freq_hz) / 2) as u32 }, ..v }
    } else {
        v
    }
}

/// Stopping the tone generator.
pub open spec fn hw_off(v: BuzzerView) -> BuzzerView {
    BuzzerView { pwm: PwmOutput::Off, ..v }
}

/// State after starting `repeats + 1` beeps of `freq_hz` for `duration_ms`
/// each with `pause_ms` between them (any melody is dropped).
pub open spec fn tone_pattern(v: BuzzerView, freq_hz: u16, duration_ms: u16, pause_ms: u16, repeats: u8) -> BuzzerView {
    hw_on(
        BuzzerView {
            seq_len: 0,
            seq_idx: 0,
            active_freq: freq_hz,
            active_len_ms: duration_ms,
            active_pause_ms: pause_ms,
            remaining_ms: duration_ms,
            pause_ms: pause_ms,
            repeat_count: repeats,
            ..v
        },
        freq_hz,
    )
}

/// State after starting the first up to 8 notes of a melody; nothing
/// changes when the buzzer is disabled or the melody is empty.
pub open spec fn sequence(v: BuzzerView, notes: Seq<Note>) -> BuzzerView {
    if !v.enabled || notes.len() == 0 {
        v
    } else {
        let count = if notes.len() < 8 { notes.len() } else { 8 };
        let first = notes[0];
        hw_on(
            BuzzerView {
                notes: notes.subrange(0, count as int) + v.notes.subrange(count as int, 8),
                seq_len: count as u8,
                seq_idx: 0,
                repeat_count: 0,
                active_freq: first.freq_hz,
                active_len_ms: first.duration_ms,
                active_pause_ms: first.pause_ms,
                remaining_ms: first.duration_ms,
                pause_ms: first.pause_ms,
                ..v
            },
            first.freq_hz,
        )
    }
}

/// Silence with nothing queued.
pub open spec fn stopped(v: BuzzerView) -> BuzzerView {
    hw_off(BuzzerView { remaining_ms: 0, pause_ms: 0, repeat_count: 0, seq_len: 0, seq_idx: 0, ..v })
}

/// State after `elapsed` milliseconds: a sounding tone counts down and at
/// its end falls silent into its pause; an expired pause starts the next
/// repeat or the next melody note, or ends the melody.
pub open spec fn ticked(v: BuzzerView, elapsed: u16) -> BuzzerView {
    if v.remaining_ms > 0 {
        if v.remaining_ms <= elapsed {
            let off = hw_off(BuzzerView { remaining_ms: 0, ..v });
            if v.repeat_count > 0 || v.seq_len > 0 {
                BuzzerView { pause_ms: v.active_pause_ms, ..off }
            } else {
                off
            }
        } else {
            BuzzerView { remaining_ms: (v.remaining_ms - elapsed) as u16, ..v }
        }
    } else if v.pause_ms > 0 {
        if v.pause_ms <= elapsed {
            let w = BuzzerView { pause_ms: 0, ..v };
            if v.repeat_count > 0 {
                hw_on(BuzzerView { repeat_count: (v.repeat_count - 1) as u8, remaining_ms: v.active_len_ms, ..w }, v.active_freq)
            } else if v.seq_len > 0 {
                let idx = v.seq_idx + 1;
                if idx < v.seq_len {
                    let note = v.notes[idx];
                    hw_on(
                        BuzzerView {
                            seq_idx: idx as u8,
                            active_freq: note.freq_hz,
                            active_len_ms: note.duration_ms,
                            active_pause_ms: note.pause_ms,
                            remaining_ms: note.duration_ms,
                            pause_ms: note.pause_ms,
                            ..w
                        },
                        note.freq_hz,
                    )
                } else {
                    BuzzerView { seq_len: 0, seq_idx: 0, ..w }
                }
            } else {
                w
            }
        } else {
            BuzzerView { pause_ms: (v.pause_ms - elapsed) as u16, ..v }
        }
    } else {
        v
    }
}

/// The tone for a trim step: 2000 Hz moved 20 Hz per step, within 1500..=2500 Hz.
pub open spec fn trim_step_freq(step: i8) -> int {
    clamp(2000 + step * 20, 1500, 2500)
}

pub open spec fn welcome_melody() -> Seq<Note> {
    seq![
        Note { freq_hz: 1046, duration_ms: 110, pause_ms: 25 },
        Note { freq_hz: 1318, duration_ms: 110, pause_ms: 25 },
        Note { freq_hz: 1568, duration_ms: 120, pause_ms: 30 },
        Note { freq_hz: 2093, duration_ms: 240, pause_ms: 0 },
    ]
}

/// Two notes played in sequence.
pub open spec fn two_notes(f1: u16, d1: u16, p1: u16, f2: u16, d2: u16) -> Seq<Note> {
    seq![Note { freq_hz: f1, duration_ms: d1, pause_ms: p1 }, Note { freq_hz: f2, duration_ms: d2, pause_ms: 0 }]
}

/// Three notes played in sequence.
pub open spec fn three_notes(f1: u16, d1: u16, p1: u16, f2: u16, d2: u16, p2: u16, f3: u16, d3: u16) -> Seq<Note> {
    seq![
        Note { freq_hz: f1, duration_ms: d1, pause_ms: p1 },
        Note { freq_hz: f2, duration_ms: d2, pause_ms: p2 },
        Note { freq_hz: f3, duration_ms: d3, pause_ms: 0 },
    ]
}

/// Four notes played in sequence, each but the last followed by `pause`.
pub open spec fn four_notes(f1: u16, f2: u16, f3: u16, f4: u16, d: u16, d_last: u16, pause: u16) -> Seq<Note> {
    seq![
        Note { freq_hz: f1, duration_ms: d, pause_ms: pause },
        Note { freq_hz: f2, duration_ms: d, pause_ms: pause },
        Note { freq_hz: f3, duration_ms: d, pause_ms: pause },
        Note { freq_hz: f4, duration_ms: d_last, pause_ms: 0 },
    ]
}

/// A preset: the melody in the rich style, otherwise the given simple beep.
pub open spec fn preset(v: BuzzerView, melody: Seq<Note>, freq: u16, dur: u16, pause: u16, repeats: u8) -> BuzzerView {
    if v.tone_style == ToneStyle::Rich {
        sequence(v, melody)
    } else {
        tone_pattern(v, freq, dur, pause, repeats)
    }
}

/// The arming chirp.
pub open spec fn armed_chime(v: BuzzerView) -> BuzzerView {
    preset(v, seq![Note { freq_hz: 1800, duration_ms: 45, pause_ms: 10 }, Note { freq_hz: 2600, duration_ms: 75, pause_ms: 0 }], 2400, 80, 0, 0)
}

/// The disarming chirp.
pub open spec fn disarmed_chime(v: BuzzerView) -> BuzzerView {
    preset(v, seq![Note { freq_hz: 2600, duration_ms: 45, pause_ms: 10 }, Note { freq_hz: 1800, duration_ms: 75, pause_ms: 0 }], 1800, 80, 0, 0)
}

/// The low battery alarm.
pub open spec fn battery_alarm(v: BuzzerView) -> BuzzerView {
    preset(v, seq![Note { freq_hz: 2000, duration_ms: 60, pause_ms: 30 }, Note { freq_hz: 2300, duration_ms: 60, pause_ms: 30 }, Note { freq_hz: 2600, duration_ms: 90, pause_ms: 0 }], 2400, 70, 50, 1)
}

/// The pre-flight safety alarm.
pub open spec fn preflight_alarm(v: BuzzerView) -> BuzzerView {
    preset(v, seq![Note { freq_hz: 2600, duration_ms: 70, pause_ms: 25 }, Note { freq_hz: 2600, duration_ms: 70, pause_ms: 25 }, Note { freq_hz: 2900, duration_ms: 90, pause_ms: 0 }], 2600, 80, 50, 2)
}

/// The inactivity reminder.
pub open spec fn inactivity_alarm(v: BuzzerView) -> BuzzerView {
    preset(v, seq![Note { freq_hz: 1600, duration_ms: 70, pause_ms: 30 }, Note { freq_hz: 2000, duration_ms: 100, pause_ms: 0 }], 1800, 250, 0, 0)
}

/// The low link quality alarm.
pub open spec fn rssi_low_alarm(v: BuzzerView) -> BuzzerView {
    preset(v, seq![Note { freq_hz: 1900, duration_ms: 50, pause_ms: 20 }, Note { freq_hz: 1700, duration_ms: 70, pause_ms: 0 }], 2000, 80, 0, 0)
}

/// The critical link quality alarm.
pub open spec fn rssi_critical_alarm(v: BuzzerView) -> BuzzerView {
    preset(v, seq![Note { freq_hz: 2600, duration_ms: 40, pause_ms: 20 }, Note { freq_hz: 1800, duration_ms: 40, pause_ms: 20 }, Note { freq_hz: 2600, duration_ms: 40, pause_ms: 20 }, Note { freq_hz: 1800, duration_ms: 60, pause_ms: 0 }], 2800, 50, 40, 2)
}

/// A short tone of `freq_hz` for `duration_ms`.
pub open spec fn beep(v: BuzzerView, freq_hz: u16, duration_ms: u16) -> BuzzerView {
    tone_pattern(v, freq_hz, duration_ms, 0, 0)
}

/// The key click.
pub open spec fn clicked(v: BuzzerView) -> BuzzerView {
    tone_pattern(v, BEEP_DEFAULT_FREQ, 15, 0, 0)
}

impl Buzzer {
    /// Enabled, rich style, silent.
    pub fn new() -> (b: Self)
        ensures
            b.enabled,
            b.tone_style == ToneStyle::Rich,
            b.remaining_ms == 0 && b.pause_ms == 0 && b.repeat_count == 0,
            b.seq_len == 0 && b.seq_idx == 0,
            b.pwm == PwmOutput::Off,
            buzzer_wf(b@),
    {
        Buzzer {
            enabled: true,
            tone_style: ToneStyle::Rich,
            remaining_ms: 0,
            pause_ms: 0,
            repeat_count: 0,
            active_freq: 0,
            active_len_ms: 0,
            active_pause_ms: 0,
            seq_notes: [Note { freq_hz: 0, duration_ms: 0, pause_ms: 0 }; 8],
            seq_len: 0,
            seq_idx: 0,
            pwm: PwmOutput::Off,
        }
    }

    /// The PWM setting the tone timer should output now.
    pub fn pwm_output(&self) -> (p: PwmOutput)
        ensures
            p == self.pwm,
    {
        self.pwm
    }

    fn hardware_on(&mut self, freq_hz: u16)
        ensures
            final(self)@ == hw_on(old(self)@, freq_hz),
    {
        if !self.enabled || freq_hz < 100 {
            return;
        }
        let q = 1_000_000u32 / (freq_hz as u32);
        let period: u32 = if q < 10 { 10 } else if q > 65535 { 65535 } else { q };
        self.pwm = PwmOutput::On { arr: period - 1, ccr: period / 2 };
    }

    fn hardware_off(&mut self)
        ensures
            final(self)@ == hw_off(old(self)@),
    {
        self.pwm = PwmOutput::Off;
    }

    /// Play a single tone of `freq_hz` for `duration_ms`.
    pub fn play_tone(&mut self, freq_hz: u16, duration_ms: u16)
        ensures
            final(self)@ == tone_pattern(old(self)@, freq_hz, duration_ms, 0, 0),
    {
        self.seq_len = 0;
        self.seq_idx = 0;
        self.play_tone_pattern(freq_hz, duration_ms, 0, 0);
    }

    /// Play `repeats + 1` beeps of `freq_hz` with `pause_ms` between them.
    pub fn play_tone_pattern(&mut self, freq_hz: u16, duration_ms: u16, pause_ms: u16, repeats: u8)
        ensures
            final(self)@ == tone_pattern(old(self)@, freq_hz, duration_ms, pause_ms, repeats),
    {
        self.seq_len = 0;
        self.seq_idx = 0;
        self.active_freq = freq_hz;
        self.active_len_ms = duration_ms;
        self.active_pause_ms = pause_ms;
        self.remaining_ms = duration_ms;
        self.pause_ms = pause_ms;
        self.repeat_count = repeats;
        self.hardware_on(freq_hz);
    }

    /// Play an ordered sequence of notes (at most 8 are kept).
    pub fn play_sequence(&mut self, notes: &[Note])
        requires
            buzzer_wf(old(self)@),
        ensures
            final(self)@ == sequence(old(self)@, notes@),
            buzzer_wf(final(self)@),
    {
        if !self.enabled || notes.len() == 0 {
            return;
        }
        let count = if notes.len() < 8 { notes.len() } else { 8 };
        let mut arr = self.seq_notes;
        let ghost before = arr@;
        let mut i: usize = 0;
        while i < count
            invariant
                0 <= i <= count <= 8,
                count <= notes@.len(),
                arr@.len() == 8,
                before.len() == 8,
                forall|k: int| 0 <= k < i ==> #[trigger] arr@[k] == notes@[k],
                forall|k: int| i <= k < 8 ==> #[trigger] arr@[k] == before[k],
            decreases count - i,
        {
            arr[i] = notes[i];
            i = i + 1;
        }
        assert(arr@ =~= notes@.subrange(0, count as int) + before.subrange(count as int, 8));
        self.seq_notes = arr;
        self.seq_len = count as u8;
        self.seq_idx = 0;
        self.repeat_count = 0;
        let first = self.seq_notes[0];
        self.active_freq = first.freq_hz;
        self.active_len_ms = first.duration_ms;
        self.active_pause_ms = first.pause_ms;
        self.remaining_ms = first.duration_ms;
        self.pause_ms = first.pause_ms;
        self.hardware_on(first.freq_hz);
    }

    /// Silence immediately and clear anything queued.
    pub fn stop(&mut self)
        ensures
            final(self)@ == stopped(old(self)@),
    {
        self.remaining_ms = 0;
        self.pause_ms = 0;
        self.repeat_count = 0;
        self.seq_len = 0;
        self.seq_idx = 0;
        self.hardware_off();
    }

    /// Advance playback by `elapsed_ms` milliseconds.
    pub fn tick(&mut self, elapsed_ms: u16)
        requires
            buzzer_wf(old(self)@),
        ensures
            final(self)@ == ticked(old(self)@, elapsed_ms),
            buzzer_wf(final(self)@),
    {
        if self.remaining_ms > 0 {
            if self.remaining_ms <= elapsed_ms {
                self.remaining_ms = 0;
                self.hardware_off();
                if self.repeat_count > 0 {
                    self.pause_ms = self.active_pause_ms;
                } else if self.seq_len > 0 {
                    self.pause_ms = self.active_pause_ms;
                }
            } else {
                self.remaining_ms = self.remaining_ms - elapsed_ms;
            }
        } else if self.pause_ms > 0 {
            if self.pause_ms <= elapsed_ms {
                self.pause_ms = 0;
                if self.repeat_count > 0 {
                    self.repeat_count = self.repeat_count - 1;
                    self.remaining_ms = self.active_len_ms;
                    let f = self.active_freq;
                    self.hardware_on(f);
                } else if self.seq_len > 0 {
                    let idx = self.seq_idx as u16 + 1;
                    if idx < self.seq_len as u16 {
                        self.seq_idx = idx as u8;
                        let note = self.seq_notes[idx as usize];
                        self.active_freq = note.freq_hz;
                        self.active_len_ms = note.duration_ms;
                        self.active_pause_ms = note.pause_ms;
                        self.remaining_ms = note.duration_ms;
                        self.pause_ms = note.pause_ms;
                        self.hardware_on(note.freq_hz);
                    } else {
                        self.seq_len = 0;
                        self.seq_idx = 0;
                    }
                }
            } else {
                self.pause_ms = self.pause_ms - elapsed_ms;
            }
        }
    }

    /// Short tactile button click.
    pub fn click(&mut self)
        ensures
            final(self)@ == tone_pattern(old(self)@, BEEP_DEFAULT_FREQ, 15, 0, 0),
    {
        self.play_tone(BEEP_DEFAULT_FREQ, 15);
    }

    /// Trim step tone, pitched by the trim value.
    pub fn trim_step(&mut self, step: i8)
        ensures
            final(self)@ == tone_pattern(old(self)@, trim_step_freq(step) as u16, 25, 0, 0),
    {
        let f = 2000i32 + step as i32 * 20;
        let freq: u16 = if f < 1500 { 1500 } else if f > 2500 { 2500 } else { f as u16 };
        self.play_tone(freq, 25);
    }

    /// Power-on welcome: ascending four-note fanfare (C6, E6, G6, C7).
    pub fn chime_welcome(&mut self)
        requires
            buzzer_wf(old(self)@),
        ensures
            final(self)@ == preset(old(self)@, seq![Note { freq_hz: 1046, duration_ms: 110, pause_ms: 25 }, Note { freq_hz: 1318, duration_ms: 110, pause_ms: 25 }, Note { freq_hz: 1568, duration_ms: 120, pause_ms: 30 }, Note { freq_hz: 2093, duration_ms: 240, pause_ms: 0 }], 2250, 15, 0, 0),
            buzzer_wf(final(self)@),
    {
        if self.tone_style == ToneStyle::Rich {
            let melody = [Note::new(1046, 110, 25), Note::new(1318, 110, 25), Note::new(1568, 120, 30), Note::new(2093, 240, 0)];
            assert(melody@ =~= seq![Note { freq_hz: 1046, duration_ms: 110, pause_ms: 25 }, Note { freq_hz: 1318, duration_ms: 110, pause_ms: 25 }, Note { freq_hz: 1568, duration_ms: 120, pause_ms: 30 }, Note { freq_hz: 2093, duration_ms: 240, pause_ms: 0 }]);
            self.play_sequence(&melody);
        } else {
            self.click();
        }
    }
    /// Arming confirmation: rising two-note chirp.
    pub fn chime_armed(&mut self)
        requires
            buzzer_wf(old(self)@),
        ensures
            final(self)@ == preset(old(self)@, seq![Note { freq_hz: 1800, duration_ms: 45, pause_ms: 10 }, Note { freq_hz: 2600, duration_ms: 75, pause_ms: 0 }], 2400, 80, 0, 0),
            buzzer_wf(final(self)@),
    {
        if self.tone_style == ToneStyle::Rich {
            let melody = [Note::new(1800, 45, 10), Note::new(2600, 75, 0)];
            assert(melody@ =~= seq![Note { freq_hz: 1800, duration_ms: 45, pause_ms: 10 }, Note { freq_hz: 2600, duration_ms: 75, pause_ms: 0 }]);
            self.play_sequence(&melody);
        } else {
            self.play_tone(2400, 80);
        }
    }
    /// Disarming confirmation: falling two-note chirp.
    pub fn chime_disarmed(&mut self)
        requires
            buzzer_wf(old(self)@),
        ensures
            final(self)@ == preset(old(self)@, seq![Note { freq_hz: 2600, duration_ms: 45, pause_ms: 10 }, Note { freq_hz: 1800, duration_ms: 75, pause_ms: 0 }], 1800, 80, 0, 0),
            buzzer_wf(final(self)@),
    {
        if self.tone_style == ToneStyle::Rich {
            let melody = [Note::new(2600, 45, 10), Note::new(1800, 75, 0)];
            assert(melody@ =~= seq![Note { freq_hz: 2600, duration_ms: 45, pause_ms: 10 }, Note { freq_hz: 1800, duration_ms: 75, pause_ms: 0 }]);
            self.play_sequence(&melody);
        } else {
            self.play_tone(1800, 80);
        }
    }
    /// Trim back at center.
    pub fn trim_center(&mut self)
        requires
            buzzer_wf(old(self)@),
        ensures
            final(self)@ == preset(old(self)@, seq![Note { freq_hz: 2400, duration_ms: 30, pause_ms: 10 }, Note { freq_hz: 3000, duration_ms: 50, pause_ms: 0 }], 2800, 60, 0, 0),
            buzzer_wf(final(self)@),
    {
        if self.tone_style == ToneStyle::Rich {
            let melody = [Note::new(2400, 30, 10), Note::new(3000, 50, 0)];
            assert(melody@ =~= seq![Note { freq_hz: 2400, duration_ms: 30, pause_ms: 10 }, Note { freq_hz: 3000, duration_ms: 50, pause_ms: 0 }]);
            self.play_sequence(&melody);
        } else {
            self.play_tone(2800, 60);
        }
    }
    /// Trim limit reached.
    pub fn trim_limit(&mut self)
        requires
            buzzer_wf(old(self)@),
        ensures
            final(self)@ == preset(old(self)@, seq![Note { freq_hz: 1100, duration_ms: 40, pause_ms: 15 }, Note { freq_hz: 900, duration_ms: 60, pause_ms: 0 }], 1100, 45, 0, 0),
            buzzer_wf(final(self)@),
    {
        if self.tone_style == ToneStyle::Rich {
            let melody = [Note::new(1100, 40, 15), Note::new(900, 60, 0)];
            assert(melody@ =~= seq![Note { freq_hz: 1100, duration_ms: 40, pause_ms: 15 }, Note { freq_hz: 900, duration_ms: 60, pause_ms: 0 }]);
            self.play_sequence(&melody);
        } else {
            self.play_tone(1100, 45);
        }
    }
    /// Low battery warning: three rising tones.
    pub fn warn_battery(&mut self)
        requires
            buzzer_wf(old(self)@),
        ensures
            final(self)@ == preset(old(self)@, seq![Note { freq_hz: 2000, duration_ms: 60, pause_ms: 30 }, Note { freq_hz: 2300, duration_ms: 60, pause_ms: 30 }, Note { freq_hz: 2600, duration_ms: 90, pause_ms: 0 }], 2400, 70, 50, 1),
            buzzer_wf(final(self)@),
    {
        if self.tone_style == ToneStyle::Rich {
            let melody = [Note::new(2000, 60, 30), Note::new(2300, 60, 30), Note::new(2600, 90, 0)];
            assert(melody@ =~= seq![Note { freq_hz: 2000, duration_ms: 60, pause_ms: 30 }, Note { freq_hz: 2300, duration_ms: 60, pause_ms: 30 }, Note { freq_hz: 2600, duration_ms: 90, pause_ms: 0 }]);
            self.play_sequence(&melody);
        } else {
            self.play_tone_pattern(2400, 70, 50, 1);
        }
    }
    /// Critical battery or failsafe: two-tone siren.
    pub fn warn_critical(&mut self)
        requires
            buzzer_wf(old(self)@),
        ensures
            final(self)@ == preset(old(self)@, seq![Note { freq_hz: 2800, duration_ms: 70, pause_ms: 20 }, Note { freq_hz: 1800, duration_ms: 70, pause_ms: 20 }, Note { freq_hz: 2800, duration_ms: 70, pause_ms: 20 }, Note { freq_hz: 1800, duration_ms: 70, pause_ms: 0 }], 2800, 80, 40, 2),
            buzzer_wf(final(self)@),
    {
        if self.tone_style == ToneStyle::Rich {
            let melody = [Note::new(2800, 70, 20), Note::new(1800, 70, 20), Note::new(2800, 70, 20), Note::new(1800, 70, 0)];
            assert(melody@ =~= seq![Note { freq_hz: 2800, duration_ms: 70, pause_ms: 20 }, Note { freq_hz: 1800, duration_ms: 70, pause_ms: 20 }, Note { freq_hz: 2800, duration_ms: 70, pause_ms: 20 }, Note { freq_hz: 1800, duration_ms: 70, pause_ms: 0 }]);
            self.play_sequence(&melody);
        } else {
            self.play_tone_pattern(2800, 80, 40, 2);
        }
    }
    /// Pre-flight throttle or switch alarm.
    pub fn warn_preflight(&mut self)
        requires
            buzzer_wf(old(self)@),
        ensures
            final(self)@ == preset(old(self)@, seq![Note { freq_hz: 2600, duration_ms: 70, pause_ms: 25 }, Note { freq_hz: 2600, duration_ms: 70, pause_ms: 25 }, Note { freq_hz: 2900, duration_ms: 90, pause_ms: 0 }], 2600, 80, 50, 2),
            buzzer_wf(final(self)@),
    {
        if self.tone_style == ToneStyle::Rich {
            let melody = [Note::new(2600, 70, 25), Note::new(2600, 70, 25), Note::new(2900, 90, 0)];
            assert(melody@ =~= seq![Note { freq_hz: 2600, duration_ms: 70, pause_ms: 25 }, Note { freq_hz: 2600, duration_ms: 70, pause_ms: 25 }, Note { freq_hz: 2900, duration_ms: 90, pause_ms: 0 }]);
            self.play_sequence(&melody);
        } else {
            self.play_tone_pattern(2600, 80, 50, 2);
        }
    }
    /// Inactivity reminder chirp.
    pub fn warn_inactivity(&mut self)
        requires
            buzzer_wf(old(self)@),
        ensures
            final(self)@ == preset(old(self)@, seq![Note { freq_hz: 1600, duration_ms: 70, pause_ms: 30 }, Note { freq_hz: 2000, duration_ms: 100, pause_ms: 0 }], 1800, 250, 0, 0),
            buzzer_wf(final(self)@),
    {
        if self.tone_style == ToneStyle::Rich {
            let melody = [Note::new(1600, 70, 30), Note::new(2000, 100, 0)];
            assert(melody@ =~= seq![Note { freq_hz: 1600, duration_ms: 70, pause_ms: 30 }, Note { freq_hz: 2000, duration_ms: 100, pause_ms: 0 }]);
            self.play_sequence(&melody);
        } else {
            self.play_tone(1800, 250);
        }
    }
    /// Telemetry signal low warning.
    pub fn warn_rssi_low(&mut self)
        requires
            buzzer_wf(old(self)@),
        ensures
            final(self)@ == preset(old(self)@, seq![Note { freq_hz: 1900, duration_ms: 50, pause_ms: 20 }, Note { freq_hz: 1700, duration_ms: 70, pause_ms: 0 }], 2000, 80, 0, 0),
            buzzer_wf(final(self)@),
    {
        if self.tone_style == ToneStyle::Rich {
            let melody = [Note::new(1900, 50, 20), Note::new(1700, 70, 0)];
            assert(melody@ =~= seq![Note { freq_hz: 1900, duration_ms: 50, pause_ms: 20 }, Note { freq_hz: 1700, duration_ms: 70, pause_ms: 0 }]);
            self.play_sequence(&melody);
        } else {
            self.play_tone(2000, 80);
        }
    }
    /// Telemetry signal critical alarm.
    pub fn warn_rssi_critical(&mut self)
        requires
            buzzer_wf(old(self)@),
        ensures
            final(self)@ == preset(old(self)@, seq![Note { freq_hz: 2600, duration_ms: 40, pause_ms: 20 }, Note { freq_hz: 1800, duration_ms: 40, pause_ms: 20 }, Note { freq_hz: 2600, duration_ms: 40, pause_ms: 20 }, Note { freq_hz: 1800, duration_ms: 60, pause_ms: 0 }], 2800, 50, 40, 2),
            buzzer_wf(final(self)@),
    {
        if self.tone_style == ToneStyle::Rich {
            let melody = [Note::new(2600, 40, 20), Note::new(1800, 40, 20), Note::new(2600, 40, 20), Note::new(1800, 60, 0)];
            assert(melody@ =~= seq![Note { freq_hz: 2600, duration_ms: 40, pause_ms: 20 }, Note { freq_hz: 1800, duration_ms: 40, pause_ms: 20 }, Note { freq_hz: 2600, duration_ms: 40, pause_ms: 20 }, Note { freq_hz: 1800, duration_ms: 60, pause_ms: 0 }]);
            self.play_sequence(&melody);
        } else {
            self.play_tone_pattern(2800, 50, 40, 2);
        }
    }
    /// Calibration wizard started.
    pub fn chime_calib_start(&mut self)
        requires
            buzzer_wf(old(self)@),
        ensures
            final(self)@ == preset(old(self)@, seq![Note { freq_hz: 2000, duration_ms: 50, pause_ms: 15 }, Note { freq_hz: 2500, duration_ms: 80, pause_ms: 0 }], 2200, 100, 0, 0),
            buzzer_wf(final(self)@),
    {
        if self.tone_style == ToneStyle::Rich {
            let melody = [Note::new(2000, 50, 15), Note::new(2500, 80, 0)];
            assert(melody@ =~= seq![Note { freq_hz: 2000, duration_ms: 50, pause_ms: 15 }, Note { freq_hz: 2500, duration_ms: 80, pause_ms: 0 }]);
            self.play_sequence(&melody);
        } else {
            self.play_tone(2200, 100);
        }
    }
    /// Calibration saved.
    pub fn chime_calib_success(&mut self)
        requires
            buzzer_wf(old(self)@),
        ensures
            final(self)@ == preset(old(self)@, seq![Note { freq_hz: 2000, duration_ms: 40, pause_ms: 15 }, Note { freq_hz: 2500, duration_ms: 40, pause_ms: 15 }, Note { freq_hz: 3100, duration_ms: 100, pause_ms: 0 }], 2800, 150, 0, 0),
            buzzer_wf(final(self)@),
    {
        if self.tone_style == ToneStyle::Rich {
            let melody = [Note::new(2000, 40, 15), Note::new(2500, 40, 15), Note::new(3100, 100, 0)];
            assert(melody@ =~= seq![Note { freq_hz: 2000, duration_ms: 40, pause_ms: 15 }, Note { freq_hz: 2500, duration_ms: 40, pause_ms: 15 }, Note { freq_hz: 3100, duration_ms: 100, pause_ms: 0 }]);
            self.play_sequence(&melody);
        } else {
            self.play_tone(2800, 150);
        }
    }
}

} // verus!
