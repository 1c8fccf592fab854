//! Audio: the piezo buzzer and the DFPlayer voice module behind one set of
//! sound events, selected by the audio mode.
use vstd::prelude::*;
use crate::audio::dfplayer::{busy, command_frame, queued, DfPlayer, DfView, CMD_PLAY_TRACK};
use crate::audio::sounds::{track_of, SoundEvent};
use crate::buzzer::{buzzer_wf, preset, stopped, ticked, tone_pattern, trim_step_freq, Buzzer, BuzzerView, Note, BEEP_DEFAULT_FREQ};

pub mod dfplayer;
pub mod sounds;

verus! {

/// Which outputs sound events use.
#[derive(Copy, Clone, Debug, PartialEq, Eq, Structural)]
pub enum AudioMode {
    Buzzer,
    Voice,
    Both,
}

/// The stored mode number: 1 voice, 2 both, anything else the buzzer.
pub open spec fn audio_mode_of(val: u8) -> AudioMode {
    if val == 1 {
        AudioMode::Voice
    } else if val == 2 {
        AudioMode::Both
    } else {
        AudioMode::Buzzer
    }
}

impl AudioMode {
    pub fn from_u8(val: u8) -> (m: Self)
        ensures
            m == audio_mode_of(val),
    {
        match val {
            1 => AudioMode::Voice,
            2 => AudioMode::Both,
            _ => AudioMode::Buzzer,
        }
    }
}

/// The buzzer after the tone of an event (events without a tone leave it
/// unchanged).
pub open spec fn event_tone(b: BuzzerView, ev: SoundEvent) -> BuzzerView {
    match ev {
        SoundEvent::Welcome => tone_pattern(b, BEEP_DEFAULT_FREQ, 15, 0, 0),
        SoundEvent::Armed => tone_pattern(b, 2400, 60, 40, 1),
        SoundEvent::Disarmed => tone_pattern(b, 1800, 60, 40, 1),
        SoundEvent::LowBattery => preset(b, seq![Note { freq_hz: 2000, duration_ms: 60, pause_ms: 30 }, Note { freq_hz: 2300, duration_ms: 60, pause_ms: 30 }, Note { freq_hz: 2600, duration_ms: 90, pause_ms: 0 }], 2400, 70, 50, 1),
        SoundEvent::CritBattery => tone_pattern(b, 2800, 60, 40, 2),
        SoundEvent::RssiLow => preset(b, seq![Note { freq_hz: 1900, duration_ms: 50, pause_ms: 20 }, Note { freq_hz: 1700, duration_ms: 70, pause_ms: 0 }], 2000, 80, 0, 0),
        SoundEvent::RssiCrit => preset(b, seq![Note { freq_hz: 2600, duration_ms: 40, pause_ms: 20 }, Note { freq_hz: 1800, duration_ms: 40, pause_ms: 20 }, Note { freq_hz: 2600, duration_ms: 40, pause_ms: 20 }, Note { freq_hz: 1800, duration_ms: 60, pause_ms: 0 }], 2800, 50, 40, 2),
        SoundEvent::PreflightWarning => preset(b, seq![Note { freq_hz: 2600, duration_ms: 70, pause_ms: 25 }, Note { freq_hz: 2600, duration_ms: 70, pause_ms: 25 }, Note { freq_hz: 2900, duration_ms: 90, pause_ms: 0 }], 2600, 80, 50, 2),
        SoundEvent::Inactivity => preset(b, seq![Note { freq_hz: 1600, duration_ms: 70, pause_ms: 30 }, Note { freq_hz: 2000, duration_ms: 100, pause_ms: 0 }], 1800, 250, 0, 0),
        SoundEvent::Failsafe => tone_pattern(b, 2800, 100, 50, 3),
        SoundEvent::TrimCenter => preset(b, seq![Note { freq_hz: 2400, duration_ms: 30, pause_ms: 10 }, Note { freq_hz: 3000, duration_ms: 50, pause_ms: 0 }], 2800, 60, 0, 0),
        SoundEvent::TrimLimit => preset(b, seq![Note { freq_hz: 1100, duration_ms: 40, pause_ms: 15 }, Note { freq_hz: 900, duration_ms: 60, pause_ms: 0 }], 1100, 45, 0, 0),
        SoundEvent::CalibStart => tone_pattern(b, 2200, 100, 0, 0),
        SoundEvent::CalibSuccess => tone_pattern(b, 2800, 150, 0, 0),
        SoundEvent::Timer1Min => tone_pattern(b, 2400, 70, 0, 0),
        SoundEvent::Timer30s => tone_pattern(b, 2400, 70, 0, 0),
        SoundEvent::Timer10s => tone_pattern(b, 2400, 70, 0, 0),
        SoundEvent::TimerElapsed => tone_pattern(b, 2600, 100, 50, 3),
        _ => b,
    }
}

/// The player after a voice prompt is requested (see `DfPlayer::play_track`).
pub open spec fn voice_after(d: DfView, track: u16, busy_line_low: bool) -> DfView {
    if track == 0 {
        d
    } else if !busy(d.time_since_cmd_ms, busy_line_low) && d.queue.len() == 0 {
        DfView { pending: queued(d.pending, command_frame(CMD_PLAY_TRACK, track)), time_since_cmd_ms: 0, ..d }
    } else if d.queue.len() < 4 {
        DfView { queue: d.queue.push(track), ..d }
    } else {
        d
    }
}

/// The audio system after announcing `ev`: nothing when muted; its voice
/// prompt in voice or both mode; its tone in buzzer or both mode.
pub open spec fn event_post(a0: AudioSystem, a1: AudioSystem, ev: SoundEvent, busy_line_low: bool) -> bool {
    &&& a1.mode == a0.mode
    &&& a1.enabled == a0.enabled
    &&& !a0.enabled ==> a1.buzzer@ == a0.buzzer@ && a1.dfplayer@ == a0.dfplayer@
    &&& a0.enabled ==> a1.dfplayer@ == (if a0.mode != AudioMode::Buzzer {
        voice_after(a0.dfplayer@, track_of(ev), busy_line_low)
    } else {
        a0.dfplayer@
    })
    &&& a0.enabled ==> a1.buzzer@ == (if a0.mode != AudioMode::Voice { event_tone(a0.buzzer@, ev) } else { a0.buzzer@ })
}

/// Buzzer, voice module, mode and master switch.
pub struct AudioSystem {
    pub buzzer: Buzzer,
    pub dfplayer: DfPlayer,
    pub mode: AudioMode,
    pub enabled: bool,
}

impl AudioSystem {
    pub open spec fn wf(&self) -> bool {
        buzzer_wf(self.buzzer@) && self.dfplayer.wf()
    }

    /// Buzzer only, enabled.
    pub fn new() -> (a: Self)
        ensures
            a.wf(),
            a.mode == AudioMode::Buzzer,
            a.enabled,
            a.buzzer.enabled,
            a.dfplayer@.pending.len() == 0 && a.dfplayer@.queue.len() == 0,
    {
        AudioSystem { buzzer: Buzzer::new(), dfplayer: DfPlayer::new(), mode: AudioMode::Buzzer, enabled: true }
    }

    /// Start the voice module (after the caller set up the buzzer timer and
    /// the module's serial port).
    pub fn init(&mut self)
        requires
            old(self).wf(),
        ensures
            final(self).wf(),
            final(self).buzzer == old(self).buzzer,
            final(self).dfplayer@.initialized,
            final(self).mode == old(self).mode,
            final(self).enabled == old(self).enabled,
    {
        self.dfplayer.init();
    }

    /// Enable or mute all audio.
    pub fn set_enabled(&mut self, enabled: bool)
        requires
            old(self).wf(),
        ensures
            final(self).wf(),
            final(self).enabled == enabled,
            final(self).buzzer@ == (BuzzerView { enabled, ..old(self).buzzer@ }),
            final(self).dfplayer == old(self).dfplayer,
            final(self).mode == old(self).mode,
    {
        self.enabled = enabled;
        self.buzzer.enabled = enabled;
    }

    /// Apply stored settings: master switch, mode number, voice volume.
    pub fn configure(&mut self, audio_enabled: bool, mode: u8, voice_volume: u8)
        requires
            old(self).wf(),
        ensures
            final(self).wf(),
            final(self).enabled == audio_enabled,
            final(self).buzzer@ == (BuzzerView { enabled: audio_enabled, ..old(self).buzzer@ }),
            final(self).mode == audio_mode_of(mode),
            final(self).dfplayer@.volume == (if voice_volume < 30 { voice_volume } else { 30u8 }),
            final(self).dfplayer@.queue == old(self).dfplayer@.queue,
    {
        self.set_enabled(audio_enabled);
        self.mode = AudioMode::from_u8(mode);
        self.dfplayer.set_volume(voice_volume);
    }

    /// Advance tones and the voice queue by `elapsed_ms`.
    pub fn tick(&mut self, elapsed_ms: u16, busy_line_low: bool)
        requires
            old(self).wf(),
        ensures
            final(self).wf(),
            final(self).buzzer@ == ticked(old(self).buzzer@, elapsed_ms),
            final(self).mode == old(self).mode,
            final(self).enabled == old(self).enabled,
    {
        self.buzzer.tick(elapsed_ms);
        self.dfplayer.tick(elapsed_ms, busy_line_low);
    }

    /// Announce an event: nothing when muted; its voice prompt in voice or
    /// both mode; its tone in buzzer or both mode.
    #[verifier::rlimit(60)]
    pub fn event(&mut self, ev: SoundEvent, busy_line_low: bool)
        requires
            old(self).wf(),
        ensures
            final(self).wf(),
            event_post(*old(self), *final(self), ev, busy_line_low),
    {
        if !self.enabled {
            return;
        }
        if self.mode == AudioMode::Voice || self.mode == AudioMode::Both {
            self.dfplayer.play_track(ev.track_index(), busy_line_low);
        }
        if self.mode == AudioMode::Buzzer || self.mode == AudioMode::Both {
            match ev {
                SoundEvent::Welcome => self.buzzer.click(),
                SoundEvent::Armed => self.buzzer.play_tone_pattern(2400, 60, 40, 1),
                SoundEvent::Disarmed => self.buzzer.play_tone_pattern(1800, 60, 40, 1),
                SoundEvent::LowBattery => self.buzzer.warn_battery(),
                SoundEvent::CritBattery => self.buzzer.play_tone_pattern(2800, 60, 40, 2),
                SoundEvent::RssiLow => self.buzzer.warn_rssi_low(),
                SoundEvent::RssiCrit => self.buzzer.warn_rssi_critical(),
                SoundEvent::PreflightWarning => self.buzzer.warn_preflight(),
                SoundEvent::Inactivity => self.buzzer.warn_inactivity(),
                SoundEvent::Failsafe => self.buzzer.play_tone_pattern(2800, 100, 50, 3),
                SoundEvent::TrimCenter => self.buzzer.trim_center(),
                SoundEvent::TrimLimit => self.buzzer.trim_limit(),
                SoundEvent::CalibStart => self.buzzer.play_tone(2200, 100),
                SoundEvent::CalibSuccess => self.buzzer.play_tone(2800, 150),
                SoundEvent::Timer1Min | SoundEvent::Timer30s | SoundEvent::Timer10s => {
                    self.buzzer.play_tone(2400, 70);
                },
                SoundEvent::TimerElapsed => {
                    self.buzzer.play_tone_pattern(2600, 100, 50, 3);
                },
                _ => {},
            }
        }
    }

    /// Button click when audio is on.
    pub fn click(&mut self)
        requires
            old(self).wf(),
        ensures
            final(self).wf(),
            final(self).dfplayer == old(self).dfplayer,
            final(self).buzzer@ == (if old(self).enabled { tone_pattern(old(self).buzzer@, BEEP_DEFAULT_FREQ, 15, 0, 0) } else { old(self).buzzer@ }),
    {
        if self.enabled {
            self.buzzer.click();
        }
    }

    /// A tone when audio is on.
    pub fn play_tone(&mut self, freq_hz: u16, duration_ms: u16)
        requires
            old(self).wf(),
        ensures
            final(self).wf(),
            final(self).dfplayer == old(self).dfplayer,
            final(self).buzzer@ == (if old(self).enabled { tone_pattern(old(self).buzzer@, freq_hz, duration_ms, 0, 0) } else { old(self).buzzer@ }),
    {
        if self.enabled {
            self.buzzer.play_tone(freq_hz, duration_ms);
        }
    }

    /// Repeated tones when audio is on.
    pub fn play_tone_pattern(&mut self, freq_hz: u16, duration_ms: u16, pause_ms: u16, repeats: u8)
        requires
            old(self).wf(),
        ensures
            final(self).wf(),
            final(self).dfplayer == old(self).dfplayer,
            final(self).buzzer@ == (if old(self).enabled {
                tone_pattern(old(self).buzzer@, freq_hz, duration_ms, pause_ms, repeats)
            } else {
                old(self).buzzer@
            }),
    {
        if self.enabled {
            self.buzzer.play_tone_pattern(freq_hz, duration_ms, pause_ms, repeats);
        }
    }

    /// Silence the buzzer and stop the voice module.
    pub fn stop(&mut self)
        requires
            old(self).wf(),
        ensures
            final(self).wf(),
            final(self).buzzer@ == stopped(old(self).buzzer@),
            final(self).dfplayer@.queue.len() == 0,
    {
        self.buzzer.stop();
        self.dfplayer.stop();
    }

    /// Trim step tone when audio is on.
    pub fn trim_step(&mut self, step: i8)
        requires
            old(self).wf(),
        ensures
            final(self).wf(),
            final(self).dfplayer == old(self).dfplayer,
            final(self).buzzer@ == (if old(self).enabled {
                tone_pattern(old(self).buzzer@, trim_step_freq(step) as u16, 25, 0, 0)
            } else {
                old(self).buzzer@
            }),
    {
        if self.enabled {
            self.buzzer.trim_step(step);
        }
    }

    /// The trim-centre event.
    pub fn trim_center(&mut self, busy_line_low: bool)
        requires
            old(self).wf(),
        ensures
            final(self).wf(),
            event_post(*old(self), *final(self), SoundEvent::TrimCenter, busy_line_low),
    {
        self.event(SoundEvent::TrimCenter, busy_line_low);
    }

    /// The trim-limit event.
    pub fn trim_limit(&mut self, busy_line_low: bool)
        requires
            old(self).wf(),
        ensures
            final(self).wf(),
            event_post(*old(self), *final(self), SoundEvent::TrimLimit, busy_line_low),
    {
        self.event(SoundEvent::TrimLimit, busy_line_low);
    }

    /// The low-battery event.
    pub fn warn_battery(&mut self, busy_line_low: bool)
        requires
            old(self).wf(),
        ensures
            final(self).wf(),
            event_post(*old(self), *final(self), SoundEvent::LowBattery, busy_line_low),
    {
        self.event(SoundEvent::LowBattery, busy_line_low);
    }

    /// The pre-flight warning event.
    pub fn warn_preflight(&mut self, busy_line_low: bool)
        requires
            old(self).wf(),
        ensures
            final(self).wf(),
            event_post(*old(self), *final(self), SoundEvent::PreflightWarning, busy_line_low),
    {
        self.event(SoundEvent::PreflightWarning, busy_line_low);
    }

    /// The inactivity event.
    pub fn warn_inactivity(&mut self, busy_line_low: bool)
        requires
            old(self).wf(),
        ensures
            final(self).wf(),
            event_post(*old(self), *final(self), SoundEvent::Inactivity, busy_line_low),
    {
        self.event(SoundEvent::Inactivity, busy_line_low);
    }

    /// The weak-signal event.
    pub fn warn_rssi_low(&mut self, busy_line_low: bool)
        requires
            old(self).wf(),
        ensures
            final(self).wf(),
            event_post(*old(self), *final(self), SoundEvent::RssiLow, busy_line_low),
    {
        self.event(SoundEvent::RssiLow, busy_line_low);
    }

    /// The critical-signal event.
    pub fn warn_rssi_critical(&mut self, busy_line_low: bool)
        requires
            old(self).wf(),
        ensures
            final(self).wf(),
            event_post(*old(self), *final(self), SoundEvent::RssiCrit, busy_line_low),
    {
        self.event(SoundEvent::RssiCrit, busy_line_low);
    }
}

} // verus!
