//! The endpoint calibration wizard: step one captures the resting centers,
//! step two tracks how far each stick and pot travels, and saving turns the
//! travel into calibration endpoints with a margin of 1/64. Drawing the
//! wizard's screens is done by the caller from the state kept here.
use vstd::prelude::*;
use crate::buzzer::{Buzzer, BuzzerView, Note, buzzer_wf, preset, tone_pattern, BEEP_DEFAULT_FREQ};
use crate::storage::{ChannelCalib, RadioConfig, CONFIG_VERSION, FLASH_MAGIC};
use crate::input::{calib_ordered, calibration_applied, InputCalibration};

verus! {

/// Key bit of OK / Enter.
pub const KEY_OK: u16 = 0x0400;
/// Key bit of Cancel / Exit.
pub const KEY_CANCEL: u16 = 0x0800;
/// Travel each stick must show on both sides before the wizard can save.
pub const STICK_MIN_TRAVEL: u16 = 250;
/// Total travel a pot must show for its endpoints to be replaced.
pub const POT_MIN_TRAVEL: u16 = 400;
/// How long the success screen stays up, in milliseconds.
pub const SAVED_BANNER_MS: u16 = 1200;

/// The wizard's page.
#[derive(Copy, Clone, Debug, PartialEq, Eq, Structural)]
pub enum CalibStep {
    Inactive,
    Center,
    Limits,
    Complete,
}

/// Wizard state. Channels 0..=3 are roll, pitch, throttle and yaw, 4 and 5
/// the two pots.
pub struct CalibWizard {
    pub step: CalibStep,
    pub centers: [u16; 6],
    pub mins: [u16; 6],
    pub maxs: [u16; 6],
    pub prev_keys: u16,
    pub waiting_release: bool,
    pub timer_ms: u16,
}

/// What the caller does after an update.
pub enum CalibAction {
    /// Nothing to show this frame.
    Idle,
    /// Draw the current page.
    Draw,
    /// Apply and store this radio configuration.
    Save(RadioConfig),
}

pub open spec fn sat_sub(a: u16, b: u16) -> u16 {
    if a >= b { (a - b) as u16 } else { 0 }
}

pub open spec fn sat_add(a: u16, b: u16) -> u16 {
    if a + b <= 0xFFFF { (a + b) as u16 } else { 0xFFFF }
}

/// A travel reduced by the 1/64 margin.
pub open spec fn with_margin(span: u16) -> u16 {
    ((span as int * 63) / 64) as u16
}

/// Endpoints stored for a channel with a resting center and the travel
/// extremes seen.
pub open spec fn endpoints(center: u16, lo: u16, hi: u16) -> ChannelCalib {
    ChannelCalib {
        min: sat_sub(center, with_margin(sat_sub(center, lo))),
        center,
        max: sat_add(center, with_margin(sat_sub(hi, center))),
        _pad: 0,
    }
}

/// The six wizard channels of a raw scan: the four sticks, then the pots.
pub open spec fn wizard_channels(raw: Seq<u16>) -> Seq<u16> {
    seq![raw[0], raw[1], raw[2], raw[3], raw[6], raw[7]]
}

/// Stick `i` has travelled far enough on both sides of its center.
pub open spec fn stick_ready_at(w: CalibWizard, i: int) -> bool {
    &&& sat_sub(w.centers@[i], w.mins@[i]) >= STICK_MIN_TRAVEL
    &&& sat_sub(w.maxs@[i], w.centers@[i]) >= STICK_MIN_TRAVEL
}

pub open spec fn sticks_ready(w: CalibWizard) -> bool {
    stick_ready_at(w, 0) && stick_ready_at(w, 1) && stick_ready_at(w, 2) && stick_ready_at(w, 3)
}

/// Pot `i` (0 or 1) has moved far enough to replace its endpoints.
pub open spec fn pot_moved_at(w: CalibWizard, i: int) -> bool {
    sat_sub(w.maxs@[4 + i], w.mins@[4 + i]) >= POT_MIN_TRAVEL
}

/// The configuration saved from a finished wizard on top of `base`.
pub open spec fn saved_config(w: CalibWizard, base: RadioConfig, r: RadioConfig) -> bool {
    &&& r == RadioConfig { magic: FLASH_MAGIC, version: CONFIG_VERSION, sticks: r.sticks, pots: r.pots, ..base }
    &&& forall|i: int| 0 <= i < 4 ==> #[trigger] r.sticks@[i] == endpoints(w.centers@[i], w.mins@[i], w.maxs@[i])
    &&& forall|i: int| 0 <= i < 2 ==> #[trigger] r.pots@[i] == if pot_moved_at(w, i) {
        endpoints(w.centers@[4 + i], w.mins@[4 + i], w.maxs@[4 + i])
    } else {
        base.pots@[i]
    }
}

/// The release wait is still on after a key scan: OK is still held.
pub open spec fn still_waiting(w: CalibWizard, keys: u16) -> bool {
    w.waiting_release && (keys & KEY_OK) != 0
}

/// Keys that went down since the previous scan, none while the wizard waits
/// for OK to be released.
pub open spec fn fresh_keys(w: CalibWizard, keys: u16) -> u16 {
    if still_waiting(w, keys) { 0 } else { keys & !w.prev_keys }
}

/// The wizard after a key scan has been taken in.
pub open spec fn after_keys(w: CalibWizard, keys: u16) -> CalibWizard {
    CalibWizard { prev_keys: keys, waiting_release: still_waiting(w, keys), ..w }
}

pub open spec fn min_u16(a: u16, b: u16) -> u16 { if b < a { b } else { a } }
pub open spec fn max_u16(a: u16, b: u16) -> u16 { if b > a { b } else { a } }

/// `w1` holds the extremes of `w0` widened by the current readings.
pub open spec fn widened_by(w0: CalibWizard, cur: Seq<u16>, w1: CalibWizard) -> bool {
    &&& w1 == CalibWizard { mins: w1.mins, maxs: w1.maxs, ..w0 }
    &&& forall|i: int| 0 <= i < 6 ==> #[trigger] w1.mins@[i] == min_u16(w0.mins@[i], cur[i])
    &&& forall|i: int| 0 <= i < 6 ==> #[trigger] w1.maxs@[i] == max_u16(w0.maxs@[i], cur[i])
}

/// One update of the wizard: its next state, the sound it starts and what
/// the caller does.
pub open spec fn wizard_update(
    w0: CalibWizard,
    raw: Seq<u16>,
    keys: u16,
    dt_ms: u16,
    base: RadioConfig,
    b0: BuzzerView,
    w1: CalibWizard,
    b1: BuzzerView,
    a: CalibAction,
) -> bool {
    let wk = after_keys(w0, keys);
    let fresh = fresh_keys(w0, keys);
    let ok = (fresh & KEY_OK) != 0;
    let cancel = (fresh & KEY_CANCEL) != 0;
    let cur = wizard_channels(raw);
    match w0.step {
        CalibStep::Inactive => w1 == wk && b1 == b0 && a is Idle,
        CalibStep::Center => if cancel {
            &&& w1 == CalibWizard { step: CalibStep::Inactive, ..wk }
            &&& b1 == tone_pattern(b0, BEEP_DEFAULT_FREQ, 15, 0, 0)
            &&& a is Idle
        } else if ok {
            &&& w1 == CalibWizard { step: CalibStep::Limits, waiting_release: true, centers: w1.centers, mins: w1.mins, maxs: w1.maxs, ..wk }
            &&& w1.centers@ == cur && w1.mins@ == cur && w1.maxs@ == cur
            &&& b1 == tone_pattern(b0, 2400, 50, 0, 0)
            &&& a is Idle
        } else {
            w1 == wk && b1 == b0 && a is Draw
        },
        CalibStep::Limits => if cancel {
            &&& w1 == CalibWizard { step: CalibStep::Inactive, ..wk }
            &&& b1 == tone_pattern(b0, BEEP_DEFAULT_FREQ, 15, 0, 0)
            &&& a is Idle
        } else {
            &&& widened_by(wk, cur, CalibWizard { step: wk.step, timer_ms: wk.timer_ms, ..w1 })
            &&& if ok && sticks_ready(w1) {
                &&& w1.step == CalibStep::Complete && w1.timer_ms == SAVED_BANNER_MS
                &&& b1 == preset(b0, seq![Note { freq_hz: 2000, duration_ms: 40, pause_ms: 15 }, Note { freq_hz: 2500, duration_ms: 40, pause_ms: 15 }, Note { freq_hz: 3100, duration_ms: 100, pause_ms: 0 }], 2800, 150, 0, 0)
                &&& (a matches CalibAction::Save(cfg) && saved_config(w1, base, cfg))
            } else if ok {
                &&& w1.step == CalibStep::Limits && w1.timer_ms == wk.timer_ms
                &&& b1 == tone_pattern(b0, 1100, 100, 0, 0)
                &&& a is Idle
            } else {
                &&& w1.step == CalibStep::Limits && w1.timer_ms == wk.timer_ms
                &&& b1 == b0
                &&& a is Draw
            }
        },
        CalibStep::Complete => {
            &&& b1 == b0
            &&& a is Draw
            &&& if w0.timer_ms > dt_ms {
                w1 == CalibWizard { timer_ms: (w0.timer_ms - dt_ms) as u16, ..wk }
            } else {
                w1 == CalibWizard { step: CalibStep::Inactive, ..wk }
            }
        },
    }
}

fn sub_sat(a: u16, b: u16) -> (r: u16)
    ensures
        r == sat_sub(a, b),
{
    if a >= b { a - b } else { 0 }
}

fn add_sat(a: u16, b: u16) -> (r: u16)
    ensures
        r == sat_add(a, b),
{
    if a as u32 + b as u32 <= 0xFFFF { a + b } else { 0xFFFF }
}

/// Calibration endpoints from a resting center and the extremes reached:
/// each side keeps 63/64 of its travel.
pub fn endpoints_from_travel(center: u16, lo: u16, hi: u16) -> (c: ChannelCalib)
    ensures
        c == endpoints(center, lo, hi),
{
    let neg = sub_sat(center, lo);
    let pos = sub_sat(hi, center);
    let span_neg = ((neg as u32 * 63) / 64) as u16;
    let span_pos = ((pos as u32 * 63) / 64) as u16;
    ChannelCalib::new(sub_sat(center, span_neg), center, add_sat(center, span_pos))
}

impl CalibWizard {
    pub fn new() -> (w: Self)
        ensures
            w.step == CalibStep::Inactive,
            w.centers@ == Seq::new(6, |i: int| 2048u16),
            w.mins@ == Seq::new(6, |i: int| 4095u16),
            w.maxs@ == Seq::new(6, |i: int| 0u16),
            w.prev_keys == 0xFFFF,
            !w.waiting_release,
            w.timer_ms == 0,
    {
        let w = CalibWizard {
            step: CalibStep::Inactive,
            centers: [2048u16; 6],
            mins: [4095u16; 6],
            maxs: [0u16; 6],
            prev_keys: 0xFFFF,
            waiting_release: false,
            timer_ms: 0,
        };
        assert(w.centers@ =~= Seq::new(6, |i: int| 2048u16));
        assert(w.mins@ =~= Seq::new(6, |i: int| 4095u16));
        assert(w.maxs@ =~= Seq::new(6, |i: int| 0u16));
        w
    }

    /// Start the wizard on its center page; OK must be released first.
    pub fn start(&mut self, buzzer: &mut Buzzer)
        requires
            buzzer_wf(old(buzzer)@),
        ensures
            final(self).step == CalibStep::Center,
            final(self).centers@ == Seq::new(6, |i: int| 2048u16),
            final(self).mins@ == Seq::new(6, |i: int| 4095u16),
            final(self).maxs@ == Seq::new(6, |i: int| 0u16),
            final(self).prev_keys == 0xFFFF,
            final(self).waiting_release,
            final(self).timer_ms == 0,
            final(buzzer)@ == preset(old(buzzer)@, seq![Note { freq_hz: 2000, duration_ms: 50, pause_ms: 15 }, Note { freq_hz: 2500, duration_ms: 80, pause_ms: 0 }], 2200, 100, 0, 0),
            buzzer_wf(final(buzzer)@),
    {
        self.step = CalibStep::Center;
        self.centers = [2048u16; 6];
        self.mins = [4095u16; 6];
        self.maxs = [0u16; 6];
        self.prev_keys = 0xFFFF;
        self.waiting_release = true;
        self.timer_ms = 0;
        assert(self.centers@ =~= Seq::new(6, |i: int| 2048u16));
        assert(self.mins@ =~= Seq::new(6, |i: int| 4095u16));
        assert(self.maxs@ =~= Seq::new(6, |i: int| 0u16));
        buzzer.chime_calib_start();
    }

    /// The wizard is showing one of its pages.
    pub fn is_active(&self) -> (b: bool)
        ensures
            b == (self.step != CalibStep::Inactive),
    {
        self.step != CalibStep::Inactive
    }

    /// Stick `i` has travelled at least 250 counts each way.
    pub fn stick_ready(&self, i: usize) -> (b: bool)
        requires
            i < 4,
        ensures
            b == stick_ready_at(*self, i as int),
    {
        sub_sat(self.centers[i], self.mins[i]) >= STICK_MIN_TRAVEL
            && sub_sat(self.maxs[i], self.centers[i]) >= STICK_MIN_TRAVEL
    }

    /// All four sticks are ready.
    pub fn all_sticks_ready(&self) -> (b: bool)
        ensures
            b == sticks_ready(*self),
    {
        self.stick_ready(0) && self.stick_ready(1) && self.stick_ready(2) && self.stick_ready(3)
    }

    fn track(&mut self, cur: &[u16; 6])
        ensures
            widened_by(*old(self), cur@, *final(self)),
    {
        let mut i: usize = 0;
        while i < 6
            invariant
                i <= 6,
                *self == (CalibWizard { mins: self.mins, maxs: self.maxs, ..*old(self) }),
                forall|j: int| 0 <= j < i ==> #[trigger] self.mins@[j] == min_u16(old(self).mins@[j], cur@[j]),
                forall|j: int| 0 <= j < i ==> #[trigger] self.maxs@[j] == max_u16(old(self).maxs@[j], cur@[j]),
                forall|j: int| i <= j < 6 ==> #[trigger] self.mins@[j] == old(self).mins@[j],
                forall|j: int| i <= j < 6 ==> #[trigger] self.maxs@[j] == old(self).maxs@[j],
            decreases 6 - i,
        {
            if cur[i] < self.mins[i] {
                self.mins[i] = cur[i];
            }
            if cur[i] > self.maxs[i] {
                self.maxs[i] = cur[i];
            }
            i = i + 1;
        }
    }

    /// The radio configuration `base` with this wizard's endpoints: all four
    /// sticks, and each pot that moved at least 400 counts.
    pub fn calibrated_config(&self, base: &RadioConfig) -> (r: RadioConfig)
        ensures
            saved_config(*self, *base, r),
    {
        let mut cfg = *base;
        cfg.magic = FLASH_MAGIC;
        cfg.version = CONFIG_VERSION;
        let mut i: usize = 0;
        while i < 4
            invariant
                i <= 4,
                cfg == (RadioConfig { magic: FLASH_MAGIC, version: CONFIG_VERSION, sticks: cfg.sticks, pots: base.pots, ..*base }),
                forall|j: int| 0 <= j < i ==> #[trigger] cfg.sticks@[j] == endpoints(self.centers@[j], self.mins@[j], self.maxs@[j]),
            decreases 4 - i,
        {
            cfg.sticks[i] = endpoints_from_travel(self.centers[i], self.mins[i], self.maxs[i]);
            i = i + 1;
        }
        let mut k: usize = 0;
        while k < 2
            invariant
                k <= 2,
                cfg == (RadioConfig { magic: FLASH_MAGIC, version: CONFIG_VERSION, sticks: cfg.sticks, pots: cfg.pots, ..*base }),
                forall|j: int| 0 <= j < 4 ==> #[trigger] cfg.sticks@[j] == endpoints(self.centers@[j], self.mins@[j], self.maxs@[j]),
                forall|j: int| 0 <= j < k ==> #[trigger] cfg.pots@[j] == if pot_moved_at(*self, j) {
                    endpoints(self.centers@[4 + j], self.mins@[4 + j], self.maxs@[4 + j])
                } else {
                    base.pots@[j]
                },
                forall|j: int| k <= j < 2 ==> #[trigger] cfg.pots@[j] == base.pots@[j],
            decreases 2 - k,
        {
            let p = 4 + k;
            if sub_sat(self.maxs[p], self.mins[p]) >= POT_MIN_TRAVEL {
                cfg.pots[k] = endpoints_from_travel(self.centers[p], self.mins[p], self.maxs[p]);
            }
            k = k + 1;
        }
        cfg
    }

    /// Take in one key scan and converter scan. `base` is the stored radio
    /// configuration the new endpoints are written into.
    pub fn update(&mut self, raw_adc: &[u16; 11], keys: u16, dt_ms: u16, base: &RadioConfig, buzzer: &mut Buzzer) -> (a: CalibAction)
        requires
            buzzer_wf(old(buzzer)@),
        ensures
            wizard_update(*old(self), raw_adc@, keys, dt_ms, *base, old(buzzer)@, *final(self), final(buzzer)@, a),
            buzzer_wf(final(buzzer)@),
    {
        let ghost w0 = *self;
        if self.waiting_release && (keys & KEY_OK) == 0 {
            self.waiting_release = false;
        }
        let newly_pressed = if self.waiting_release { 0 } else { keys & !self.prev_keys };
        self.prev_keys = keys;
        let ok = (newly_pressed & KEY_OK) != 0;
        let cancel = (newly_pressed & KEY_CANCEL) != 0;
        let current = [raw_adc[0], raw_adc[1], raw_adc[2], raw_adc[3], raw_adc[6], raw_adc[7]];
        assert(current@ =~= wizard_channels(raw_adc@));
        assert(*self == after_keys(w0, keys));
        match self.step {
            CalibStep::Inactive => CalibAction::Idle,
            CalibStep::Center => {
                if cancel {
                    self.step = CalibStep::Inactive;
                    buzzer.click();
                    CalibAction::Idle
                } else if ok {
                    self.centers = current;
                    self.mins = current;
                    self.maxs = current;
                    self.step = CalibStep::Limits;
                    self.waiting_release = true;
                    buzzer.play_tone(2400, 50);
                    CalibAction::Idle
                } else {
                    CalibAction::Draw
                }
            },
            CalibStep::Limits => {
                if cancel {
                    self.step = CalibStep::Inactive;
                    buzzer.click();
                    CalibAction::Idle
                } else {
                    self.track(&current);
                    let all_ready = self.all_sticks_ready();
                    if ok {
                        if all_ready {
                            let cfg = self.calibrated_config(base);
                            buzzer.chime_calib_success();
                            self.step = CalibStep::Complete;
                            self.timer_ms = SAVED_BANNER_MS;
                            CalibAction::Save(cfg)
                        } else {
                            buzzer.play_tone(1100, 100);
                            CalibAction::Idle
                        }
                    } else {
                        CalibAction::Draw
                    }
                }
            },
            CalibStep::Complete => {
                if self.timer_ms > dt_ms {
                    self.timer_ms = self.timer_ms - dt_ms;
                } else {
                    self.step = CalibStep::Inactive;
                }
                CalibAction::Draw
            },
        }
    }
}

/// Endpoints derived from any travel are in order.
pub proof fn lemma_endpoints_ordered(center: u16, lo: u16, hi: u16)
    ensures
        endpoints(center, lo, hi).min <= center <= endpoints(center, lo, hi).max,
{
}

/// A configuration the wizard saves can be applied to the inputs and polled:
/// every stick's endpoints are in order, and so are the pots' when the
/// pots they keep from `base` were.
pub proof fn lemma_saved_calibration_applies(w: CalibWizard, base: RadioConfig, cfg: RadioConfig, c0: InputCalibration)
    requires
        saved_config(w, base, cfg),
        forall|i: int| 0 <= i < 2 ==> #[trigger] base.pots@[i].min <= base.pots@[i].center <= base.pots@[i].max,
    ensures
        calib_ordered(calibration_applied(c0, cfg)),
{
    assert(cfg.sticks@[0] == endpoints(w.centers@[0], w.mins@[0], w.maxs@[0]));
    assert(cfg.sticks@[1] == endpoints(w.centers@[1], w.mins@[1], w.maxs@[1]));
    assert(cfg.sticks@[2] == endpoints(w.centers@[2], w.mins@[2], w.maxs@[2]));
    assert(cfg.sticks@[3] == endpoints(w.centers@[3], w.mins@[3], w.maxs@[3]));
    assert(base.pots@[0].min <= base.pots@[0].center <= base.pots@[0].max);
    assert(base.pots@[1].min <= base.pots@[1].center <= base.pots@[1].max);
    let p0 = cfg.pots@[0];
    let p1 = cfg.pots@[1];
    assert(p0.min <= p0.center <= p0.max);
    assert(p1.min <= p1.center <= p1.max);
}

} // verus!
