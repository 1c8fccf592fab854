//! Persistent radio configuration and the 20-model memory: the record types,
//! their factory defaults, the repair of out-of-range values after a load,
//! and the fixed 128-byte image each record is stored as.
use vstd::prelude::*;
use crate::adc;
use crate::storage::image::{model_image, radio_image, calib_bytes};

pub mod image;

verus! {

/// "FSKY": marks a valid stored radio record.
pub const FLASH_MAGIC: u32 = 0x4653_4B59;
/// Layout version of the stored records.
pub const CONFIG_VERSION: u32 = 4;
/// Number of model memories.
pub const NUM_MODELS: usize = 20;

/// Calibration endpoints of one analog channel (8 bytes when stored).
#[derive(Copy, Clone, Debug, PartialEq, Eq, Structural)]
pub struct ChannelCalib {
    pub min: u16,
    pub center: u16,
    pub max: u16,
    pub _pad: u16,
}

impl ChannelCalib {
    pub fn new(min: u16, center: u16, max: u16) -> (r: Self)
        ensures
            r == (ChannelCalib { min, center, max, _pad: 0 }),
    {
        ChannelCalib { min, center, max, _pad: 0 }
    }
}

/// Full-range calibration used when nothing better is known.
pub open spec fn default_calib() -> ChannelCalib {
    ChannelCalib { min: adc::ADC_MIN, center: adc::ADC_CENTER, max: adc::ADC_MAX, _pad: 0 }
}

/// Radio-wide settings (128 bytes when stored).
#[derive(Copy, Clone, Debug)]
pub struct RadioConfig {
    pub magic: u32,
    pub version: u32,
    pub active_model: u8,
    pub throttle_trim: u8,
    pub audio_enabled: u8,
    pub backlight_timeout: u8,
    pub backlight_brightness: u8,
    pub vbat_warn_deci: u8,
    pub lcd_contrast: u8,
    pub usb_mode: u8,
    pub sticks: [ChannelCalib; 4],
    pub pots: [ChannelCalib; 2],
    pub ext_module_pwr: u8,
    pub tone_style: u8,
    pub _reserved: [u8; 62],
}

/// The factory radio settings.
pub open spec fn radio_factory_fields(r: RadioConfig) -> bool {
    &&& r.magic == FLASH_MAGIC
    &&& r.version == CONFIG_VERSION
    &&& r.active_model == 0
    &&& r.throttle_trim == 0
    &&& r.audio_enabled == 1
    &&& r.backlight_timeout == 0
    &&& r.backlight_brightness == 10
    &&& r.vbat_warn_deci == 44
    &&& r.lcd_contrast == 37
    &&& r.usb_mode == 0
    &&& r.sticks@ == seq![default_calib(), default_calib(), default_calib(), default_calib()]
    &&& r.pots@ == seq![default_calib(), default_calib()]
    &&& r.ext_module_pwr == 0
    &&& r.tone_style == 1
    &&& r._reserved@ == Seq::new(62, |i: int| 0u8)
}

impl RadioConfig {
    /// Factory radio settings: audio on, full backlight, contrast 37,
    /// full-range calibration, melodic tones.
    pub fn default_factory() -> (r: Self)
        ensures
            radio_factory_fields(r),
    {
        let c = ChannelCalib::new(adc::ADC_MIN, adc::ADC_CENTER, adc::ADC_MAX);
        let r = RadioConfig {
            magic: FLASH_MAGIC,
            version: CONFIG_VERSION,
            active_model: 0,
            throttle_trim: 0,
            audio_enabled: 1,
            backlight_timeout: 0,
            backlight_brightness: 10,
            vbat_warn_deci: 44,
            lcd_contrast: 37,
            usb_mode: 0,
            sticks: [c, c, c, c],
            pots: [c, c],
            ext_module_pwr: 0,
            tone_style: 1,
            _reserved: [0u8; 62],
        };
        assert(r.sticks@ =~= seq![default_calib(), default_calib(), default_calib(), default_calib()]);
        assert(r.pots@ =~= seq![default_calib(), default_calib()]);
        assert(r._reserved@ =~= Seq::new(62, |i: int| 0u8));
        r
    }
}

/// One freeform mix rule of the matrix mixer (6 bytes when stored).
#[derive(Copy, Clone, Debug, PartialEq, Eq, Structural)]
pub struct MixLine {
    pub target_ch: u8,
    pub source: u8,
    pub weight: i8,
    pub offset: i8,
    pub switch: u8,
    pub mode: u8,
}

/// The unused mix rule.
pub open spec fn mix_disabled() -> MixLine {
    MixLine { target_ch: 0, source: 0, weight: 100, offset: 0, switch: 0, mode: 0 }
}

impl MixLine {
    /// An unused rule: no target channel, 100% weight.
    pub fn disabled() -> (r: Self)
        ensures
            r == mix_disabled(),
    {
        MixLine { target_ch: 0, source: 0, weight: 100, offset: 0, switch: 0, mode: 0 }
    }
}

/// Profile of one model (128 bytes when stored).
#[derive(Copy, Clone, Debug)]
pub struct ModelConfig {
    pub name: [u8; 10],
    pub model_type: u8,
    pub _pad0: u8,
    pub rx_id: u32,
    pub trims: [i8; 4],
    pub channel_reverse: u16,
    pub dr_switch: u8,
    pub thr_curve_pts: u8,
    pub thr_curve_smooth: u8,
    pub thr_curve: [u8; 9],
    pub dr_high: [u8; 3],
    pub dr_low: [u8; 3],
    pub expo_high: [i8; 3],
    pub expo_low: [i8; 3],
    pub timer_secs: u16,
    pub timer_source: u8,
    pub protocol_subtype: u8,
    pub failsafe_thr: u16,
    pub aux_channels: [u8; 10],
    pub wing_tail_mix: u8,
    pub template_diff: i8,
    pub mixes: [MixLine; 8],
    pub failsafe_mode: u8,
    pub failsafe_timeout: u8,
    pub rf_protocol: u8,
    pub crsf_baud: u8,
    pub arm_switch: u8,
    pub _reserved: [u8; 11],
}

/// "MODEL nn  " for the 0-based model index `idx` (numbers 01..).
pub open spec fn default_name(idx: int) -> Seq<u8> {
    let num = idx + 1;
    seq![77u8, 79u8, 68u8, 69u8, 76u8, 32u8, (48 + num / 10) as u8, (48 + num % 10) as u8, 32u8, 32u8]
}

/// Default throttle curve: a straight 5-point line.
pub open spec fn default_thr_curve() -> Seq<u8> {
    seq![0u8, 25, 50, 75, 100, 0, 0, 0, 0]
}

/// Default sources of CH5..CH14: SA, SB, VRA, VRB, SC, SD, then none.
pub open spec fn default_aux_channels() -> Seq<u8> {
    seq![7u8, 8, 5, 6, 9, 10, 0, 0, 0, 0]
}

/// The factory profile of model memory `idx` (everything except the name is
/// the same for every memory).
pub open spec fn model_factory_fields(m: ModelConfig) -> bool {
    m.rx_id == 0 && model_factory_rest(m)
}

/// The factory profile apart from the name and the receiver ID.
pub open spec fn model_factory_rest(m: ModelConfig) -> bool {
    &&& m.model_type == 0
    &&& m._pad0 == 0
    &&& m.trims@ == seq![0i8, 0, 0, 0]
    &&& m.channel_reverse == 0
    &&& m.dr_switch == 0
    &&& m.thr_curve_pts == 5
    &&& m.thr_curve_smooth == 0
    &&& m.thr_curve@ == default_thr_curve()
    &&& m.dr_high@ == seq![100u8, 100, 100]
    &&& m.dr_low@ == seq![70u8, 70, 70]
    &&& m.expo_high@ == seq![0i8, 0, 0]
    &&& m.expo_low@ == seq![0i8, 0, 0]
    &&& m.timer_secs == 300
    &&& m.timer_source == 1
    &&& m.protocol_subtype == 0
    &&& m.failsafe_thr == 1000
    &&& m.aux_channels@ == default_aux_channels()
    &&& m.wing_tail_mix == 0
    &&& m.template_diff == 0
    &&& (forall|i: int| 0 <= i < 8 ==> #[trigger] m.mixes@[i] == mix_disabled())
    &&& m.failsafe_mode == 0
    &&& m.failsafe_timeout == 20
    &&& m.rf_protocol == 0
    &&& m.crsf_baud == 0
    &&& m.arm_switch == 0
    &&& m._reserved@ == Seq::new(11, |i: int| 0u8)
}

/// Build the default name of memory `idx`.
pub fn default_name_bytes(idx: usize) -> (name: [u8; 10])
    requires
        idx < 99,
    ensures
        name@ == default_name(idx as int),
{
    let num = (idx + 1) as u8;
    let digit1 = 48u8 + num / 10;
    let digit2 = 48u8 + num % 10;
    let n = [77u8, 79u8, 68u8, 69u8, 76u8, 32u8, digit1, digit2, 32u8, 32u8];
    assert(n@ =~= default_name(idx as int));
    n
}

impl ModelConfig {
    /// Factory profile for memory `idx`, named "MODEL nn".
    pub fn default_for_index(idx: usize) -> (m: Self)
        requires
            idx < 99,
        ensures
            m.name@ == default_name(idx as int),
            model_factory_fields(m),
    {
        let m = ModelConfig {
            name: default_name_bytes(idx),
            model_type: 0,
            _pad0: 0,
            rx_id: 0,
            trims: [0, 0, 0, 0],
            channel_reverse: 0,
            dr_switch: 0,
            thr_curve_pts: 5,
            thr_curve_smooth: 0,
            thr_curve: [0, 25, 50, 75, 100, 0, 0, 0, 0],
            dr_high: [100, 100, 100],
            dr_low: [70, 70, 70],
            expo_high: [0, 0, 0],
            expo_low: [0, 0, 0],
            timer_secs: 300,
            timer_source: 1,
            protocol_subtype: 0,
            failsafe_thr: 1000,
            aux_channels: [7, 8, 5, 6, 9, 10, 0, 0, 0, 0],
            wing_tail_mix: 0,
            template_diff: 0,
            mixes: [MixLine::disabled(); 8],
            failsafe_mode: 0,
            failsafe_timeout: 20,
            rf_protocol: 0,
            crsf_baud: 0,
            arm_switch: 0,
            _reserved: [0u8; 11],
        };
        assert(m.trims@ =~= seq![0i8, 0, 0, 0]);
        assert(m.thr_curve@ =~= default_thr_curve());
        assert(m.dr_high@ =~= seq![100u8, 100, 100]);
        assert(m.dr_low@ =~= seq![70u8, 70, 70]);
        assert(m.expo_high@ =~= seq![0i8, 0, 0]);
        assert(m.expo_low@ =~= seq![0i8, 0, 0]);
        assert(m.aux_channels@ =~= default_aux_channels());
        assert(m._reserved@ =~= Seq::new(11, |i: int| 0u8));
        m
    }
}

/// Calibration endpoints that are out of order or beyond the converter's
/// range fall back to the full range.
pub open spec fn fix_calib(c: ChannelCalib) -> ChannelCalib {
    if c.min >= c.center || c.center >= c.max || c.max > adc::ADC_MAX {
        ChannelCalib { min: adc::ADC_MIN, center: adc::ADC_CENTER, max: adc::ADC_MAX, ..c }
    } else {
        c
    }
}

/// `v`, or `d` when `v` lies outside `lo..=hi`.
pub open spec fn fix_u8(v: u8, lo: int, hi: int, d: u8) -> u8 {
    if v < lo || v > hi {
        d
    } else {
        v
    }
}

/// `v`, or `d` when `v` lies outside `lo..=hi`.
pub open spec fn fix_i8(v: i8, lo: int, hi: int, d: i8) -> i8 {
    if v < lo || v > hi {
        d
    } else {
        v
    }
}

/// A mix rule with an unknown target, source, mode or switch is disabled.
pub open spec fn fix_mix(x: MixLine) -> MixLine {
    if x.target_ch > 14 || x.source > 25 || x.mode > 2 || x.switch > 10 {
        mix_disabled()
    } else {
        x
    }
}

/// Auxiliary sources with the first six all unset (records from before
/// they existed) restored to the defaults.
pub open spec fn aux_base(a: Seq<u8>) -> Seq<u8> {
    if a.subrange(0, 6) == seq![0u8, 0, 0, 0, 0, 0] {
        default_aux_channels()
    } else {
        a
    }
}

/// Radio settings after repair: header rewritten; battery warning
/// 3.5..=6.0 V (else 4.4 V), model index below 20 (else 0), brightness
/// 1..=10 (else 10), contrast 15..=55 (else 37), USB mode and module power
/// polarity in range (else 0), calibrations repaired.
pub open spec fn radio_sanitized(r0: RadioConfig, r1: RadioConfig) -> bool {
    &&& r1.magic == FLASH_MAGIC
    &&& r1.version == CONFIG_VERSION
    &&& r1.active_model == (if r0.active_model >= 20 { 0 } else { r0.active_model })
    &&& r1.throttle_trim == r0.throttle_trim
    &&& r1.audio_enabled == r0.audio_enabled
    &&& r1.backlight_timeout == r0.backlight_timeout
    &&& r1.backlight_brightness == fix_u8(r0.backlight_brightness, 1, 10, 10)
    &&& r1.vbat_warn_deci == fix_u8(r0.vbat_warn_deci, 35, 60, 44)
    &&& r1.lcd_contrast == fix_u8(r0.lcd_contrast, 15, 55, 37)
    &&& r1.usb_mode == fix_u8(r0.usb_mode, 0, 3, 0)
    &&& r1.sticks@ == r0.sticks@.map_values(|c: ChannelCalib| fix_calib(c))
    &&& r1.pots@ == r0.pots@.map_values(|c: ChannelCalib| fix_calib(c))
    &&& r1.ext_module_pwr == fix_u8(r0.ext_module_pwr, 0, 1, 0)
    &&& r1.tone_style == r0.tone_style
    &&& r1._reserved == r0._reserved
}

/// Model memory `idx` after repair: every rate, expo, selector, mix and
/// curve outside its range replaced by its default; an unset name replaced
/// by "MODEL nn"; everything else kept.
pub open spec fn model_sanitized(m0: ModelConfig, m1: ModelConfig, idx: int) -> bool {
    &&& m1.name@ == (if m0.name@[0] == 0 || m0.name@[0] == 0xFF { default_name(idx) } else { m0.name@ })
    &&& m1.model_type == m0.model_type
    &&& m1._pad0 == m0._pad0
    &&& m1.rx_id == m0.rx_id
    &&& m1.trims == m0.trims
    &&& m1.channel_reverse == m0.channel_reverse
    &&& m1.dr_switch == fix_u8(m0.dr_switch, 0, 4, 0)
    &&& m1.thr_curve_pts == (if m0.thr_curve_pts != 5 && m0.thr_curve_pts != 9 { 5 } else { m0.thr_curve_pts })
    &&& m1.thr_curve_smooth == m0.thr_curve_smooth
    &&& m1.thr_curve@ == (if m0.thr_curve_pts != 5 && m0.thr_curve_pts != 9 { default_thr_curve() } else { m0.thr_curve@ })
    &&& m1.dr_high@ == m0.dr_high@.map_values(|v: u8| fix_u8(v, 30, 100, 100))
    &&& m1.dr_low@ == m0.dr_low@.map_values(|v: u8| fix_u8(v, 30, 100, 70))
    &&& m1.expo_high@ == m0.expo_high@.map_values(|v: i8| fix_i8(v, -100, 100, 0))
    &&& m1.expo_low@ == m0.expo_low@.map_values(|v: i8| fix_i8(v, -100, 100, 0))
    &&& m1.timer_secs == m0.timer_secs
    &&& m1.timer_source == m0.timer_source
    &&& m1.protocol_subtype == m0.protocol_subtype
    &&& m1.failsafe_thr == (if m0.failsafe_thr < 900 || m0.failsafe_thr > 2100 { 1000 } else { m0.failsafe_thr })
    &&& m1.aux_channels@ == aux_base(m0.aux_channels@).map_values(|v: u8| fix_u8(v, 0, 25, 0))
    &&& m1.wing_tail_mix == fix_u8(m0.wing_tail_mix, 0, 3, 0)
    &&& m1.template_diff == fix_i8(m0.template_diff, -100, 100, 0)
    &&& m1.mixes@ == m0.mixes@.map_values(|x: MixLine| fix_mix(x))
    &&& m1.failsafe_mode == m0.failsafe_mode
    &&& m1.failsafe_timeout == m0.failsafe_timeout
    &&& m1.rf_protocol == fix_u8(m0.rf_protocol, 0, 1, 0)
    &&& m1.crsf_baud == fix_u8(m0.crsf_baud, 0, 3, 0)
    &&& m1.arm_switch == m0.arm_switch
    &&& m1._reserved == m0._reserved
}

/// Calibration endpoints in order within the converter's range.
pub open spec fn calib_valid(c: ChannelCalib) -> bool {
    c.min < c.center < c.max <= adc::ADC_MAX
}

/// Radio settings within every range the firmware relies on.
pub open spec fn radio_valid(r: RadioConfig) -> bool {
    &&& r.magic == FLASH_MAGIC
    &&& r.version == CONFIG_VERSION
    &&& r.active_model < 20
    &&& 1 <= r.backlight_brightness <= 10
    &&& 35 <= r.vbat_warn_deci <= 60
    &&& 15 <= r.lcd_contrast <= 55
    &&& r.usb_mode <= 3
    &&& r.ext_module_pwr <= 1
    &&& forall|i: int| 0 <= i < 4 ==> calib_valid(#[trigger] r.sticks@[i])
    &&& forall|i: int| 0 <= i < 2 ==> calib_valid(#[trigger] r.pots@[i])
}

/// A model profile within every range the firmware relies on.
pub open spec fn model_valid(m: ModelConfig) -> bool {
    &&& m.name@[0] != 0 && m.name@[0] != 0xFF
    &&& m.dr_switch <= 4
    &&& (m.thr_curve_pts == 5 || m.thr_curve_pts == 9)
    &&& forall|i: int| 0 <= i < 3 ==> 30 <= #[trigger] m.dr_high@[i] <= 100
    &&& forall|i: int| 0 <= i < 3 ==> 30 <= #[trigger] m.dr_low@[i] <= 100
    &&& forall|i: int| 0 <= i < 3 ==> -100 <= #[trigger] m.expo_high@[i] <= 100
    &&& forall|i: int| 0 <= i < 3 ==> -100 <= #[trigger] m.expo_low@[i] <= 100
    &&& 900 <= m.failsafe_thr <= 2100
    &&& m.aux_channels@.subrange(0, 6) != seq![0u8, 0, 0, 0, 0, 0]
    &&& forall|i: int| 0 <= i < 10 ==> #[trigger] m.aux_channels@[i] <= 25
    &&& m.wing_tail_mix <= 3
    &&& -100 <= m.template_diff <= 100
    &&& forall|i: int| 0 <= i < 8 ==> fix_mix(#[trigger] m.mixes@[i]) == m.mixes@[i]
    &&& m.rf_protocol <= 1
    &&& m.crsf_baud <= 3
}

fn sanitize_calib(c: ChannelCalib) -> (r: ChannelCalib)
    ensures
        r == fix_calib(c),
{
    if c.min >= c.center || c.center >= c.max || c.max > adc::ADC_MAX {
        ChannelCalib { min: adc::ADC_MIN, center: adc::ADC_CENTER, max: adc::ADC_MAX, ..c }
    } else {
        c
    }
}

fn sanitize_radio(r: &mut RadioConfig)
    ensures
        radio_sanitized(*old(r), *final(r)),
{
    r.magic = FLASH_MAGIC;
    r.version = CONFIG_VERSION;
    if r.vbat_warn_deci < 35 || r.vbat_warn_deci > 60 {
        r.vbat_warn_deci = 44;
    }
    if r.active_model >= 20 {
        r.active_model = 0;
    }
    if r.backlight_brightness == 0 || r.backlight_brightness > 10 {
        r.backlight_brightness = 10;
    }
    if r.lcd_contrast < 15 || r.lcd_contrast > 55 {
        r.lcd_contrast = 37;
    }
    if r.usb_mode > 3 {
        r.usb_mode = 0;
    }
    if r.ext_module_pwr > 1 {
        r.ext_module_pwr = 0;
    }
    let mut i: usize = 0;
    while i < 4
        invariant
            i <= 4,
            forall|k: int| 0 <= k < i ==> r.sticks@[k] == fix_calib(old(r).sticks@[k]),
            forall|k: int| i <= k < 4 ==> r.sticks@[k] == old(r).sticks@[k],
            r.pots == old(r).pots,
            r.magic == FLASH_MAGIC,
            r.version == CONFIG_VERSION,
            r.active_model == (if old(r).active_model >= 20 { 0 } else { old(r).active_model }),
            r.throttle_trim == old(r).throttle_trim,
            r.audio_enabled == old(r).audio_enabled,
            r.backlight_timeout == old(r).backlight_timeout,
            r.backlight_brightness == fix_u8(old(r).backlight_brightness, 1, 10, 10),
            r.vbat_warn_deci == fix_u8(old(r).vbat_warn_deci, 35, 60, 44),
            r.lcd_contrast == fix_u8(old(r).lcd_contrast, 15, 55, 37),
            r.usb_mode == fix_u8(old(r).usb_mode, 0, 3, 0),
            r.ext_module_pwr == fix_u8(old(r).ext_module_pwr, 0, 1, 0),
            r.tone_style == old(r).tone_style,
            r._reserved == old(r)._reserved,
        decreases 4 - i,
    {
        r.sticks[i] = sanitize_calib(r.sticks[i]);
        i += 1;
    }
    let mut j: usize = 0;
    while j < 2
        invariant
            j <= 2,
            forall|k: int| 0 <= k < 4 ==> r.sticks@[k] == fix_calib(old(r).sticks@[k]),
            forall|k: int| 0 <= k < j ==> r.pots@[k] == fix_calib(old(r).pots@[k]),
            forall|k: int| j <= k < 2 ==> r.pots@[k] == old(r).pots@[k],
            r.magic == FLASH_MAGIC,
            r.version == CONFIG_VERSION,
            r.active_model == (if old(r).active_model >= 20 { 0 } else { old(r).active_model }),
            r.throttle_trim == old(r).throttle_trim,
            r.audio_enabled == old(r).audio_enabled,
            r.backlight_timeout == old(r).backlight_timeout,
            r.backlight_brightness == fix_u8(old(r).backlight_brightness, 1, 10, 10),
            r.vbat_warn_deci == fix_u8(old(r).vbat_warn_deci, 35, 60, 44),
            r.lcd_contrast == fix_u8(old(r).lcd_contrast, 15, 55, 37),
            r.usb_mode == fix_u8(old(r).usb_mode, 0, 3, 0),
            r.ext_module_pwr == fix_u8(old(r).ext_module_pwr, 0, 1, 0),
            r.tone_style == old(r).tone_style,
            r._reserved == old(r)._reserved,
        decreases 2 - j,
    {
        r.pots[j] = sanitize_calib(r.pots[j]);
        j += 1;
    }
    assert(r.sticks@ =~= old(r).sticks@.map_values(|c: ChannelCalib| fix_calib(c)));
    assert(r.pots@ =~= old(r).pots@.map_values(|c: ChannelCalib| fix_calib(c)));
}

fn sanitize_model(m: &mut ModelConfig, idx: usize)
    requires
        idx < 99,
    ensures
        model_sanitized(*old(m), *final(m), idx as int),
{
    if m.rf_protocol > 1 {
        m.rf_protocol = 0;
    }
    if m.crsf_baud > 3 {
        m.crsf_baud = 0;
    }
    let mut axis: usize = 0;
    while axis < 3
        invariant
            axis <= 3,
            forall|k: int| 0 <= k < axis ==> m.dr_high@[k] == fix_u8(old(m).dr_high@[k], 30, 100, 100),
            forall|k: int| 0 <= k < axis ==> m.dr_low@[k] == fix_u8(old(m).dr_low@[k], 30, 100, 70),
            forall|k: int| 0 <= k < axis ==> m.expo_high@[k] == fix_i8(old(m).expo_high@[k], -100, 100, 0),
            forall|k: int| 0 <= k < axis ==> m.expo_low@[k] == fix_i8(old(m).expo_low@[k], -100, 100, 0),
            forall|k: int| axis <= k < 3 ==> m.dr_high@[k] == old(m).dr_high@[k],
            forall|k: int| axis <= k < 3 ==> m.dr_low@[k] == old(m).dr_low@[k],
            forall|k: int| axis <= k < 3 ==> m.expo_high@[k] == old(m).expo_high@[k],
            forall|k: int| axis <= k < 3 ==> m.expo_low@[k] == old(m).expo_low@[k],
            m.rf_protocol == fix_u8(old(m).rf_protocol, 0, 1, 0),
            m.crsf_baud == fix_u8(old(m).crsf_baud, 0, 3, 0),
            m.name == old(m).name,
            m.aux_channels == old(m).aux_channels,
            m.mixes == old(m).mixes,
            m.thr_curve == old(m).thr_curve,
            m.thr_curve_pts == old(m).thr_curve_pts,
            m.dr_switch == old(m).dr_switch,
            m.wing_tail_mix == old(m).wing_tail_mix,
            m.template_diff == old(m).template_diff,
            m.failsafe_thr == old(m).failsafe_thr,
            m.model_type == old(m).model_type,
            m._pad0 == old(m)._pad0,
            m.rx_id == old(m).rx_id,
            m.trims == old(m).trims,
            m.channel_reverse == old(m).channel_reverse,
            m.thr_curve_smooth == old(m).thr_curve_smooth,
            m.timer_secs == old(m).timer_secs,
            m.timer_source == old(m).timer_source,
            m.protocol_subtype == old(m).protocol_subtype,
            m.failsafe_mode == old(m).failsafe_mode,
            m.failsafe_timeout == old(m).failsafe_timeout,
            m.arm_switch == old(m).arm_switch,
            m._reserved == old(m)._reserved,
        decreases 3 - axis,
    {
        if m.dr_high[axis] < 30 || m.dr_high[axis] > 100 {
            m.dr_high[axis] = 100;
        }
        if m.dr_low[axis] < 30 || m.dr_low[axis] > 100 {
            m.dr_low[axis] = 70;
        }
        if m.expo_high[axis] < -100 || m.expo_high[axis] > 100 {
            m.expo_high[axis] = 0;
        }
        if m.expo_low[axis] < -100 || m.expo_low[axis] > 100 {
            m.expo_low[axis] = 0;
        }
        axis += 1;
    }
    assert(m.dr_high@ =~= old(m).dr_high@.map_values(|v: u8| fix_u8(v, 30, 100, 100)));
    assert(m.dr_low@ =~= old(m).dr_low@.map_values(|v: u8| fix_u8(v, 30, 100, 70)));
    assert(m.expo_high@ =~= old(m).expo_high@.map_values(|v: i8| fix_i8(v, -100, 100, 0)));
    assert(m.expo_low@ =~= old(m).expo_low@.map_values(|v: i8| fix_i8(v, -100, 100, 0)));
    if m.dr_switch > 4 {
        m.dr_switch = 0;
    }
    if m.wing_tail_mix > 3 {
        m.wing_tail_mix = 0;
    }
    if m.template_diff < -100 || m.template_diff > 100 {
        m.template_diff = 0;
    }
    if m.failsafe_thr < 900 || m.failsafe_thr > 2100 {
        m.failsafe_thr = 1000;
    }
    let a = m.aux_channels;
    if a[0] == 0 && a[1] == 0 && a[2] == 0 && a[3] == 0 && a[4] == 0 && a[5] == 0 {
        m.aux_channels = [7, 8, 5, 6, 9, 10, 0, 0, 0, 0];
        assert(old(m).aux_channels@.subrange(0, 6) =~= seq![0u8, 0, 0, 0, 0, 0]);
        assert(m.aux_channels@ =~= default_aux_channels());
    } else {
        assert(old(m).aux_channels@.subrange(0, 6) != seq![0u8, 0, 0, 0, 0, 0]) by {
            if old(m).aux_channels@.subrange(0, 6) == seq![0u8, 0, 0, 0, 0, 0] {
                assert(old(m).aux_channels@.subrange(0, 6)[0] == a[0]);
                assert(old(m).aux_channels@.subrange(0, 6)[1] == a[1]);
                assert(old(m).aux_channels@.subrange(0, 6)[2] == a[2]);
                assert(old(m).aux_channels@.subrange(0, 6)[3] == a[3]);
                assert(old(m).aux_channels@.subrange(0, 6)[4] == a[4]);
                assert(old(m).aux_channels@.subrange(0, 6)[5] == a[5]);
            }
        }
    }
    let ghost base = m.aux_channels@;
    assert(base == aux_base(old(m).aux_channels@));
    let mut aux = m.aux_channels;
    let mut k: usize = 0;
    while k < 10
        invariant
            k <= 10,
            base.len() == 10,
            forall|j: int| 0 <= j < k ==> aux@[j] == fix_u8(base[j], 0, 25, 0),
            forall|j: int| k <= j < 10 ==> aux@[j] == base[j],
        decreases 10 - k,
    {
        if aux[k] > 25 {
            aux[k] = 0;
        }
        k += 1;
    }
    m.aux_channels = aux;
    assert(m.aux_channels@ =~= aux_base(old(m).aux_channels@).map_values(|v: u8| fix_u8(v, 0, 25, 0)));
    let mut mixes = m.mixes;
    let mut x: usize = 0;
    while x < 8
        invariant
            x <= 8,
            forall|j: int| 0 <= j < x ==> mixes@[j] == fix_mix(old(m).mixes@[j]),
            forall|j: int| x <= j < 8 ==> mixes@[j] == old(m).mixes@[j],
        decreases 8 - x,
    {
        let mix = mixes[x];
        if mix.target_ch > 14 || mix.source > 25 || mix.mode > 2 || mix.switch > 10 {
            mixes[x] = MixLine::disabled();
        }
        x += 1;
    }
    m.mixes = mixes;
    assert(m.mixes@ =~= old(m).mixes@.map_values(|x: MixLine| fix_mix(x)));
    if m.thr_curve_pts != 5 && m.thr_curve_pts != 9 {
        m.thr_curve_pts = 5;
        m.thr_curve = [0, 25, 50, 75, 100, 0, 0, 0, 0];
        assert(m.thr_curve@ =~= default_thr_curve());
    }
    if m.name[0] == 0 || m.name[0] == 0xFF {
        m.name = default_name_bytes(idx);
    }
}

/// Radio settings and the 20 model memories.
#[derive(Copy, Clone, Debug)]
pub struct RadioStorage {
    pub radio: RadioConfig,
    pub models: [ModelConfig; NUM_MODELS],
}

/// Index of the active model: the stored index clamped to the last memory.
pub open spec fn active_index(r: RadioConfig) -> int {
    if r.active_model < 19 {
        r.active_model as int
    } else {
        19
    }
}

/// Storage after repair of the radio settings and every model memory.
pub open spec fn storage_sanitized(s0: RadioStorage, s1: RadioStorage) -> bool {
    &&& radio_sanitized(s0.radio, s1.radio)
    &&& forall|i: int| 0 <= i < 20 ==> model_sanitized(#[trigger] s0.models@[i], s1.models@[i], i)
}

/// Storage within every range the firmware relies on.
pub open spec fn storage_valid(s: RadioStorage) -> bool {
    &&& radio_valid(s.radio)
    &&& forall|i: int| 0 <= i < 20 ==> model_valid(#[trigger] s.models@[i])
}

impl RadioStorage {
    /// Factory radio settings and 20 copies of the first model's profile.
    pub fn empty() -> (s: Self)
        ensures
            radio_factory_fields(s.radio),
            forall|i: int| 0 <= i < 20 ==> #[trigger] s.models@[i].name@ == default_name(0) && model_factory_fields(s.models@[i]),
    {
        let m = ModelConfig::default_for_index(0);
        RadioStorage { radio: RadioConfig::default_factory(), models: [m; 20] }
    }

    /// Same as `empty`.
    pub fn default_factory() -> (s: Self)
        ensures
            radio_factory_fields(s.radio),
            forall|i: int| 0 <= i < 20 ==> #[trigger] s.models@[i].name@ == default_name(0) && model_factory_fields(s.models@[i]),
    {
        let m = ModelConfig::default_for_index(0);
        RadioStorage { radio: RadioConfig::default_factory(), models: [m; 20] }
    }

    /// Reset to factory settings, each memory with its own name.
    pub fn init_default(&mut self)
        ensures
            radio_factory_fields(final(self).radio),
            forall|i: int| 0 <= i < 20 ==> #[trigger] final(self).models@[i].name@ == default_name(i) && model_factory_fields(final(self).models@[i]),
    {
        self.radio = RadioConfig::default_factory();
        let mut i: usize = 0;
        while i < NUM_MODELS
            invariant
                i <= NUM_MODELS,
                radio_factory_fields(self.radio),
                forall|k: int| 0 <= k < i ==> #[trigger] self.models@[k].name@ == default_name(k) && model_factory_fields(self.models@[k]),
            decreases NUM_MODELS - i,
        {
            self.models[i] = ModelConfig::default_for_index(i);
            i += 1;
        }
    }

    /// The active model memory.
    pub fn active_model(&self) -> (m: &ModelConfig)
        ensures
            *m == self.models@[active_index(self.radio)],
    {
        let idx = if (self.radio.active_model as usize) < 19 { self.radio.active_model as usize } else { 19 };
        &self.models[idx]
    }

    /// The active model memory, for editing.
    pub fn active_model_mut(&mut self) -> (m: &mut ModelConfig)
        ensures
            *m == old(self).models@[active_index(old(self).radio)],
            final(self).radio == old(self).radio,
            final(self).models@ == old(self).models@.update(active_index(old(self).radio), *final(m)),
    {
        let idx = if (self.radio.active_model as usize) < 19 { self.radio.active_model as usize } else { 19 };
        &mut self.models[idx]
    }

    /// Index of the active model memory.
    pub fn active_model_index(&self) -> (i: usize)
        ensures
            i == active_index(self.radio),
    {
        if (self.radio.active_model as usize) < 19 { self.radio.active_model as usize } else { 19 }
    }

    /// Repair every out-of-range value (see `radio_sanitized` and
    /// `model_sanitized`).
    pub fn sanitize(&mut self)
        ensures
            storage_sanitized(*old(self), *final(self)),
    {
        sanitize_radio(&mut self.radio);
        let mut i: usize = 0;
        while i < NUM_MODELS
            invariant
                i <= NUM_MODELS,
                radio_sanitized(old(self).radio, self.radio),
                forall|k: int| 0 <= k < i ==> model_sanitized(#[trigger] old(self).models@[k], self.models@[k], k),
                forall|k: int| i <= k < 20 ==> #[trigger] self.models@[k] == old(self).models@[k],
            decreases NUM_MODELS - i,
        {
            let mut m = self.models[i];
            sanitize_model(&mut m, i);
            self.models[i] = m;
            i += 1;
        }
    }
}

/// Auxiliary sources whose first six are not all unset but all turn unset
/// when the out-of-range ones are cleared: repair then leaves them unset,
/// and a second repair would restore the defaults.
pub open spec fn aux_wiped(a: Seq<u8>) -> bool {
    &&& a.subrange(0, 6) != seq![0u8, 0, 0, 0, 0, 0]
    &&& forall|j: int| 0 <= j < 6 ==> a[j] == 0 || a[j] > 25
}

proof fn lemma_model_sanitized_valid(m0: ModelConfig, m1: ModelConfig, idx: int)
    requires
        0 <= idx < 99,
        model_sanitized(m0, m1, idx),
        !aux_wiped(m0.aux_channels@),
    ensures
        model_valid(m1),
{
    let b = aux_base(m0.aux_channels@);
    if m0.aux_channels@.subrange(0, 6) == seq![0u8, 0, 0, 0, 0, 0] {
        assert(m1.aux_channels@[0] == 7);
        assert(m1.aux_channels@.subrange(0, 6)[0] == 7);
    } else {
        let j = choose|j: int| 0 <= j < 6 && 0 < #[trigger] m0.aux_channels@[j] <= 25;
        assert(m1.aux_channels@[j] == m0.aux_channels@[j]);
        assert(m1.aux_channels@.subrange(0, 6)[j] != 0);
    }
    assert forall|i: int| 0 <= i < 8 implies fix_mix(#[trigger] m1.mixes@[i]) == m1.mixes@[i] by {
        assert(m1.mixes@[i] == fix_mix(m0.mixes@[i]));
    }
    assert forall|i: int| 0 <= i < 3 implies 30 <= #[trigger] m1.dr_high@[i] <= 100 by {
        assert(m1.dr_high@[i] == fix_u8(m0.dr_high@[i], 30, 100, 100));
    }
    assert forall|i: int| 0 <= i < 3 implies 30 <= #[trigger] m1.dr_low@[i] <= 100 by {
        assert(m1.dr_low@[i] == fix_u8(m0.dr_low@[i], 30, 100, 70));
    }
    assert forall|i: int| 0 <= i < 3 implies -100 <= #[trigger] m1.expo_high@[i] <= 100 by {
        assert(m1.expo_high@[i] == fix_i8(m0.expo_high@[i], -100, 100, 0));
    }
    assert forall|i: int| 0 <= i < 3 implies -100 <= #[trigger] m1.expo_low@[i] <= 100 by {
        assert(m1.expo_low@[i] == fix_i8(m0.expo_low@[i], -100, 100, 0));
    }
    assert forall|i: int| 0 <= i < 10 implies #[trigger] m1.aux_channels@[i] <= 25 by {
        assert(m1.aux_channels@[i] == fix_u8(b[i], 0, 25, 0));
    }
}

proof fn lemma_model_valid_fixed(m0: ModelConfig, m1: ModelConfig, idx: int)
    requires
        model_valid(m0),
        model_sanitized(m0, m1, idx),
    ensures
        m1 == m0,
{
    assert(m1.name@ =~= m0.name@);
    assert(m1.thr_curve@ =~= m0.thr_curve@);
    assert(m1.dr_high@ =~= m0.dr_high@);
    assert(m1.dr_low@ =~= m0.dr_low@);
    assert(m1.expo_high@ =~= m0.expo_high@);
    assert(m1.expo_low@ =~= m0.expo_low@);
    assert(m1.aux_channels@ =~= m0.aux_channels@);
    assert(m1.mixes@ =~= m0.mixes@);
    broadcast use vstd::array::axiom_array_ext_equal;
    assert(m1.name == m0.name);
    assert(m1.thr_curve == m0.thr_curve);
    assert(m1.dr_high == m0.dr_high);
    assert(m1.dr_low == m0.dr_low);
    assert(m1.expo_high == m0.expo_high);
    assert(m1.expo_low == m0.expo_low);
    assert(m1.aux_channels == m0.aux_channels);
    assert(m1.mixes == m0.mixes);
}

/// After `sanitize`, every radio setting and every model profile lies
/// within the ranges the firmware relies on (unless a model's first six
/// auxiliary sources all end up unset, see `aux_wiped`).
pub proof fn lemma_sanitize_gives_valid(s0: RadioStorage, s1: RadioStorage)
    requires
        storage_sanitized(s0, s1),
        forall|i: int| 0 <= i < 20 ==> !aux_wiped(#[trigger] s0.models@[i].aux_channels@),
    ensures
        storage_valid(s1),
{
    assert forall|i: int| 0 <= i < 4 implies calib_valid(#[trigger] s1.radio.sticks@[i]) by {
        assert(s1.radio.sticks@[i] == fix_calib(s0.radio.sticks@[i]));
    }
    assert forall|i: int| 0 <= i < 2 implies calib_valid(#[trigger] s1.radio.pots@[i]) by {
        assert(s1.radio.pots@[i] == fix_calib(s0.radio.pots@[i]));
    }
    assert forall|i: int| 0 <= i < 20 implies model_valid(#[trigger] s1.models@[i]) by {
        lemma_model_sanitized_valid(s0.models@[i], s1.models@[i], i);
    }
}

/// `sanitize` leaves storage that is already within range unchanged.
pub proof fn lemma_sanitize_keeps_valid(s0: RadioStorage, s1: RadioStorage)
    requires
        storage_valid(s0),
        storage_sanitized(s0, s1),
    ensures
        s1 == s0,
{
    broadcast use vstd::array::axiom_array_ext_equal;
    assert forall|i: int| 0 <= i < 4 implies #[trigger] s1.radio.sticks@[i] == s0.radio.sticks@[i] by {
        assert(calib_valid(s0.radio.sticks@[i]));
    }
    assert forall|i: int| 0 <= i < 2 implies #[trigger] s1.radio.pots@[i] == s0.radio.pots@[i] by {
        assert(calib_valid(s0.radio.pots@[i]));
    }
    assert(s1.radio.sticks@ =~= s0.radio.sticks@);
    assert(s1.radio.pots@ =~= s0.radio.pots@);
    assert(s1.radio.sticks == s0.radio.sticks);
    assert(s1.radio.pots == s0.radio.pots);
    assert(s1.radio == s0.radio);
    assert forall|i: int| 0 <= i < 20 implies #[trigger] s1.models@[i] == s0.models@[i] by {
        lemma_model_valid_fixed(s0.models@[i], s1.models@[i], i);
    }
    assert(s1.models@ =~= s0.models@);
    assert(s1.models == s0.models);
}

/// Sanitizing twice gives what sanitizing once gave (unless a model's first
/// six auxiliary sources all end up unset, see `aux_wiped`).
pub proof fn lemma_sanitize_idempotent(s0: RadioStorage, s1: RadioStorage, s2: RadioStorage)
    requires
        storage_sanitized(s0, s1),
        forall|i: int| 0 <= i < 20 ==> !aux_wiped(#[trigger] s0.models@[i].aux_channels@),
        storage_sanitized(s1, s2),
    ensures
        s2 == s1,
{
    lemma_sanitize_gives_valid(s0, s1);
    lemma_sanitize_keeps_valid(s1, s2);
}

/// A stored radio record this firmware can take: the magic word and layout
/// version 3 or 4.
pub open spec fn header_ok(magic: u32, version: u32) -> bool {
    magic == FLASH_MAGIC && (version == CONFIG_VERSION || version == 3)
}

/// Key of the radio record in the record log.
pub const KEY_RADIO: u8 = 0;
/// Key of model memory 0 in the record log; memory `i` uses `1 + i`.
pub const KEY_MODEL_BASE: u8 = 1;

/// Storage rebuilt from the record log: the radio record and each stored
/// model (the factory profile where one is missing), then repaired.
pub open spec fn from_log(radio: RadioConfig, models: Seq<Option<ModelConfig>>, s: RadioStorage) -> bool {
    &&& radio_sanitized(radio, s.radio)
    &&& forall|i: int| 0 <= i < 20 ==> match #[trigger] models[i] {
        Some(m) => model_sanitized(m, s.models@[i], i),
        None => s.models@[i].name@ == default_name(i) && model_factory_fields(s.models@[i]),
    }
}

/// Storage rebuilt from the record log (see `from_log`).
pub fn storage_from_log(radio: RadioConfig, models: &[Option<ModelConfig>; 20]) -> (s: RadioStorage)
    ensures
        from_log(radio, models@, s),
{
    let mut s = RadioStorage::empty();
    s.radio = radio;
    let mut i: usize = 0;
    while i < NUM_MODELS
        invariant
            i <= NUM_MODELS,
            s.radio == radio,
            forall|k: int| 0 <= k < i ==> #[trigger] s.models@[k] == match models@[k] {
                Some(m) => m,
                None => s.models@[k],
            },
            forall|k: int| 0 <= k < i ==> (#[trigger] models@[k] is None ==> s.models@[k].name@ == default_name(k) && model_factory_fields(s.models@[k])),
        decreases NUM_MODELS - i,
    {
        match models[i] {
            Some(m) => {
                s.models[i] = m;
            },
            None => {
                s.models[i] = ModelConfig::default_for_index(i);
            },
        }
        i += 1;
    }
    let ghost s0 = s;
    s.sanitize();
    assert forall|i: int| 0 <= i < 20 implies match #[trigger] models@[i] {
        Some(m) => model_sanitized(m, s.models@[i], i),
        None => s.models@[i].name@ == default_name(i) && model_factory_fields(s.models@[i]),
    } by {
        assert(model_sanitized(s0.models@[i], s.models@[i], i));
        if models@[i] is None {
            lemma_factory_model_valid(s0.models@[i], i);
            lemma_model_valid_fixed(s0.models@[i], s.models@[i], i);
        }
    }
    s
}

proof fn lemma_factory_model_valid(m: ModelConfig, idx: int)
    requires
        0 <= idx < 99,
        m.name@ == default_name(idx),
        model_factory_fields(m),
    ensures
        model_valid(m),
{
    assert(m.aux_channels@.subrange(0, 6)[0] == 7);
    assert forall|i: int| 0 <= i < 8 implies fix_mix(#[trigger] m.mixes@[i]) == m.mixes@[i] by {
        assert(m.mixes@[i] == mix_disabled());
    }
}

/// `b` (2688 bytes) is the image of storage `s`: the radio record, then the
/// 20 model records.
pub open spec fn storage_image(s: RadioStorage, b: Seq<u8>) -> bool {
    &&& b.len() == 2688
    &&& radio_image(s.radio, b.subrange(0, 128))
    &&& forall|i: int| 0 <= i < 20 ==> model_image(#[trigger] s.models@[i], b.subrange(128 + 128 * i, 256 + 128 * i))
}

/// Storage taken from a whole-storage snapshot image when its header is
/// good: the decoded records, repaired.
pub fn storage_from_snapshot(b: &[u8]) -> (r: Option<RadioStorage>)
    requires
        b@.len() == 2688,
    ensures
        r is Some <==> header_ok(image::le32_at(b@, 0), image::le32_at(b@, 4)),
        match r {
            Some(s) => exists|s0: RadioStorage| storage_image(s0, b@) && #[trigger] storage_sanitized(s0, s),
            None => true,
        },
{
    let magic = image::read_le32(b, 0);
    let version = image::read_le32(b, 4);
    if !(magic == FLASH_MAGIC && (version == CONFIG_VERSION || version == 3)) {
        return None;
    }
    let mut rb = [0u8; 128];
    image::get_bytes(b, 0, &mut rb);
    let mut s = RadioStorage::empty();
    s.radio = RadioConfig::from_bytes(&rb);
    let mut i: usize = 0;
    while i < NUM_MODELS
        invariant
            i <= NUM_MODELS,
            b@.len() == 2688,
            radio_image(s.radio, b@.subrange(0, 128)),
            forall|k: int| 0 <= k < i ==> model_image(#[trigger] s.models@[k], b@.subrange(128 + 128 * k, 256 + 128 * k)),
        decreases NUM_MODELS - i,
    {
        let mut mb = [0u8; 128];
        image::get_bytes(b, 128 + 128 * i, &mut mb);
        s.models[i] = ModelConfig::from_bytes(&mb);
        i += 1;
    }
    let ghost s0 = s;
    s.sanitize();
    assert(storage_image(s0, b@) && storage_sanitized(s0, s));
    assert(exists|t: RadioStorage| storage_image(t, b@) && #[trigger] storage_sanitized(t, s));
    assert(header_ok(image::le32_at(b@, 0), image::le32_at(b@, 4)));
    let r = Some(s);
    assert(storage_sanitized(s0, r->Some_0) && storage_image(s0, b@));
    assert(match r {
        Some(s) => exists|s0: RadioStorage| storage_image(s0, b@) && #[trigger] storage_sanitized(s0, s),
        None => true,
    });
    r
}

/// The first 64 bytes of a first- or second-generation record: magic,
/// version 1 or 2, receiver ID, stick and pot calibrations, and (version 2)
/// throttle trim, audio and backlight settings.
pub open spec fn legacy_ok(b: Seq<u8>) -> bool {
    image::le32_at(b, 0) == FLASH_MAGIC && (image::le32_at(b, 4) == 1 || image::le32_at(b, 4) == 2)
}

/// The record migrated from an old one, before repair: factory settings
/// with the old calibrations, (version 2) the old throttle trim, audio and
/// backlight settings, and the old receiver ID in memory 0 when it is a
/// real ID.
pub open spec fn legacy_base(b: Seq<u8>, s0: RadioStorage) -> bool {
    let rx_id = image::le32_at(b, 8);
    let v2 = image::le32_at(b, 4) == 2;
    &&& s0.radio.magic == FLASH_MAGIC && s0.radio.version == CONFIG_VERSION
    &&& s0.radio.active_model == 0 && s0.radio.vbat_warn_deci == 44 && s0.radio.lcd_contrast == 37
    &&& s0.radio.usb_mode == 0 && s0.radio.ext_module_pwr == 0 && s0.radio.tone_style == 1
    &&& s0.radio._reserved@ == Seq::new(62, |i: int| 0u8)
    &&& s0.radio.throttle_trim == (if v2 { b[60] } else { 0 })
    &&& s0.radio.audio_enabled == (if v2 { b[61] } else { 1 })
    &&& s0.radio.backlight_timeout == (if v2 { b[62] } else { 0 })
    &&& s0.radio.backlight_brightness == (if v2 { b[63] } else { 10 })
    &&& forall|i: int| 0 <= i < 4 ==> calib_bytes(#[trigger] s0.radio.sticks@[i]) == b.subrange(12 + 8 * i, 20 + 8 * i)
    &&& forall|i: int| 0 <= i < 2 ==> calib_bytes(#[trigger] s0.radio.pots@[i]) == b.subrange(44 + 8 * i, 52 + 8 * i)
    &&& forall|i: int| 0 <= i < 20 ==> #[trigger] s0.models@[i].name@ == default_name(i)
    &&& forall|i: int| 1 <= i < 20 ==> model_factory_fields(#[trigger] s0.models@[i])
    &&& model_factory_rest(s0.models@[0])
    &&& s0.models@[0].rx_id == (if rx_id != 0 && rx_id != 0xFFFF_FFFF { rx_id } else { 0 })
}

/// Storage migrated from an old record, when it is one (see `legacy_base`),
/// then repaired.
pub fn storage_from_legacy(b: &[u8; 64]) -> (r: Option<RadioStorage>)
    ensures
        r is Some <==> legacy_ok(b@),
        match r {
            Some(s) => exists|s0: RadioStorage| legacy_base(b@, s0) && #[trigger] storage_sanitized(s0, s),
            None => true,
        },
{
    let magic = image::read_le32(b, 0);
    let version = image::read_le32(b, 4);
    if !(magic == FLASH_MAGIC && (version == 1 || version == 2)) {
        return None;
    }
    let mut s = RadioStorage::empty();
    s.init_default();
    let ghost s_init = s;
    let rx_id = image::read_le32(b, 8);
    if rx_id != 0 && rx_id != 0xFFFF_FFFF {
        s.models[0].rx_id = rx_id;
    }
    s.radio.sticks = [image::get_calib(b, 12), image::get_calib(b, 20), image::get_calib(b, 28), image::get_calib(b, 36)];
    s.radio.pots = [image::get_calib(b, 44), image::get_calib(b, 52)];
    if version == 2 {
        s.radio.throttle_trim = b[60];
        s.radio.audio_enabled = b[61];
        s.radio.backlight_timeout = b[62];
        s.radio.backlight_brightness = b[63];
    }
    assert forall|i: int| 0 <= i < 4 implies calib_bytes(#[trigger] s.radio.sticks@[i]) == b@.subrange(12 + 8 * i, 20 + 8 * i) by {
        if i == 0 {} else if i == 1 {} else if i == 2 {} else {}
    }
    assert forall|i: int| 0 <= i < 2 implies calib_bytes(#[trigger] s.radio.pots@[i]) == b@.subrange(44 + 8 * i, 52 + 8 * i) by {
        if i == 0 {} else {}
    }
    let ghost s0 = s;
    let ghost bb = b@;
    let ghost rid = image::le32_at(bb, 8);
    assert(s0.radio.magic == FLASH_MAGIC && s0.radio.version == CONFIG_VERSION);
    assert(s0.radio._reserved@ == Seq::new(62, |i: int| 0u8));
    assert(s0.radio.throttle_trim == (if image::le32_at(bb, 4) == 2 { bb[60] } else { 0 }));
    assert(forall|i: int| 0 <= i < 20 ==> #[trigger] s0.models@[i].name@ == default_name(i));
    assert forall|i: int| 1 <= i < 20 implies model_factory_fields(#[trigger] s0.models@[i]) by {
        assert(s_init.models@[i].name@ == default_name(i));
        assert(s0.models@[i] == s_init.models@[i]);
    }
    assert(model_factory_rest(s0.models@[0])) by {
        assert(s_init.models@[0].name@ == default_name(0));
    }
    assert(s_init.models@[0].name@ == default_name(0));
    assert(s0.models@[0].rx_id == (if rid != 0 && rid != 0xFFFF_FFFF { rid } else { 0 }));
    assert(legacy_base(b@, s0));
    s.sanitize();
    let r = Some(s);
    assert(storage_sanitized(s0, r->Some_0) && legacy_base(b@, s0));
    r
}

/// Factory settings in every memory, each with its own name.
pub open spec fn factory_storage(s: RadioStorage) -> bool {
    &&& radio_factory_fields(s.radio)
    &&& forall|i: int| 0 <= i < 20 ==> #[trigger] s.models@[i].name@ == default_name(i) && model_factory_fields(s.models@[i])
}

/// The record log's radio record exists and has a good header.
pub open spec fn log_usable(r: Option<RadioConfig>) -> bool {
    match r {
        Some(c) => header_ok(c.magic, c.version),
        None => false,
    }
}

/// Where the stored configuration came from at start-up.
#[derive(Copy, Clone, Debug, PartialEq, Eq, Structural)]
pub enum LoadSource {
    /// The record log held a good radio record.
    Log,
    /// A whole-storage snapshot of the previous layout.
    Snapshot,
    /// A first- or second-generation record.
    Legacy,
    /// Nothing usable: factory settings.
    Factory,
}

/// Choose the stored configuration at start-up, from what the caller read
/// out of flash: the log's radio record and model records, the snapshot
/// area and the old record area. The log wins when its radio record has a
/// good header, then a snapshot with a good header, then an old record;
/// otherwise factory settings. Everything but the log must be written back
/// as a fresh log.
pub fn load_storage(
    log_radio: Option<RadioConfig>,
    log_models: &[Option<ModelConfig>; 20],
    snapshot: &[u8],
    legacy: &[u8; 64],
) -> (r: (RadioStorage, LoadSource))
    requires
        snapshot@.len() == 2688,
    ensures
        match log_radio {
            Some(c) => header_ok(c.magic, c.version) ==> r.1 == LoadSource::Log && from_log(c, log_models@, r.0),
            None => true,
        },
        !log_usable(log_radio) && header_ok(image::le32_at(snapshot@, 0), image::le32_at(snapshot@, 4)) ==> r.1
            == LoadSource::Snapshot && exists|s0: RadioStorage| storage_image(s0, snapshot@) && #[trigger] storage_sanitized(s0, r.0),
        !log_usable(log_radio) && !header_ok(image::le32_at(snapshot@, 0), image::le32_at(snapshot@, 4)) && legacy_ok(legacy@)
            ==> r.1 == LoadSource::Legacy && exists|s0: RadioStorage| legacy_base(legacy@, s0) && #[trigger] storage_sanitized(s0, r.0),
        !log_usable(log_radio) && !header_ok(image::le32_at(snapshot@, 0), image::le32_at(snapshot@, 4)) && !legacy_ok(legacy@)
            ==> r.1 == LoadSource::Factory && factory_storage(r.0),
{
    if let Some(cfg) = log_radio {
        if cfg.magic == FLASH_MAGIC && (cfg.version == CONFIG_VERSION || cfg.version == 3) {
            return (storage_from_log(cfg, log_models), LoadSource::Log);
        }
    }
    let snap = storage_from_snapshot(snapshot);
    if let Some(s) = snap {
        let ghost w = choose|s0: RadioStorage| storage_image(s0, snapshot@) && #[trigger] storage_sanitized(s0, snap->Some_0);
        let t = (s, LoadSource::Snapshot);
        assert(storage_image(w, snapshot@) && storage_sanitized(w, t.0));
        return t;
    }
    let leg = storage_from_legacy(legacy);
    if let Some(s) = leg {
        let ghost w = choose|s0: RadioStorage| legacy_base(legacy@, s0) && #[trigger] storage_sanitized(s0, leg->Some_0);
        let t = (s, LoadSource::Legacy);
        assert(legacy_base(legacy@, w) && storage_sanitized(w, t.0));
        return t;
    }
    let mut s = RadioStorage::empty();
    s.init_default();
    let t = (s, LoadSource::Factory);
    assert forall|i: int| 0 <= i < 20 implies #[trigger] t.0.models@[i].name@ == default_name(i) && model_factory_fields(t.0.models@[i]) by {
        assert(s.models@[i].name@ == default_name(i));
    }
    assert(factory_storage(t.0));
    t
}

/// A stored receiver ID that names a real receiver.
pub fn saved_rx_id(rx_id: u32) -> (r: Option<u32>)
    ensures
        r == (if rx_id != 0 && rx_id != 0xFFFF_FFFF { Some(rx_id) } else { None::<u32> }),
{
    if rx_id != 0 && rx_id != 0xFFFF_FFFF {
        Some(rx_id)
    } else {
        None
    }
}

/// Failures of the on-chip flash driver.
#[derive(Copy, Clone, Debug, PartialEq, Eq, Structural)]
pub enum FlashError {
    AddressMisaligned,
    LengthMisaligned,
    OutOfBounds,
    ProgrammingError,
    WriteProtectionError,
    Timeout,
    UnlockFailed,
}

/// The generic classes flash errors fall into.
#[derive(Copy, Clone, Debug, PartialEq, Eq, Structural)]
pub enum FlashErrorKind {
    NotAligned,
    OutOfBounds,
    Other,
}

impl FlashError {
    /// The generic class of this error.
    pub fn kind(&self) -> (k: FlashErrorKind)
        ensures
            k == match *self {
                FlashError::AddressMisaligned | FlashError::LengthMisaligned => FlashErrorKind::NotAligned,
                FlashError::OutOfBounds => FlashErrorKind::OutOfBounds,
                _ => FlashErrorKind::Other,
            },
    {
        match self {
            FlashError::AddressMisaligned | FlashError::LengthMisaligned => FlashErrorKind::NotAligned,
            FlashError::OutOfBounds => FlashErrorKind::OutOfBounds,
            _ => FlashErrorKind::Other,
        }
    }
}

/// Flash storage window: 8 KB from page 60.
pub const FLASH_STORAGE_ADDR: u32 = 0x0801_E000;
/// End of the flash storage window.
pub const FLASH_STORAGE_END: u32 = 0x0802_0000;
/// Base of the previous layout's whole-storage snapshot.
pub const FLASH_LEGACY_SNAPSHOT_ADDR: u32 = 0x0801_F000;
/// Base of the first- and second-generation record.
pub const FLASH_LEGACY_ADDR: u32 = 0x0801_F800;

/// The on-chip flash: byte reads, half-word programming, 2 KB page erase.
/// This holds the argument checks; the register sequences are the caller's.
#[derive(Copy, Clone, Debug, PartialEq, Eq, Structural)]
pub struct Stm32Flash;

impl Stm32Flash {
    /// Addressable size (flash ends at 0x0802_0000).
    pub fn capacity(&self) -> (c: usize)
        ensures
            c == 0x0802_0000,
    {
        0x0802_0000
    }

    /// A read of `len` bytes at `offset` must end within the capacity.
    pub fn check_read(&self, offset: u32, len: usize) -> (r: Result<(), FlashError>)
        ensures
            r == (if offset + len > 0x0802_0000 { Err(FlashError::OutOfBounds) } else { Ok::<(), FlashError>(()) }),
    {
        if len > 0x0802_0000 || offset as usize > 0x0802_0000 - len {
            Err(FlashError::OutOfBounds)
        } else {
            Ok(())
        }
    }

    /// An erase must cover whole 2 KB pages, from below to.
    pub fn check_erase(&self, from: u32, to: u32) -> (r: Result<(), FlashError>)
        ensures
            r == (if from % 2048 != 0 || to % 2048 != 0 || from >= to {
                Err(FlashError::AddressMisaligned)
            } else {
                Ok::<(), FlashError>(())
            }),
    {
        if from % 2048 != 0 || to % 2048 != 0 || from >= to {
            Err(FlashError::AddressMisaligned)
        } else {
            Ok(())
        }
    }

    /// A write must start and end on half-words; returns whether there is
    /// anything to program.
    pub fn check_write(&self, offset: u32, len: usize) -> (r: Result<bool, FlashError>)
        ensures
            r == (if offset % 2 != 0 || len % 2 != 0 { Err(FlashError::AddressMisaligned) } else { Ok::<bool, FlashError>(len > 0) }),
    {
        if offset % 2 != 0 || len % 2 != 0 {
            Err(FlashError::AddressMisaligned)
        } else {
            Ok(len > 0)
        }
    }
}

/// Page addresses from `from` (inclusive) to `to` (exclusive), 2 KB apart.
pub open spec fn pages_between(from: u32, to: u32) -> Seq<u32> {
    Seq::new(((to - from) / 2048) as nat, |i: int| (from + i * 2048) as u32)
}

/// Half-words programmed by a write: each pair of bytes, little endian, at
/// consecutive half-word addresses from `offset`.
pub open spec fn halfword_program(offset: u32, bytes: Seq<u8>) -> Seq<(u32, u16)> {
    Seq::new((bytes.len() / 2) as nat, |i: int| (
        (offset + 2 * i) as u32,
        (bytes[2 * i] as int + 256 * bytes[2 * i + 1] as int) as u16,
    ))
}

impl Stm32Flash {
    /// The pages an erase of `from..to` clears, in order, after the
    /// alignment check.
    pub fn erase_pages(&self, from: u32, to: u32) -> (r: Result<Vec<u32>, FlashError>)
        ensures
            match r {
                Ok(p) => from % 2048 == 0 && to % 2048 == 0 && from < to && p@ == pages_between(from, to),
                Err(e) => (from % 2048 != 0 || to % 2048 != 0 || from >= to) && e == FlashError::AddressMisaligned,
            },
    {
        if from % 2048 != 0 || to % 2048 != 0 || from >= to {
            return Err(FlashError::AddressMisaligned);
        }
        let mut pages: Vec<u32> = Vec::new();
        let mut page = from;
        let count = (to - from) / 2048;
        let mut i: u32 = 0;
        while i < count
            invariant
                from % 2048 == 0,
                to % 2048 == 0,
                from < to,
                count == (to - from) / 2048,
                i <= count,
                page == from + i * 2048,
                pages@ == pages_between(from, to).subrange(0, i as int),
            decreases count - i,
        {
            assert(page + 2048 <= to) by (nonlinear_arith)
                requires page == from + i * 2048, i < count, count == (to - from) / 2048, from % 2048 == 0, to % 2048 == 0, from < to;
            pages.push(page);
            page = page + 2048;
            i = i + 1;
            assert(pages@ =~= pages_between(from, to).subrange(0, i as int));
        }
        assert(pages@ =~= pages_between(from, to));
        Ok(pages)
    }

    /// The half-words a write programs, after the alignment check (an empty
    /// write programs nothing).
    pub fn program_halfwords(&self, offset: u32, bytes: &[u8]) -> (r: Result<Vec<(u32, u16)>, FlashError>)
        requires
            offset + bytes@.len() <= u32::MAX,
        ensures
            match r {
                Ok(w) => offset % 2 == 0 && bytes@.len() % 2 == 0 && w@ == halfword_program(offset, bytes@),
                Err(e) => (offset % 2 != 0 || bytes@.len() % 2 != 0) && e == FlashError::AddressMisaligned,
            },
    {
        if offset % 2 != 0 || bytes.len() % 2 != 0 {
            return Err(FlashError::AddressMisaligned);
        }
        let mut words: Vec<(u32, u16)> = Vec::new();
        let n = bytes.len() / 2;
        let mut i: usize = 0;
        while i < n
            invariant
                n == bytes@.len() / 2,
                bytes@.len() % 2 == 0,
                offset + bytes@.len() <= u32::MAX,
                i <= n,
                words@ == halfword_program(offset, bytes@).subrange(0, i as int),
            decreases n - i,
        {
            let lo = bytes[2 * i] as u16;
            let hi = bytes[2 * i + 1] as u16;
            let addr = offset + (2 * i) as u32;
            words.push((addr, lo + 256 * hi));
            i = i + 1;
            assert(words@ =~= halfword_program(offset, bytes@).subrange(0, i as int));
        }
        assert(words@ =~= halfword_program(offset, bytes@));
        Ok(words)
    }

    /// The outcome of one programming or erase step from the status flags:
    /// a programming error first, then write protection.
    pub fn step_status(&self, pgerr: bool, wrprt: bool) -> (r: Result<(), FlashError>)
        ensures
            r == (if pgerr {
                Err(FlashError::ProgrammingError)
            } else if wrprt {
                Err(FlashError::WriteProtectionError)
            } else {
                Ok::<(), FlashError>(())
            }),
    {
        if pgerr {
            Err(FlashError::ProgrammingError)
        } else if wrprt {
            Err(FlashError::WriteProtectionError)
        } else {
            Ok(())
        }
    }
}

/// What saving the storage writes to the record log: the radio record,
/// then the active model's record, each under its key.
pub fn save_storage(storage: &RadioStorage) -> (items: Vec<(u8, Vec<u8>)>)
    ensures
        items@.len() == 2,
        items@[0].0 == KEY_RADIO,
        radio_image(storage.radio, items@[0].1@),
        items@[1].0 == (KEY_MODEL_BASE + active_index(storage.radio)) as u8,
        model_image(storage.models@[active_index(storage.radio)], items@[1].1@),
{
    let idx = storage.active_model_index();
    let mut items: Vec<(u8, Vec<u8>)> = Vec::new();
    items.push((KEY_RADIO, storage.radio.to_bytes()));
    items.push(((KEY_MODEL_BASE as usize + idx) as u8, storage.models[idx].to_bytes()));
    items
}

/// The radio settings start-up loading would choose (see `load_storage`).
pub fn load_config(
    log_radio: Option<RadioConfig>,
    log_models: &[Option<ModelConfig>; 20],
    snapshot: &[u8],
    legacy: &[u8; 64],
) -> (r: RadioConfig)
    requires
        snapshot@.len() == 2688,
    ensures
        match log_radio {
            Some(c) => header_ok(c.magic, c.version) ==> radio_sanitized(c, r),
            None => true,
        },
        !log_usable(log_radio) && !header_ok(image::le32_at(snapshot@, 0), image::le32_at(snapshot@, 4)) && !legacy_ok(legacy@)
            ==> radio_factory_fields(r),
{
    let (s, _) = load_storage(log_radio, log_models, snapshot, legacy);
    s.radio
}

} // verus!
