//! The control loop's two tiers. The flight pipeline turns one converter scan
//! into the 14 output channels, tracks the arm switch and routes the
//! channels to the AFHDS 2A engine, the CRSF link and USB. The background
//! manager runs the timers around it: activity, backlight dimming, the
//! inactivity reminder, the bind key gestures, storing a newly bound
//! receiver and opening the menu. Drivers, storage writes and drawing are
//! done by the caller from what these return.
use vstd::prelude::*;
use crate::arith::{clamp, tdiv};
use crate::buzzer::{
    Buzzer, BuzzerView, armed_chime, beep, buzzer_wf, clicked, disarmed_chime, inactivity_alarm, tone_pattern,
};
use crate::crsf::{channels_effect, enable_effect, poll_effect, CrsfLink, LinkView};
use crate::curve::{curve_output, evaluate_curve};
use crate::input::{
    SwitchPos, axis_value, calib_ordered, filter_step, poll, poll_filters, polled, InputCalibration, InputState, Switches,
};
use crate::mixer::{channels_out, compute_channels, is_switch_active, rated, sticks_defined, switch_active};
use crate::rf::afhds2a::{RadioMode, TelemetryData};
use crate::rf::RfSystem;
use crate::storage::{active_index, ModelConfig, RadioConfig, RadioStorage};
use crate::trim::TrimController;
use crate::usb::{usb_polled, UsbLink, UsbMode, UsbPoll};

verus! {

/// The active model of a storage.
pub open spec fn active_of(s: RadioStorage) -> ModelConfig {
    s.models@[active_index(s.radio)]
}

/// The model has an arm switch condition (1..=10).
pub open spec fn has_arm_switch(m: ModelConfig) -> bool {
    0 < m.arm_switch <= 10
}

/// Armed: the model's arm switch condition holds.
pub open spec fn arm_state(m: ModelConfig, s: Switches) -> bool {
    has_arm_switch(m) && switch_active(m.arm_switch, s)
}

/// Throttle stick position mapped to the curve input 0..=1000.
pub open spec fn throttle_input(t: i16) -> int {
    clamp(tdiv(t + 1000, 2), 0, 1000)
}

/// High-rate pipeline state: the last arm state and the model it belongs to.
pub struct FlightPipeline {
    pub prev_armed: bool,
    pub prev_active_model: u8,
}

/// What one pipeline tick produced.
pub struct FlightSnapshot {
    pub state: InputState,
    pub rf_chs: [u16; 14],
    pub telem: TelemetryData,
    pub is_binding: bool,
    /// The CRSF port and module power must be reconfigured.
    pub crsf_reconfigure: bool,
    /// The transceiver must go to standby with its front end off.
    pub rf_standby: bool,
    /// What USB sends.
    pub usb: UsbPoll,
}

/// The arm tracking after a tick: resynchronised when the active model
/// changed, then following the arm switch.
pub open spec fn arm_tracked(p: FlightPipeline, active_model: u8, m: ModelConfig, s: Switches) -> FlightPipeline {
    let resynced = if active_model != p.prev_active_model { arm_state(m, s) } else { p.prev_armed };
    FlightPipeline {
        prev_armed: if has_arm_switch(m) { switch_active(m.arm_switch, s) } else { resynced },
        prev_active_model: active_model,
    }
}

/// The chime of a tick: arming or disarming, outside the menus.
pub open spec fn arm_sound(p: FlightPipeline, active_model: u8, m: ModelConfig, s: Switches, menu_active: bool, b: BuzzerView) -> BuzzerView {
    let resynced = if active_model != p.prev_active_model { arm_state(m, s) } else { p.prev_armed };
    if has_arm_switch(m) && switch_active(m.arm_switch, s) != resynced && !menu_active {
        if switch_active(m.arm_switch, s) { armed_chime(b) } else { disarmed_chime(b) }
    } else {
        b
    }
}

/// The curved throttle a tick feeds the mixer.
pub open spec fn curved_throttle(m: ModelConfig, throttle: i16) -> u16 {
    curve_output(throttle_input(throttle) as u16, m.thr_curve_pts, m.thr_curve_smooth != 0, m.thr_curve@) as u16
}

/// The CRSF side of a tick. With CRSF selected the link is on unless USB
/// is in simulator mode, and then sends channels and polls telemetry; with
/// AFHDS 2A selected it is off.
pub open spec fn crsf_routed(
    l0: LinkView,
    l1: LinkView,
    tx0: Seq<u8>,
    tx1: Seq<u8>,
    reconfigure: bool,
    is_crsf: bool,
    sim: bool,
    baud: u8,
    now: u32,
    chs: Seq<u16>,
    rx: Seq<u8>,
) -> bool {
    if is_crsf {
        let e = enable_effect(l0, !sim, baud);
        &&& reconfigure == e.1
        &&& if !sim {
            let c = channels_effect(e.0, now, chs);
            let p = poll_effect(c.0, rx, now);
            l1 == p.0 && tx1 == tx0 + c.1 + p.1
        } else {
            l1 == e.0 && tx1 == tx0
        }
    } else {
        let e = enable_effect(l0, false, 0);
        reconfigure == e.1 && l1 == e.0 && tx1 == tx0
    }
}

/// The AFHDS 2A side of a tick: silenced under CRSF or in simulator mode,
/// otherwise given the channels; telemetry comes from the link in use.
pub open spec fn rf_routed(r0: RfSystem, r1: RfSystem, standby: bool, is_crsf: bool, sim: bool, chs: [u16; 14]) -> bool {
    let silenced = is_crsf || sim;
    &&& r1.silenced == silenced
    &&& standby == (silenced && !r0.silenced)
    &&& r1.driver == r0.driver
    &&& r1.last_chip_id == r0.last_chip_id
    &&& if silenced {
        r1.channel_buffer == r0.channel_buffer
    } else {
        r1.channel_buffer.next_read() == chs
    }
    &&& is_crsf ==> r1.telemetry_buffer == r0.telemetry_buffer
}

/// Telemetry as the dashboard sees it.
pub open spec fn routed_telemetry(is_crsf: bool, crsf: LinkView, r0: RfSystem) -> TelemetryData {
    if is_crsf {
        TelemetryData {
            connected: crsf.telemetry.connected,
            rssi: crsf.telemetry.uplink_link_quality,
            rx_voltage_mv: crsf.telemetry.rx_battery_mv,
            packets_sent: 0,
            packets_received: 0,
        }
    } else {
        r0.telemetry_buffer.next_read()
    }
}

proof fn lemma_rated_in_range(input: int, rate: int)
    requires
        -1000 <= input <= 1000,
    ensures
        -1000 <= rated(input, rate) <= 1000,
{
    let r = clamp(rate, 30, 100);
    assert(30 <= r <= 100);
    if input >= 0 {
        assert(0 <= input * r <= 100000) by (nonlinear_arith)
            requires 0 <= input <= 1000, 30 <= r <= 100;
    } else {
        assert(-100000 <= input * r < 0) by (nonlinear_arith)
            requires -1000 <= input < 0, 30 <= r <= 100;
    }
}

impl FlightPipeline {
    /// Start tracking with the arm state of the active model.
    pub fn new(storage: &RadioStorage, switches: &Switches) -> (p: Self)
        ensures
            p == (FlightPipeline {
                prev_armed: arm_state(active_of(*storage), *switches),
                prev_active_model: storage.radio.active_model,
            }),
    {
        let active = storage.active_model();
        let prev_armed = if active.arm_switch > 0 && active.arm_switch <= 10 {
            is_switch_active(active.arm_switch, switches)
        } else {
            false
        };
        FlightPipeline { prev_armed, prev_active_model: storage.radio.active_model }
    }

    /// One high-rate tick: process the scan, chime on arm changes (not in
    /// the menus), evaluate the throttle curve and the mixer, and route the
    /// channels and telemetry to the selected protocol and to USB.
    /// `crsf_rx` holds the bytes the CRSF port received since the last tick.
    pub fn tick(
        &mut self,
        now: u32,
        storage: &RadioStorage,
        trims: &TrimController,
        menu_active: bool,
        calib: &mut InputCalibration,
        raw: &[u16; 11],
        usb_configured: bool,
        crsf_rx: &[u8],
        buzzer: &mut Buzzer,
        crsf: &mut CrsfLink,
        crsf_tx: &mut Vec<u8>,
        rf: &mut RfSystem,
        usb: &mut UsbLink,
    ) -> (snap: FlightSnapshot)
        requires
            calib_ordered(*old(calib)),
            buzzer_wf(old(buzzer)@),
            old(crsf).wf(),
            old(rf).wf(),
            old(usb).wf(),
            crsf_rx@.len() <= 65,
        ensures
            polled(*old(calib), *raw, snap.state),
            poll_filters(*old(calib), *raw, *final(calib)),
            calib_ordered(*final(calib)),
            *final(self) == arm_tracked(*old(self), storage.radio.active_model, active_of(*storage), snap.state.switches),
            final(buzzer)@ == arm_sound(*old(self), storage.radio.active_model, active_of(*storage), snap.state.switches, menu_active, old(buzzer)@),
            buzzer_wf(final(buzzer)@),
            forall|i: int| 0 <= i < 14 ==> (#[trigger] snap.rf_chs[i]) as int == channels_out(
                snap.state.sticks.roll,
                snap.state.sticks.pitch,
                curved_throttle(active_of(*storage), snap.state.sticks.throttle),
                snap.state.sticks.yaw,
                seq![snap.state.pots.vr1, snap.state.pots.vr2],
                snap.state.switches,
                active_of(*storage),
                *trims,
                storage.radio.throttle_trim,
                i,
            ),
            final(crsf).wf(),
            final(rf).wf(),
            final(usb).wf(),
            crsf_routed(
                old(crsf)@, final(crsf)@, old(crsf_tx)@, final(crsf_tx)@, snap.crsf_reconfigure,
                active_of(*storage).rf_protocol == 1, old(usb).mode == UsbMode::Joystick && usb_configured,
                active_of(*storage).crsf_baud, now, snap.rf_chs@, crsf_rx@,
            ),
            rf_routed(*old(rf), *final(rf), snap.rf_standby, active_of(*storage).rf_protocol == 1,
                old(usb).mode == UsbMode::Joystick && usb_configured, snap.rf_chs),
            snap.telem == routed_telemetry(active_of(*storage).rf_protocol == 1, final(crsf)@, *old(rf)),
            snap.is_binding == (active_of(*storage).rf_protocol != 1 && (match old(rf).driver {
                Some(d) => d.mode == RadioMode::Binding,
                None => false,
            })),
            usb_polled(*old(usb), *final(usb), snap.usb, now, usb_configured, snap.rf_chs@, snap.state.switches,
                snap.telem, snap.state.battery_mv),
    {
        let state = poll(calib, raw);
        let model = storage.active_model();
        let ghost b0 = buzzer@;
        if storage.radio.active_model != self.prev_active_model {
            self.prev_active_model = storage.radio.active_model;
            self.prev_armed = if model.arm_switch > 0 && model.arm_switch <= 10 {
                is_switch_active(model.arm_switch, &state.switches)
            } else {
                false
            };
        }
        if model.arm_switch > 0 && model.arm_switch <= 10 {
            let is_armed = is_switch_active(model.arm_switch, &state.switches);
            if is_armed != self.prev_armed {
                self.prev_armed = is_armed;
                if !menu_active {
                    if is_armed {
                        buzzer.chime_armed();
                    } else {
                        buzzer.chime_disarmed();
                    }
                }
            }
        }
        proof {
            crate::input::lemma_axis_in_range(old(calib).roll, filter_step(old(calib).roll.filtered_raw, raw@[0]));
            crate::input::lemma_axis_in_range(old(calib).pitch, filter_step(old(calib).pitch.filtered_raw, raw@[1]));
            crate::input::lemma_axis_in_range(old(calib).throttle, filter_step(old(calib).throttle.filtered_raw, raw@[2]));
            crate::input::lemma_axis_in_range(old(calib).yaw, filter_step(old(calib).yaw.filtered_raw, raw@[3]));
            crate::input::lemma_axis_in_range(old(calib).vra, filter_step(old(calib).vra.filtered_raw, raw@[6]));
            crate::input::lemma_axis_in_range(old(calib).vrb, filter_step(old(calib).vrb.filtered_raw, raw@[7]));
        }
        let t = state.sticks.throttle;
        let half: i16 = (t + 1000) / 2;
        let thr_input: u16 = if half < 0 { 0 } else if half > 1000 { 1000 } else { half as u16 };
        assert(thr_input as int == throttle_input(t));
        let thr_curved = evaluate_curve(thr_input, model.thr_curve_pts, model.thr_curve_smooth != 0, &model.thr_curve);
        let pots = [state.pots.vr1, state.pots.vr2];
        assert(pots@ =~= seq![state.pots.vr1, state.pots.vr2]);
        proof {
            lemma_rated_in_range(state.sticks.roll as int, crate::mixer::selected_rates(*model, state.switches)[0] as int);
            lemma_rated_in_range(state.sticks.pitch as int, crate::mixer::selected_rates(*model, state.switches)[1] as int);
            lemma_rated_in_range(state.sticks.yaw as int, crate::mixer::selected_rates(*model, state.switches)[2] as int);
        }
        let rf_chs = compute_channels(
            state.sticks.roll,
            state.sticks.pitch,
            thr_curved,
            state.sticks.yaw,
            &pots,
            &state.switches,
            model,
            trims,
            storage.radio.throttle_trim,
        );
        let is_crsf = model.rf_protocol == 1;
        let sim_mode = usb.is_sim_mode(usb_configured);
        let crsf_reconfigure;
        let rf_standby;
        if is_crsf {
            let crsf_active = !sim_mode;
            crsf_reconfigure = crsf.set_enabled(crsf_active, model.crsf_baud);
            if crsf_active {
                crsf.update_channels(now, &rf_chs, crsf_tx);
                crsf.poll_telemetry(now, crsf_rx, crsf_tx);
            }
            rf_standby = rf.set_silenced(true);
        } else {
            crsf_reconfigure = crsf.set_enabled(false, 0);
            rf_standby = rf.set_silenced(sim_mode);
            if !sim_mode {
                rf.set_channels(&rf_chs);
            }
        }
        let telem = if is_crsf {
            let ct = crsf.get_telemetry();
            TelemetryData {
                connected: ct.connected,
                rssi: ct.uplink_link_quality,
                rx_voltage_mv: ct.rx_battery_mv,
                packets_sent: 0,
                packets_received: 0,
            }
        } else {
            rf.get_telemetry()
        };
        let is_binding = !is_crsf && rf.is_binding();
        let usb_out = usb.poll(now, usb_configured, &rf_chs, &state.switches, &telem, state.battery_mv);
        FlightSnapshot { state, rf_chs, telem, is_binding, crsf_reconfigure, rf_standby, usb: usb_out }
    }
}

/// Key bit of Cancel / Exit.
pub const KEY_CANCEL: u16 = 0x0800;
/// Key bit of OK / Enter.
pub const KEY_OK: u16 = 0x0400;
/// Key bit of the bind button.
pub const KEY_BIND: u16 = 0x1000;
/// Minutes without activity before the reminder starts, in milliseconds.
pub const INACTIVITY_MS: u32 = 600_000;
/// Repeat period of the inactivity reminder.
pub const INACTIVITY_BEEP_MS: u32 = 30_000;
/// Hold time of the bind key that starts binding.
pub const BIND_HOLD_MS: u32 = 1000;
/// Shortest bind key press that turns the dashboard page.
pub const BIND_TAP_MS: u32 = 40;
/// Hold time of OK that opens the menu.
pub const OK_HOLD_MS: u16 = 1200;
/// Display frame period.
pub const DISPLAY_PERIOD_MS: u32 = 33;

/// Background state: activity tracking, timers and key gestures.
pub struct BackgroundIdleManager {
    pub prev_stick_samples: [u16; 6],
    pub prev_switches: Switches,
    pub prev_bind_key: bool,
    pub bind_hold_ms: u32,
    pub bind_was_held: bool,
    pub ok_hold_ms: u16,
    pub bl_timer_ms: u32,
    pub inactivity_timer_ms: u32,
    pub inactivity_beep_timer: u32,
    pub last_display_ms: u32,
    pub menu_was_active: bool,
}

/// What the caller does after a background tick.
pub struct IdleAction {
    /// Set the backlight to this percentage.
    pub backlight_pct: Option<u8>,
    /// Set the transceiver's output power (binding was entered or left).
    pub bind_power: Option<u8>,
    /// Store the active model (it holds a newly bound receiver ID).
    pub save_model: bool,
    /// Open the settings menu.
    pub open_menu: bool,
    /// Draw a display frame.
    pub render: bool,
}

/// The six analog channels watched for activity: sticks and pots.
pub open spec fn activity_samples(raw: Seq<u16>) -> Seq<u16> {
    seq![raw[0], raw[1], raw[2], raw[3], raw[6], raw[7]]
}

pub open spec fn moved_by(a: u16, b: u16, limit: int) -> bool {
    a - b > limit || b - a > limit
}

/// A stick moved more than 30 counts or a pot more than 40 since the last
/// tick.
pub open spec fn controls_moved(prev: Seq<u16>, raw: Seq<u16>) -> bool {
    moved_by(raw[0], prev[0], 30) || moved_by(raw[1], prev[1], 30) || moved_by(raw[2], prev[2], 30)
        || moved_by(raw[3], prev[3], 30) || moved_by(raw[6], prev[4], 40) || moved_by(raw[7], prev[5], 40)
}

/// The user did something: a key, a control movement or a switch change.
pub open spec fn user_active(m: BackgroundIdleManager, keys: u16, s: InputState) -> bool {
    keys != 0 || controls_moved(m.prev_stick_samples@, s.raw@) || s.switches != m.prev_switches
}

/// Backlight timeout for its setting: 15, 30 or 60 seconds, else none.
pub open spec fn backlight_timeout_ms(setting: u8) -> u32 {
    if setting == 1 { 15_000 } else if setting == 2 { 30_000 } else if setting == 3 { 60_000 } else { 0 }
}

/// The backlight timer after a tick and the backlight change: activity
/// restarts the timer at full brightness, otherwise it runs down and turns
/// the light off when it expires.
pub open spec fn backlight_step(timer: u32, active: bool, timeout: u8, brightness: u8, dt_ms: u16) -> (u32, Option<u8>) {
    if active {
        (backlight_timeout_ms(timeout), Some((brightness * 10) as u8))
    } else if timeout != 0 && dt_ms > 0 {
        if timer > dt_ms { ((timer - dt_ms) as u32, None) } else { (0, Some(0u8)) }
    } else {
        (timer, None)
    }
}

/// The inactivity timers after a tick, and whether the reminder sounds.
pub open spec fn inactivity_step(timer: u32, beep_timer: u32, active: bool, dt_ms: u16) -> (u32, u32, bool) {
    if active {
        (0, 0, false)
    } else if dt_ms > 0 {
        let t = if timer + dt_ms > u32::MAX { u32::MAX } else { (timer + dt_ms) as u32 };
        if t >= INACTIVITY_MS {
            if beep_timer >= INACTIVITY_BEEP_MS { (t, 0, true) } else { (t, (beep_timer + dt_ms) as u32, false) }
        } else {
            (t, beep_timer, false)
        }
    } else {
        (timer, beep_timer, false)
    }
}

/// What the bind key does in a tick.
#[derive(Copy, Clone, Debug, PartialEq, Eq, Structural)]
pub enum BindGesture {
    Nothing,
    /// Leave binding (Cancel or a fresh bind press while binding).
    StopBinding,
    /// Held for a second: start binding.
    StartBinding,
    /// A short press: next dashboard page.
    NextPage,
}

/// The bind key hold timer, its latch and the gesture of a tick.
pub open spec fn bind_step(m: BackgroundIdleManager, keys: u16, is_binding: bool, menu_active: bool, dt_ms: u16) -> (u32, bool, BindGesture) {
    let bind_key = (keys & KEY_BIND) != 0;
    let pressed = bind_key && !m.prev_bind_key;
    let cancel = (keys & KEY_CANCEL) != 0;
    if is_binding {
        (m.bind_hold_ms, m.bind_was_held, if cancel || pressed { BindGesture::StopBinding } else { BindGesture::Nothing })
    } else if menu_active {
        (0, false, BindGesture::Nothing)
    } else if bind_key {
        let h = if m.bind_hold_ms + dt_ms > u32::MAX { u32::MAX } else { (m.bind_hold_ms + dt_ms) as u32 };
        if h >= BIND_HOLD_MS && !m.bind_was_held {
            (h, true, BindGesture::StartBinding)
        } else {
            (h, m.bind_was_held, BindGesture::Nothing)
        }
    } else {
        (0, false, if !m.bind_was_held && m.bind_hold_ms >= BIND_TAP_MS { BindGesture::NextPage } else { BindGesture::Nothing })
    }
}

/// The OK hold timer after a tick, and whether the menu opens.
pub open spec fn ok_step(hold: u16, keys: u16, menu_active: bool, dt_ms: u16) -> (u16, bool) {
    if menu_active {
        (hold, false)
    } else if (keys & KEY_OK) != 0 {
        let h = if hold + dt_ms > u16::MAX { u16::MAX } else { (hold + dt_ms) as u16 };
        if h >= OK_HOLD_MS { (0, true) } else { (h, false) }
    } else {
        (0, false)
    }
}

/// A bound receiver ID worth storing: not blank and not already stored.
pub open spec fn rx_id_to_store(id: Option<u32>, stored: u32) -> bool {
    id matches Some(v) && v != 0 && v != 0xFFFF_FFFF && v != stored
}

fn sat_add_u32(a: u32, b: u32) -> (r: u32)
    ensures
        r == if a + b > u32::MAX { u32::MAX } else { (a + b) as u32 },
{
    if a <= u32::MAX - b { a + b } else { u32::MAX }
}

fn sat_add_u16(a: u16, b: u16) -> (r: u16)
    ensures
        r == if a + b > u16::MAX { u16::MAX } else { (a + b) as u16 },
{
    if a <= u16::MAX - b { a + b } else { u16::MAX }
}

fn moved(a: u16, b: u16, limit: u16) -> (r: bool)
    ensures
        r == moved_by(a, b, limit as int),
{
    if a >= b { a - b > limit } else { b - a > limit }
}

/// Store a receiver ID the engine captured while binding into the active
/// model (the caller writes it to flash unless armed). Returns whether it
/// is to be written.
fn store_bound_rx(storage: &mut RadioStorage, rf: &mut RfSystem, armed: bool, buzzer: &mut Buzzer) -> (save: bool)
    requires
        buzzer_wf(old(buzzer)@),
        old(rf).wf(),
    ensures
        buzzer_wf(final(buzzer)@),
        final(rf).wf(),
        rx_stored(*old(storage), *final(storage), *old(rf), *final(rf), armed, old(buzzer)@, final(buzzer)@, save),
{
    let pending = rf.take_pending_rx_save();
    match pending {
        Some(new_rx_id) => {
            if new_rx_id != 0 && new_rx_id != 0xFFFF_FFFF && storage.active_model().rx_id != new_rx_id {
                let m = storage.active_model_mut();
                m.rx_id = new_rx_id;
                if !armed {
                    buzzer.play_tone_pattern(2400, 70, 50, 2);
                    return true;
                }
            }
            false
        },
        None => false,
    }
}

/// Storing a bound receiver ID: the radio hands it out, the active model
/// takes it when it is new and valid, and it is written (with a confirming
/// tone) unless armed.
pub open spec fn rx_stored(
    s0: RadioStorage,
    s1: RadioStorage,
    r0: RfSystem,
    r1: RfSystem,
    armed: bool,
    b0: BuzzerView,
    b1: BuzzerView,
    save: bool,
) -> bool {
    let m = active_of(s0);
    let rt = crate::rf::rx_save_taken(r0);
    let store = rx_id_to_store(rt.1, m.rx_id);
    &&& r1 == rt.0
    &&& s1 == if store { RadioStorage { models: s1.models, ..s0 } } else { s0 }
    &&& store ==> s1.models@ == s0.models@.update(active_index(s0.radio), ModelConfig { rx_id: rt.1->Some_0, ..m })
    &&& save == (store && !armed)
    &&& b1 == if save { tone_pattern(b0, 2400, 70, 50, 2) } else { b0 }
}

impl BackgroundIdleManager {
    /// Start from the first processed scan; `bind_on_boot` is whether the
    /// bind key was held at power-on (so holding it on does not count as a
    /// fresh press).
    pub fn new(init_state: &InputState, bind_on_boot: bool) -> (m: Self)
        ensures
            m.prev_stick_samples@ == activity_samples(init_state.raw@),
            m.prev_switches == init_state.switches,
            m.prev_bind_key == bind_on_boot,
            m.bind_hold_ms == 0,
            !m.bind_was_held,
            m.ok_hold_ms == 0,
            m.bl_timer_ms == 30_000,
            m.inactivity_timer_ms == 0,
            m.inactivity_beep_timer == 0,
            m.last_display_ms == 0,
            !m.menu_was_active,
    {
        let r = &init_state.raw;
        let m = BackgroundIdleManager {
            prev_stick_samples: [r[0], r[1], r[2], r[3], r[6], r[7]],
            prev_switches: init_state.switches,
            prev_bind_key: bind_on_boot,
            bind_hold_ms: 0,
            bind_was_held: false,
            ok_hold_ms: 0,
            bl_timer_ms: 30_000,
            inactivity_timer_ms: 0,
            inactivity_beep_timer: 0,
            last_display_ms: 0,
            menu_was_active: false,
        };
        assert(m.prev_stick_samples@ =~= activity_samples(init_state.raw@));
        m
    }

    fn track_activity(&mut self, keys: u16, state: &InputState) -> (active: bool)
        ensures
            active == user_active(*old(self), keys, *state),
            final(self).prev_stick_samples@ == activity_samples(state.raw@),
            final(self).prev_switches == state.switches,
            *final(self) == (BackgroundIdleManager {
                prev_stick_samples: final(self).prev_stick_samples,
                prev_switches: state.switches,
                ..*old(self)
            }),
    {
        let r = &state.raw;
        let p = &self.prev_stick_samples;
        let stick_moved = moved(r[0], p[0], 30) || moved(r[1], p[1], 30) || moved(r[2], p[2], 30)
            || moved(r[3], p[3], 30) || moved(r[6], p[4], 40) || moved(r[7], p[5], 40);
        self.prev_stick_samples = [r[0], r[1], r[2], r[3], r[6], r[7]];
        assert(self.prev_stick_samples@ =~= activity_samples(state.raw@));
        let sw_changed = !(state.switches == self.prev_switches);
        self.prev_switches = state.switches;
        keys != 0 || stick_moved || sw_changed
    }

    fn dim_backlight(&mut self, active: bool, timeout: u8, brightness: u8, dt_ms: u16) -> (pct: Option<u8>)
        requires
            brightness <= 25,
        ensures
            (final(self).bl_timer_ms, pct) == backlight_step(old(self).bl_timer_ms, active, timeout, brightness, dt_ms),
            *final(self) == (BackgroundIdleManager { bl_timer_ms: final(self).bl_timer_ms, ..*old(self) }),
    {
        if active {
            let timeout_ms: u32 = match timeout {
                1 => 15_000,
                2 => 30_000,
                3 => 60_000,
                _ => 0,
            };
            self.bl_timer_ms = timeout_ms;
            Some(brightness * 10)
        } else if timeout != 0 && dt_ms > 0 {
            if self.bl_timer_ms > dt_ms as u32 {
                self.bl_timer_ms = self.bl_timer_ms - dt_ms as u32;
                None
            } else {
                self.bl_timer_ms = 0;
                Some(0)
            }
        } else {
            None
        }
    }

    fn remind_inactivity(&mut self, active: bool, dt_ms: u16, buzzer: &mut Buzzer)
        requires
            buzzer_wf(old(buzzer)@),
        ensures
            buzzer_wf(final(buzzer)@),
            ({
                let ia = inactivity_step(old(self).inactivity_timer_ms, old(self).inactivity_beep_timer, active, dt_ms);
                &&& *final(self) == (BackgroundIdleManager { inactivity_timer_ms: ia.0, inactivity_beep_timer: ia.1, ..*old(self) })
                &&& final(buzzer)@ == if ia.2 { inactivity_alarm(old(buzzer)@) } else { old(buzzer)@ }
            }),
    {
        if active {
            self.inactivity_timer_ms = 0;
            self.inactivity_beep_timer = 0;
        } else if dt_ms > 0 {
            self.inactivity_timer_ms = sat_add_u32(self.inactivity_timer_ms, dt_ms as u32);
            if self.inactivity_timer_ms >= INACTIVITY_MS {
                if self.inactivity_beep_timer >= INACTIVITY_BEEP_MS {
                    self.inactivity_beep_timer = 0;
                    buzzer.warn_inactivity();
                } else {
                    self.inactivity_beep_timer = self.inactivity_beep_timer + dt_ms as u32;
                }
            }
        }
    }

    fn handle_bind_key(
        &mut self,
        keys: u16,
        is_binding: bool,
        menu_active: bool,
        dt_ms: u16,
        rf: &mut RfSystem,
        dashboard: &mut crate::ui::dashboard::DashboardController,
        buzzer: &mut Buzzer,
    ) -> (power: Option<u8>)
        requires
            buzzer_wf(old(buzzer)@),
            old(rf).wf(),
            old(dashboard).page < crate::ui::dashboard::NUM_PAGES,
        ensures
            buzzer_wf(final(buzzer)@),
            final(rf).wf(),
            final(dashboard).page < crate::ui::dashboard::NUM_PAGES,
            bind_handled(*old(self), *final(self), keys, is_binding, menu_active, dt_ms, *old(rf), *final(rf),
                *old(dashboard), *final(dashboard), old(buzzer)@, final(buzzer)@, power),
    {
        let bind_key = (keys & KEY_BIND) != 0;
        let bind_pressed = bind_key && !self.prev_bind_key;
        self.prev_bind_key = bind_key;
        let cancel_key = (keys & KEY_CANCEL) != 0;
        if is_binding {
            if cancel_key || bind_pressed {
                let p = rf.set_bind_mode(false);
                buzzer.click();
                p
            } else {
                None
            }
        } else if menu_active {
            self.bind_hold_ms = 0;
            self.bind_was_held = false;
            None
        } else if bind_key {
            self.bind_hold_ms = sat_add_u32(self.bind_hold_ms, dt_ms as u32);
            if self.bind_hold_ms >= BIND_HOLD_MS && !self.bind_was_held {
                let p = rf.set_bind_mode(true);
                buzzer.play_tone(2400, 150);
                self.bind_was_held = true;
                p
            } else {
                None
            }
        } else {
            if !self.bind_was_held && self.bind_hold_ms >= BIND_TAP_MS {
                dashboard.next_page(buzzer);
            }
            self.bind_hold_ms = 0;
            self.bind_was_held = false;
            None
        }
    }

    fn handle_ok_key(&mut self, keys: u16, menu_active: bool, dt_ms: u16) -> (open: bool)
        ensures
            (final(self).ok_hold_ms, open) == ok_step(old(self).ok_hold_ms, keys, menu_active, dt_ms),
            *final(self) == (BackgroundIdleManager { ok_hold_ms: final(self).ok_hold_ms, ..*old(self) }),
    {
        if !menu_active {
            if (keys & KEY_OK) != 0 {
                self.ok_hold_ms = sat_add_u16(self.ok_hold_ms, dt_ms);
                if self.ok_hold_ms >= OK_HOLD_MS {
                    self.ok_hold_ms = 0;
                    return true;
                }
            } else {
                self.ok_hold_ms = 0;
            }
        }
        false
    }

    /// One background tick. Runs after the flight pipeline with its
    /// snapshot; `menu_active` is whether the menu or the calibration
    /// wizard is open.
    pub fn tick(
        &mut self,
        now: u32,
        dt_ms: u16,
        keys: u16,
        snap: &FlightSnapshot,
        menu_active: bool,
        pipeline: &mut FlightPipeline,
        storage: &mut RadioStorage,
        rf: &mut RfSystem,
        dashboard: &mut crate::ui::dashboard::DashboardController,
        buzzer: &mut Buzzer,
    ) -> (a: IdleAction)
        requires
            buzzer_wf(old(buzzer)@),
            old(rf).wf(),
            old(dashboard).page < crate::ui::dashboard::NUM_PAGES,
            old(storage).radio.backlight_brightness <= 25,
        ensures
            buzzer_wf(final(buzzer)@),
            final(rf).wf(),
            final(dashboard).page < crate::ui::dashboard::NUM_PAGES,
            idle_ticked(
                *old(self), *final(self), now, dt_ms, keys, *snap, menu_active,
                *old(pipeline), *final(pipeline), *old(storage), *final(storage), *old(rf), *final(rf),
                *old(dashboard), *final(dashboard), old(buzzer)@, final(buzzer)@, a,
            ),
    {
        // Re-read the arm state when leaving the menus.
        if self.menu_was_active && !menu_active {
            let active = storage.active_model();
            pipeline.prev_armed = if active.arm_switch > 0 && active.arm_switch <= 10 {
                is_switch_active(active.arm_switch, &snap.state.switches)
            } else {
                false
            };
        }
        self.menu_was_active = menu_active;
        let is_active = self.track_activity(keys, &snap.state);
        let backlight_pct = self.dim_backlight(
            is_active,
            storage.radio.backlight_timeout,
            storage.radio.backlight_brightness,
            dt_ms,
        );
        self.remind_inactivity(is_active, dt_ms, buzzer);
        let ghost ma = *self;
        let ghost bva = buzzer@;
        let bind_power = self.handle_bind_key(keys, snap.is_binding, menu_active, dt_ms, rf, dashboard, buzzer);
        let ghost mb = *self;
        let ghost rb = *rf;
        let ghost bvb = buzzer@;
        let save_model = store_bound_rx(storage, rf, pipeline.prev_armed, buzzer);
        let open_menu = self.handle_ok_key(keys, menu_active, dt_ms);
        // Display frames at about 30 Hz.
        let render = now.wrapping_sub(self.last_display_ms) >= DISPLAY_PERIOD_MS;
        if render {
            self.last_display_ms = now;
        }
        let a = IdleAction { backlight_pct, bind_power, save_model, open_menu, render };
        assert(bind_handled(ma, mb, keys, snap.is_binding, menu_active, dt_ms, *old(rf), rb, *old(dashboard), *dashboard, bva, bvb, a.bind_power));
        a
    }
}

/// The bind key part of a tick (see `bind_step`): the gesture's effect on
/// the radio, the dashboard and the buzzer.
pub open spec fn bind_handled(
    m0: BackgroundIdleManager,
    m1: BackgroundIdleManager,
    keys: u16,
    is_binding: bool,
    menu_active: bool,
    dt_ms: u16,
    r0: RfSystem,
    r1: RfSystem,
    d0: crate::ui::dashboard::DashboardController,
    d1: crate::ui::dashboard::DashboardController,
    b0: BuzzerView,
    b1: BuzzerView,
    power: Option<u8>,
) -> bool {
    let bs = bind_step(m0, keys, is_binding, menu_active, dt_ms);
    &&& m1 == BackgroundIdleManager { prev_bind_key: (keys & KEY_BIND) != 0, bind_hold_ms: bs.0, bind_was_held: bs.1, ..m0 }
    &&& (r1, power) == if bs.2 == BindGesture::StopBinding {
        crate::rf::bind_mode_changed(r0, false)
    } else if bs.2 == BindGesture::StartBinding {
        crate::rf::bind_mode_changed(r0, true)
    } else {
        (r0, None)
    }
    &&& b1 == if bs.2 == BindGesture::StopBinding {
        clicked(b0)
    } else if bs.2 == BindGesture::StartBinding {
        beep(b0, 2400, 150)
    } else if bs.2 == BindGesture::NextPage {
        beep(b0, 2200, 30)
    } else {
        b0
    }
    &&& d1 == if bs.2 == BindGesture::NextPage {
        crate::ui::dashboard::DashboardController { page: ((d0.page + 1) % 4) as usize, ..d0 }
    } else {
        d0
    }
}

/// One background tick, step by step: arm resync on leaving the menus,
/// activity, backlight, inactivity reminder, bind key, storing a bound
/// receiver ID, the OK long press and the display frame pacing.
pub open spec fn idle_ticked(
    m0: BackgroundIdleManager,
    m1: BackgroundIdleManager,
    now: u32,
    dt_ms: u16,
    keys: u16,
    snap: FlightSnapshot,
    menu_active: bool,
    p0: FlightPipeline,
    p1: FlightPipeline,
    s0: RadioStorage,
    s1: RadioStorage,
    r0: RfSystem,
    r1: RfSystem,
    d0: crate::ui::dashboard::DashboardController,
    d1: crate::ui::dashboard::DashboardController,
    b0: BuzzerView,
    b1: BuzzerView,
    a: IdleAction,
) -> bool {
    let armed = if m0.menu_was_active && !menu_active { arm_state(active_of(s0), snap.state.switches) } else { p0.prev_armed };
    let active = user_active(m0, keys, snap.state);
    let bl = backlight_step(m0.bl_timer_ms, active, s0.radio.backlight_timeout, s0.radio.backlight_brightness, dt_ms);
    let ia = inactivity_step(m0.inactivity_timer_ms, m0.inactivity_beep_timer, active, dt_ms);
    let bva = if ia.2 { inactivity_alarm(b0) } else { b0 };
    let ok = ok_step(m0.ok_hold_ms, keys, menu_active, dt_ms);
    let render = now.wrapping_sub(m0.last_display_ms) >= DISPLAY_PERIOD_MS;
    let ma = BackgroundIdleManager {
        prev_stick_samples: m1.prev_stick_samples,
        prev_switches: snap.state.switches,
        bl_timer_ms: bl.0,
        inactivity_timer_ms: ia.0,
        inactivity_beep_timer: ia.1,
        menu_was_active: menu_active,
        ..m0
    };
    &&& p1 == FlightPipeline { prev_armed: armed, ..p0 }
    &&& m1.prev_stick_samples@ == activity_samples(snap.state.raw@)
    &&& a.backlight_pct == bl.1
    &&& exists|mx: BackgroundIdleManager, bx: BuzzerView, mb: BackgroundIdleManager, rb: RfSystem, bvb: BuzzerView| {
        &&& mx == ma
        &&& bx == bva
        &&& #[trigger] bind_handled(mx, mb, keys, snap.is_binding, menu_active, dt_ms, r0, rb, d0, d1, bx, bvb, a.bind_power)
        &&& rx_stored(s0, s1, rb, r1, armed, bvb, b1, a.save_model)
        &&& m1 == BackgroundIdleManager {
            ok_hold_ms: ok.0,
            last_display_ms: if render { now } else { m0.last_display_ms },
            ..mb
        }
    }
    &&& a.open_menu == ok.1
    &&& a.render == render
}

/// Channels sent while the start-up check holds the radio: centred
/// controls, throttle and switched channels low.
pub open spec fn safe_channels_spec() -> Seq<u16> {
    seq![1500u16, 1500, 1000, 1500, 1000, 1000, 1500, 1500, 1000, 1000, 1500, 1500, 1500, 1500]
}

/// The channels sent while the start-up check holds the radio.
pub fn safe_channels() -> (c: [u16; 14])
    ensures
        c@ == safe_channels_spec(),
{
    let c = [1500u16, 1500, 1000, 1500, 1000, 1000, 1500, 1500, 1000, 1000, 1500, 1500, 1500, 1500];
    assert(c@ =~= safe_channels_spec());
    c
}

/// The throttle is off idle: below -900 once calibrated (throttle minimum
/// above 200), otherwise a raw count above 1400.
pub open spec fn throttle_unsafe(radio: RadioConfig, s: InputState) -> bool {
    if radio.sticks@[2].min > 200 { s.sticks.throttle > -900 } else { s.raw@[2] > 1400 }
}

/// Which switches are not in their Up position: SA, SB, SC, SD.
pub open spec fn switches_unsafe(s: Switches) -> (bool, bool, bool, bool) {
    (s.sa != SwitchPos::Up, s.sb != SwitchPos::Up, s.sc != SwitchPos::Up, s.sd != SwitchPos::Up)
}

/// What the start-up check found.
pub struct PreflightStatus {
    pub throttle_unsafe: bool,
    pub sa_unsafe: bool,
    pub sb_unsafe: bool,
    pub sc_unsafe: bool,
    pub sd_unsafe: bool,
}

impl PreflightStatus {
    /// Nothing is out of its safe position.
    pub open spec fn all_safe(&self) -> bool {
        !self.throttle_unsafe && !self.sa_unsafe && !self.sb_unsafe && !self.sc_unsafe && !self.sd_unsafe
    }
}

/// Check the throttle and the four switches before flight.
pub fn preflight_status(radio: &RadioConfig, state: &InputState) -> (p: PreflightStatus)
    ensures
        p.throttle_unsafe == throttle_unsafe(*radio, *state),
        (p.sa_unsafe, p.sb_unsafe, p.sc_unsafe, p.sd_unsafe) == switches_unsafe(state.switches),
{
    let is_calibrated = radio.sticks[2].min > 200;
    let thr = if is_calibrated { state.sticks.throttle > -900 } else { state.raw[2] > 1400 };
    PreflightStatus {
        throttle_unsafe: thr,
        sa_unsafe: !(state.switches.sa == SwitchPos::Up),
        sb_unsafe: !(state.switches.sb == SwitchPos::Up),
        sc_unsafe: !(state.switches.sc == SwitchPos::Up),
        sd_unsafe: !(state.switches.sd == SwitchPos::Up),
    }
}

/// Label of switch `i` (0..=3) in the warning line.
pub open spec fn switch_tag(i: int) -> Seq<u8> {
    seq![0x5Bu8, 0x53u8, (0x41 + i) as u8, 0x5Du8]
}

/// The warning line as bytes: each switch that is not Up as `[Sx]`, the
/// tags separated by single spaces.
pub open spec fn switch_warning_bytes(flags: Seq<bool>) -> Seq<u8>
    decreases flags.len(),
{
    if flags.len() == 0 {
        seq![]
    } else {
        let rest = switch_warning_bytes(flags.drop_last());
        let i = flags.len() - 1;
        if flags.last() {
            if rest.len() == 0 { switch_tag(i) } else { rest + seq![0x20u8] + switch_tag(i) }
        } else {
            rest
        }
    }
}

/// Write the switch warning line into `buf`; returns its length.
pub fn switch_warning_line(p: &PreflightStatus, buf: &mut [u8; 19]) -> (n: usize)
    ensures
        n <= 19,
        final(buf)@.subrange(0, n as int) == switch_warning_bytes(seq![p.sa_unsafe, p.sb_unsafe, p.sc_unsafe, p.sd_unsafe]),
{
    let flags = [p.sa_unsafe, p.sb_unsafe, p.sc_unsafe, p.sd_unsafe];
    let mut n: usize = 0;
    let mut i: usize = 0;
    while i < 4
        invariant
            i <= 4,
            n == 0 || n + 1 <= 5 * i,
            n == 0 <==> switch_warning_bytes(flags@.subrange(0, i as int)).len() == 0,
            buf@.subrange(0, n as int) == switch_warning_bytes(flags@.subrange(0, i as int)),
        decreases 4 - i,
    {
        assert(flags@.subrange(0, i + 1).drop_last() =~= flags@.subrange(0, i as int));
        if flags[i] {
            let ghost prev = buf@.subrange(0, n as int);
            if n > 0 {
                buf[n] = 0x20;
                n = n + 1;
            }
            buf[n] = 0x5B;
            buf[n + 1] = 0x53;
            buf[n + 2] = 0x41 + i as u8;
            buf[n + 3] = 0x5D;
            n = n + 4;
            assert(buf@.subrange(0, n as int) =~= switch_warning_bytes(flags@.subrange(0, i + 1)));
        } else {
            assert(switch_warning_bytes(flags@.subrange(0, i + 1)) == switch_warning_bytes(flags@.subrange(0, i as int)));
        }
        i = i + 1;
    }
    assert(flags@.subrange(0, 4) =~= seq![p.sa_unsafe, p.sb_unsafe, p.sc_unsafe, p.sd_unsafe]);
    n
}

/// Beep period of the start-up warning.
pub const PREFLIGHT_BEEP_MS: u32 = 800;

/// The start-up safety loop's timers.
pub struct PreflightCheck {
    pub beep_timer: u32,
    pub last_render: u32,
    pub warned: bool,
}

/// What one pass of the start-up loop decided.
pub enum PreflightStep {
    /// Safe (or skipped with Cancel): leave the loop.
    Done,
    /// Keep holding: the warning screen is drawn when `render` is set, and
    /// USB sends `usb`.
    Hold { render: bool, usb: UsbPoll },
}

/// The buzzer after a holding pass: the warning every 800 ms, then the
/// playback clock advanced by the frame time (at most 100 ms) when a frame
/// is due.
pub open spec fn preflight_sound(c: PreflightCheck, now: u32, b: BuzzerView) -> BuzzerView {
    let b1 = if now.wrapping_sub(c.beep_timer) >= PREFLIGHT_BEEP_MS { crate::buzzer::preflight_alarm(b) } else { b };
    let since = now.wrapping_sub(c.last_render);
    if since >= DISPLAY_PERIOD_MS {
        crate::buzzer::ticked(b1, if since > 100 { 100u16 } else { since as u16 })
    } else {
        b1
    }
}

impl PreflightCheck {
    pub fn new() -> (c: Self)
        ensures
            c == (PreflightCheck { beep_timer: 0, last_render: 0, warned: false }),
    {
        PreflightCheck { beep_timer: 0, last_render: 0, warned: false }
    }

    /// One pass of the start-up safety loop: done when everything is safe
    /// or Cancel is held (with a short tone if a warning was given);
    /// otherwise the radio sends the safe channels, USB is polled with them,
    /// the warning sounds every 800 ms and a frame is due every 33 ms.
    pub fn step(
        &mut self,
        now: u32,
        status: &PreflightStatus,
        keys: u16,
        state: &InputState,
        usb_configured: bool,
        rf: &mut RfSystem,
        usb: &mut UsbLink,
        buzzer: &mut Buzzer,
    ) -> (r: PreflightStep)
        requires
            buzzer_wf(old(buzzer)@),
            old(rf).wf(),
            old(usb).wf(),
        ensures
            buzzer_wf(final(buzzer)@),
            final(rf).wf(),
            final(usb).wf(),
            (status.all_safe() || (keys & KEY_CANCEL) != 0) ==> {
                &&& r is Done
                &&& *final(self) == *old(self)
                &&& final(buzzer)@ == if old(self).warned { beep(old(buzzer)@, 2200, 40) } else { old(buzzer)@ }
                &&& *final(rf) == *old(rf)
                &&& *final(usb) == *old(usb)
            },
            !(status.all_safe() || (keys & KEY_CANCEL) != 0) ==> {
                let due = now.wrapping_sub(old(self).last_render) >= DISPLAY_PERIOD_MS;
                &&& r matches PreflightStep::Hold { render, usb: p }
                    && render == due
                    && usb_polled(*old(usb), *final(usb), p, now, usb_configured, safe_channels_spec(), state.switches,
                        old(rf).telemetry_buffer.next_read(), state.battery_mv)
                &&& *final(self) == (PreflightCheck {
                    beep_timer: if now.wrapping_sub(old(self).beep_timer) >= PREFLIGHT_BEEP_MS { now } else { old(self).beep_timer },
                    last_render: if due { now } else { old(self).last_render },
                    warned: true,
                })
                &&& final(rf).channel_buffer.next_read()@ == safe_channels_spec()
                &&& final(rf).driver == old(rf).driver
                &&& final(rf).silenced == old(rf).silenced
                &&& final(buzzer)@ == preflight_sound(*old(self), now, old(buzzer)@)
            },
    {
        let cancel_pressed = (keys & KEY_CANCEL) != 0;
        let safe = !status.throttle_unsafe && !status.sa_unsafe && !status.sb_unsafe && !status.sc_unsafe && !status.sd_unsafe;
        if safe || cancel_pressed {
            if self.warned {
                buzzer.play_tone(2200, 40);
            }
            return PreflightStep::Done;
        }
        self.warned = true;
        let chs = safe_channels();
        rf.set_channels(&chs);
        let telem = rf.get_telemetry();
        let p = usb.poll(now, usb_configured, &chs, &state.switches, &telem, state.battery_mv);
        if now.wrapping_sub(self.beep_timer) >= PREFLIGHT_BEEP_MS {
            self.beep_timer = now;
            buzzer.warn_preflight();
        }
        let since = now.wrapping_sub(self.last_render);
        let render = since >= DISPLAY_PERIOD_MS;
        if render {
            let dt: u16 = if since > 100 { 100 } else { since as u16 };
            self.last_render = now;
            buzzer.tick(dt);
        }
        PreflightStep::Hold { render, usb: p }
    }
}

} // verus!
