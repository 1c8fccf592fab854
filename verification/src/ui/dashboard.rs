//! The flight dashboard's state: which of the four pages is shown, the
//! blink phase, and the battery and link alarms with their repeat timers and
//! the lowest link figures seen. The status bar label is chosen here; the
//! pages are drawn by the caller.
use vstd::prelude::*;
use crate::buzzer::{Buzzer, BuzzerView, buzzer_wf, battery_alarm, beep, rssi_critical_alarm, rssi_low_alarm};
use crate::rf::afhds2a::TelemetryData;

verus! {

/// Number of dashboard pages.
pub const NUM_PAGES: usize = 4;
/// Frame period the alarm timers count in, in milliseconds.
pub const FRAME_MS: u32 = 33;
/// Repeat period of the low battery alarm.
pub const BATTERY_ALARM_MS: u32 = 8000;
/// Battery alarm timer while the battery is fine: the first alarm comes one
/// second after the voltage drops.
pub const BATTERY_ALARM_ARMED_MS: u32 = 7000;
/// Repeat period of the critical link alarm (quality below 20).
pub const RSSI_CRITICAL_MS: u32 = 3000;
/// Repeat period of the low link alarm (quality below 40).
pub const RSSI_LOW_MS: u32 = 6000;

pub struct DashboardController {
    pub page: usize,
    pub blink_phase: u8,
    pub vbat_alarm_timer: u32,
    pub rssi_alarm_timer: u32,
    pub min_rssi: u8,
    pub min_rx_v_mv: u16,
    pub telem_seen: bool,
}

/// What the status bar shows beside the model name.
#[derive(Copy, Clone, Debug, PartialEq, Eq, Structural)]
pub enum LinkLabel {
    /// The transceiver did not answer; its last signature byte.
    ChipError(u8),
    Binding,
    Simulator,
    /// Link quality in percent, at most 100.
    Quality(u8),
    Crsf,
    Bound,
    NoLink,
}

/// The status label for the link state, in order of precedence.
pub open spec fn link_label_of(
    rf_ok: bool,
    is_crsf: bool,
    chip_id: u8,
    is_binding: bool,
    sim_mode: bool,
    t: TelemetryData,
    rf_bound: bool,
) -> LinkLabel {
    if !rf_ok && !is_crsf {
        LinkLabel::ChipError(chip_id)
    } else if is_binding {
        LinkLabel::Binding
    } else if sim_mode {
        LinkLabel::Simulator
    } else if t.connected {
        LinkLabel::Quality(if t.rssi > 100 { 100 } else { t.rssi })
    } else if is_crsf {
        LinkLabel::Crsf
    } else if rf_bound {
        LinkLabel::Bound
    } else {
        LinkLabel::NoLink
    }
}

/// Choose the status bar's link label.
pub fn link_label(
    rf_ok: bool,
    is_crsf: bool,
    chip_id: u8,
    is_binding: bool,
    sim_mode: bool,
    telem: &TelemetryData,
    rf_bound: bool,
) -> (l: LinkLabel)
    ensures
        l == link_label_of(rf_ok, is_crsf, chip_id, is_binding, sim_mode, *telem, rf_bound),
{
    if !rf_ok && !is_crsf {
        LinkLabel::ChipError(chip_id)
    } else if is_binding {
        LinkLabel::Binding
    } else if sim_mode {
        LinkLabel::Simulator
    } else if telem.connected {
        LinkLabel::Quality(if telem.rssi > 100 { 100 } else { telem.rssi })
    } else if is_crsf {
        LinkLabel::Crsf
    } else if rf_bound {
        LinkLabel::Bound
    } else {
        LinkLabel::NoLink
    }
}

/// Battery alarm threshold in millivolts for a setting in tenths of a volt.
pub open spec fn battery_warn_mv(vbat_warn_deci: u8) -> int {
    vbat_warn_deci as int * 100
}

/// The battery alarm timer and sound after one frame.
pub open spec fn battery_alarm_step(timer: u32, low: bool, b: BuzzerView) -> (u32, BuzzerView) {
    if !low {
        (BATTERY_ALARM_ARMED_MS, b)
    } else if timer >= BATTERY_ALARM_MS {
        (0, battery_alarm(b))
    } else {
        ((timer + FRAME_MS) as u32, b)
    }
}

/// The link alarm timer and sound after one frame.
pub open spec fn rssi_alarm_step(timer: u32, t: TelemetryData, b: BuzzerView) -> (u32, BuzzerView) {
    if !t.connected || t.rssi >= 40 {
        (0, b)
    } else if t.rssi < 20 {
        if timer >= RSSI_CRITICAL_MS { (0, rssi_critical_alarm(b)) } else { ((timer + FRAME_MS) as u32, b) }
    } else {
        if timer >= RSSI_LOW_MS { (0, rssi_low_alarm(b)) } else { ((timer + FRAME_MS) as u32, b) }
    }
}

/// The lowest link quality and receiver voltage seen, updated with a frame's
/// telemetry (a receiver voltage of 0 means none was reported).
pub open spec fn link_stats(d: DashboardController, t: TelemetryData) -> (u8, u16, bool) {
    if !t.connected {
        (d.min_rssi, d.min_rx_v_mv, d.telem_seen)
    } else if !d.telem_seen {
        (t.rssi, if t.rx_voltage_mv > 0 { t.rx_voltage_mv } else { d.min_rx_v_mv }, true)
    } else {
        (
            if t.rssi < d.min_rssi { t.rssi } else { d.min_rssi },
            if t.rx_voltage_mv > 0 && t.rx_voltage_mv < d.min_rx_v_mv { t.rx_voltage_mv } else { d.min_rx_v_mv },
            true,
        )
    }
}

impl DashboardController {
    pub fn new() -> (d: Self)
        ensures
            d == (DashboardController {
                page: 0,
                blink_phase: 0,
                vbat_alarm_timer: BATTERY_ALARM_ARMED_MS,
                rssi_alarm_timer: 0,
                min_rssi: 100,
                min_rx_v_mv: 0xFFFF,
                telem_seen: false,
            }),
    {
        DashboardController {
            page: 0,
            blink_phase: 0,
            vbat_alarm_timer: BATTERY_ALARM_ARMED_MS,
            rssi_alarm_timer: 0,
            min_rssi: 100,
            min_rx_v_mv: 0xFFFF,
            telem_seen: false,
        }
    }

    /// Advance to the next page, wrapping after the last.
    pub fn next_page(&mut self, buzzer: &mut Buzzer)
        requires
            old(self).page < NUM_PAGES,
        ensures
            *final(self) == (DashboardController { page: ((old(self).page + 1) % 4) as usize, ..*old(self) }),
            final(buzzer)@ == beep(old(buzzer)@, 2200, 30),
    {
        self.page = (self.page + 1) % NUM_PAGES;
        buzzer.play_tone(2200, 30);
    }

    /// Go back to the previous page, wrapping before the first.
    pub fn prev_page(&mut self, buzzer: &mut Buzzer)
        requires
            old(self).page < NUM_PAGES,
        ensures
            *final(self) == (DashboardController { page: if old(self).page == 0 { 3 } else { (old(self).page - 1) as usize }, ..*old(self) }),
            final(buzzer)@ == beep(old(buzzer)@, 2200, 30),
    {
        self.page = if self.page == 0 { 3 } else { self.page - 1 };
        buzzer.play_tone(2200, 30);
    }

    /// Up (bit 9) goes to the previous page, otherwise Down (bit 8) to the
    /// next.
    pub fn handle_keys(&mut self, newly_pressed: u16, buzzer: &mut Buzzer)
        requires
            old(self).page < NUM_PAGES,
        ensures
            (newly_pressed & 0x200) != 0 ==> *final(self) == (DashboardController { page: if old(self).page == 0 { 3 } else { (old(self).page - 1) as usize }, ..*old(self) })
                && final(buzzer)@ == beep(old(buzzer)@, 2200, 30),
            (newly_pressed & 0x200) == 0 && (newly_pressed & 0x100) != 0 ==> *final(self) == (DashboardController { page: ((old(self).page + 1) % 4) as usize, ..*old(self) })
                && final(buzzer)@ == beep(old(buzzer)@, 2200, 30),
            (newly_pressed & 0x300) == 0 ==> *final(self) == *old(self) && final(buzzer)@ == old(buzzer)@,
    {
        assert((newly_pressed & 0x300) == 0 <==> ((newly_pressed & 0x200) == 0 && (newly_pressed & 0x100) == 0)) by (bit_vector);
        if newly_pressed & 0x200 != 0 {
            self.prev_page(buzzer);
        } else if newly_pressed & 0x100 != 0 {
            self.next_page(buzzer);
        }
    }

    /// One dashboard frame's status work: the low battery alarm (below the
    /// configured threshold), the link quality alarms and statistics, and
    /// the blink phase.
    pub fn update_status(&mut self, battery_mv: u16, vbat_warn_deci: u8, telem: &TelemetryData, buzzer: &mut Buzzer)
        requires
            buzzer_wf(old(buzzer)@),
        ensures
            buzzer_wf(final(buzzer)@),
            ({
                let low = (battery_mv as int) < battery_warn_mv(vbat_warn_deci);
                let (vt, b1) = battery_alarm_step(old(self).vbat_alarm_timer, low, old(buzzer)@);
                let (rt, b2) = rssi_alarm_step(old(self).rssi_alarm_timer, *telem, b1);
                let (mr, mv, seen) = link_stats(*old(self), *telem);
                &&& *final(self) == (DashboardController {
                    page: old(self).page,
                    blink_phase: old(self).blink_phase.wrapping_add(1),
                    vbat_alarm_timer: vt,
                    rssi_alarm_timer: rt,
                    min_rssi: mr,
                    min_rx_v_mv: mv,
                    telem_seen: seen,
                })
                &&& final(buzzer)@ == b2
            }),
    {
        let warn_mv: u16 = vbat_warn_deci as u16 * 100;
        if battery_mv < warn_mv {
            if self.vbat_alarm_timer >= BATTERY_ALARM_MS {
                self.vbat_alarm_timer = 0;
                buzzer.warn_battery();
            } else {
                self.vbat_alarm_timer = self.vbat_alarm_timer + FRAME_MS;
            }
        } else {
            self.vbat_alarm_timer = BATTERY_ALARM_ARMED_MS;
        }
        if telem.connected {
            if !self.telem_seen {
                self.telem_seen = true;
                self.min_rssi = telem.rssi;
                if telem.rx_voltage_mv > 0 {
                    self.min_rx_v_mv = telem.rx_voltage_mv;
                }
            } else {
                if telem.rssi < self.min_rssi {
                    self.min_rssi = telem.rssi;
                }
                if telem.rx_voltage_mv > 0 && telem.rx_voltage_mv < self.min_rx_v_mv {
                    self.min_rx_v_mv = telem.rx_voltage_mv;
                }
            }
            if telem.rssi < 20 {
                if self.rssi_alarm_timer >= RSSI_CRITICAL_MS {
                    self.rssi_alarm_timer = 0;
                    buzzer.warn_rssi_critical();
                } else {
                    self.rssi_alarm_timer = self.rssi_alarm_timer + FRAME_MS;
                }
            } else if telem.rssi < 40 {
                if self.rssi_alarm_timer >= RSSI_LOW_MS {
                    self.rssi_alarm_timer = 0;
                    buzzer.warn_rssi_low();
                } else {
                    self.rssi_alarm_timer = self.rssi_alarm_timer + FRAME_MS;
                }
            } else {
                self.rssi_alarm_timer = 0;
            }
        } else {
            self.rssi_alarm_timer = 0;
        }
        self.blink_phase = self.blink_phase.wrapping_add(1);
    }
}

} // verus!
