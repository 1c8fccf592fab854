//! USB: joystick and serial modes, the gamepad report and the serial
//! console. The USB stack and its interrupt live with the caller.
use vstd::prelude::*;
use crate::input::Switches;
use crate::rf::afhds2a::TelemetryData;
use crate::usb::hid::{build_gamepad_report, gamepad_report};
use crate::usb::serial::{telemetry_line, update_post, SerialHandler};

pub mod hid;
pub mod serial;

verus! {

/// What the USB port offers.
#[derive(Copy, Clone, Debug, PartialEq, Eq, Structural)]
pub enum UsbMode {
    Off,
    Joystick,
    Serial,
    Composite,
}

/// The stored mode number: 1 joystick, 2 serial, 3 both, anything else off.
pub open spec fn usb_mode_of(val: u8) -> UsbMode {
    if val == 1 {
        UsbMode::Joystick
    } else if val == 2 {
        UsbMode::Serial
    } else if val == 3 {
        UsbMode::Composite
    } else {
        UsbMode::Off
    }
}

/// Display name of a mode.
pub open spec fn usb_mode_name(m: UsbMode) -> Seq<char> {
    match m {
        UsbMode::Off => "OFF"@,
        UsbMode::Joystick => "JOYSTICK"@,
        UsbMode::Serial => "SERIAL"@,
        UsbMode::Composite => "COMPOSITE"@,
    }
}

impl UsbMode {
    pub fn from_u8(val: u8) -> (m: Self)
        ensures
            m == usb_mode_of(val),
    {
        match val {
            1 => UsbMode::Joystick,
            2 => UsbMode::Serial,
            3 => UsbMode::Composite,
            _ => UsbMode::Off,
        }
    }

    pub fn as_str(&self) -> (s: &'static str)
        ensures
            s@ == usb_mode_name(*self),
    {
        match self {
            UsbMode::Off => "OFF",
            UsbMode::Joystick => "JOYSTICK",
            UsbMode::Serial => "SERIAL",
            UsbMode::Composite => "COMPOSITE",
        }
    }
}

/// What one USB poll produced: a gamepad report to send, console output,
/// and whether the console asked for a reboot.
pub struct UsbPoll {
    pub hid_report: Option<[u8; 18]>,
    pub serial_out: Vec<u8>,
    pub reboot: bool,
}

/// The console part of a poll in a serial mode: the console took its
/// queued bytes (giving `out1`); unless it asked for a reboot, a telemetry
/// line follows when 50 ms passed since the last one.
pub open spec fn serial_part(
    s0: SerialHandler,
    s1: SerialHandler,
    p: UsbPoll,
    out1: Seq<u8>,
    last0: u32,
    last1: u32,
    now_ms: u32,
    chs: Seq<u16>,
    t: TelemetryData,
    mv: u16,
) -> bool {
    &&& update_post(s0, s1, seq![], out1, p.reboot, chs, t, mv)
    &&& if p.reboot {
        p.serial_out@ == out1 && last1 == last0
    } else if now_ms.wrapping_sub(last0) >= 50 {
        p.serial_out@ == out1 + telemetry_line(chs, t, mv) && last1 == now_ms
    } else {
        p.serial_out@ == out1 && last1 == last0
    }
}

/// A poll of a configured device in mode other than off: the gamepad
/// report when due, and the console part in serial modes.
pub open spec fn poll_post(
    l0: UsbLink,
    l1: UsbLink,
    p: UsbPoll,
    now_ms: u32,
    chs: Seq<u16>,
    sw: Switches,
    t: TelemetryData,
    mv: u16,
) -> bool {
    let hid_due = (l0.mode == UsbMode::Joystick || l0.mode == UsbMode::Composite) && now_ms.wrapping_sub(l0.last_poll_ms) >= 10;
    let serial_on = l0.mode == UsbMode::Serial || l0.mode == UsbMode::Composite;
    &&& (hid_due ==> (p.hid_report matches Some(r) && r@ == gamepad_report(chs, sw)) && l1.last_poll_ms == now_ms)
    &&& (!hid_due ==> p.hid_report is None && l1.last_poll_ms == l0.last_poll_ms)
    &&& (!serial_on ==> p.serial_out@.len() == 0 && !p.reboot && l1.serial == l0.serial
        && l1.last_telem_stream_ms == l0.last_telem_stream_ms)
    &&& (serial_on ==> exists|out1: Seq<u8>| #[trigger] serial_part(l0.serial, l1.serial, p, out1, l0.last_telem_stream_ms, l1.last_telem_stream_ms, now_ms, chs, t, mv))
}

/// One USB poll: nothing while off or unconfigured, otherwise `poll_post`;
/// the mode never changes.
pub open spec fn usb_polled(
    l0: UsbLink,
    l1: UsbLink,
    p: UsbPoll,
    now_ms: u32,
    configured: bool,
    chs: Seq<u16>,
    sw: Switches,
    t: TelemetryData,
    mv: u16,
) -> bool {
    &&& l1.mode == l0.mode
    &&& (l0.mode == UsbMode::Off || !configured) ==> p.hid_report is None && p.serial_out@.len() == 0 && !p.reboot
        && l1.serial == l0.serial && l1.last_poll_ms == l0.last_poll_ms
        && l1.last_telem_stream_ms == l0.last_telem_stream_ms
    &&& (l0.mode != UsbMode::Off && configured) ==> poll_post(l0, l1, p, now_ms, chs, sw, t, mv)
}

/// USB bookkeeping: the mode, report pacing and the serial console.
pub struct UsbLink {
    pub mode: UsbMode,
    pub last_poll_ms: u32,
    pub last_telem_stream_ms: u32,
    pub serial: SerialHandler,
}

impl UsbLink {
    pub open spec fn wf(&self) -> bool {
        self.serial.wf()
    }

    /// USB off, nothing sent yet.
    pub fn new() -> (l: Self)
        ensures
            l.wf(),
            l.mode == UsbMode::Off,
            l.last_poll_ms == 0,
            l.last_telem_stream_ms == 0,
    {
        UsbLink { mode: UsbMode::Off, last_poll_ms: 0, last_telem_stream_ms: 0, serial: SerialHandler::new() }
    }

    /// Select the mode from its stored number (the caller then brings the
    /// USB stack up or down to match).
    pub fn init(&mut self, mode: u8) -> (m: UsbMode)
        ensures
            m == usb_mode_of(mode),
            final(self).mode == m,
            final(self).last_poll_ms == old(self).last_poll_ms,
            final(self).last_telem_stream_ms == old(self).last_telem_stream_ms,
            final(self).serial == old(self).serial,
    {
        let m = UsbMode::from_u8(mode);
        self.mode = m;
        m
    }

    /// The selected mode.
    pub fn get_mode(&self) -> (m: UsbMode)
        ensures
            m == self.mode,
    {
        self.mode
    }

    /// Simulator mode: joystick only, and the host has configured the
    /// device.
    pub fn is_sim_mode(&self, connected: bool) -> (b: bool)
        ensures
            b == (self.mode == UsbMode::Joystick && connected),
    {
        self.mode == UsbMode::Joystick && connected
    }

    /// The periodic USB work once the host has configured the device: a
    /// gamepad report every 10 ms in joystick modes; in serial modes, the
    /// console takes its queued bytes and a telemetry line goes out every
    /// 50 ms.
    pub fn poll(
        &mut self,
        now_ms: u32,
        configured: bool,
        rf_chs: &[u16; 14],
        switches: &Switches,
        telem: &TelemetryData,
        battery_mv: u16,
    ) -> (p: UsbPoll)
        requires
            old(self).wf(),
        ensures
            final(self).wf(),
            usb_polled(*old(self), *final(self), p, now_ms, configured, rf_chs@, *switches, *telem, battery_mv),
    {
        let mut out: Vec<u8> = Vec::new();
        if self.mode == UsbMode::Off || !configured {
            return UsbPoll { hid_report: None, serial_out: out, reboot: false };
        }
        let mut hid_report: Option<[u8; 18]> = None;
        if (self.mode == UsbMode::Joystick || self.mode == UsbMode::Composite) && now_ms.wrapping_sub(self.last_poll_ms) >= 10 {
            self.last_poll_ms = now_ms;
            let mut report = [0u8; 18];
            build_gamepad_report(rf_chs, switches, &mut report);
            hid_report = Some(report);
        }
        let mut reboot = false;
        if self.mode == UsbMode::Serial || self.mode == UsbMode::Composite {
            reboot = self.serial.update(&mut out, rf_chs, telem, battery_mv);
            let ghost out1 = out@;
            if !reboot && now_ms.wrapping_sub(self.last_telem_stream_ms) >= 50 {
                self.last_telem_stream_ms = now_ms;
                self.serial.send_telemetry_line(&mut out, rf_chs, telem, battery_mv);
            }
            assert(update_post(old(self).serial, self.serial, seq![], out1, reboot, rf_chs@, *telem, battery_mv));
            let p = UsbPoll { hid_report, serial_out: out, reboot };
            assert(serial_part(old(self).serial, self.serial, p, out1, old(self).last_telem_stream_ms, self.last_telem_stream_ms, now_ms, rf_chs@, *telem, battery_mv));
            assert(poll_post(*old(self), *self, p, now_ms, rf_chs@, *switches, *telem, battery_mv));
            return p;
        }
        UsbPoll { hid_report, serial_out: out, reboot }
    }
}

} // verus!
