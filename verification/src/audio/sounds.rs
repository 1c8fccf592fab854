//! Sound events and their voice prompt tracks.
use vstd::prelude::*;

verus! {

/// Everything the radio can announce.
#[derive(Copy, Clone, Debug, PartialEq, Eq, Structural)]
pub enum SoundEvent {
    Welcome,
    Armed,
    Disarmed,
    LowBattery,
    CritBattery,
    RssiLow,
    RssiCrit,
    PreflightWarning,
    Inactivity,
    Failsafe,
    FlightModeAcro,
    FlightModeAngle,
    FlightModeHorizon,
    FlightModeRth,
    FlightModeManual,
    FlightModeHold,
    Timer1Min,
    Timer30s,
    Timer10s,
    TimerElapsed,
    TrimCenter,
    TrimLimit,
    CalibStart,
    CalibSuccess,
}

/// Track number of each event's voice prompt on the card (0001.mp3 is 1),
/// in declaration order.
pub open spec fn track_of(ev: SoundEvent) -> u16 {
    match ev {
        SoundEvent::Welcome => 1,
        SoundEvent::Armed => 2,
        SoundEvent::Disarmed => 3,
        SoundEvent::LowBattery => 4,
        SoundEvent::CritBattery => 5,
        SoundEvent::RssiLow => 6,
        SoundEvent::RssiCrit => 7,
        SoundEvent::PreflightWarning => 8,
        SoundEvent::Inactivity => 9,
        SoundEvent::Failsafe => 10,
        SoundEvent::FlightModeAcro => 11,
        SoundEvent::FlightModeAngle => 12,
        SoundEvent::FlightModeHorizon => 13,
        SoundEvent::FlightModeRth => 14,
        SoundEvent::FlightModeManual => 15,
        SoundEvent::FlightModeHold => 16,
        SoundEvent::Timer1Min => 17,
        SoundEvent::Timer30s => 18,
        SoundEvent::Timer10s => 19,
        SoundEvent::TimerElapsed => 20,
        SoundEvent::TrimCenter => 21,
        SoundEvent::TrimLimit => 22,
        SoundEvent::CalibStart => 23,
        SoundEvent::CalibSuccess => 24,
    }
}

impl SoundEvent {
    /// The voice prompt's track number on the card.
    pub fn track_index(self) -> (t: u16)
        ensures
            t == track_of(self),
            1 <= t <= 24,
    {
        match self {
            SoundEvent::Welcome => 1,
            SoundEvent::Armed => 2,
            SoundEvent::Disarmed => 3,
            SoundEvent::LowBattery => 4,
            SoundEvent::CritBattery => 5,
            SoundEvent::RssiLow => 6,
            SoundEvent::RssiCrit => 7,
            SoundEvent::PreflightWarning => 8,
            SoundEvent::Inactivity => 9,
            SoundEvent::Failsafe => 10,
            SoundEvent::FlightModeAcro => 11,
            SoundEvent::FlightModeAngle => 12,
            SoundEvent::FlightModeHorizon => 13,
            SoundEvent::FlightModeRth => 14,
            SoundEvent::FlightModeManual => 15,
            SoundEvent::FlightModeHold => 16,
            SoundEvent::Timer1Min => 17,
            SoundEvent::Timer30s => 18,
            SoundEvent::Timer10s => 19,
            SoundEvent::TimerElapsed => 20,
            SoundEvent::TrimCenter => 21,
            SoundEvent::TrimLimit => 22,
            SoundEvent::CalibStart => 23,
            SoundEvent::CalibSuccess => 24,
        }
    }
}

} // verus!
