//! RF subsystem: the AFHDS 2A protocol engine, the A7105 transceiver's
//! register map, the triple buffer that hands data between the control
//! loop and the radio interrupts, and the bookkeeping around them. The
//! caller owns the SPI bus, the timer and the interrupt lines.
use vstd::prelude::*;
use crate::rf::afhds2a::{
    bind_mode_set, rx_effect, tick_effect, Afhds2a, Gio2Action, RadioMode, SubState, TelemetryData, TickAction,
    NUM_CHANNELS, RF_MODE_OFF, RF_MODE_RX_EN,
};
use crate::rf::a7105::{BIND_POWER, HIGH_POWER};

pub mod a7105;
pub mod afhds2a;
pub mod spi;

verus! {

/// Single-producer single-consumer triple buffer: the writer publishes
/// into a slot that is neither the one being read nor the last published,
/// so neither side ever sees a half-written value. `published` holds the
/// last published slot in bits 1..0 and a fresh-data flag in bit 7.
pub struct TripleBuffer<T: Copy> {
    pub buffers: [T; 3],
    pub published: u8,
    pub reading_idx: u8,
}

impl<T: Copy> TripleBuffer<T> {
    /// Slot indices are in range and `published` has no other bits.
    pub open spec fn wf(&self) -> bool {
        &&& self.published & 0x03 < 3
        &&& (self.published == (self.published & 0x03) || self.published == ((self.published & 0x03) | 0x80))
        &&& self.reading_idx < 3
    }

    /// Slot of the last published value.
    pub open spec fn latest_slot(&self) -> int {
        (self.published & 0x03) as int
    }

    /// Whether a published value waits to be read.
    pub open spec fn fresh(&self) -> bool {
        self.published & 0x80 != 0
    }

    /// The value a read returns now.
    pub open spec fn next_read(&self) -> T {
        if self.fresh() {
            self.buffers@[self.latest_slot()]
        } else {
            self.buffers@[self.reading_idx as int]
        }
    }

    /// A buffer holding `initial` everywhere, nothing fresh.
    pub fn new(initial: T) -> (b: Self)
        ensures
            b.wf(),
            !b.fresh(),
            b.buffers@ == seq![initial, initial, initial],
            b.published == 0,
            b.reading_idx == 1,
            b.next_read() == initial,
    {
        let b = TripleBuffer { buffers: [initial, initial, initial], published: 0, reading_idx: 1 };
        assert(0u8 & 0x80 == 0) by (bit_vector);
        assert(0u8 & 0x03 == 0) by (bit_vector);
        b
    }

    /// Publish a value (writer side): it goes to the free slot, which is
    /// then marked as the fresh latest; the slot being read is untouched.
    pub fn write(&mut self, data: &T)
        requires
            old(self).wf(),
        ensures
            final(self).wf(),
            final(self).fresh(),
            final(self).buffers@[final(self).latest_slot()] == *data,
            final(self).latest_slot() != old(self).reading_idx,
            final(self).latest_slot() != old(self).latest_slot(),
            final(self).reading_idx == old(self).reading_idx,
            forall|i: int| 0 <= i < 3 && i != final(self).latest_slot() ==> final(self).buffers@[i] == old(self).buffers@[i],
            final(self).next_read() == *data,
    {
        let published_val = self.published;
        let last_published = published_val & 0x03;
        let ri = self.reading_idx;
        let reading = ri & 0x03;
        assert(reading == ri) by (bit_vector)
            requires ri < 3, reading == ri & 0x03;
        let mut write_idx: u8 = 0;
        while write_idx == last_published || write_idx == reading
            invariant
                write_idx <= 2,
                last_published < 3,
                reading < 3,
                write_idx == 1 ==> (0 == last_published || 0 == reading),
                write_idx == 2 ==> ((0 == last_published || 0 == reading) && (1 == last_published || 1 == reading)),
            decreases 3 - write_idx,
        {
            write_idx += 1;
        }
        self.buffers[write_idx as usize] = *data;
        let p = 0x80 | write_idx;
        assert(p & 0x03 == write_idx && p & 0x80 != 0 && p == ((p & 0x03) | 0x80)) by (bit_vector)
            requires p == 0x80 | write_idx, write_idx < 3;
        self.published = p;
    }

    /// Take the latest value (reader side): a fresh value moves the reader
    /// to its slot and clears the flag; otherwise the reader's slot is
    /// read again.
    pub fn read(&mut self) -> (v: T)
        requires
            old(self).wf(),
        ensures
            final(self).wf(),
            v == old(self).next_read(),
            !final(self).fresh(),
            final(self).buffers == old(self).buffers,
            final(self).next_read() == v,
            old(self).fresh() ==> final(self).reading_idx == old(self).latest_slot() && final(self).published == old(self).latest_slot(),
            !old(self).fresh() ==> final(self).reading_idx == old(self).reading_idx && final(self).published == old(self).published,
    {
        let published_val = self.published;
        let read_idx = if (published_val & 0x80) != 0 {
            let idx = published_val & 0x03;
            assert(idx & 0x80 == 0 && idx & 0x03 == idx) by (bit_vector)
                requires idx == published_val & 0x03;
            self.published = idx;
            self.reading_idx = idx;
            idx
        } else {
            assert(published_val & 0x03 == published_val) by (bit_vector)
                requires published_val & 0x80 == 0,
                    published_val == (published_val & 0x03) || published_val == ((published_val & 0x03) | 0x80);
            let ri = self.reading_idx;
            assert(ri & 0x03 == ri) by (bit_vector)
                requires ri < 3;
            ri & 0x03
        };
        let ri = self.reading_idx;
        assert(ri & 0x03 == ri) by (bit_vector)
            requires ri < 3;
        self.buffers[read_idx as usize]
    }
}

/// What one write publishes is what the next read returns, and reading
/// again without a write returns the same value.
pub proof fn lemma_triple_buffer_read_after_write<T: Copy>(
    b0: TripleBuffer<T>,
    b1: TripleBuffer<T>,
    b2: TripleBuffer<T>,
    data: T,
    v1: T,
    v2: T,
)
    requires
        b0.wf(),
        b1.wf(),
        b1.fresh(),
        b1.buffers@[b1.latest_slot()] == data,
        v1 == b1.next_read(),
        !b2.fresh(),
        b2.buffers == b1.buffers,
        b2.reading_idx == b1.latest_slot(),
        v2 == b2.next_read(),
    ensures
        v1 == data,
        v2 == data,
{
}

/// The radio's shared state: the engine once started, the silence flag,
/// the chip signature read at start-up, and the triple buffers that carry
/// channels to the frame interrupt and telemetry back.
pub struct RfSystem {
    pub driver: Option<Afhds2a>,
    pub silenced: bool,
    pub last_chip_id: u8,
    pub channel_buffer: TripleBuffer<[u16; NUM_CHANNELS]>,
    pub telemetry_buffer: TripleBuffer<TelemetryData>,
}

/// The radio after a newly captured receiver ID is handed out for storing,
/// and that ID (none when nothing waits).
pub open spec fn rx_save_taken(r: RfSystem) -> (RfSystem, Option<u32>) {
    match r.driver {
        Some(d) => if d.rx_id_needs_save {
            (RfSystem { driver: Some(Afhds2a { rx_id_needs_save: false, ..d }), ..r }, Some(d.rx_id))
        } else {
            (r, None)
        },
        None => (r, None),
    }
}

/// The radio after entering or leaving binding, and the output power to set
/// (none before the engine runs).
pub open spec fn bind_mode_changed(r: RfSystem, enable: bool) -> (RfSystem, Option<u8>) {
    match r.driver {
        None => (r, None),
        Some(d) => (RfSystem { driver: Some(bind_mode_set(d, enable)), ..r }, Some(if enable { BIND_POWER } else { HIGH_POWER })),
    }
}

impl RfSystem {
    pub open spec fn wf(&self) -> bool {
        &&& self.channel_buffer.wf()
        &&& self.telemetry_buffer.wf()
        &&& (self.driver matches Some(d) ==> d.wf())
    }

    /// Nothing started: channels centred (1500 us), empty telemetry.
    pub fn new() -> (r: Self)
        ensures
            r.wf(),
            r.driver is None,
            !r.silenced,
            r.last_chip_id == 0,
            r.channel_buffer.next_read()@ == Seq::new(14, |i: int| 1500u16),
            r.telemetry_buffer.next_read() == (TelemetryData { connected: false, rssi: 0, rx_voltage_mv: 0, packets_sent: 0, packets_received: 0 }),
    {
        let r = RfSystem {
            driver: None,
            silenced: false,
            last_chip_id: 0,
            channel_buffer: TripleBuffer::new([1500u16; 14]),
            telemetry_buffer: TripleBuffer::new(TelemetryData::new()),
        };
        assert(r.channel_buffer.next_read()@ =~= Seq::new(14, |i: int| 1500u16));
        r
    }

    /// Finish start-up once the transceiver was reset and loaded: record
    /// the signature read back from register 0x10, start the engine, and
    /// report success when the reset answered or the signature is 0x9E.
    pub fn init(&mut self, tx_id: u32, saved_rx_id: Option<u32>, reset_ok: bool, post_sig: u8) -> (ok: bool)
        requires
            old(self).wf(),
        ensures
            final(self).wf(),
            ok == (reset_ok || post_sig == 0x9E),
            final(self).last_chip_id == post_sig,
            final(self).driver matches Some(d) && d.tx_id == tx_id
                && d.rx_id == (match saved_rx_id { Some(r) => r, None => 0xFFFF_FFFFu32 })
                && d.mode == RadioMode::Normal && d.sub_state == SubState::Idle,
            final(self).silenced == old(self).silenced,
            final(self).channel_buffer == old(self).channel_buffer,
            final(self).telemetry_buffer == old(self).telemetry_buffer,
    {
        self.last_chip_id = post_sig;
        self.driver = Some(Afhds2a::new(tx_id, saved_rx_id));
        reset_ok || post_sig == 0x9E
    }

    /// The signature byte read from the transceiver at start-up.
    pub fn get_last_chip_id(&self) -> (id: u8)
        ensures
            id == self.last_chip_id,
    {
        self.last_chip_id
    }

    /// Silence or resume transmission. Returns whether the transceiver must
    /// now be put in standby with its front end off (on a change to
    /// silenced).
    pub fn set_silenced(&mut self, silenced: bool) -> (standby: bool)
        ensures
            standby == (silenced && !old(self).silenced),
            *final(self) == (RfSystem { silenced, ..*old(self) }),
    {
        let prev = self.silenced;
        if prev != silenced {
            self.silenced = silenced;
            silenced
        } else {
            false
        }
    }

    /// Whether transmission is silenced.
    pub fn is_silenced(&self) -> (b: bool)
        ensures
            b == self.silenced,
    {
        self.silenced
    }

    /// Publish new channel values for the frame interrupt.
    pub fn set_channels(&mut self, channels: &[u16; NUM_CHANNELS])
        requires
            old(self).wf(),
        ensures
            final(self).wf(),
            final(self).channel_buffer.next_read() == *channels,
            final(self).driver == old(self).driver,
            final(self).telemetry_buffer == old(self).telemetry_buffer,
            final(self).silenced == old(self).silenced,
            final(self).last_chip_id == old(self).last_chip_id,
    {
        self.channel_buffer.write(channels);
    }

    /// Enter or leave binding; returns the output power to set when the
    /// engine runs.
    pub fn set_bind_mode(&mut self, enable: bool) -> (power: Option<u8>)
        requires
            old(self).wf(),
        ensures
            final(self).wf(),
            (*final(self), power) == bind_mode_changed(*old(self), enable),
    {
        match &mut self.driver {
            Some(d) => Some(d.set_bind_mode(enable)),
            None => None,
        }
    }

    /// Switch the engine to another receiver ID.
    pub fn set_rx_id(&mut self, rx_id: u32)
        requires
            old(self).wf(),
        ensures
            final(self).wf(),
            final(self).driver is Some == old(self).driver is Some,
            final(self).driver matches Some(d) ==> d.rx_id == (if rx_id != 0 { rx_id } else { 0xFFFF_FFFFu32 }),
    {
        match &mut self.driver {
            Some(d) => d.set_rx_id(rx_id),
            None => {},
        }
    }

    /// Whether a receiver is bound: binding completed or a real ID known.
    pub fn is_bound(&self) -> (b: bool)
        ensures
            b == (match self.driver {
                Some(d) => d.bind_done || (d.rx_id != 0 && d.rx_id != 0xFFFF_FFFF),
                None => false,
            }),
    {
        match &self.driver {
            Some(d) => d.bind_done || (d.rx_id != 0 && d.rx_id != 0xFFFF_FFFF),
            None => false,
        }
    }

    /// Whether the engine is binding.
    pub fn is_binding(&self) -> (b: bool)
        ensures
            b == (match self.driver {
                Some(d) => d.mode == RadioMode::Binding,
                None => false,
            }),
    {
        match &self.driver {
            Some(d) => d.mode == RadioMode::Binding,
            None => false,
        }
    }

    /// Hand out a newly captured receiver ID to be stored, once.
    pub fn take_pending_rx_save(&mut self) -> (id: Option<u32>)
        requires
            old(self).wf(),
        ensures
            final(self).wf(),
            (*final(self), id) == rx_save_taken(*old(self)),
    {
        match &mut self.driver {
            Some(d) => {
                if d.rx_id_needs_save {
                    d.rx_id_needs_save = false;
                    Some(d.rx_id)
                } else {
                    None
                }
            },
            None => None,
        }
    }

    /// The receiver ID in use (0xFFFF_FFFF before start).
    pub fn get_rx_id(&self) -> (id: u32)
        ensures
            id == (match self.driver {
                Some(d) => d.rx_id,
                None => 0xFFFF_FFFFu32,
            }),
    {
        match &self.driver {
            Some(d) => d.rx_id,
            None => 0xFFFF_FFFF,
        }
    }

    /// The latest published downlink telemetry.
    pub fn get_telemetry(&mut self) -> (t: TelemetryData)
        requires
            old(self).wf(),
        ensures
            final(self).wf(),
            t == old(self).telemetry_buffer.next_read(),
            *final(self) == (RfSystem { telemetry_buffer: final(self).telemetry_buffer, ..*old(self) }),
            final(self).telemetry_buffer.buffers == old(self).telemetry_buffer.buffers,
            !final(self).telemetry_buffer.fresh(),
            final(self).telemetry_buffer.next_read() == t,
            old(self).telemetry_buffer.fresh() ==> final(self).telemetry_buffer.reading_idx == old(self).telemetry_buffer.latest_slot()
                && final(self).telemetry_buffer.published == old(self).telemetry_buffer.latest_slot(),
            !old(self).telemetry_buffer.fresh() ==> final(self).telemetry_buffer.reading_idx == old(self).telemetry_buffer.reading_idx
                && final(self).telemetry_buffer.published == old(self).telemetry_buffer.published,
    {
        self.telemetry_buffer.read()
    }

    /// The frame timer fired: unless silenced, hand the latest channels to
    /// the engine and run its frame tick.
    pub fn on_frame_timer(&mut self) -> (a: Option<TickAction>)
        requires
            old(self).wf(),
        ensures
            final(self).wf(),
            (old(self).silenced || old(self).driver is None) ==> a is None && final(self).driver == old(self).driver,
            !old(self).silenced ==> (match old(self).driver {
                Some(d) => {
                    let chs = old(self).channel_buffer.next_read();
                    let r = tick_effect(Afhds2a { channels: chs, ..d });
                    &&& a matches Some(act) && act.packet@ == r.1 && act.channel == r.2
                        && act.switch_antenna == r.3 && act.power == r.4
                    &&& final(self).driver == Some(r.0)
                },
                None => true,
            }),
    {
        if self.silenced {
            return None;
        }
        match &mut self.driver {
            Some(d) => {
                let chs = self.channel_buffer.read();
                d.set_channels(&chs);
                Some(d.on_timer_tick())
            },
            None => None,
        }
    }

    /// The transceiver's done line fell: run the engine's handler, then
    /// publish its telemetry.
    pub fn on_done_signal(&mut self, crc_ok: bool, rx: &[u8; 37], raw_rssi: u8) -> (a: Gio2Action)
        requires
            old(self).wf(),
        ensures
            final(self).wf(),
            old(self).driver is None ==> a == Gio2Action::NoAction && *final(self) == *old(self),
            final(self).driver matches Some(d) ==> final(self).telemetry_buffer.next_read() == d.telemetry,
    {
        match &mut self.driver {
            Some(d) => {
                let a = d.on_gio2_event(crc_ok, rx, raw_rssi);
                self.telemetry_buffer.write(&d.telemetry);
                a
            },
            None => Gio2Action::NoAction,
        }
    }
}

} // verus!
