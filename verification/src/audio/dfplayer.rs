//! DFPlayer Mini voice module: its 8-byte command frames, a 64-byte
//! transmit ring drained one byte at a time while the serial port is
//! ready, and a four-track play queue paced by the module's busy line and
//! a 300 ms gap between commands. The caller owns the serial port and
//! reads the busy line.
use vstd::prelude::*;

verus! {

pub const CMD_PLAY_TRACK: u8 = 0x03;
pub const CMD_SET_VOLUME: u8 = 0x06;
pub const CMD_STANDBY: u8 = 0x0A;
pub const CMD_WAKEUP: u8 = 0x0B;
pub const CMD_PAUSE: u8 = 0x0E;
pub const CMD_STOP: u8 = 0x16;

pub const TX_BUF_SIZE: usize = 64;
pub const QUEUE_MAX: usize = 4;
pub const MIN_CMD_INTERVAL_MS: u16 = 300;

pub struct DfPlayer {
    pub tx_buf: [u8; TX_BUF_SIZE],
    pub tx_head: usize,
    pub tx_tail: usize,
    pub track_queue: [u16; QUEUE_MAX],
    pub queue_len: usize,
    pub time_since_cmd_ms: u16,
    pub volume: u8,
    pub initialized: bool,
}

/// The 8-byte command frame: start, version, length, command, no
/// feedback, parameter (big endian), end.
pub open spec fn command_frame(cmd: u8, param: u16) -> Seq<u8> {
    seq![0x7Eu8, 0xFF, 0x06, cmd, 0x00, (param >> 8u16) as u8, (param & 0xFF) as u8, 0xEF]
}

/// The player as the bytes waiting to be sent and the tracks waiting to
/// be played.
pub struct DfView {
    pub pending: Seq<u8>,
    pub queue: Seq<u16>,
    pub time_since_cmd_ms: u16,
    pub volume: u8,
    pub initialized: bool,
}

impl View for DfPlayer {
    type V = DfView;

    open spec fn view(&self) -> DfView {
        DfView {
            pending: if self.tx_head >= self.tx_tail {
                self.tx_buf@.subrange(self.tx_tail as int, self.tx_head as int)
            } else {
                self.tx_buf@.subrange(self.tx_tail as int, 64) + self.tx_buf@.subrange(0, self.tx_head as int)
            },
            queue: self.track_queue@.subrange(0, self.queue_len as int),
            time_since_cmd_ms: self.time_since_cmd_ms,
            volume: self.volume,
            initialized: self.initialized,
        }
    }
}

/// Bytes queued after a frame: as many as fit in the ring (63 at most
/// pending); the rest of the frame is dropped.
pub open spec fn queued(pending: Seq<u8>, frame: Seq<u8>) -> Seq<u8> {
    let room = 63 - pending.len();
    let k = if frame.len() < room { frame.len() as int } else { room };
    pending + frame.subrange(0, k)
}

/// Whether the module counts as busy: within 300 ms of the last command,
/// or its busy line is low.
pub open spec fn busy(time_since_cmd_ms: u16, busy_line_low: bool) -> bool {
    time_since_cmd_ms < 300 || busy_line_low
}

impl DfPlayer {
    pub open spec fn wf(&self) -> bool {
        &&& self.tx_head < 64
        &&& self.tx_tail < 64
        &&& self.queue_len <= 4
    }

    /// An idle player: nothing pending, volume 20, not yet started.
    pub fn new() -> (d: Self)
        ensures
            d.wf(),
            d@.pending == Seq::<u8>::empty(),
            d@.queue == Seq::<u16>::empty(),
            d@.time_since_cmd_ms == 1000,
            d@.volume == 20,
            !d@.initialized,
    {
        let d = DfPlayer {
            tx_buf: [0u8; 64],
            tx_head: 0,
            tx_tail: 0,
            track_queue: [0u16; 4],
            queue_len: 0,
            time_since_cmd_ms: 1000,
            volume: 20,
            initialized: false,
        };
        assert(d@.pending =~= Seq::<u8>::empty());
        assert(d@.queue =~= Seq::<u16>::empty());
        d
    }

    /// Queue one byte when the ring has room.
    fn push_byte(&mut self, byte: u8)
        requires
            old(self).wf(),
        ensures
            final(self).wf(),
            final(self)@ == (DfView { pending: queued(old(self)@.pending, seq![byte]), ..old(self)@ }),
    {
        let next_head = (self.tx_head + 1) % 64;
        if next_head != self.tx_tail {
            self.tx_buf[self.tx_head] = byte;
            self.tx_head = next_head;
        }
        let ghost p0 = old(self)@.pending;
        assert(p0.len() == if old(self).tx_head >= old(self).tx_tail {
            old(self).tx_head - old(self).tx_tail
        } else {
            64 - old(self).tx_tail + old(self).tx_head
        });
        assert(self@.pending =~= queued(p0, seq![byte]));
    }

    /// Queue a command frame (see `queued`).
    fn send_command(&mut self, cmd: u8, param: u16)
        requires
            old(self).wf(),
        ensures
            final(self).wf(),
            final(self)@ == (DfView { pending: queued(old(self)@.pending, command_frame(cmd, param)), ..old(self)@ }),
    {
        let packet: [u8; 8] = [0x7E, 0xFF, 0x06, cmd, 0x00, (param >> 8) as u8, (param & 0xFF) as u8, 0xEF];
        assert(packet@ =~= command_frame(cmd, param));
        let mut i: usize = 0;
        while i < 8
            invariant
                i <= 8,
                self.wf(),
                self@ == (DfView { pending: queued(old(self)@.pending, packet@.subrange(0, i as int)), ..old(self)@ }),
            decreases 8 - i,
        {
            let ghost before = self@.pending;
            self.push_byte(packet[i]);
            assert(queued(before, seq![packet@[i as int]]) =~= queued(old(self)@.pending, packet@.subrange(0, i + 1)));
            i += 1;
        }
        assert(packet@.subrange(0, 8) =~= packet@);
    }

    /// Mark the module started (after the caller set up its serial port)
    /// and send the current volume.
    pub fn init(&mut self)
        requires
            old(self).wf(),
        ensures
            final(self).wf(),
            final(self)@ == (DfView {
                initialized: true,
                volume: if old(self).volume < 30 { old(self).volume } else { 30u8 },
                pending: queued(old(self)@.pending, command_frame(CMD_SET_VOLUME, (if old(self).volume < 30 { old(self).volume } else { 30u8 }) as u16)),
                ..old(self)@
            }),
    {
        self.initialized = true;
        let v = self.volume;
        self.set_volume(v);
    }

    /// Whether the module counts as busy (see `busy`); `busy_line_low` is
    /// the level of its busy line.
    pub fn is_busy(&self, busy_line_low: bool) -> (b: bool)
        ensures
            b == busy(self.time_since_cmd_ms, busy_line_low),
    {
        self.time_since_cmd_ms < MIN_CMD_INTERVAL_MS || busy_line_low
    }

    /// Set the volume, capped at 30, and send it.
    pub fn set_volume(&mut self, vol: u8)
        requires
            old(self).wf(),
        ensures
            final(self).wf(),
            final(self)@ == (DfView {
                volume: if vol < 30 { vol } else { 30u8 },
                pending: queued(old(self)@.pending, command_frame(CMD_SET_VOLUME, (if vol < 30 { vol } else { 30u8 }) as u16)),
                ..old(self)@
            }),
    {
        let v = if vol < 30 { vol } else { 30 };
        self.volume = v;
        self.send_command(CMD_SET_VOLUME, v as u16);
    }

    /// Play a track (0 is no track): at once when the module is idle and
    /// nothing waits, otherwise queued while the queue has room.
    pub fn play_track(&mut self, track: u16, busy_line_low: bool)
        requires
            old(self).wf(),
        ensures
            final(self).wf(),
            final(self)@ == (if track == 0 {
                old(self)@
            } else if !busy(old(self).time_since_cmd_ms, busy_line_low) && old(self)@.queue.len() == 0 {
                DfView {
                    pending: queued(old(self)@.pending, command_frame(CMD_PLAY_TRACK, track)),
                    time_since_cmd_ms: 0,
                    ..old(self)@
                }
            } else if old(self)@.queue.len() < 4 {
                DfView { queue: old(self)@.queue.push(track), ..old(self)@ }
            } else {
                old(self)@
            }),
    {
        if track == 0 {
            return;
        }
        if !self.is_busy(busy_line_low) && self.queue_len == 0 {
            self.send_command(CMD_PLAY_TRACK, track);
            self.time_since_cmd_ms = 0;
            return;
        }
        if self.queue_len < QUEUE_MAX {
            let n = self.queue_len;
            self.track_queue[n] = track;
            self.queue_len = n + 1;
            assert(self@.queue =~= old(self)@.queue.push(track));
        }
    }

    /// Stop playback and drop the queue.
    pub fn stop(&mut self)
        requires
            old(self).wf(),
        ensures
            final(self).wf(),
            final(self)@ == (DfView {
                queue: Seq::<u16>::empty(),
                pending: queued(old(self)@.pending, command_frame(CMD_STOP, 0)),
                ..old(self)@
            }),
    {
        self.queue_len = 0;
        assert(self@.queue =~= Seq::<u16>::empty());
        self.send_command(CMD_STOP, 0);
    }

    /// Take the next byte to send, if any (the caller sends it while its
    /// serial port is ready).
    pub fn pop_tx_byte(&mut self) -> (b: Option<u8>)
        requires
            old(self).wf(),
        ensures
            final(self).wf(),
            old(self)@.pending.len() == 0 ==> b is None && final(self)@ == old(self)@,
            old(self)@.pending.len() > 0 ==> b == Some(old(self)@.pending[0])
                && final(self)@ == (DfView { pending: old(self)@.pending.drop_first(), ..old(self)@ }),
    {
        if self.tx_head == self.tx_tail {
            return None;
        }
        let byte = self.tx_buf[self.tx_tail];
        self.tx_tail = (self.tx_tail + 1) % 64;
        assert(self@.pending =~= old(self)@.pending.drop_first());
        Some(byte)
    }

    /// Advance time by `elapsed_ms` (saturating); then, when the module is
    /// idle and a track waits, play the first waiting track.
    pub fn tick(&mut self, elapsed_ms: u16, busy_line_low: bool)
        requires
            old(self).wf(),
        ensures
            final(self).wf(),
            ({
                let t = if old(self).time_since_cmd_ms as int + elapsed_ms as int > 0xFFFF {
                    0xFFFFu16
                } else {
                    (old(self).time_since_cmd_ms + elapsed_ms) as u16
                };
                final(self)@ == (if !busy(t, busy_line_low) && old(self)@.queue.len() > 0 {
                    DfView {
                        queue: old(self)@.queue.drop_first(),
                        pending: queued(old(self)@.pending, command_frame(CMD_PLAY_TRACK, old(self)@.queue[0])),
                        time_since_cmd_ms: 0,
                        ..old(self)@
                    }
                } else {
                    DfView { time_since_cmd_ms: t, ..old(self)@ }
                })
            }),
    {
        self.time_since_cmd_ms = self.time_since_cmd_ms.saturating_add(elapsed_ms);
        if !self.is_busy(busy_line_low) && self.queue_len > 0 {
            let next_track = self.track_queue[0];
            let n = self.queue_len;
            let mut i: usize = 1;
            while i < n
                invariant
                    1 <= i <= n <= 4,
                    self.queue_len == n,
                    self.tx_head == old(self).tx_head,
                    self.tx_tail == old(self).tx_tail,
                    self.tx_buf == old(self).tx_buf,
                    self.volume == old(self).volume,
                    self.initialized == old(self).initialized,
                    forall|k: int| 0 <= k < i - 1 ==> self.track_queue@[k] == old(self).track_queue@[k + 1],
                    forall|k: int| i - 1 <= k < 4 ==> self.track_queue@[k] == old(self).track_queue@[k],
                decreases n - i,
            {
                self.track_queue[i - 1] = self.track_queue[i];
                i += 1;
            }
            self.queue_len = n - 1;
            assert(self@.queue =~= old(self)@.queue.drop_first());
            self.send_command(CMD_PLAY_TRACK, next_track);
            self.time_since_cmd_ms = 0;
        }
    }
}

} // verus!
