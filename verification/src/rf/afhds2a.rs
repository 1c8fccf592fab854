//! AFHDS 2A: frequency hopping derived from the transmitter ID, the
//! 38-byte control frames, the bind sequence and downlink telemetry. The
//! engine decides; the caller drives the transceiver with what it returns.
use vstd::prelude::*;
use crate::arith::clamp;
use crate::rf::a7105::{BIND_POWER, HIGH_POWER};
use crate::storage::{active_index, saved_rx_id, RadioStorage};

verus! {

pub const NUM_CHANNELS: usize = 14;
pub const NUM_FREQ: usize = 16;
pub const TX_PACKET_SIZE: usize = 38;
pub const RX_PACKET_SIZE: usize = 37;

pub const PACKET_STICKS: u8 = 0x58;
pub const PACKET_FAILSAFE: u8 = 0x56;
pub const PACKET_SETTINGS: u8 = 0xAA;
pub const PACKET_BIND1: u8 = 0xBB;
pub const PACKET_BIND2: u8 = 0xBC;

/// Hop band (0..=3) of hop slot `idx`: from the slot number's bits and the
/// top byte of the transmitter ID.
pub open spec fn band_of(idx: int, txb3: u8) -> int {
    (((idx * 2) + ((idx / 2) % 2)) + txb3) % 4
}

/// The linear congruential step that drives the hop search.
pub open spec fn lcg(r: u32) -> u32 {
    r.wrapping_mul(0x0019_660D).wrapping_add(0x3C6E_F35F)
}

/// The channel proposed for slot `idx` by random word `rnd`: inside the
/// slot's band of 41 channels, 1..=164 overall.
pub open spec fn candidate(idx: int, txb3: u8, rnd: u32) -> int {
    band_of(idx, txb3) * 41 + 1 + ((rnd >> (idx as u32)) % 41)
}

/// Least distance between two channels of a hopping table.
pub const MIN_HOP_SPACING: u8 = 5;

pub open spec fn abs_diff(a: int, b: int) -> int {
    if a >= b {
        a - b
    } else {
        b - a
    }
}

/// Channel `ch` is at least `sep` away from every chosen channel.
pub open spec fn fits(table: Seq<u8>, ch: int, sep: int) -> bool {
    forall|j: int| 0 <= j < table.len() ==> abs_diff(ch, table[j] as int) >= sep
}

/// The hop search from a partial table: draw the next random word, keep the
/// candidate when it is at least `MIN_HOP_SPACING` from every chosen
/// channel, until 16 are chosen (or the 32-bit attempt counter runs out).
pub open spec fn hop_search(txb3: u8, rnd: u32, attempts: u32, table: Seq<u8>) -> Seq<u8>
    decreases u32::MAX - attempts,
{
    if table.len() >= 16 || attempts >= u32::MAX {
        table
    } else {
        let a = (attempts + 1) as u32;
        let r = lcg(rnd);
        let ch = candidate(table.len() as int, txb3, r);
        if fits(table, ch, MIN_HOP_SPACING as int) {
            hop_search(txb3, r, a, table.push(ch as u8))
        } else {
            hop_search(txb3, r, a, table)
        }
    }
}

/// The hopping table of a transmitter ID: the searched channels, then zeros.
pub open spec fn hopping_table_of(tx_id: u32) -> Seq<u8> {
    let t = hop_search(((tx_id >> 24u32) & 0xFF) as u8, tx_id, 0, seq![]);
    t + Seq::new((16 - t.len()) as nat, |i: int| 0u8)
}

/// Chosen channels lie in their slot's band and are pairwise distinct.
pub open spec fn hops_ok(table: Seq<u8>, txb3: u8) -> bool {
    &&& table.len() <= 16
    &&& forall|i: int| 0 <= i < table.len() ==> band_of(i, txb3) * 41 + 1 <= #[trigger] table[i] <= band_of(i, txb3) * 41 + 41
    &&& forall|i: int, j: int| 0 <= i < j < table.len() ==> table[i] != table[j]
}

proof fn lemma_hop_search(txb3: u8, rnd: u32, attempts: u32, table: Seq<u8>)
    requires
        hops_ok(table, txb3),
    ensures
        hops_ok(hop_search(txb3, rnd, attempts, table), txb3),
        table.len() <= hop_search(txb3, rnd, attempts, table).len(),
    decreases u32::MAX - attempts,
{
    if table.len() >= 16 || attempts >= u32::MAX {
    } else {
        let a = (attempts + 1) as u32;
        let r = lcg(rnd);
        let n = table.len() as int;
        let ch = candidate(n, txb3, r);
        assert(0 <= band_of(n, txb3) < 4);
        assert(0 <= (r >> (n as u32)) % 41 < 41);
        if fits(table, ch, MIN_HOP_SPACING as int) {
            let t2 = table.push(ch as u8);
            assert forall|i: int, j: int| 0 <= i < j < t2.len() implies t2[i] != t2[j] by {
                if j == n {
                    assert(abs_diff(ch, table[i] as int) >= MIN_HOP_SPACING);
                }
            }
            lemma_hop_search(txb3, r, a, t2);
        } else {
            lemma_hop_search(txb3, r, a, table);
        }
    }
}

/// Every channel of a transmitter's hopping table lies in its slot's band
/// (so within 1..=164), and no channel is used twice.
pub proof fn lemma_hopping_table_channels(tx_id: u32)
    ensures
        ({
            let t = hopping_table_of(tx_id);
            let txb3 = ((tx_id >> 24u32) & 0xFF) as u8;
            &&& t.len() == 16
            &&& forall|i: int| 0 <= i < 16 && t[i] != 0 ==> band_of(i, txb3) * 41 + 1 <= t[i] <= band_of(i, txb3) * 41 + 41
            &&& forall|i: int, j: int| 0 <= i < j < 16 && t[i] != 0 && t[j] != 0 ==> t[i] != t[j]
        }),
{
    let txb3 = ((tx_id >> 24u32) & 0xFF) as u8;
    lemma_hop_search(txb3, tx_id, 0, seq![]);
    let s = hop_search(txb3, tx_id, 0, seq![]);
    let t = hopping_table_of(tx_id);
    assert forall|i: int| 0 <= i < 16 && t[i] != 0 implies band_of(i, txb3) * 41 + 1 <= t[i] <= band_of(i, txb3) * 41 + 41 by {
        assert(i < s.len());
        assert(t[i] == s[i]);
    }
    assert forall|i: int, j: int| 0 <= i < j < 16 && t[i] != 0 && t[j] != 0 implies t[i] != t[j] by {
        assert(j < s.len());
        assert(t[i] == s[i] && t[j] == s[j]);
    }
}

/// Every two chosen channels are at least `sep` apart.
pub open spec fn spaced(table: Seq<u8>, sep: int) -> bool {
    forall|i: int, j: int| 0 <= i < j < table.len() ==> abs_diff(table[i] as int, table[j] as int) >= sep
}

proof fn lemma_hop_spacing(txb3: u8, rnd: u32, attempts: u32, table: Seq<u8>)
    requires
        spaced(table, 5),
    ensures
        spaced(hop_search(txb3, rnd, attempts, table), 5),
    decreases u32::MAX - attempts,
{
    if table.len() >= 16 || attempts >= u32::MAX {
    } else {
        let a = (attempts + 1) as u32;
        let r = lcg(rnd);
        let n = table.len() as int;
        let ch = candidate(n, txb3, r);
        if fits(table, ch, MIN_HOP_SPACING as int) {
            let t2 = table.push(ch as u8);
            assert(0 <= band_of(n, txb3) < 4);
            assert(0 <= (r >> (n as u32)) % 41 < 41);
            assert forall|i: int, j: int| 0 <= i < j < t2.len() implies abs_diff(t2[i] as int, t2[j] as int) >= 5 by {
                if j == n {
                    assert(abs_diff(ch, table[i] as int) >= 5);
                    assert(t2[j] as int == ch);
                }
            }
            lemma_hop_spacing(txb3, r, a, t2);
        } else {
            lemma_hop_spacing(txb3, r, a, table);
        }
    }
}

/// Any two channels of a transmitter's hopping table are at least 5 apart.
pub proof fn lemma_hopping_table_spacing(tx_id: u32)
    ensures
        forall|i: int, j: int| 0 <= i < j < 16 && hopping_table_of(tx_id)[i] != 0 && hopping_table_of(tx_id)[j] != 0
            ==> abs_diff(hopping_table_of(tx_id)[i] as int, hopping_table_of(tx_id)[j] as int) >= 5,
{
    let txb3 = ((tx_id >> 24u32) & 0xFF) as u8;
    lemma_hop_spacing(txb3, tx_id, 0, seq![]);
    lemma_hop_search(txb3, tx_id, 0, seq![]);
    let s = hop_search(txb3, tx_id, 0, seq![]);
    let t = hopping_table_of(tx_id);
    assert forall|i: int, j: int| 0 <= i < j < 16 && t[i] != 0 && t[j] != 0 implies abs_diff(t[i] as int, t[j] as int) >= 5 by {
        assert(j < s.len());
        assert(t[i] == s[i] && t[j] == s[j]);
    }
}

/// Generate the 16 hopping channels of a transmitter ID.
pub fn calculate_hopping_table(tx_id: u32) -> (h: [u8; NUM_FREQ])
    ensures
        h@ == hopping_table_of(tx_id),
{
    let mut hopping = [0u8; 16];
    let mut idx: usize = 0;
    let mut rnd = tx_id;
    let tx_byte3 = ((tx_id >> 24) & 0xFF) as u8;
    let mut attempts: u32 = 0;
    let ghost txb3 = tx_byte3;
    assert(hopping@.subrange(0, 0) =~= seq![]);
    while idx < 16 && attempts < u32::MAX
        invariant
            idx <= 16,
            tx_byte3 == ((tx_id >> 24u32) & 0xFF) as u8,
            hop_search(tx_byte3, rnd, attempts, hopping@.subrange(0, idx as int)) == hop_search(tx_byte3, tx_id, 0, seq![]),
            forall|k: int| idx <= k < 16 ==> hopping@[k] == 0,
            hopping@.len() == 16,
        decreases u32::MAX - attempts,
    {
        let ghost prefix = hopping@.subrange(0, idx as int);
        attempts += 1;
        let i8v = idx as u8;
        let band_no = (((i8v << 1) | ((i8v >> 1) & 0x01)).wrapping_add(tx_byte3)) & 0x03;
        assert(band_no as int == band_of(idx as int, tx_byte3)) by (bit_vector)
            requires
                i8v < 16,
                band_no == (((i8v << 1) | ((i8v >> 1) & 0x01)).wrapping_add(tx_byte3)) & 0x03,
                i8v == idx;
        rnd = rnd.wrapping_mul(0x0019_660D).wrapping_add(0x3C6E_F35F);
        let m = (rnd >> (idx as u32)) % 41;
        let next_ch: u8 = band_no * 41 + 1 + (m as u8);
        assert(next_ch as int == candidate(idx as int, tx_byte3, rnd));
        let sep: u8 = MIN_HOP_SPACING;
        let mut valid = true;
        let mut j: usize = 0;
        while j < idx
            invariant
                j <= idx < 16,
                hopping@.len() == 16,
                prefix == hopping@.subrange(0, idx as int),
                valid == (forall|k: int| 0 <= k < j ==> abs_diff(next_ch as int, hopping@[k] as int) >= sep),
            decreases idx - j,
        {
            let h = hopping[j];
            let d = if next_ch >= h { next_ch - h } else { h - next_ch };
            if d < sep {
                valid = false;
            }
            j += 1;
        }
        assert(valid == fits(prefix, next_ch as int, MIN_HOP_SPACING as int)) by {
            if valid {
                assert forall|k: int| 0 <= k < prefix.len() implies abs_diff(next_ch as int, prefix[k] as int) >= MIN_HOP_SPACING by {
                    assert(prefix[k] == hopping@[k]);
                }
            } else {
                let k = choose|k: int| 0 <= k < idx && !(abs_diff(next_ch as int, hopping@[k] as int) >= sep);
                assert(prefix[k] == hopping@[k]);
            }
        }
        if valid {
            hopping[idx] = next_ch;
            idx += 1;
            assert(hopping@.subrange(0, idx as int) =~= prefix.push(next_ch));
        }
    }
    assert(hopping@ =~= hopping_table_of(tx_id));
    hopping
}

#[derive(Copy, Clone, Debug, PartialEq, Eq, Structural)]
pub enum RadioMode {
    Normal,
    Binding,
}

#[derive(Copy, Clone, Debug, PartialEq, Eq, Structural)]
pub enum PacketType {
    Sticks,
    Settings,
    Failsafe,
}

/// Where the engine is within one 3.85 ms frame.
#[derive(Copy, Clone, Debug, PartialEq, Eq, Structural)]
pub enum SubState {
    WaitingTxDone,
    ListeningRx,
    Idle,
}

/// Downlink telemetry.
#[derive(Copy, Clone, Debug, PartialEq, Eq, Structural)]
pub struct TelemetryData {
    pub connected: bool,
    pub rssi: u8,
    pub rx_voltage_mv: u16,
    pub packets_sent: u32,
    pub packets_received: u32,
}

impl TelemetryData {
    pub fn new() -> (t: Self)
        ensures
            t == (TelemetryData { connected: false, rssi: 0, rx_voltage_mv: 0, packets_sent: 0, packets_received: 0 }),
    {
        TelemetryData { connected: false, rssi: 0, rx_voltage_mv: 0, packets_sent: 0, packets_received: 0 }
    }
}

/// The AFHDS 2A engine.
pub struct Afhds2a {
    pub tx_id: u32,
    pub rx_id: u32,
    pub hopping_table: [u8; NUM_FREQ],
    pub hopping_idx: u8,
    pub mode: RadioMode,
    pub sub_state: SubState,
    pub bind_phase: u8,
    pub bind_confirm_count: u8,
    pub bind_done: bool,
    pub rx_id_needs_save: bool,
    pub next_packet_type: PacketType,
    pub channels: [u16; NUM_CHANNELS],
    pub telemetry: TelemetryData,
    pub loss_counter: u16,
}

/// Little-endian bytes of a 32-bit word.
pub open spec fn le32(x: u32) -> Seq<u8> {
    seq![(x & 0xFF) as u8, ((x >> 8u32) & 0xFF) as u8, ((x >> 16u32) & 0xFF) as u8, ((x >> 24u32) & 0xFF) as u8]
}

/// `n` copies of a byte.
pub open spec fn fill(n: int, b: u8) -> Seq<u8> {
    Seq::new(n as nat, |i: int| b)
}

pub open spec fn clamp_pulse(v: u16) -> u16 {
    if v < 1000 {
        1000
    } else if v > 2000 {
        2000
    } else {
        v
    }
}

/// Byte `k` of the 28 channel bytes: each pulse width clamped to
/// 1000..=2000, low byte then high nibble.
pub open spec fn stick_byte(ch: Seq<u16>, k: int) -> u8 {
    let v = clamp_pulse(ch[k / 2]);
    if k % 2 == 0 {
        (v & 0xFF) as u8
    } else {
        ((v >> 8u16) & 0x0F) as u8
    }
}

/// The control frame: type, transmitter and receiver IDs, 14 channels.
pub open spec fn stick_packet(tx_id: u32, rx_id: u32, ch: Seq<u16>) -> Seq<u8> {
    seq![PACKET_STICKS] + le32(tx_id) + le32(rx_id) + Seq::new(28, |k: int| stick_byte(ch, k)) + seq![0u8]
}

/// Each of the 14 channels travels in the control frame as a little-endian
/// 16-bit word at bytes `9 + 2k` and `10 + 2k`: read back, it is the
/// channel's pulse width limited to 1000..=2000 microseconds.
pub proof fn lemma_stick_packet_channels(tx_id: u32, rx_id: u32, ch: Seq<u16>)
    requires
        ch.len() == 14,
    ensures
        stick_packet(tx_id, rx_id, ch).len() == 38,
        forall|k: int| 0 <= k < 14 ==>
            ((#[trigger] stick_packet(tx_id, rx_id, ch)[9 + 2 * k]) as u16 | ((stick_packet(tx_id, rx_id, ch)[10 + 2 * k] as u16) << 8u16)) as int
                == clamp(ch[k] as int, 1000, 2000),
{
    let pk = stick_packet(tx_id, rx_id, ch);
    assert forall|k: int| 0 <= k < 14 implies
        ((#[trigger] pk[9 + 2 * k]) as u16 | ((pk[10 + 2 * k] as u16) << 8u16)) as int == clamp(ch[k] as int, 1000, 2000) by {
        let v = clamp_pulse(ch[k]);
        assert(pk[9 + 2 * k] == stick_byte(ch, 2 * k));
        assert(pk[10 + 2 * k] == stick_byte(ch, 2 * k + 1));
        assert((2 * k) / 2 == k && (2 * k + 1) / 2 == k && (2 * k) % 2 == 0 && (2 * k + 1) % 2 == 1);
        let lo = (v & 0xFF) as u8;
        let hi = ((v >> 8u16) & 0x0F) as u8;
        assert(lo as u16 | ((hi as u16) << 8u16) == v) by (bit_vector)
            requires
                1000 <= v <= 2000,
                lo == (v & 0xFF) as u8,
                hi == ((v >> 8u16) & 0x0F) as u8,
        ;
    }
}

/// The receiver settings frame: 400 Hz PWM outputs, 1500 us centre, i-BUS.
pub open spec fn settings_packet(tx_id: u32, rx_id: u32) -> Seq<u8> {
    seq![PACKET_SETTINGS] + le32(tx_id) + le32(rx_id) + seq![0xFDu8, 0xFF, 0x90, 0x01, 0x00, 0x00]
        + fill(3, 0xFF) + seq![0x05u8, 0xDC, 0x05, 0xDE] + fill(15, 0xFF) + seq![0u8]
}

/// Failsafe bytes: throttle (channel 3) cut to 1000 us, the others hold.
pub open spec fn failsafe_byte(k: int) -> u8 {
    if k == 4 {
        0xE8
    } else if k == 5 {
        0x03
    } else {
        0xFF
    }
}

/// The failsafe frame.
pub open spec fn failsafe_packet(tx_id: u32, rx_id: u32) -> Seq<u8> {
    seq![PACKET_FAILSAFE] + le32(tx_id) + le32(rx_id) + Seq::new(28, |k: int| failsafe_byte(k)) + seq![0u8]
}

/// The bind frame of a bind phase: phases 1..=3 announce the hopping table,
/// any other phase confirms the captured receiver ID.
pub open spec fn bind_packet(phase: u8, tx_id: u32, rx_id: u32, hops: Seq<u8>) -> Seq<u8> {
    if phase == 1 {
        seq![PACKET_BIND1] + le32(tx_id) + fill(4, 0xFF) + seq![0x01u8, 0x00] + hops + fill(10, 0xFF) + seq![0u8]
    } else if phase == 2 {
        seq![PACKET_BIND2] + le32(tx_id) + fill(4, 0xFF) + seq![0x00u8, 0x00] + hops + seq![0x01u8, 0x80] + fill(8, 0xFF) + seq![0u8]
    } else if phase == 3 {
        seq![PACKET_BIND2] + le32(tx_id) + fill(4, 0xFF) + seq![0x01u8, 0x00] + hops + seq![0x01u8, 0x80] + fill(8, 0xFF) + seq![0u8]
    } else {
        seq![PACKET_BIND2] + le32(tx_id) + le32(rx_id) + seq![0x02u8, 0x00] + fill(16, 0xFF) + seq![0x01u8, 0x80] + fill(8, 0xFF) + seq![0u8]
    }
}

/// Write the little-endian bytes of `x` at `at`.
fn put_le32(out: &mut [u8; 38], at: usize, x: u32)
    requires
        at + 4 <= 38,
    ensures
        final(out)@ == old(out)@.subrange(0, at as int) + le32(x) + old(out)@.subrange(at + 4, 38),
{
    out[at] = (x & 0xFF) as u8;
    out[at + 1] = ((x >> 8) & 0xFF) as u8;
    out[at + 2] = ((x >> 16) & 0xFF) as u8;
    out[at + 3] = ((x >> 24) & 0xFF) as u8;
    assert(out@ =~= old(out)@.subrange(0, at as int) + le32(x) + old(out)@.subrange(at + 4, 38));
}

/// Set `out[lo..hi]` to `b`.
fn put_fill(out: &mut [u8; 38], lo: usize, hi: usize, b: u8)
    requires
        lo <= hi <= 38,
    ensures
        final(out)@ == old(out)@.subrange(0, lo as int) + fill(hi - lo, b) + old(out)@.subrange(hi as int, 38),
{
    let mut i = lo;
    while i < hi
        invariant
            lo <= i <= hi <= 38,
            out@.len() == 38,
            forall|k: int| 0 <= k < lo ==> out@[k] == old(out)@[k],
            forall|k: int| lo <= k < i ==> out@[k] == b,
            forall|k: int| i <= k < 38 ==> out@[k] == old(out)@[k],
        decreases hi - i,
    {
        out[i] = b;
        i += 1;
    }
    assert(out@ =~= old(out)@.subrange(0, lo as int) + fill(hi - lo, b) + old(out)@.subrange(hi as int, 38));
}

/// Copy the hopping table to `out[11..27]`.
fn put_hops(out: &mut [u8; 38], hops: &[u8; 16])
    ensures
        final(out)@ == old(out)@.subrange(0, 11) + hops@ + old(out)@.subrange(27, 38),
{
    let mut i: usize = 0;
    while i < 16
        invariant
            i <= 16,
            out@.len() == 38,
            forall|k: int| 0 <= k < 11 ==> out@[k] == old(out)@[k],
            forall|k: int| 0 <= k < i ==> out@[11 + k] == hops@[k],
            forall|k: int| 11 + i <= k < 38 ==> out@[k] == old(out)@[k],
        decreases 16 - i,
    {
        out[11 + i] = hops[i];
        i += 1;
    }
    assert(out@ =~= old(out)@.subrange(0, 11) + hops@ + old(out)@.subrange(27, 38));
}

/// The engine after entering (`enable`) or leaving binding.
pub open spec fn bind_mode_set(d: Afhds2a, enable: bool) -> Afhds2a {
    if enable {
        Afhds2a { mode: RadioMode::Binding, bind_phase: 1, bind_confirm_count: 0, bind_done: false, ..d }
    } else {
        Afhds2a {
            mode: RadioMode::Normal,
            bind_phase: 0,
            bind_confirm_count: 0,
            bind_done: true,
            next_packet_type: PacketType::Sticks,
            rx_id: if d.rx_id == 0 || d.rx_id == 0xFFFF_FFFF { 0x0001_0000u32 | (d.tx_id & 0xFFFFu32) } else { d.rx_id },
            rx_id_needs_save: true,
            ..d
        }
    }
}

impl Afhds2a {
    /// Build the control frame.
    pub fn build_stick_packet(&self, out: &mut [u8; TX_PACKET_SIZE])
        ensures
            final(out)@ == stick_packet(self.tx_id, self.rx_id, self.channels@),
    {
        out[0] = PACKET_STICKS;
        put_le32(out, 1, self.tx_id);
        put_le32(out, 5, self.rx_id);
        let ghost head = out@.subrange(0, 9);
        assert(head =~= seq![out@[0]] + le32(self.tx_id) + le32(self.rx_id));
        let mut ch: usize = 0;
        while ch < 14
            invariant
                ch <= 14,
                out@.len() == 38,
                head == out@.subrange(0, 9),
                forall|k: int| 0 <= k < 2 * ch ==> out@[9 + k] == stick_byte(self.channels@, k),
            decreases 14 - ch,
        {
            let v0 = self.channels[ch];
            let val = if v0 < 1000 { 1000 } else if v0 > 2000 { 2000 } else { v0 };
            out[9 + ch * 2] = (val & 0xFF) as u8;
            out[10 + ch * 2] = ((val >> 8) & 0x0F) as u8;
            assert(stick_byte(self.channels@, 2 * ch as int) == (val & 0xFF) as u8);
            assert(stick_byte(self.channels@, 2 * ch + 1) == ((val >> 8u16) & 0x0F) as u8);
            ch += 1;
        }
        out[37] = 0x00;
        assert forall|k: int| 9 <= k < 37 implies out@[k] == stick_byte(self.channels@, k - 9) by {
            assert(out@[9 + (k - 9)] == stick_byte(self.channels@, k - 9));
        }
        assert(out@ =~= stick_packet(self.tx_id, self.rx_id, self.channels@));
    }

    /// Build the receiver settings frame.
    pub fn build_settings_packet(&self, out: &mut [u8; TX_PACKET_SIZE])
        ensures
            final(out)@ == settings_packet(self.tx_id, self.rx_id),
    {
        out[0] = PACKET_SETTINGS;
        put_le32(out, 1, self.tx_id);
        put_le32(out, 5, self.rx_id);
        out[9] = 0xFD;
        out[10] = 0xFF;
        out[11] = 0x90;
        out[12] = 0x01;
        out[13] = 0x00;
        out[14] = 0x00;
        put_fill(out, 15, 37, 0xFF);
        out[18] = 0x05;
        out[19] = 0xDC;
        out[20] = 0x05;
        out[21] = 0xDE;
        out[37] = 0x00;
        assert(out@ =~= settings_packet(self.tx_id, self.rx_id));
    }

    /// Build the failsafe frame.
    pub fn build_failsafe_packet(&self, out: &mut [u8; TX_PACKET_SIZE])
        ensures
            final(out)@ == failsafe_packet(self.tx_id, self.rx_id),
    {
        out[0] = PACKET_FAILSAFE;
        put_le32(out, 1, self.tx_id);
        put_le32(out, 5, self.rx_id);
        let ghost head = out@.subrange(0, 9);
        assert(head =~= seq![out@[0]] + le32(self.tx_id) + le32(self.rx_id));
        let mut ch: usize = 0;
        while ch < 14
            invariant
                ch <= 14,
                out@.len() == 38,
                head == out@.subrange(0, 9),
                forall|k: int| 0 <= k < 2 * ch ==> out@[9 + k] == failsafe_byte(k),
            decreases 14 - ch,
        {
            if ch == 2 {
                out[9 + ch * 2] = 0xE8;
                out[10 + ch * 2] = 0x03;
            } else {
                out[9 + ch * 2] = 0xFF;
                out[10 + ch * 2] = 0xFF;
            }
            ch += 1;
        }
        out[37] = 0x00;
        assert forall|k: int| 9 <= k < 37 implies out@[k] == failsafe_byte(k - 9) by {
            assert(out@[9 + (k - 9)] == failsafe_byte(k - 9));
        }
        assert(out@ =~= failsafe_packet(self.tx_id, self.rx_id));
    }

    /// Build the bind frame of the current bind phase.
    pub fn build_bind_packet(&self, out: &mut [u8; TX_PACKET_SIZE])
        ensures
            final(out)@ == bind_packet(self.bind_phase, self.tx_id, self.rx_id, self.hopping_table@),
    {
        put_le32(out, 1, self.tx_id);
        out[10] = 0x00;
        if self.bind_phase == 1 {
            out[0] = PACKET_BIND1;
            put_fill(out, 5, 9, 0xFF);
            out[9] = 0x01;
            put_hops(out, &self.hopping_table);
            put_fill(out, 27, 37, 0xFF);
        } else if self.bind_phase == 2 || self.bind_phase == 3 {
            out[0] = PACKET_BIND2;
            put_fill(out, 5, 9, 0xFF);
            out[9] = if self.bind_phase == 2 { 0x00 } else { 0x01 };
            put_hops(out, &self.hopping_table);
            out[27] = 0x01;
            out[28] = 0x80;
            put_fill(out, 29, 37, 0xFF);
        } else {
            out[0] = PACKET_BIND2;
            put_le32(out, 5, self.rx_id);
            out[9] = 0x02;
            put_fill(out, 11, 27, 0xFF);
            out[27] = 0x01;
            out[28] = 0x80;
            put_fill(out, 29, 37, 0xFF);
        }
        out[37] = 0x00;
        assert(out@ =~= bind_packet(self.bind_phase, self.tx_id, self.rx_id, self.hopping_table@));
    }
}

/// The receiver ID stored for the active model, when it names a real
/// receiver.
pub fn load_saved_rx_id(storage: &RadioStorage) -> (r: Option<u32>)
    ensures
        ({
            let id = storage.models@[active_index(storage.radio)].rx_id;
            r == (if id != 0 && id != 0xFFFF_FFFF { Some(id) } else { None::<u32> })
        }),
{
    saved_rx_id(storage.active_model().rx_id)
}

/// Front-end mode with the receive LNA on.
pub const RF_MODE_RX_EN: u8 = 0b0000_0001;
/// Front-end mode with the transmit PA on.
pub const RF_MODE_TX_EN: u8 = 0b0000_0010;
/// Front-end off.
pub const RF_MODE_OFF: u8 = 0b0000_0011;

/// What the caller does with the transceiver after a frame tick: load
/// `packet` into the FIFO and transmit on `channel`, switch the antenna
/// first when asked, and set the output power when one is given.
pub struct TickAction {
    pub packet: [u8; TX_PACKET_SIZE],
    pub channel: u8,
    pub switch_antenna: bool,
    pub power: Option<u8>,
}

/// What the caller does after the transceiver's done signal.
#[derive(Copy, Clone, Debug, PartialEq, Eq, Structural)]
pub enum Gio2Action {
    /// Nothing was pending.
    NoAction,
    /// Transmission done: set the front end to `rf_mode` and start receiving.
    StartRx { rf_mode: u8 },
    /// Reception done: return the transceiver to standby.
    Standby,
}

/// The counters every frame tick moves: packets sent (wrapping), frames
/// since the last downlink (saturating); over 52 of those (about 200 ms)
/// the link counts as lost.
pub open spec fn after_tick_counters(s: Afhds2a) -> Afhds2a {
    let sent = s.telemetry.packets_sent.wrapping_add(1);
    let loss: u16 = if s.loss_counter == 0xFFFF { 0xFFFF } else { (s.loss_counter + 1) as u16 };
    let t = TelemetryData { packets_sent: sent, ..s.telemetry };
    let t2 = if loss > 52 { TelemetryData { connected: false, rssi: 0, ..t } } else { t };
    Afhds2a { telemetry: t2, loss_counter: loss, ..s }
}

/// One frame tick: the next state, the frame to send, its channel, whether
/// to switch antennas, and a power level to set. Binding alternates
/// channels 13 and 140 and, in the confirm phase, returns to normal after
/// four confirmations. Normal operation hops through the table, switches
/// antenna on every hop but the wrap to slot 0, sends a failsafe frame
/// every 1569th frame, and otherwise the frame the receiver asked for or
/// the control frame.
pub open spec fn tick_effect(s: Afhds2a) -> (Afhds2a, Seq<u8>, u8, bool, Option<u8>) {
    let s1 = after_tick_counters(s);
    if s.mode == RadioMode::Binding {
        let ch: u8 = if s1.telemetry.packets_sent % 2 == 1 { 0x0D } else { 0x8C };
        let pkt = bind_packet(s.bind_phase, s.tx_id, s.rx_id, s.hopping_table@);
        if s.bind_phase == 4 {
            let cc: u8 = if s.bind_confirm_count == 0xFF { 0xFF } else { (s.bind_confirm_count + 1) as u8 };
            if cc >= 4 {
                (
                    Afhds2a {
                        mode: RadioMode::Normal,
                        bind_phase: 0,
                        bind_confirm_count: 0,
                        bind_done: true,
                        rx_id_needs_save: true,
                        hopping_idx: 1,
                        next_packet_type: PacketType::Sticks,
                        sub_state: SubState::WaitingTxDone,
                        ..s1
                    },
                    pkt,
                    ch,
                    false,
                    Some(HIGH_POWER),
                )
            } else {
                (Afhds2a { bind_confirm_count: cc, sub_state: SubState::WaitingTxDone, ..s1 }, pkt, ch, false, None)
            }
        } else {
            (Afhds2a { sub_state: SubState::WaitingTxDone, ..s1 }, pkt, ch, false, None)
        }
    } else {
        let ch = s.hopping_table@[s.hopping_idx as int % 16];
        let ni: u8 = ((s.hopping_idx + 1) % 16) as u8;
        let npt = if s.next_packet_type == PacketType::Sticks && s1.telemetry.packets_sent % 1569 == 0 {
            PacketType::Failsafe
        } else {
            s.next_packet_type
        };
        let pkt = match npt {
            PacketType::Settings => settings_packet(s.tx_id, s.rx_id),
            PacketType::Failsafe => failsafe_packet(s.tx_id, s.rx_id),
            PacketType::Sticks => stick_packet(s.tx_id, s.rx_id, s.channels@),
        };
        (
            Afhds2a { hopping_idx: ni, next_packet_type: PacketType::Sticks, sub_state: SubState::WaitingTxDone, ..s1 },
            pkt,
            ch,
            ni != 0,
            None,
        )
    }
}

/// Little-endian 32-bit word at `at`.
pub open spec fn le32_at(b: Seq<u8>, at: int) -> u32 {
    (b[at] as int + b[at + 1] as int * 256 + b[at + 2] as int * 65536 + b[at + 3] as int * 16777216) as u32
}

/// Signal strength in percent from the raw RSSI register (lower is
/// stronger): 256 - raw * 8 / 5, clamped to 0..=100.
pub open spec fn rssi_of(raw: u8) -> u8 {
    let v = 256 - (raw as int * 8) / 5;
    if v < 0 {
        0
    } else if v > 100 {
        100
    } else {
        v as u8
    }
}

/// Little-endian value of the sensor record at `off`.
pub open spec fn sensor_val(rx: Seq<u8>, off: int) -> u16 {
    (rx[off + 2] as int + rx[off + 3] as int * 256) as u16
}

/// One i-BUS sensor record: receiver or external voltage (0.01 V units,
/// stored in mV, wrapping past 65535 mV), or link quality as
/// 100 - error rate.
pub open spec fn apply_sensor(t: TelemetryData, id: u8, val: u16) -> TelemetryData {
    if id == 0x00 || id == 0x03 {
        TelemetryData { rx_voltage_mv: val.wrapping_mul(10), ..t }
    } else if id == 0xFE {
        TelemetryData { rssi: (if val >= 100 { 0 } else { 100 - val }) as u8, ..t }
    } else {
        t
    }
}

/// The first `k` sensor records of a downlink frame (4 bytes each from
/// byte 10), later records overriding earlier ones.
pub open spec fn sensors(t: TelemetryData, rx: Seq<u8>, k: int) -> TelemetryData
    decreases k,
{
    if k <= 0 {
        t
    } else {
        let off = 10 + 4 * (k - 1);
        apply_sensor(sensors(t, rx, k - 1), rx[off], sensor_val(rx, off))
    }
}

/// An ID that only stands in for a receiver not yet heard from.
pub open spec fn is_placeholder(rx_id: u32) -> bool {
    rx_id == 0xFFFF_FFFF || rx_id == 0 || (rx_id & 0xFFFF_0000) == 0x0001_0000
}

/// The engine after a received frame with a good CRC. While binding, a
/// receiver's bind answer gives its ID and moves to the confirm phase.
/// Otherwise a downlink frame for this transmitter is taken when its
/// receiver ID matches, or captured when only a placeholder is known; it
/// may ask for the settings or failsafe frame, or carries telemetry.
pub open spec fn rx_effect(s: Afhds2a, rx: Seq<u8>, raw_rssi: u8) -> Afhds2a {
    if s.mode == RadioMode::Binding {
        if rx[0] == PACKET_BIND2 && rx[9] == 0x01 {
            Afhds2a { rx_id: le32_at(rx, 5), bind_phase: 4, bind_confirm_count: 0, ..s }
        } else {
            s
        }
    } else if rx[0] == 0xAA || rx[0] == 0xAC {
        let rid = le32_at(rx, 5);
        let capture = is_placeholder(s.rx_id) && rid != 0xFFFF_FFFF && rid != 0;
        if le32_at(rx, 1) != s.tx_id || (!capture && rid != s.rx_id && !is_placeholder(s.rx_id)) {
            s
        } else {
            let s1 = if capture {
                Afhds2a { rx_id: rid, rx_id_needs_save: true, bind_done: true, ..s }
            } else {
                Afhds2a { bind_done: true, ..s }
            };
            if rx[0] == 0xAA && rx[9] == 0xFC {
                Afhds2a { next_packet_type: PacketType::Settings, ..s1 }
            } else if rx[0] == 0xAA && rx[9] == 0xFD {
                Afhds2a { next_packet_type: PacketType::Failsafe, ..s1 }
            } else {
                let t = TelemetryData {
                    connected: true,
                    packets_received: s1.telemetry.packets_received.wrapping_add(1),
                    rssi: rssi_of(raw_rssi),
                    ..s1.telemetry
                };
                Afhds2a { telemetry: sensors(t, rx, 6), loss_counter: 0, ..s1 }
            }
        }
    } else {
        s
    }
}

/// Little-endian word at `at` of a received frame.
fn read_le32(rx: &[u8; RX_PACKET_SIZE], at: usize) -> (w: u32)
    requires
        at + 4 <= 37,
    ensures
        w == le32_at(rx@, at as int),
{
    rx[at] as u32 + (rx[at + 1] as u32) * 256 + (rx[at + 2] as u32) * 65536 + (rx[at + 3] as u32) * 16777216
}

impl Afhds2a {
    /// The engine keeps its hop slot within the table.
    pub open spec fn wf(&self) -> bool {
        self.hopping_idx < 16
    }

    /// A new engine for `tx_id`, bound to `saved_rx_id` when one was stored.
    pub fn new(tx_id: u32, saved_rx_id: Option<u32>) -> (e: Self)
        ensures
            e.wf(),
            e.tx_id == tx_id,
            e.rx_id == (match saved_rx_id { Some(r) => r, None => 0xFFFF_FFFFu32 }),
            e.hopping_table@ == hopping_table_of(tx_id),
            e.hopping_idx == 0,
            e.mode == RadioMode::Normal,
            e.sub_state == SubState::Idle,
            e.bind_phase == 0,
            e.bind_confirm_count == 0,
            e.bind_done == (e.rx_id != 0xFFFF_FFFF && e.rx_id != 0),
            !e.rx_id_needs_save,
            e.next_packet_type == PacketType::Sticks,
            e.channels@ == Seq::new(14, |i: int| 1500u16),
            e.telemetry == (TelemetryData { connected: false, rssi: 0, rx_voltage_mv: 0, packets_sent: 0, packets_received: 0 }),
            e.loss_counter == 0,
    {
        let hopping_table = calculate_hopping_table(tx_id);
        let rx_id = match saved_rx_id {
            Some(r) => r,
            None => 0xFFFF_FFFF,
        };
        let is_initially_bound = rx_id != 0xFFFF_FFFF && rx_id != 0;
        let e = Afhds2a {
            tx_id,
            rx_id,
            hopping_table,
            hopping_idx: 0,
            mode: RadioMode::Normal,
            sub_state: SubState::Idle,
            bind_phase: 0,
            bind_confirm_count: 0,
            bind_done: is_initially_bound,
            rx_id_needs_save: false,
            next_packet_type: PacketType::Sticks,
            channels: [1500u16; 14],
            telemetry: TelemetryData::new(),
            loss_counter: 0,
        };
        assert(e.channels@ =~= Seq::new(14, |i: int| 1500u16));
        e
    }

    /// Take 14 new channel pulse widths.
    pub fn set_channels(&mut self, chs: &[u16; NUM_CHANNELS])
        ensures
            *final(self) == (Afhds2a { channels: *chs, ..*old(self) }),
    {
        self.channels = *chs;
    }

    /// Enter binding (phase 1, bind power) or leave it: back to normal at
    /// high power, bound; a receiver that never answered gets an ID derived
    /// from the transmitter ID, and the ID is marked for saving. Returns the
    /// output power to set.
    pub fn set_bind_mode(&mut self, enable: bool) -> (power: u8)
        ensures
            power == (if enable { BIND_POWER } else { HIGH_POWER }),
            *final(self) == bind_mode_set(*old(self), enable),
    {
        if enable {
            self.mode = RadioMode::Binding;
            self.bind_phase = 1;
            self.bind_confirm_count = 0;
            self.bind_done = false;
            BIND_POWER
        } else {
            self.mode = RadioMode::Normal;
            self.bind_phase = 0;
            self.bind_confirm_count = 0;
            self.bind_done = true;
            self.next_packet_type = PacketType::Sticks;
            if self.rx_id == 0 || self.rx_id == 0xFFFF_FFFF {
                self.rx_id = 0x0001_0000 | (self.tx_id & 0xFFFF);
            }
            self.rx_id_needs_save = true;
            HIGH_POWER
        }
    }

    /// Switch to another receiver ID (0 means none): bound when it is a
    /// real ID; the link starts over.
    pub fn set_rx_id(&mut self, rx_id: u32)
        ensures
            *final(self) == (Afhds2a {
                rx_id: if rx_id != 0 { rx_id } else { 0xFFFF_FFFFu32 },
                bind_done: rx_id != 0 && rx_id != 0xFFFF_FFFF,
                loss_counter: 0,
                telemetry: TelemetryData { connected: false, ..old(self).telemetry },
                ..*old(self)
            }),
    {
        self.rx_id = if rx_id != 0 { rx_id } else { 0xFFFF_FFFF };
        self.bind_done = rx_id != 0 && rx_id != 0xFFFF_FFFF;
        self.loss_counter = 0;
        self.telemetry.connected = false;
    }

    /// Take a received frame with a good CRC (see `rx_effect`); `raw_rssi`
    /// is the RSSI register read for it.
    pub fn process_rx_packet(&mut self, rx: &[u8; RX_PACKET_SIZE], raw_rssi: u8)
        ensures
            *final(self) == rx_effect(*old(self), rx@, raw_rssi),
    {
        if self.mode == RadioMode::Binding {
            if rx[0] == PACKET_BIND2 && rx[9] == 0x01 {
                self.rx_id = read_le32(rx, 5);
                self.bind_phase = 4;
                self.bind_confirm_count = 0;
            }
            return;
        }
        if rx[0] == 0xAA || rx[0] == 0xAC {
            if read_le32(rx, 1) != self.tx_id {
                return;
            }
            let rid = read_le32(rx, 5);
            let placeholder = self.rx_id == 0xFFFF_FFFF || self.rx_id == 0 || (self.rx_id & 0xFFFF_0000) == 0x0001_0000;
            if placeholder && rid != 0xFFFF_FFFF && rid != 0 {
                self.rx_id = rid;
                self.rx_id_needs_save = true;
                self.bind_done = true;
            } else if rid != self.rx_id && !placeholder {
                return;
            } else {
                self.bind_done = true;
            }
            if rx[0] == 0xAA && rx[9] == 0xFC {
                self.next_packet_type = PacketType::Settings;
                return;
            } else if rx[0] == 0xAA && rx[9] == 0xFD {
                self.next_packet_type = PacketType::Failsafe;
                return;
            }
            self.telemetry.connected = true;
            self.telemetry.packets_received = self.telemetry.packets_received.wrapping_add(1);
            self.loss_counter = 0;
            let rssi_val: i32 = 256i32 - ((raw_rssi as i32 * 8) / 5);
            self.telemetry.rssi = if rssi_val < 0 { 0 } else if rssi_val > 100 { 100 } else { rssi_val as u8 };
            let ghost t0 = self.telemetry;
            let ghost s0 = *self;
            let mut k: usize = 0;
            while k < 6
                invariant
                    k <= 6,
                    *self == (Afhds2a { telemetry: sensors(t0, rx@, k as int), ..s0 }),
                decreases 6 - k,
            {
                let offset = 10 + 4 * k;
                let sensor_id = rx[offset];
                let val = rx[offset + 2] as u16 + (rx[offset + 3] as u16) * 256;
                if sensor_id == 0x00 || sensor_id == 0x03 {
                    self.telemetry.rx_voltage_mv = val.wrapping_mul(10);
                } else if sensor_id == 0xFE {
                    let lqi = if val >= 100 { 0 } else { 100 - val };
                    self.telemetry.rssi = lqi as u8;
                }
                k += 1;
            }
        }
    }

    /// One frame tick (see `tick_effect`). The engine now waits for the
    /// transceiver's done signal.
    pub fn on_timer_tick(&mut self) -> (a: TickAction)
        requires
            old(self).wf(),
        ensures
            final(self).wf(),
            *final(self) == tick_effect(*old(self)).0,
            a.packet@ == tick_effect(*old(self)).1,
            a.channel == tick_effect(*old(self)).2,
            a.switch_antenna == tick_effect(*old(self)).3,
            a.power == tick_effect(*old(self)).4,
    {
        self.telemetry.packets_sent = self.telemetry.packets_sent.wrapping_add(1);
        self.loss_counter = self.loss_counter.saturating_add(1);
        if self.loss_counter > 52 {
            self.telemetry.connected = false;
            self.telemetry.rssi = 0;
        }
        assert(*self == after_tick_counters(*old(self)));
        let mut tx_buf = [0u8; 38];
        let channel: u8;
        let mut switch_antenna = false;
        let mut power: Option<u8> = None;
        if self.mode == RadioMode::Binding {
            let ps = self.telemetry.packets_sent;
            channel = if (ps & 1) != 0 { 0x0D } else { 0x8C };
            assert((ps & 1 != 0) == (ps % 2 == 1)) by (bit_vector);
            self.build_bind_packet(&mut tx_buf);
            if self.bind_phase == 4 {
                self.bind_confirm_count = self.bind_confirm_count.saturating_add(1);
                if self.bind_confirm_count >= 4 {
                    self.mode = RadioMode::Normal;
                    self.bind_phase = 0;
                    self.bind_confirm_count = 0;
                    self.bind_done = true;
                    self.rx_id_needs_save = true;
                    self.hopping_idx = 1;
                    self.next_packet_type = PacketType::Sticks;
                    power = Some(HIGH_POWER);
                }
            }
        } else {
            let hi = self.hopping_idx;
            let slot = (hi as usize) & 0x0F;
            let hp = hi + 1;
            let ni = hp & 0x0F;
            assert(slot == hi as usize % 16 && ni == hp % 16) by (bit_vector)
                requires
                    slot == (hi as usize) & 0x0F,
                    ni == hp & 0x0F,
            ;
            channel = self.hopping_table[slot];
            self.hopping_idx = ni;
            if self.hopping_idx != 0 {
                switch_antenna = true;
            }
            if self.next_packet_type == PacketType::Sticks && self.telemetry.packets_sent % 1569 == 0 {
                self.next_packet_type = PacketType::Failsafe;
            }
            match self.next_packet_type {
                PacketType::Settings => {
                    self.build_settings_packet(&mut tx_buf);
                    self.next_packet_type = PacketType::Sticks;
                },
                PacketType::Failsafe => {
                    self.build_failsafe_packet(&mut tx_buf);
                    self.next_packet_type = PacketType::Sticks;
                },
                PacketType::Sticks => {
                    self.build_stick_packet(&mut tx_buf);
                },
            }
        }
        self.sub_state = SubState::WaitingTxDone;
        TickAction { packet: tx_buf, channel, switch_antenna, power }
    }

    /// Whether the engine waits for a received frame; the caller then reads
    /// the CRC flag, the FIFO and the RSSI register before reporting the
    /// done signal.
    pub fn is_listening(&self) -> (b: bool)
        ensures
            b == (self.sub_state == SubState::ListeningRx),
    {
        self.sub_state == SubState::ListeningRx
    }

    /// The transceiver's done signal. After a transmission: start receiving
    /// (front end off while binding, where the bind phase cycles 1, 2, 3;
    /// receive LNA on otherwise). After a reception: take the frame when
    /// its CRC was good, then standby.
    pub fn on_gio2_event(&mut self, crc_ok: bool, rx: &[u8; RX_PACKET_SIZE], raw_rssi: u8) -> (a: Gio2Action)
        requires
            old(self).wf(),
        ensures
            final(self).wf(),
            old(self).sub_state == SubState::WaitingTxDone ==> {
                &&& a == Gio2Action::StartRx {
                    rf_mode: if old(self).mode == RadioMode::Binding { RF_MODE_OFF } else { RF_MODE_RX_EN },
                }
                &&& *final(self) == (Afhds2a {
                    sub_state: SubState::ListeningRx,
                    bind_phase: if old(self).mode == RadioMode::Binding && old(self).bind_phase < 4 {
                        (old(self).bind_phase % 3 + 1) as u8
                    } else {
                        old(self).bind_phase
                    },
                    ..*old(self)
                })
            },
            old(self).sub_state == SubState::ListeningRx ==> {
                &&& a == Gio2Action::Standby
                &&& *final(self) == if crc_ok {
                    rx_effect(Afhds2a { sub_state: SubState::Idle, ..*old(self) }, rx@, raw_rssi)
                } else {
                    Afhds2a { sub_state: SubState::Idle, ..*old(self) }
                }
            },
            old(self).sub_state == SubState::Idle ==> a == Gio2Action::NoAction && *final(self) == *old(self),
    {
        match self.sub_state {
            SubState::WaitingTxDone => {
                self.sub_state = SubState::ListeningRx;
                let rf_mode = if self.mode == RadioMode::Binding {
                    if self.bind_phase < 4 {
                        self.bind_phase = (self.bind_phase % 3) + 1;
                    }
                    RF_MODE_OFF
                } else {
                    RF_MODE_RX_EN
                };
                Gio2Action::StartRx { rf_mode }
            },
            SubState::ListeningRx => {
                self.sub_state = SubState::Idle;
                if crc_ok {
                    self.process_rx_packet(rx, raw_rssi);
                }
                Gio2Action::Standby
            },
            SubState::Idle => Gio2Action::NoAction,
        }
    }
}

} // verus!
