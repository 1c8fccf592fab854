//! Amiccom A7105 2.4 GHz transceiver: command strobes, register map and
//! power levels, and the byte frames its SPI protocol uses. The caller
//! clocks each frame over the bus within one chip-select cycle.
use vstd::prelude::*;
use crate::rf::afhds2a::RF_MODE_TX_EN;

verus! {

pub const STROBE_SLEEP: u8 = 0x80;
pub const STROBE_IDLE: u8 = 0x90;
pub const STROBE_STANDBY: u8 = 0xA0;
pub const STROBE_PLL: u8 = 0xB0;
pub const STROBE_RX: u8 = 0xC0;
pub const STROBE_TX: u8 = 0xD0;
pub const STROBE_RST_WRPTR: u8 = 0xE0;
pub const STROBE_RST_RDPTR: u8 = 0xF0;

pub const REG_MODE: u8 = 0x00;
pub const REG_MODE_CONTROL: u8 = 0x01;
pub const REG_CALC: u8 = 0x02;
pub const REG_FIFO_I: u8 = 0x03;
pub const REG_FIFO_II: u8 = 0x04;
pub const REG_FIFO_DATA: u8 = 0x05;
pub const REG_ID_DATA: u8 = 0x06;
pub const REG_GPIO1: u8 = 0x0B;
pub const REG_GPIO2: u8 = 0x0C;
pub const REG_CLOCK: u8 = 0x0D;
pub const REG_DATA_RATE: u8 = 0x0E;
pub const REG_PLL_I: u8 = 0x0F;
pub const REG_PLL_II: u8 = 0x10;
pub const REG_PLL_III: u8 = 0x11;
pub const REG_PLL_IV: u8 = 0x12;
pub const REG_PLL_V: u8 = 0x13;
pub const REG_TX_I: u8 = 0x14;
pub const REG_TX_II: u8 = 0x15;
pub const REG_DELAY_I: u8 = 0x16;
pub const REG_DELAY_II: u8 = 0x17;
pub const REG_RX: u8 = 0x18;
pub const REG_RX_GAIN_I: u8 = 0x19;
pub const REG_RX_GAIN_II: u8 = 0x1A;
pub const REG_RX_GAIN_III: u8 = 0x1B;
pub const REG_RX_GAIN_IV: u8 = 0x1C;
pub const REG_RSSI_THOLD: u8 = 0x1D;
pub const REG_CODE_I: u8 = 0x1F;
pub const REG_CODE_II: u8 = 0x20;
pub const REG_VCO_CURCAL: u8 = 0x24;
pub const REG_VCO_SBCAL_I: u8 = 0x25;
pub const REG_VCO_SBCAL_II: u8 = 0x26;
pub const REG_TX_TEST: u8 = 0x28;

pub const POWER_100UW: u8 = 0x00;
pub const POWER_1MW: u8 = 0x02;
pub const POWER_10MW: u8 = 0x0D;
pub const POWER_100MW: u8 = 0x1F;

pub const BIND_POWER: u8 = 0x00;
pub const HIGH_POWER: u8 = 0x1F;

/// Register values loaded for AFHDS 2A (500 kbps GFSK), by address;
/// 0xFF leaves a register at its reset value.
pub open spec fn reg_table() -> Seq<u8> {
    seq![0xFF, 0xE2, 0x00, 0x25, 0x00, 0xFF, 0xFF, 0x00, 0x00, 0x00, 0x00, 0x19, 0x01, 0x05, 0x00, 0x50, 0x9E, 0x4B, 0x00, 0x02, 0x16, 0x2B, 0x12, 0x4F, 0x62, 0x80, 0xFF, 0xFF, 0x2A, 0x32, 0xC3, 0x1E, 0x1E, 0xFF, 0x00, 0xFF, 0x00, 0x00, 0x3B, 0x00, 0x17, 0x47, 0x80, 0x03, 0x01, 0x45, 0x18, 0x00, 0x01, 0x0F]
}

/// The register table.
pub fn afhds2a_reg_table() -> (t: [u8; 50])
    ensures
        t@ == reg_table(),
{
    let t: [u8; 50] = [0xFF, 0xE2, 0x00, 0x25, 0x00, 0xFF, 0xFF, 0x00, 0x00, 0x00, 0x00, 0x19, 0x01, 0x05, 0x00, 0x50, 0x9E, 0x4B, 0x00, 0x02, 0x16, 0x2B, 0x12, 0x4F, 0x62, 0x80, 0xFF, 0xFF, 0x2A, 0x32, 0xC3, 0x1E, 0x1E, 0xFF, 0x00, 0xFF, 0x00, 0x00, 0x3B, 0x00, 0x17, 0x47, 0x80, 0x03, 0x01, 0x45, 0x18, 0x00, 0x01, 0x0F];
    assert(t@ =~= reg_table());
    t
}

/// Address byte of a register write (bit 6 clear).
pub open spec fn write_addr(addr: u8) -> u8 {
    addr & 0x3F
}

/// Address byte of a register read (bit 6 set).
pub open spec fn read_addr(addr: u8) -> u8 {
    (addr & 0x3F) | 0x40
}

/// A command strobe: one byte.
pub fn strobe(cmd: u8) -> (f: [u8; 1])
    ensures
        f@ == seq![cmd],
{
    let f = [cmd];
    assert(f@ =~= seq![cmd]);
    f
}

/// Write one register: address (bit 6 clear), then the value.
pub fn write_reg(addr: u8, data: u8) -> (f: [u8; 2])
    ensures
        f@ == seq![write_addr(addr), data],
{
    let f = [addr & 0x3F, data];
    assert(f@ =~= seq![write_addr(addr), data]);
    f
}

/// Read one register: address with bit 6 set, then a dummy byte during
/// which the value comes back (the second byte of the reply).
pub fn read_reg(addr: u8) -> (f: [u8; 2])
    ensures
        f@ == seq![read_addr(addr), 0u8],
{
    let f = [(addr & 0x3F) | 0x40, 0];
    assert(f@ =~= seq![read_addr(addr), 0u8]);
    f
}

/// The 32-bit sync ID, most significant byte first.
pub open spec fn id_bytes(id: u32) -> Seq<u8> {
    seq![(id >> 24u32) as u8, ((id >> 16u32) & 0xFF) as u8, ((id >> 8u32) & 0xFF) as u8, (id & 0xFF) as u8]
}

/// Write the 32-bit preamble / sync ID.
pub fn write_id(id: u32) -> (f: [u8; 5])
    ensures
        f@ == seq![REG_ID_DATA] + id_bytes(id),
{
    let f = [REG_ID_DATA, ((id >> 24) & 0xFF) as u8, ((id >> 16) & 0xFF) as u8, ((id >> 8) & 0xFF) as u8, (id & 0xFF) as u8];
    assert(((id >> 24u32) & 0xFF) as u8 == (id >> 24u32) as u8) by (bit_vector);
    assert(f@ =~= seq![REG_ID_DATA] + id_bytes(id));
    f
}

/// Set the output power level.
pub fn set_power(power: u8) -> (f: [u8; 2])
    ensures
        f@ == seq![write_addr(REG_TX_TEST), power],
{
    write_reg(REG_TX_TEST, power)
}

/// The register writes of the table's first `n` entries, skipping 0xFF.
pub open spec fn table_writes(t: Seq<u8>, n: int) -> Seq<(u8, u8)>
    decreases n,
{
    if n <= 0 {
        seq![]
    } else if t[n - 1] != 0xFF {
        table_writes(t, n - 1).push(((n - 1) as u8, t[n - 1]))
    } else {
        table_writes(t, n - 1)
    }
}

/// FlySky's standard sync ID.
pub const AFHDS2A_SYNC_ID: u32 = 0x5475_C52A;

/// The fixed part of bringing the transceiver up: the sync ID frame and the
/// register table writes as (address, value) pairs. The calibrations that
/// follow poll the chip and are run by the caller.
pub struct InitPlan {
    pub id_frame: [u8; 5],
    pub reg_writes: Vec<(u8, u8)>,
}

pub fn init() -> (p: InitPlan)
    ensures
        p.id_frame@ == seq![REG_ID_DATA] + id_bytes(AFHDS2A_SYNC_ID),
        p.reg_writes@ == table_writes(reg_table(), 50),
{
    let t = afhds2a_reg_table();
    let mut w: Vec<(u8, u8)> = Vec::new();
    let mut i: usize = 0;
    while i < 50
        invariant
            i <= 50,
            t@ == reg_table(),
            w@ == table_writes(t@, i as int),
        decreases 50 - i,
    {
        if t[i] != 0xFF {
            w.push((i as u8, t[i]));
        }
        i = i + 1;
    }
    InitPlan { id_frame: write_id(AFHDS2A_SYNC_ID), reg_writes: w }
}

/// Transmitting a packet: standby (aborting any reception), front end to
/// transmit, reset the write pointer and load the FIFO, set the channel,
/// and strobe transmit, in this order.
pub struct FifoWrite {
    pub standby: [u8; 1],
    pub front_end: u8,
    pub load: Vec<u8>,
    pub channel: [u8; 2],
    pub transmit: [u8; 1],
}

/// The bus work of sending `data` on `channel`.
pub fn write_fifo(data: &[u8], channel: u8) -> (w: FifoWrite)
    ensures
        w.standby@ == seq![STROBE_STANDBY],
        w.front_end == RF_MODE_TX_EN,
        w.load@ == seq![STROBE_RST_WRPTR, REG_FIFO_DATA] + data@,
        w.channel@ == seq![write_addr(REG_PLL_I), channel],
        w.transmit@ == seq![STROBE_TX],
{
    let mut load: Vec<u8> = Vec::new();
    load.push(STROBE_RST_WRPTR);
    load.push(REG_FIFO_DATA);
    let mut i: usize = 0;
    while i < data.len()
        invariant
            i <= data@.len(),
            load@ == seq![STROBE_RST_WRPTR, REG_FIFO_DATA] + data@.subrange(0, i as int),
        decreases data@.len() - i,
    {
        load.push(data[i]);
        i = i + 1;
        assert(load@ =~= seq![STROBE_RST_WRPTR, REG_FIFO_DATA] + data@.subrange(0, i as int));
    }
    assert(data@.subrange(0, data@.len() as int) =~= data@);
    FifoWrite {
        standby: strobe(STROBE_STANDBY),
        front_end: RF_MODE_TX_EN,
        load,
        channel: write_reg(REG_PLL_I, channel),
        transmit: strobe(STROBE_TX),
    }
}

/// Reading `len` bytes from the receive FIFO: reset the read pointer, then
/// the FIFO read address followed by `len` dummy bytes; the reply after the
/// first byte is the data.
pub struct FifoRead {
    pub reset: [u8; 1],
    pub frame: Vec<u8>,
}

pub fn read_fifo(len: usize) -> (r: FifoRead)
    requires
        len < usize::MAX,
    ensures
        r.reset@ == seq![STROBE_RST_RDPTR],
        r.frame@ == seq![0x40u8 | REG_FIFO_DATA] + Seq::new(len as nat, |i: int| 0u8),
{
    let mut frame: Vec<u8> = Vec::new();
    frame.push(0x40 | REG_FIFO_DATA);
    let mut i: usize = 0;
    while i < len
        invariant
            i <= len,
            frame@ == seq![0x40u8 | REG_FIFO_DATA] + Seq::new(i as nat, |j: int| 0u8),
        decreases len - i,
    {
        frame.push(0);
        i = i + 1;
        assert(frame@ =~= seq![0x40u8 | REG_FIFO_DATA] + Seq::new(i as nat, |j: int| 0u8));
    }
    FifoRead { reset: strobe(STROBE_RST_RDPTR), frame }
}

/// Whether a received packet passed the hardware CRC, from the mode
/// register: bit 5 (CRCF) clear means the CRC matched.
pub fn is_crc_ok(mode_reg: u8) -> (ok: bool)
    ensures
        ok == (mode_reg & 0x20 == 0),
{
    (mode_reg & 0x20) == 0
}

/// Read the raw signal strength (lower is stronger).
pub fn read_raw_rssi() -> (f: [u8; 2])
    ensures
        f@ == seq![read_addr(REG_RSSI_THOLD), 0u8],
{
    read_reg(REG_RSSI_THOLD)
}

/// The signature the PLL II register holds after a reset.
pub const RESET_SIGNATURE: u8 = 0x9E;

} // verus!
