//! Chip identification: the memory map of each supported microcontroller and
//! the transmitter identifier derived from the silicon unique ID. Reading the
//! ID from memory and jumping to the bootloader are done by the caller.
use vstd::prelude::*;

verus! {

/// Supported MCU types.
#[derive(Copy, Clone, Debug, PartialEq, Eq, Structural)]
pub enum McuType {
    Stm32f072,
    Apm32f072,
}

/// MCU-specific memory map profile.
pub struct McuProfile {
    pub mcu_type: McuType,
    pub name: &'static str,
    pub uid_addr: usize,
    pub dfu_bootloader_addr: usize,
}

/// Address of the unique device ID on the STM32F072.
pub const STM32_UID_ADDR: usize = 0x1FFF_F7AC;
/// Address of the factory bootloader on the STM32F072.
pub const STM32_DFU_ADDR: usize = 0x1FFF_C800;
/// Address of the unique device ID on the APM32F072.
pub const APM32_UID_ADDR: usize = 0x1FFF_F7E8;
/// Address of the factory bootloader on the APM32F072.
pub const APM32_DFU_ADDR: usize = 0x1FFF_F000;

/// STM32F072 memory layout.
pub fn stm32_profile() -> (p: McuProfile)
    ensures
        p.mcu_type == McuType::Stm32f072,
        p.uid_addr == STM32_UID_ADDR,
        p.dfu_bootloader_addr == STM32_DFU_ADDR,
        p.name@ == "STM32F072VB"@,
{
    McuProfile {
        mcu_type: McuType::Stm32f072,
        name: "STM32F072VB",
        uid_addr: STM32_UID_ADDR,
        dfu_bootloader_addr: STM32_DFU_ADDR,
    }
}

/// APM32F072 (Geehy) memory layout.
pub fn apm32_profile() -> (p: McuProfile)
    ensures
        p.mcu_type == McuType::Apm32f072,
        p.uid_addr == APM32_UID_ADDR,
        p.dfu_bootloader_addr == APM32_DFU_ADDR,
        p.name@ == "APM32F072VB"@,
{
    McuProfile {
        mcu_type: McuType::Apm32f072,
        name: "APM32F072VB",
        uid_addr: APM32_UID_ADDR,
        dfu_bootloader_addr: APM32_DFU_ADDR,
    }
}

/// The active MCU profile: this firmware is built for the STM32F072.
pub fn get_mcu_profile() -> (p: McuProfile)
    ensures
        p.mcu_type == McuType::Stm32f072,
        p.uid_addr == STM32_UID_ADDR,
        p.dfu_bootloader_addr == STM32_DFU_ADDR,
        p.name@ == "STM32F072VB"@,
{
    stm32_profile()
}

/// Little-endian 32-bit word of four bytes.
pub open spec fn le_word(b0: u8, b1: u8, b2: u8, b3: u8) -> u32 {
    (b0 as u32 | ((b1 as u32) << 8u32) | ((b2 as u32) << 16u32) | ((b3 as u32) << 24u32)) as u32
}

/// Transmitter identifier of a 96-bit unique ID: the XOR of its three
/// little-endian 32-bit words.
pub open spec fn tx_id_of(uid: Seq<u8>) -> u32 {
    le_word(uid[0], uid[1], uid[2], uid[3]) ^ le_word(uid[4], uid[5], uid[6], uid[7])
        ^ le_word(uid[8], uid[9], uid[10], uid[11])
}

fn word_at(uid: &[u8; 12], i: usize) -> (w: u32)
    requires
        i + 4 <= 12,
    ensures
        w == le_word(uid@[i as int], uid@[i + 1], uid@[i + 2], uid@[i + 3]),
{
    uid[i] as u32 | ((uid[i + 1] as u32) << 8u32) | ((uid[i + 2] as u32) << 16u32) | ((uid[i + 3] as u32) << 24u32)
}

/// Transmitter identifier from the silicon unique ID.
pub fn tx_id_from_uid(uid: &[u8; 12]) -> (id: u32)
    ensures
        id == tx_id_of(uid@),
{
    word_at(uid, 0) ^ word_at(uid, 4) ^ word_at(uid, 8)
}

} // verus!
