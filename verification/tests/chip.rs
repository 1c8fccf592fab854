use flysky_i6x::chip::{apm32_profile, get_mcu_profile, tx_id_from_uid, McuType};

#[test]
fn profiles() {
    let p = get_mcu_profile();
    assert_eq!(p.mcu_type, McuType::Stm32f072);
    assert_eq!(p.name, "STM32F072VB");
    assert_eq!(p.uid_addr, 0x1FFF_F7AC);
    assert_eq!(p.dfu_bootloader_addr, 0x1FFF_C800);
    let a = apm32_profile();
    assert_eq!(a.mcu_type, McuType::Apm32f072);
    assert_eq!(a.dfu_bootloader_addr, 0x1FFF_F000);
}

#[test]
fn tx_id_is_xor_of_uid_words() {
    let uid = [0x01, 0x02, 0x03, 0x04, 0x10, 0x20, 0x30, 0x40, 0xFF, 0x00, 0xFF, 0x00];
    let expected = 0x0403_0201u32 ^ 0x4030_2010 ^ 0x00FF_00FF;
    assert_eq!(tx_id_from_uid(&uid), expected);
    assert_eq!(tx_id_from_uid(&[0u8; 12]), 0);
}
