use flysky_i6x::storage::{
    load_storage, save_storage, saved_rx_id, FlashError, FlashErrorKind, LoadSource, ModelConfig, RadioConfig,
    RadioStorage, Stm32Flash, KEY_MODEL_BASE, KEY_RADIO,
};

fn image(s: &RadioStorage) -> Vec<u8> {
    let mut v = s.radio.to_bytes();
    for m in s.models.iter() {
        v.extend(m.to_bytes());
    }
    v
}

#[test]
fn radio_image_round_trip() {
    let mut r = RadioConfig::default_factory();
    r.lcd_contrast = 45;
    r.sticks[1].min = 123;
    let b = r.to_bytes();
    assert_eq!(b.len(), 128);
    let arr: [u8; 128] = b.clone().try_into().unwrap();
    assert_eq!(RadioConfig::from_bytes(&arr).to_bytes(), b);
}

#[test]
fn model_image_round_trip() {
    let mut m = ModelConfig::default_for_index(4);
    m.mixes[2].weight = -35;
    m.rx_id = 0xDEAD_BEEF;
    let b = m.to_bytes();
    assert_eq!(b.len(), 128);
    assert_eq!(&b[0..8], b"MODEL 05");
    let arr: [u8; 128] = b.clone().try_into().unwrap();
    assert_eq!(ModelConfig::from_bytes(&arr).to_bytes(), b);
}

#[test]
fn sanitize_repairs_and_is_idempotent() {
    let mut s = RadioStorage::default_factory();
    s.radio.active_model = 77;
    s.radio.lcd_contrast = 0;
    s.models[2].dr_high = [10, 200, 50];
    s.models[2].thr_curve_pts = 7;
    s.models[5].rf_protocol = 9;
    s.sanitize();
    assert!(s.radio.active_model < 20);
    assert!(s.models[2].dr_high.iter().all(|&r| (30..=100).contains(&r)));
    assert!(s.models[2].thr_curve_pts == 5 || s.models[2].thr_curve_pts == 9);
    assert!(s.models[5].rf_protocol <= 1);
    let once = image(&s);
    s.sanitize();
    assert_eq!(image(&s), once);
    // Factory storage is already valid: unchanged.
    let mut f = RadioStorage::default_factory();
    let before = image(&f);
    f.sanitize();
    assert_eq!(image(&f), before);
}

#[test]
fn load_falls_back_to_factory() {
    let none: [Option<ModelConfig>; 20] = [None; 20];
    let (s, src) = load_storage(None, &none, &[0xFF; 2688], &[0xFF; 64]);
    assert_eq!(src, LoadSource::Factory);
    let mut f = RadioStorage::empty();
    f.init_default();
    assert_eq!(image(&s), image(&f));
    assert_eq!(&s.models[7].name[..8], b"MODEL 08");
}

#[test]
fn load_prefers_the_record_log() {
    let mut models: [Option<ModelConfig>; 20] = [None; 20];
    let mut m = ModelConfig::default_for_index(1);
    m.rx_id = 42;
    models[1] = Some(m);
    let mut r = RadioConfig::default_factory();
    r.active_model = 1;
    let (s, src) = load_storage(Some(r), &models, &[0xFF; 2688], &[0xFF; 64]);
    assert_eq!(src, LoadSource::Log);
    assert_eq!(s.active_model().rx_id, 42);
    assert_eq!(s.active_model_index(), 1);
}

#[test]
fn saving_writes_radio_then_active_model() {
    let mut s = RadioStorage::default_factory();
    s.radio.active_model = 3;
    let items = save_storage(&s);
    assert_eq!(items.len(), 2);
    assert_eq!(items[0].0, KEY_RADIO);
    assert_eq!(items[0].1, s.radio.to_bytes());
    assert_eq!(items[1].0, KEY_MODEL_BASE + 3);
    assert_eq!(items[1].1, s.models[3].to_bytes());
}

#[test]
fn receiver_id_filter() {
    assert_eq!(saved_rx_id(0), None);
    assert_eq!(saved_rx_id(0xFFFF_FFFF), None);
    assert_eq!(saved_rx_id(0x1234), Some(0x1234));
}

#[test]
fn flash_argument_checks() {
    let f = Stm32Flash;
    assert_eq!(f.capacity(), 0x0802_0000);
    assert_eq!(f.check_read(0x0801_FFFF, 1), Ok(()));
    assert_eq!(f.check_read(0x0801_FFFF, 2), Err(FlashError::OutOfBounds));
    assert_eq!(f.check_erase(0x0801_E000, 0x0801_E800), Ok(()));
    assert_eq!(f.check_erase(0x0801_E001, 0x0801_E800), Err(FlashError::AddressMisaligned));
    assert_eq!(f.check_erase(0x0801_E800, 0x0801_E800), Err(FlashError::AddressMisaligned));
    assert_eq!(f.check_write(2, 0), Ok(false));
    assert_eq!(f.check_write(2, 4), Ok(true));
    assert_eq!(f.check_write(1, 4), Err(FlashError::AddressMisaligned));
    assert_eq!(FlashError::LengthMisaligned.kind(), FlashErrorKind::NotAligned);
    assert_eq!(FlashError::OutOfBounds.kind(), FlashErrorKind::OutOfBounds);
    assert_eq!(FlashError::Timeout.kind(), FlashErrorKind::Other);
    assert_eq!(FlashError::UnlockFailed.kind(), FlashErrorKind::Other);
}

#[test]
fn flash_pages_and_halfwords() {
    let f = Stm32Flash;
    assert_eq!(f.erase_pages(0x0801_E000, 0x0801_F000), Ok(vec![0x0801_E000, 0x0801_E800]));
    assert_eq!(f.erase_pages(0x0801_E000, 0x0801_E000), Err(FlashError::AddressMisaligned));
    assert_eq!(f.program_halfwords(0x100, &[0x34, 0x12, 0xCD, 0xAB]), Ok(vec![(0x100, 0x1234), (0x102, 0xABCD)]));
    assert_eq!(f.program_halfwords(0x100, &[1, 2, 3]), Err(FlashError::AddressMisaligned));
    assert_eq!(f.program_halfwords(0x100, &[]), Ok(vec![]));
    assert_eq!(f.step_status(true, true), Err(FlashError::ProgrammingError));
    assert_eq!(f.step_status(false, true), Err(FlashError::WriteProtectionError));
    assert_eq!(f.step_status(false, false), Ok(()));
}
