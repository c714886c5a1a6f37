use airsense::ics43434::{sample_from_word, signed_24};

#[test]
fn signed_24_sign_extends() {
    assert_eq!(signed_24(0x0080_0000), -8_388_608);
    assert_eq!(signed_24(0xFF7F_FFFF), 8_388_607);
    assert_eq!(signed_24(0x1234_5678), 0x34_5678);
    assert_eq!(signed_24(0x00FF_FFFF), -1);
    assert_eq!(signed_24(0), 0);
}

#[test]
fn sample_in_upper_bits() {
    assert_eq!(sample_from_word(0x8000_0000), -8_388_608);
    assert_eq!(sample_from_word(0x7FFF_FF00), 8_388_607);
    assert_eq!(sample_from_word(0xFFFF_FF00), -1);
    assert_eq!(sample_from_word(0x1234_56FF), 0x12_3456);
    assert_eq!(sample_from_word(0x0000_00FF), 0);
}
