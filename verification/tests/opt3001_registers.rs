use airsense::opt3001::registers::{
    ComparisonMode, Config, ConversionMode, ConversionTime, FaultCount, HighLimit,
    InterruptPolarity, LowLimit, LuxRange,
};

#[test]
fn test_low_limit_default() {
    let low_limit = LowLimit::default();
    assert_eq!(low_limit.0, 0x0000);
    assert_eq!(low_limit.exponent(), 0);
    assert_eq!(low_limit.result(), 0);
}

#[test]
fn test_high_limit_default() {
    let high_limit = HighLimit::default();
    assert_eq!(high_limit.0, 0xBFFF);
    assert_eq!(high_limit.exponent(), 11);
    assert_eq!(high_limit.result(), 4095);
}

#[test]
fn test_config_default() {
    let config = Config::default();
    assert_eq!(config.0, 0xC810);
    assert_eq!(config.lux_range(), LuxRange::Automatic);
    assert_eq!(config.conversion_time(), ConversionTime::Ms800);
    assert_eq!(config.conversion_mode(), ConversionMode::Shutdown);
    assert_eq!(config.overflow(), false);
    assert_eq!(config.conversion_ready(), false);
    assert_eq!(config.high(), false);
    assert_eq!(config.low(), false);
    assert_eq!(config.comparison_mode(), ComparisonMode::LatchedWindow);
    assert_eq!(config.polarity(), InterruptPolarity::Low);
    assert_eq!(config.mask_exponent(), false);
    assert_eq!(config.fault_count(), FaultCount::One);
}

use airsense::opt3001::registers::{
    register_value, register_write_frame, Result, REG_CONFIG, REG_DEVICE_ID, REG_HIGH_LIMIT,
    REG_LOW_LIMIT, REG_MANUFACTURER_ID, REG_RESULT,
};

const ADDRESS_BYTES_RESULT: [u8; 2] = [0x34, 0x56];

#[test]
fn test_result() {
    assert_eq!(REG_RESULT, 0x00);
    assert_eq!(Result(register_value(ADDRESS_BYTES_RESULT)), Result(0x3456));
}

#[test]
fn test_config_roundtrip() {
    let frame = register_write_frame(REG_CONFIG, Config(0x1234).0);
    assert_eq!(frame, [REG_CONFIG, 0x12, 0x34]);
    assert_eq!(Config(register_value([frame[1], frame[2]])), Config(0x1234));
}

#[test]
fn test_low_limit_roundtrip() {
    let frame = register_write_frame(REG_LOW_LIMIT, LowLimit(0x0FFF).0);
    assert_eq!(frame, [REG_LOW_LIMIT, 0x0F, 0xFF]);
    assert_eq!(LowLimit(register_value([frame[1], frame[2]])), LowLimit(0x0FFF));
}

#[test]
fn test_high_limit_roundtrip() {
    let frame = register_write_frame(REG_HIGH_LIMIT, HighLimit(0x0ABC).0);
    assert_eq!(frame, [REG_HIGH_LIMIT, 0x0A, 0xBC]);
    assert_eq!(HighLimit(register_value([frame[1], frame[2]])), HighLimit(0x0ABC));
}

#[test]
fn test_manufacturer_id() {
    assert_eq!(REG_MANUFACTURER_ID, 0x7E);
    assert_eq!(register_value([0x54, 0x49]), 0x5449);
}

#[test]
fn test_device_id() {
    assert_eq!(REG_DEVICE_ID, 0x7F);
    assert_eq!(register_value([0x30, 0x01]), 0x3001);
}

#[test]
fn result_register_fields() {
    let result = Result(0x3456);
    assert_eq!(result.exponent(), 3);
    assert_eq!(result.result(), 0x456);
    assert_eq!(Result::default().0, 0);
}

#[test]
fn config_setters_touch_only_their_field() {
    let mut config = Config::default();
    config.set_lux_range(LuxRange::Manual(0x3));
    assert_eq!(config.0, 0x3810);
    assert_eq!(config.lux_range(), LuxRange::Manual(3));
    config.set_conversion_time(ConversionTime::Ms100);
    assert_eq!(config.0, 0x3010);
    config.set_conversion_mode(ConversionMode::Continuous);
    assert_eq!(config.0, 0x3410);
    assert_eq!(config.conversion_mode(), ConversionMode::Continuous);
    config.set_comparison_mode(ComparisonMode::TransparentHysteresis);
    assert_eq!(config.0, 0x3400);
    config.set_polarity(InterruptPolarity::High);
    assert_eq!(config.0, 0x3408);
    config.set_mask_exponent(true);
    assert_eq!(config.0, 0x340C);
    assert!(config.mask_exponent());
    config.set_mask_exponent(false);
    assert_eq!(config.0, 0x3408);
    config.set_fault_count(FaultCount::Eight);
    assert_eq!(config.0, 0x340B);
    assert_eq!(config.fault_count(), FaultCount::Eight);
}

#[test]
fn config_flags_read_their_bits() {
    let config = Config(0x01E0);
    assert!(config.overflow());
    assert!(config.conversion_ready());
    assert!(config.high());
    assert!(config.low());
    let config = Config(0x0600);
    assert_eq!(config.conversion_mode(), ConversionMode::Continuous);
}

#[test]
fn lux_range_codes() {
    assert_eq!(u8::from(LuxRange::Automatic), 0b1100);
    assert_eq!(u8::from(LuxRange::Manual(0x1B)), 0xB);
    assert_eq!(LuxRange::from(0x1C), LuxRange::Automatic);
    assert_eq!(LuxRange::from(0x05), LuxRange::Manual(5));
    assert_eq!(LuxRange::from(u8::from(LuxRange::Manual(12))), LuxRange::Automatic);
    assert_eq!(LuxRange::default(), LuxRange::Automatic);
}

#[test]
fn field_enum_codes() {
    assert_eq!(ConversionTime::from(3), ConversionTime::Ms800);
    assert_eq!(u8::from(ConversionTime::Ms100), 0);
    assert_eq!(ConversionMode::from(3), ConversionMode::Continuous);
    assert_eq!(ConversionMode::from(5), ConversionMode::SingleShot);
    assert_eq!(u8::from(ConversionMode::Continuous), 2);
    assert_eq!(FaultCount::from(6), FaultCount::Four);
    assert_eq!(u8::from(FaultCount::Two), 1);
    assert_eq!(InterruptPolarity::from(2), InterruptPolarity::Low);
    assert_eq!(ComparisonMode::from(1), ComparisonMode::LatchedWindow);
    assert_eq!(FaultCount::default(), FaultCount::One);
    assert_eq!(ConversionTime::default(), ConversionTime::Ms800);
    assert_eq!(InterruptPolarity::default(), InterruptPolarity::Low);
    assert_eq!(ComparisonMode::default(), ComparisonMode::TransparentHysteresis);
}

#[test]
fn limit_setters_mask_their_fields() {
    let mut low = LowLimit::default();
    low.set_exponent(0x1F);
    low.set_result(0xF123);
    assert_eq!(low.0, 0xF123);
    assert_eq!(low.exponent(), 0xF);
    assert_eq!(low.result(), 0x123);
    let mut high = HighLimit::default();
    high.set_result(0);
    assert_eq!(high.0, 0xB000);
}
