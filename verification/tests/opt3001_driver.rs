use airsense::opt3001::math::{encode_lux_hundredths, lux_hundredths};
use airsense::opt3001::registers::{
    ComparisonMode, Config, ConversionMode, FaultCount, HighLimit, InterruptPolarity, LowLimit,
};
use airsense::opt3001::{
    InterruptConfig, InterruptConfigBuilder, SlaveAddress, Status, DEVICE_ID, MANUFACTURER_ID,
};

#[test]
fn slave_addresses() {
    assert_eq!(u8::from(SlaveAddress::Primary), 0x44);
    assert_eq!(u8::from(SlaveAddress::Secondary(1)), 0x45);
    assert_eq!(u8::from(SlaveAddress::Secondary(3)), 0x47);
    assert_eq!(u8::from(SlaveAddress::Secondary(6)), 0x46);
    assert_eq!(SlaveAddress::default(), SlaveAddress::Primary);
    assert_eq!(MANUFACTURER_ID, 0x5449);
    assert_eq!(DEVICE_ID, 0x3001);
}

#[test]
fn status_from_config() {
    let status = Status::from(Config(0xC6A0));
    assert_eq!(
        status,
        Status {
            conversion_mode: ConversionMode::Continuous,
            is_overflow: false,
            is_conversion_ready: true,
            is_result_high: false,
            is_result_low: true,
        }
    );
}

#[test]
fn builder_defaults_follow_documentation() {
    let config = InterruptConfig::builder().build();
    let (low, high, written) = config.register_writes(Config::default());
    assert_eq!(low, LowLimit(0));
    assert_eq!(high, HighLimit(0));
    // polarity low, latched window, one fault: the reset value keeps its bits
    assert_eq!(written, Config(0xC810));
    assert_eq!(InterruptConfigBuilder::new(), InterruptConfigBuilder::default());
}

#[test]
fn interrupt_config_default_is_reset_state() {
    let (low, high, written) = InterruptConfig::default().register_writes(Config(0xC810));
    assert_eq!(low, LowLimit(0));
    assert_eq!(high, HighLimit(0xBFFF));
    assert_eq!(written, Config(0xC800));
}

#[test]
fn builder_sets_every_field() {
    let config = InterruptConfig::builder()
        .polarity(InterruptPolarity::High)
        .comparison_mode(ComparisonMode::TransparentHysteresis)
        .fault_count(FaultCount::Four)
        .low_limit(0x2, 0x123)
        .high_limit(0x1B, 0xFABC)
        .build();
    let (low, high, written) = config.register_writes(Config(0xFFFF));
    assert_eq!(low, LowLimit(0x2123));
    assert_eq!(high, HighLimit(0xBABC));
    assert_eq!(written, Config(0xFFEE));
}

#[test]
fn end_of_conversion_sets_low_limit_exponent_bits() {
    let config = InterruptConfig::builder()
        .low_limit(0x1, 0x0FF)
        .end_of_conversion_interrupt(true)
        .build();
    let (low, _, _) = config.register_writes(Config(0));
    assert_eq!(low, LowLimit(0xD0FF));
    assert_eq!(low.exponent(), 0b1101);
    let config = InterruptConfig::builder()
        .low_limit(0x1, 0x0FF)
        .end_of_conversion_interrupt(true)
        .end_of_conversion_interrupt(false)
        .build();
    let (low, _, _) = config.register_writes(Config(0));
    assert_eq!(low, LowLimit(0x10FF));
}

#[test]
fn test_lux_hundredths() {
    assert_eq!(lux_hundredths(0, 0x0001), 1);
    assert_eq!(lux_hundredths(0, 0x0FFF), 4095);
    assert_eq!(lux_hundredths(3, 0x0456), 8880);
    assert_eq!(lux_hundredths(11, 0x0FFF), 8386560);
}

#[test]
fn test_encode_lux_hundredths() {
    assert_eq!(encode_lux_hundredths(1), (0, 0x0001));
    assert_eq!(encode_lux_hundredths(4095), (0, 0x0FFF));
    assert_eq!(encode_lux_hundredths(8880), (2, 0x8AC));
    assert_eq!(encode_lux_hundredths(0), (0, 0));
    assert_eq!(encode_lux_hundredths(u32::MAX), (11, 0x0FFF));
}

#[test]
fn encode_then_decode_never_overstates() {
    for hundredths in [1u32, 4096, 8881, 123_456, 8_386_560, 8_388_607] {
        let (exponent, mantissa) = encode_lux_hundredths(hundredths);
        let decoded = lux_hundredths(exponent, mantissa);
        assert!(decoded <= hundredths as u64);
        assert!((hundredths as u64) < decoded + (1u64 << exponent));
    }
}

fn to_lux(exponent: u8, fractional_result: u16) -> f32 {
    lux_hundredths(exponent, fractional_result) as f32 * 0.01
}

fn from_lux(lux: f32) -> (u8, u16) {
    encode_lux_hundredths((lux / 0.01) as u32)
}

#[test]
fn test_to_lux() {
    let lux = to_lux(0, 0x0001);
    assert!((lux - 0.01).abs() <= 1e-5);

    let lux = to_lux(0, 0x0FFF);
    assert!((lux - 40.95).abs() <= 1e-5);

    let lux = to_lux(3, 0x0456);
    assert!((lux - 88.80).abs() <= 1e-5);
}

#[test]
fn test_from_lux() {
    let (exp, frac) = from_lux(0.01);
    assert_eq!(exp, 0);
    assert_eq!(frac, 0x0001);

    let (exp, frac) = from_lux(40.95);
    assert_eq!(exp, 0);
    assert_eq!(frac, 0x0FFF);

    // the first match where fractional_result is less than or equal to 0x0FFF
    let (exp, frac) = from_lux(88.80);
    assert_eq!(exp, 2);
    assert_eq!(frac, 0x8AC);
}
