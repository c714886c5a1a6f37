use airsense::bme688::math::{
    calc_gas_wait_time, calc_heater_resistance, calc_shared_gas_wait_duration,
};
use airsense::bme688::control::{
    apply_filter_standby, apply_h_oversampling, apply_tp_oversampling, check_chip_id,
    check_variant_id, forced_ctrl_gas, heater_register_values, measurement_order,
    measurement_status, parallel_ctrl_gas, parallel_shared_gas_wait, sequential_ctrl_gas,
    ModeAction, ModeSwitch, SLEEP_MODE_ATTEMPTS,
};
use airsense::bme688::registers::{self, CtrlGas, CtrlHum, CtrlMeas, FieldData};
use airsense::bme688::{
    forced, parallel, sequential, Coeffs, Error, Filter, Mode, Oversampling, SlaveAddress,
    StandbyTime,
};

fn heater_coeffs() -> Coeffs {
    Coeffs {
        g1: -30,
        g2: -9000,
        g3: 18,
        res_heat_range: 1,
        res_heat_val: 40,
        ..Default::default()
    }
}

fn field_block(status: u8, meas_index: u8) -> FieldData {
    let mut bytes = [0u8; 17];
    bytes[0] = status;
    bytes[1] = meas_index;
    FieldData(bytes)
}

#[test]
fn slave_address_values() {
    assert_eq!(u8::from(SlaveAddress::Primary), 0x76);
    assert_eq!(u8::from(SlaveAddress::Secondary), 0x77);
    assert_eq!(u8::from(SlaveAddress::Other(0x42)), 0x42);
    assert_eq!(SlaveAddress::default(), SlaveAddress::Primary);
}

#[test]
fn chip_and_variant_ids() {
    assert_eq!(check_chip_id::<()>(0x61), Ok(()));
    assert_eq!(check_chip_id::<()>(0x60), Err(Error::UnexpectedChipId(0x60)));
    assert_eq!(check_variant_id::<()>(0x01), Ok(()));
    assert_eq!(check_variant_id::<()>(0x00), Err(Error::UnexpectedVariantId(0x00)));
    assert_eq!(Error::<u8>::from(7u8), Error::I2c(7));
}

#[test]
fn mode_switch_from_sleep_writes_target() {
    let mut switch = ModeSwitch::new(Mode::Forced);
    // temperature x2, pressure x16, sleep
    let action = switch.step(CtrlMeas(0b010_101_00));
    assert_eq!(action, ModeAction::Finish(CtrlMeas(0b010_101_01)));
}

#[test]
fn mode_switch_requests_sleep_then_gives_up() {
    let mut switch = ModeSwitch::new(Mode::Sequential);
    for _ in 0..SLEEP_MODE_ATTEMPTS - 1 {
        let action = switch.step(CtrlMeas(0b001_001_10));
        assert_eq!(action, ModeAction::Retry(CtrlMeas(0b001_001_00)));
    }
    let action = switch.step(CtrlMeas(0b001_001_10));
    assert_eq!(action, ModeAction::GiveUp(CtrlMeas(0b001_001_00)));
}

#[test]
fn mode_switch_finishes_after_retry() {
    let mut switch = ModeSwitch::new(Mode::Parallel);
    assert_eq!(switch.step(CtrlMeas(0b000_000_01)), ModeAction::Retry(CtrlMeas(0)));
    assert_eq!(switch.step(CtrlMeas(0)), ModeAction::Finish(CtrlMeas(0b000_000_10)));
}

#[test]
fn coefficients_from_calibration_bytes() {
    let mut raw = [0u8; 42];
    for (i, byte) in raw.iter_mut().enumerate() {
        *byte = i as u8 + 1;
    }
    raw[2] = 0xFE; // t3 = -2
    raw[23] = 0xAB; // h2 msb
    raw[24] = 0xCD; // h1 lsb nibble / h2 lsb nibble
    raw[25] = 0x12; // h1 msb
    raw[39] = 0xFF; // res_heat_range keeps bits 1..0
    let coeffs = Coeffs::from(registers::Coeffs(raw));
    assert_eq!(coeffs.t1, u16::from_le_bytes([32, 33]));
    assert_eq!(coeffs.t2, i16::from_le_bytes([1, 2]));
    assert_eq!(coeffs.t3, -2);
    assert_eq!(coeffs.p1, u16::from_le_bytes([5, 6]));
    assert_eq!(coeffs.p6, 16);
    assert_eq!(coeffs.p7, 15);
    assert_eq!(coeffs.p10, 23);
    assert_eq!(coeffs.h1, 0x12 * 16 + 0xD);
    assert_eq!(coeffs.h2, 0xAB * 16 + 0xC);
    assert_eq!(coeffs.g1, 36);
    assert_eq!(coeffs.g2, i16::from_le_bytes([34, 35]));
    assert_eq!(coeffs.g3, 37);
    assert_eq!(coeffs.res_heat_val, 38);
    assert_eq!(coeffs.res_heat_range, 3);
    assert_eq!(coeffs.range_sw_error, 42);
}

#[test]
fn field_data_fields() {
    let bytes: [u8; 17] = [
        0b1010_0011, 7, 0x12, 0x34, 0x56, 0x78, 0x9A, 0xBC, 0x11, 0x22, 0, 0, 0, 0, 0, 0xAB,
        0b1101_0101,
    ];
    let block = FieldData(bytes);
    assert!(block.new_data());
    assert!(!block.gas_measuring());
    assert!(block.measuring());
    assert_eq!(block.gas_meas_index(), 3);
    assert_eq!(block.meas_index(), 7);
    assert_eq!(block.press_adc().0, 0x12345);
    assert_eq!(block.temp_adc().0, 0x789AB);
    assert_eq!(block.hum_adc().0, 0x1122);
    assert_eq!(block.gas_res_adc().0, 0xAB * 4 + 3);
    assert!(!block.gas_valid());
    assert!(block.heater_stable());
    assert_eq!(block.gas_range(), 5);

    let status = measurement_status(&block);
    assert!(status.is_new_data());
    assert!(status.is_measuring());
    assert!(!status.is_gas_measuring());
    assert!(!status.is_gas_valid());
    assert!(status.is_heater_stable());
    assert_eq!(status.0, 0b1100_1000);
}

#[test]
fn split_field_data_blocks() {
    let mut buffer = [0u8; 51];
    for (i, byte) in buffer.iter_mut().enumerate() {
        *byte = i as u8;
    }
    let blocks = registers::split_field_data(&buffer);
    assert_eq!(blocks[0].0[0], 0);
    assert_eq!(blocks[1].0[0], 17);
    assert_eq!(blocks[2].0[16], 50);
    assert_eq!(registers::field_data_register(2), 0x1D + 34);
}

#[test]
fn measurements_ordered_by_index() {
    let blocks = [field_block(0x80, 5), field_block(0x80, 3), field_block(0x00, 4)];
    assert_eq!(measurement_order(&blocks), vec![1, 0]);
}

#[test]
fn measurements_ordered_across_index_wrap() {
    let blocks = [field_block(0x80, 0), field_block(0x80, 255), field_block(0x80, 1)];
    assert_eq!(measurement_order(&blocks), vec![1, 0, 2]);
}

#[test]
fn no_new_measurements() {
    let blocks = [field_block(0x20, 1), field_block(0x00, 2), field_block(0x40, 3)];
    assert!(measurement_order(&blocks).is_empty());
}

#[test]
fn measurement_durations() {
    let config = sequential::ConfigBuilder::new()
        .with_temperature_os(Oversampling::X2)
        .with_pressure_os(Oversampling::X1)
        .with_humidity_os(Oversampling::X16)
        .build();
    assert_eq!(config.measurement_duration(Mode::Sequential), 42590);
    assert_eq!(config.measurement_duration(Mode::Forced), 42590);
    assert_eq!(config.measurement_duration(Mode::Parallel), 41590);
    let default = forced::Config::default();
    assert_eq!(default.measurement_duration(Mode::Forced), 5293);
}

#[test]
fn oversampling_cycles() {
    assert_eq!(Oversampling::Skipped.cycles(), 0);
    assert_eq!(Oversampling::X1.cycles(), 1);
    assert_eq!(Oversampling::X4.cycles(), 4);
    assert_eq!(Oversampling::X16.cycles(), 16);
}

#[test]
fn oversampling_and_filter_registers() {
    let config = forced::ConfigBuilder::new()
        .with_temperature_os(Oversampling::X2)
        .with_pressure_os(Oversampling::X16)
        .with_humidity_os(Oversampling::X1)
        .with_filter(Filter::Size3)
        .build();
    assert_eq!(apply_tp_oversampling(&config, CtrlMeas(0b111_111_01)).0, 0b010_101_01);
    assert_eq!(apply_h_oversampling(&config, CtrlHum(0xFF)).0, 0xF9);
    // no standby time: standby bits stay as read
    assert_eq!(apply_filter_standby(&config, registers::Config(0b101_000_11)).0, 0b101_010_11);

    let sequential = sequential::ConfigBuilder::new()
        .with_filter(Filter::Size127)
        .with_heater_profile(&[], Some(StandbyTime::Ms10))
        .build();
    assert_eq!(apply_filter_standby(&sequential, registers::Config(0)).0, 0b110_111_00);
}

#[test]
fn forced_heater_steps() {
    let config = forced::ConfigBuilder::new()
        .with_heater_step(300, 100)
        .with_heater_step(200, 280)
        .build();
    // the last added step comes first
    let values = heater_register_values(&config, &heater_coeffs());
    assert_eq!(values, vec![(0, 86, 145), (1, 112, 89)]);
}

#[test]
fn forced_heater_profile_holds_ten_steps() {
    let mut builder = forced::ConfigBuilder::new();
    for i in 0..12u16 {
        builder = builder.with_heater_step(200 + i, 10);
    }
    let values = heater_register_values(&builder.build(), &Coeffs::default());
    assert_eq!(values.len(), 10);
}

#[test]
fn forced_gas_control() {
    let empty = forced::Config::default();
    assert_eq!(forced_ctrl_gas(&empty, CtrlGas(0x2000)).0, 0x0008);
    let config = forced::ConfigBuilder::new().with_heater_step(320, 150).build();
    assert_eq!(forced_ctrl_gas(&config, CtrlGas(0x0F08)).0, 0x2000);
}

#[test]
fn parallel_gas_control() {
    let steps = [
        parallel::HeaterStep::new(320, 5),
        parallel::HeaterStep::new(250, 10),
        parallel::HeaterStep::new(200, 1),
    ];
    let config = parallel::ConfigBuilder::new()
        .with_temperature_os(Oversampling::X1)
        .with_pressure_os(Oversampling::X1)
        .with_humidity_os(Oversampling::X1)
        .with_heater_profile(&steps, 150)
        .build();
    assert_eq!(parallel_ctrl_gas(&config, CtrlGas(0x0008)).0, 0x2300);
    let values = heater_register_values(&config, &heater_coeffs());
    assert_eq!(values[1].2, 10);
    // 150 ms less the 10 ms measurement time leaves 140 ms
    assert_eq!(parallel_shared_gas_wait(&config), Some(146));

    let longer = parallel::ConfigBuilder::new()
        .with_temperature_os(Oversampling::X1)
        .with_pressure_os(Oversampling::X1)
        .with_humidity_os(Oversampling::X1)
        .with_heater_profile(&steps, 65_536 + 110)
        .build();
    assert_eq!(longer.measurement_duration(Mode::Parallel), 10_182);
    // the remaining 65_636 ms are truncated to 16 bits: 100 ms
    assert_eq!(parallel_shared_gas_wait(&longer), Some(116));

    // default oversampling: 4_293 us of measurement, so 996 ms of a 1000 ms shared duration
    let default_os = parallel::ConfigBuilder::new().with_heater_profile(&steps, 1000).build();
    assert_eq!(default_os.measurement_duration(Mode::Parallel), 4_293);
    assert_eq!(parallel_shared_gas_wait(&default_os), Some(224));
    // a shared duration shorter than the measurement leaves nothing to wait
    let short = parallel::ConfigBuilder::new().with_heater_profile(&steps, 3).build();
    assert_eq!(parallel_shared_gas_wait(&short), Some(0));

    let empty = parallel::Config::default();
    assert_eq!(parallel_shared_gas_wait(&empty), None);
    assert_eq!(parallel_ctrl_gas(&empty, CtrlGas(0xFFFF)).0, 0xDFFF);
}

#[test]
fn sequential_gas_control() {
    let steps = [sequential::HeaterStep::new(300, 100), sequential::HeaterStep::new(320, 280)];
    let without_standby = sequential::ConfigBuilder::new().with_heater_profile(&steps, None).build();
    assert_eq!(sequential_ctrl_gas(&without_standby, CtrlGas(0)).0, 0xA200);
    let with_standby = sequential::ConfigBuilder::new()
        .with_heater_profile(&steps, Some(StandbyTime::Ms125))
        .build();
    assert_eq!(sequential_ctrl_gas(&with_standby, CtrlGas(0x8000)).0, 0x2200);
    let values = heater_register_values(&with_standby, &heater_coeffs());
    assert_eq!(values[0], (0, 112, 89));
    assert_eq!(values[1].2, 145);
}

#[test]
fn ctrl_gas_write_then_read() {
    let value = CtrlGas(0xA20B);
    let writes = registers::ctrl_gas_writes(value);
    assert_eq!(writes, [(0x70, 0x0B), (0x71, 0xA2)]);
    assert_eq!(registers::ctrl_gas_from_bytes([writes[0].1, writes[1].1]), value);
}

#[test]
fn heater_register_addresses() {
    assert_eq!(registers::res_heat_register(3), 0x5D);
    assert_eq!(registers::gas_wait_register(9), 0x6D);
    assert_eq!(registers::idac_heat_register(0), 0x50);
}

fn wait_steps(code: u8) -> u32 {
    (code as u32 % 64) * 4u32.pow(code as u32 / 64)
}

#[test]
fn gas_wait_codes() {
    assert_eq!(calc_gas_wait_time(280), 145);
    assert_eq!(calc_gas_wait_time(100), 89);
    assert_eq!(calc_gas_wait_time(63), 63);
    assert_eq!(calc_gas_wait_time(64), 80);
    assert_eq!(calc_gas_wait_time(0), 1);
    assert_eq!(calc_gas_wait_time(4031), 254);
    assert_eq!(calc_gas_wait_time(4032), 0xFF);
    assert_eq!(calc_gas_wait_time(u16::MAX), 0xFF);
    assert_eq!(calc_shared_gas_wait_duration(100), 116);
    assert_eq!(calc_shared_gas_wait_duration(0), 0);
    assert_eq!(calc_shared_gas_wait_duration(1923), 0xFF);
}

#[test]
fn gas_wait_codes_never_overstate() {
    for duration in [1u16, 2, 63, 64, 100, 255, 256, 1000, 1023, 1024, 2000, 4000, 4031] {
        let code = calc_gas_wait_time(duration);
        let steps = wait_steps(code);
        assert!(steps <= duration as u32);
        assert!((duration as u32) < steps + 4u32.pow(code as u32 / 64));
    }
    for duration in [0u16, 1, 30, 100, 500, 1000, 1500, 1922] {
        let code = calc_shared_gas_wait_duration(duration);
        let steps = wait_steps(code);
        assert!(steps * 477 <= duration as u32 * 1000);
        assert!((duration as u32) * 1000 < (steps + 4u32.pow(code as u32 / 64)) * 477);
    }
}

#[test]
fn heater_resistance_values() {
    let coeffs = heater_coeffs();
    assert_eq!(calc_heater_resistance(300, 25, &coeffs), 112);
    assert_eq!(calc_heater_resistance(200, 25, &coeffs), 86);
    // below 200 °C the target is clamped
    assert_eq!(calc_heater_resistance(100, 25, &coeffs), 86);
    let other = Coeffs { g1: 50, g2: -10000, g3: 40, res_heat_range: 2, res_heat_val: 20, ..Default::default() };
    assert_eq!(calc_heater_resistance(320, 20, &other), 108);
    let extreme = Coeffs {
        g1: -128,
        g2: -32768,
        g3: -128,
        res_heat_range: 3,
        res_heat_val: -128,
        ..Default::default()
    };
    assert_eq!(calc_heater_resistance(400, -40, &extreme), 101);
    // above 400 °C the target is clamped
    assert_eq!(calc_heater_resistance(u16::MAX, -40, &extreme), 101);
}
