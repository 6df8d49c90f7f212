use echonet_sensehat::adapter::finish_read;
use echonet_sensehat::encoding::{encode_humidity, encode_pressure, encode_temperature, Sensor};

#[test]
fn humidity_forty_five_percent_is_0x2d() {
    assert_eq!(Sensor::Humidity.encode(4500), vec![0x2D]);
    assert_eq!(encode_humidity(4500), 0x2D);
}

#[test]
fn humidity_truncates_and_saturates() {
    assert_eq!(encode_humidity(4599), 45);
    assert_eq!(encode_humidity(-150), 0);
    assert_eq!(encode_humidity(25599), 255);
    assert_eq!(encode_humidity(30000), 255);
    assert_eq!(Sensor::Humidity.encode(99), vec![0]);
}

#[test]
fn pressure_rounds_to_nearest() {
    // 1013.25 hPa is exactly 10132.5 on the scale.
    assert_eq!(encode_pressure(101325), 10133);
    assert_eq!(Sensor::Pressure.encode(101325), vec![0x27, 0x95]);
    // 1000 hPa is exactly 10000 on the scale, 999.99 hPa is 9999.9.
    assert_eq!(encode_pressure(100000), 10000);
    assert_eq!(encode_pressure(99999), 10000);
    // 1.01 hPa is 10.1 on the scale.
    assert_eq!(encode_pressure(101), 10);
}

#[test]
fn pressure_scale_end_points() {
    assert_eq!(encode_pressure(0), 0);
    assert_eq!(encode_pressure(-5), 0);
    assert_eq!(encode_pressure(655330), 65533);
    assert_eq!(Sensor::Pressure.encode(655330), vec![0xFF, 0xFD]);
    assert_eq!(encode_pressure(10_000_000), 65535);
    assert_eq!(encode_pressure(i64::MAX), 65535);
}

#[test]
fn temperature_in_tenths() {
    assert_eq!(encode_temperature(2345), 234);
    assert_eq!(Sensor::Temperature.encode(2345), vec![0x00, 0xEA]);
    assert_eq!(encode_temperature(0), 0);
}

#[test]
fn temperature_below_zero_is_twos_complement() {
    // -1.05 degrees truncates toward zero to -1.0.
    assert_eq!(encode_temperature(-105), 0xFFF6);
    assert_eq!(Sensor::Temperature.encode(-105), vec![0xFF, 0xF6]);
    assert_eq!(encode_temperature(-9), 0);
}

#[test]
fn temperature_held_to_reportable_range() {
    assert_eq!(encode_temperature(-300000), 0xF554);
    assert_eq!(encode_temperature(i64::MIN), 0xF554);
    assert_eq!(encode_temperature(9_999_999), 0x7FFE);
    assert_eq!(Sensor::Temperature.encode(i64::MAX), vec![0x7F, 0xFE]);
}

#[test]
fn payload_widths() {
    assert_eq!(Sensor::Humidity.payload_width(), 1);
    assert_eq!(Sensor::Pressure.payload_width(), 2);
    assert_eq!(Sensor::Temperature.payload_width(), 2);
}

#[test]
fn successful_read_becomes_the_payload() {
    assert_eq!(finish_read(Sensor::Humidity, Some(4500)), Some(vec![0x2D]));
    assert_eq!(finish_read(Sensor::Pressure, Some(101325)), Some(vec![0x27, 0x95]));
    assert_eq!(finish_read(Sensor::Temperature, Some(-105)), Some(vec![0xFF, 0xF6]));
}

#[test]
fn failed_read_leaves_no_payload() {
    assert_eq!(finish_read(Sensor::Humidity, None), None);
    assert_eq!(finish_read(Sensor::Pressure, None), None);
    assert_eq!(finish_read(Sensor::Temperature, None), None);
}
