//! Measured values as property payloads.
//!
//! Readings come in hundredths of their unit: hundredths of a degree Celsius,
//! of a percent of relative humidity, and of a hectopascal.
use vstd::prelude::*;

use crate::codec::{be_bytes, encode_payload};

verus! {

/// The sensors whose measured value a device object reports.
#[derive(Clone, Copy, Debug, PartialEq, Eq, Structural)]
pub enum Sensor {
    Temperature,
    Humidity,
    Pressure,
}

/// Lowest temperature that can be reported, in tenths of a degree (absolute zero).
pub const TEMPERATURE_MIN_TENTHS: i64 = -2732;

/// Highest temperature that can be reported, in tenths of a degree.
pub const TEMPERATURE_MAX_TENTHS: i64 = 32766;

/// Integer division that rounds toward zero.
pub open spec fn div_toward_zero(a: int, b: int) -> int {
    if a >= 0 {
        a / b
    } else {
        -((-a) / b)
    }
}

/// Relative humidity in whole percent, truncated and held to one byte.
pub open spec fn humidity_level(centi: int) -> int {
    if centi < 0 {
        0
    } else if centi / 100 > 255 {
        255
    } else {
        centi / 100
    }
}

/// Air pressure scaled so that 6553.3 hPa maps to 65533, rounded to the
/// nearest integer (halves away from zero) and held to two bytes.
pub open spec fn pressure_level(centi: int) -> int {
    if centi <= 0 {
        0
    } else if (2 * centi * 65533 + 655330) / 1310660 > 65535 {
        65535
    } else {
        (2 * centi * 65533 + 655330) / 1310660
    }
}

/// Temperature in tenths of a degree, truncated toward zero and held to the
/// reportable range.
pub open spec fn temperature_tenths(centi: int) -> int {
    let t = div_toward_zero(centi, 10);
    if t < TEMPERATURE_MIN_TENTHS {
        TEMPERATURE_MIN_TENTHS as int
    } else if t > TEMPERATURE_MAX_TENTHS {
        TEMPERATURE_MAX_TENTHS as int
    } else {
        t
    }
}

/// The temperature as a signed 16-bit value in two's complement.
pub open spec fn temperature_level(centi: int) -> int {
    let t = temperature_tenths(centi);
    if t < 0 {
        t + 65536
    } else {
        t
    }
}

/// How many bytes the measured value of a sensor takes.
pub open spec fn spec_payload_width(s: Sensor) -> nat {
    match s {
        Sensor::Humidity => 1,
        _ => 2,
    }
}

/// The unsigned number that stands for a reading of a sensor.
pub open spec fn spec_level(s: Sensor, centi: int) -> int {
    match s {
        Sensor::Temperature => temperature_level(centi),
        Sensor::Humidity => humidity_level(centi),
        Sensor::Pressure => pressure_level(centi),
    }
}

/// The payload that reports a reading of a sensor.
pub open spec fn reading_payload(s: Sensor, centi: int) -> Seq<u8> {
    be_bytes(spec_level(s, centi) as nat, spec_payload_width(s))
}

/// Whole percent of relative humidity, truncated, held to one byte.
pub fn encode_humidity(centi: i64) -> (r: u8)
    ensures
        r as int == humidity_level(centi as int),
{
    if centi < 0 {
        0
    } else if centi / 100 > 255 {
        255
    } else {
        (centi / 100) as u8
    }
}

/// Air pressure on the 16-bit scale, rounded to the nearest integer.
pub fn encode_pressure(centi: i64) -> (r: u16)
    ensures
        r as int == pressure_level(centi as int),
{
    if centi <= 0 {
        0
    } else if centi > 700000 {
        assert((2 * centi * 65533 + 655330) / 1310660 > 65535) by (nonlinear_arith)
            requires
                centi > 700000,
        ;
        65535
    } else {
        let c = centi as u64;
        assert(2 * c * 65533 + 655330 <= 2 * 700000 * 65533 + 655330) by (nonlinear_arith)
            requires
                c <= 700000,
        ;
        let v: u64 = (2 * c * 65533 + 655330) / 1310660;
        if v > 65535 {
            65535
        } else {
            v as u16
        }
    }
}

/// Temperature in tenths of a degree as a signed 16-bit value.
pub fn encode_temperature(centi: i64) -> (r: u16)
    ensures
        r as int == temperature_level(centi as int),
{
    let t: i64 = if centi >= 0 {
        centi / 10
    } else if centi == i64::MIN {
        TEMPERATURE_MIN_TENTHS
    } else {
        -((-centi) / 10)
    };
    let t: i64 = if t < TEMPERATURE_MIN_TENTHS {
        TEMPERATURE_MIN_TENTHS
    } else if t > TEMPERATURE_MAX_TENTHS {
        TEMPERATURE_MAX_TENTHS
    } else {
        t
    };
    if t < 0 {
        (t + 65536) as u16
    } else {
        t as u16
    }
}

impl Sensor {
    /// How many bytes the measured value of this sensor takes.
    pub fn payload_width(&self) -> (r: usize)
        ensures
            r as nat == spec_payload_width(*self),
    {
        match self {
            Sensor::Humidity => 1,
            _ => 2,
        }
    }

    /// The payload that reports a reading of this sensor, given in
    /// hundredths of its unit.
    pub fn encode(&self, centi: i64) -> (r: Vec<u8>)
        ensures
            r@ == reading_payload(*self, centi as int),
    {
        let level: u32 = match self {
            Sensor::Temperature => encode_temperature(centi) as u32,
            Sensor::Humidity => encode_humidity(centi) as u32,
            Sensor::Pressure => encode_pressure(centi) as u32,
        };
        encode_payload(level, self.payload_width())
    }
}

} // verus!
