//! Breath pressure: decoding the sensor's 24-bit reading and scaling it
//! against the baseline taken at startup.

use vstd::prelude::*;

verus! {

/// Raw units per step of calibrated pressure.
pub const PRESSURE_STEP: i64 = 1500;

/// Highest calibrated pressure.
pub const MAX_PRESSURE: i32 = 127;

/// The signed value of a reading's three bytes, most significant first:
/// bit 5 of the first byte carries the sign of a 22-bit value.
pub open spec fn reading_value(b0: u8, b1: u8, b2: u8) -> int {
    b0 * 65536 + b1 * 256 + b2 - (if b0 & 0x20 != 0 {
        4194304int
    } else {
        0
    })
}

/// Integer division rounding toward zero, for a positive divisor.
pub open spec fn div_toward_zero(a: int, d: int) -> int {
    if a >= 0 {
        a / d
    } else {
        -((-a) / d)
    }
}

/// Calibrated pressure of a raw reading.
pub open spec fn calibrated(raw: i32, baseline: i32) -> int {
    let p = div_toward_zero(raw - baseline, PRESSURE_STEP as int);
    if p > MAX_PRESSURE {
        MAX_PRESSURE as int
    } else {
        p
    }
}

/// Decodes the three bytes the sensor returns.
pub fn decode_reading(b0: u8, b1: u8, b2: u8) -> (r: i32)
    ensures
        r == reading_value(b0, b1, b2),
{
    let v: i32 = b0 as i32 * 65536 + b1 as i32 * 256 + b2 as i32;
    if b0 & 0x20 != 0 {
        v - 4194304
    } else {
        v
    }
}

/// Pressure of a raw reading against the baseline, at most `MAX_PRESSURE`.
pub fn calibrate(raw: i32, baseline: i32) -> (r: i32)
    ensures
        r == calibrated(raw, baseline),
{
    let d: i64 = raw as i64 - baseline as i64;
    let p: i64 = if d >= 0 {
        ((d as u64) / (PRESSURE_STEP as u64)) as i64
    } else {
        -((((-d) as u64) / (PRESSURE_STEP as u64)) as i64)
    };
    if p > MAX_PRESSURE as i64 {
        MAX_PRESSURE
    } else {
        p as i32
    }
}

} // verus!
