//! The register map, the wire form of a register and the arithmetic on raw
//! register values.

use vstd::prelude::*;

verus! {

/// Bus address of the chip where none is given.
pub const MAX17048_ADDR: u8 = 0x6C;

/// Compensation byte that suits the chip at 20 °C.
pub const DEFAULT_RCOMP: u8 = 0x97;

/// Cell voltage.
pub const REG_VCELL: u8 = 0x02;

/// State of charge: whole percent in the high byte, a fraction in the low one.
pub const REG_SOC: u8 = 0x04;

/// Version of the chip.
pub const REG_VERSION: u8 = 0x08;

/// Compensation byte in the high byte; the low byte belongs to the chip.
pub const REG_CONFIG: u8 = 0x0C;

/// Rate of charge or discharge.
pub const REG_CRATE: u8 = 0x16;

/// The value of a register whose high byte is `hi` and whose low byte is `lo`.
pub open spec fn word(hi: u8, lo: u8) -> u16 {
    (hi as int * 256 + lo as int) as u16
}

/// The high byte of a register value.
pub open spec fn high_byte(value: u16) -> u8 {
    (value as int / 256) as u8
}

/// The low byte of a register value.
pub open spec fn low_byte(value: u16) -> u8 {
    (value as int % 256) as u8
}

/// A register value as it travels: two bytes, the high one first.
pub open spec fn wire(value: u16) -> Seq<u8> {
    seq![high_byte(value), low_byte(value)]
}

/// The register value that two bytes off the wire stand for.
pub open spec fn unwire(bytes: Seq<u8>) -> u16
    recommends
        bytes.len() == 2,
{
    word(bytes[0], bytes[1])
}

/// Whole percent of charge in a raw state-of-charge value: the fraction in the
/// low byte is dropped.
pub open spec fn percent(raw: u16) -> u16 {
    (raw as int / 256) as u16
}

/// A configuration value with its high byte replaced by `rcomp`.
pub open spec fn compensated(current: u16, rcomp: u8) -> u16 {
    word(rcomp, low_byte(current))
}

/// `value` reduced to eight bits, as a two's-complement cast does it.
pub open spec fn wrapped(value: i32) -> u8 {
    (value as int % 256) as u8
}

/// Puts two bytes off the wire together, high byte first.
pub fn register_value(hi: u8, lo: u8) -> (value: u16)
    ensures
        value == word(hi, lo),
        high_byte(value) == hi,
        low_byte(value) == lo,
{
    let value: u16 = (hi as u16) << 8 | lo as u16;
    assert(value == (hi as u16) * 256 + (lo as u16)) by (bit_vector)
        requires
            value == (hi as u16) << 8 | lo as u16,
    ;
    value
}

/// Splits a register value into the two bytes that are sent, high byte first.
pub fn register_bytes(value: u16) -> (bytes: [u8; 2])
    ensures
        bytes@ == wire(value),
        word(bytes[0], bytes[1]) == value,
{
    let msb: u8 = ((value & 0xFF00) >> 8) as u8;
    let lsb: u8 = (value & 0x00FF) as u8;
    assert(((value & 0xFF00) >> 8) == value / 256 && (value & 0x00FF) == value % 256) by (bit_vector);
    let bytes: [u8; 2] = [msb, lsb];
    assert(bytes@ =~= wire(value));
    bytes
}

/// Whole percent of charge in a raw state-of-charge value.
pub fn whole_percent(raw: u16) -> (soc: u16)
    ensures
        soc == percent(raw),
        soc == high_byte(raw),
        soc <= 255,
{
    raw / 256
}

/// Replaces the high byte of a configuration value by `rcomp` and keeps its
/// low byte.
pub fn with_compensation(current: u16, rcomp: u8) -> (merged: u16)
    ensures
        merged == compensated(current, rcomp),
        high_byte(merged) == rcomp,
        low_byte(merged) == low_byte(current),
{
    let kept: u16 = current & 0x00FF;
    let merged: u16 = kept | (rcomp as u16) << 8;
    assert(merged == (rcomp as u16) * 256 + current % 256) by (bit_vector)
        requires
            merged == (current & 0x00FF) | (rcomp as u16) << 8,
    ;
    merged
}

/// Reduces a computed compensation value to the byte that the chip takes.
/// Nothing is clamped: a value outside 0..=255 wraps.
pub fn compensation_byte(value: i32) -> (rcomp: u8)
    ensures
        rcomp == wrapped(value),
        0 <= value <= 255 ==> rcomp == value,
{
    let low: i32 = value & 0xFF;
    assert(0 <= low <= 255 && low == value as int % 256) by (bit_vector)
        requires
            low == value & 0xFF,
    ;
    low as u8
}

/// A register value comes back from its wire form unchanged.
pub proof fn wire_round_trip(value: u16)
    ensures
        wire(value).len() == 2,
        unwire(wire(value)) == value,
{
}

/// Two bytes off the wire are the wire form of the value they stand for.
pub proof fn unwire_round_trip(bytes: Seq<u8>)
    requires
        bytes.len() == 2,
    ensures
        wire(unwire(bytes)) == bytes,
{
    assert(wire(unwire(bytes)) =~= bytes);
}

/// Replacing the compensation byte touches the high byte alone: it becomes
/// `rcomp`, and the low byte is that of the value before.
pub proof fn compensation_keeps_low_byte(current: u16, rcomp: u8)
    ensures
        high_byte(compensated(current, rcomp)) == rcomp,
        low_byte(compensated(current, rcomp)) == low_byte(current),
        wire(compensated(current, rcomp)) == seq![rcomp, low_byte(current)],
{
    assert(wire(compensated(current, rcomp)) =~= seq![rcomp, low_byte(current)]);
}

/// The whole percent of a state-of-charge value is its high byte.
pub proof fn percent_is_high_byte(hi: u8, lo: u8)
    ensures
        percent(word(hi, lo)) == hi,
{
}

} // verus!
