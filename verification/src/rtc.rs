//! Decoding the CMOS real-time clock's registers into a calendar time.
use vstd::prelude::*;

verus! {

/// A wall-clock time and date.
#[derive(Debug, Clone, Copy, PartialEq, Eq, Structural)]
pub struct RtcTime {
    pub hours: u8,
    pub minutes: u8,
    pub seconds: u8,
    pub year: u16,
    pub month: u8,
    pub day: u8,
}

/// The clock registers as read: seconds (0x00), minutes (0x02), hours
/// (0x04), day (0x07), month (0x08), year (0x09) and status B (0x0B).
#[derive(Debug, Clone, Copy, PartialEq, Eq, Structural)]
pub struct ClockRegisters {
    pub seconds: u8,
    pub minutes: u8,
    pub hours: u8,
    pub day: u8,
    pub month: u8,
    pub year: u8,
    pub status_b: u8,
}

/// The value of a two-digit binary-coded decimal byte (the high nibble
/// counts tens, the low nibble units).
pub open spec fn bcd_value(b: u8) -> int {
    (b % 16) as int + (b / 16) as int * 10
}

/// Whether status B says the registers hold binary rather than BCD.
pub open spec fn binary_mode(status_b: u8) -> bool {
    (status_b / 4) % 2 == 1
}

/// Whether status B says the clock counts 24 hours.
pub open spec fn hour24_mode(status_b: u8) -> bool {
    (status_b / 2) % 2 == 1
}

/// The hours register decoded: BCD digits converted (the PM flag, bit 7,
/// kept), then a 12-hour PM time moved to the 24-hour clock.
pub open spec fn hours_value(h: u8, status_b: u8) -> int {
    let pm = h >= 128;
    let raw = if binary_mode(status_b) { h as int } else { bcd_value((h % 128) as u8) + (if pm { 128int } else { 0 }) };
    if !hour24_mode(status_b) && pm { ((raw % 128) + 12) % 24 } else { raw }
}

/// A register's value in the clock's number format.
pub open spec fn field_value(b: u8, status_b: u8) -> int {
    if binary_mode(status_b) { b as int } else { bcd_value(b) }
}

/// The time the registers `r` describe; the year register counts from 2000.
pub open spec fn decoded_time(r: ClockRegisters) -> RtcTime {
    RtcTime {
        hours: hours_value(r.hours, r.status_b) as u8,
        minutes: field_value(r.minutes, r.status_b) as u8,
        seconds: field_value(r.seconds, r.status_b) as u8,
        year: (field_value(r.year, r.status_b) + 2000) as u16,
        month: field_value(r.month, r.status_b) as u8,
        day: field_value(r.day, r.status_b) as u8,
    }
}

/// The value of the BCD byte `bcd`.
pub fn bcd_to_bin(bcd: u8) -> (v: u8)
    ensures
        v == bcd_value(bcd),
{
    assert(bcd & 0x0F == bcd % 16) by (bit_vector);
    (bcd & 0x0F) + ((bcd / 16) * 10)
}

/// Converts the clock registers into a time.
pub fn decode_time(r: ClockRegisters) -> (t: RtcTime)
    ensures
        t == decoded_time(r),
{
    let mut seconds = r.seconds;
    let mut minutes = r.minutes;
    let mut hours = r.hours;
    let mut day = r.day;
    let mut month = r.month;
    let mut year = r.year as u16;
    let status_b = r.status_b;
    let h = r.hours;
    assert(status_b & 0x04 == 0 <==> (status_b / 4) % 2 == 0) by (bit_vector);
    assert(status_b & 0x02 == 0 <==> (status_b / 2) % 2 == 0) by (bit_vector);
    assert(h & 0x80 != 0 <==> h >= 128) by (bit_vector);
    assert(h & 0x7F == h % 128) by (bit_vector);
    if status_b & 0x04 == 0 {
        seconds = bcd_to_bin(seconds);
        minutes = bcd_to_bin(minutes);
        let low = bcd_to_bin(h & 0x7F);
        assert(low < 128);
        assert(low | (h & 0x80) == low + (if h >= 128 { 128u8 } else { 0u8 })) by (bit_vector)
            requires low < 128;
        hours = low | (h & 0x80);
        day = bcd_to_bin(day);
        month = bcd_to_bin(month);
        year = bcd_to_bin(year as u8) as u16;
    }
    let hh = hours;
    assert(hh & 0x80 != 0 <==> hh >= 128) by (bit_vector);
    assert(hh & 0x7F == hh % 128) by (bit_vector);
    proof {
        if status_b & 0x04 == 0 {
            assert((hh >= 128) == (h >= 128));
        }
    }
    if status_b & 0x02 == 0 && (hours & 0x80) != 0 {
        hours = ((hours & 0x7F) + 12) % 24;
    }
    year += 2000;
    RtcTime { hours, minutes, seconds, year, month, day }
}

/// The seconds register `sec` in the number format status B selects.
pub fn decode_seconds(sec: u8, status_b: u8) -> (v: u8)
    ensures
        v == field_value(sec, status_b),
{
    assert(status_b & 0x04 == 0 <==> (status_b / 4) % 2 == 0) by (bit_vector);
    if status_b & 0x04 == 0 {
        bcd_to_bin(sec)
    } else {
        sec
    }
}

} // verus!
