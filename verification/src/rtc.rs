use vstd::prelude::*;

verus! {

/// One coherent set of raw CMOS real-time-clock register values, read by the
/// caller between two "update in progress" checks. Values are either packed
/// BCD or plain binary, as the status register says.
pub struct CmosSnapshot {
    pub seconds: u8,
    pub minutes: u8,
    pub hours: u8,
    pub day: u8,
    pub month: u8,
    pub year: u8,
    pub century: u8,
    /// Status register B; bit 2 set means the registers are already binary.
    pub status_b: u8,
}

impl CmosSnapshot {
    /// Whether the snapshot's values are packed BCD rather than plain binary.
    pub open spec fn is_bcd(self) -> bool {
        self.status_b & 0x04 == 0
    }
}

/// CMOS real-time-clock decoding: turns raw register snapshots into calendar
/// values. Reading the registers themselves is port I/O and stays with the
/// caller.
pub struct Rtc;

impl Rtc {
    /// A packed-BCD byte as a binary value: low nibble is the ones digit, high
    /// nibble the tens digit.
    pub open spec fn spec_bcd_to_bin(v: u8) -> u8 {
        ((v & 0x0F) + (v / 16) * 10) as u8
    }

    /// Convert a packed-BCD byte to binary.
    pub fn bcd_to_bin(v: u8) -> (r: u8)
        ensures
            r == Self::spec_bcd_to_bin(v),
    {
        assert(v & 0x0F <= 0x0F) by (bit_vector);
        (v & 0x0F) + (v / 16) * 10
    }

    /// A raw register value as a binary one: converted from BCD when the
    /// snapshot is in BCD mode, taken as it is otherwise.
    pub open spec fn spec_field(s: CmosSnapshot, v: u8) -> u8 {
        if s.is_bcd() {
            Self::spec_bcd_to_bin(v)
        } else {
            v
        }
    }

    /// The time of day held in the snapshot, as binary (hours, minutes,
    /// seconds).
    pub fn read_time(s: &CmosSnapshot) -> (t: (u32, u32, u32))
        ensures
            t.0 == Self::spec_field(*s, s.hours) as u32,
            t.1 == Self::spec_field(*s, s.minutes) as u32,
            t.2 == Self::spec_field(*s, s.seconds) as u32,
    {
        let mut sec = s.seconds;
        let mut min = s.minutes;
        let mut hour = s.hours;
        if s.status_b & 0x04 == 0 {
            sec = Self::bcd_to_bin(sec);
            min = Self::bcd_to_bin(min);
            hour = Self::bcd_to_bin(hour);
        }
        (hour as u32, min as u32, sec as u32)
    }

    /// The calendar date held in the snapshot, as binary (day, month, year
    /// with century).
    pub fn read_date(s: &CmosSnapshot) -> (d: (u8, u8, u16))
        ensures
            d.0 == Self::spec_field(*s, s.day),
            d.1 == Self::spec_field(*s, s.month),
            d.2 == Self::spec_field(*s, s.year) as u16 + Self::spec_field(*s, s.century) as u16
                * 100,
    {
        let mut day = s.day;
        let mut month = s.month;
        let mut year = s.year as u16;
        let mut cent = s.century;
        if s.status_b & 0x04 == 0 {
            day = Self::bcd_to_bin(day);
            month = Self::bcd_to_bin(month);
            year = Self::bcd_to_bin(s.year) as u16;
            cent = Self::bcd_to_bin(cent);
        }
        year = year + cent as u16 * 100;
        (day, month, year)
    }
}

} // verus!
