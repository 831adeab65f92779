use kos::rtc::{CmosSnapshot, Rtc};

fn snapshot(status_b: u8) -> CmosSnapshot {
    CmosSnapshot {
        seconds: 0x59,
        minutes: 0x30,
        hours: 0x23,
        day: 0x28,
        month: 0x12,
        year: 0x99,
        century: 0x19,
        status_b,
    }
}

#[test]
fn bcd_to_bin_conversion() {
    assert_eq!(Rtc::bcd_to_bin(0x59), 59);
    assert_eq!(Rtc::bcd_to_bin(0x00), 0);
    assert_eq!(Rtc::bcd_to_bin(0x09), 9);
    assert_eq!(Rtc::bcd_to_bin(0x10), 10);
    assert_eq!(Rtc::bcd_to_bin(0x99), 99);
}

#[test]
fn read_time_bcd_mode() {
    // Bit 2 of status register B clear: values are BCD and get converted.
    let (h, m, s) = Rtc::read_time(&snapshot(0x00));
    assert_eq!((h, m, s), (23, 30, 59));
}

#[test]
fn read_time_binary_mode() {
    // Bit 2 set: values are already binary and pass through untouched.
    let (h, m, s) = Rtc::read_time(&snapshot(0x04));
    assert_eq!((h, m, s), (0x23, 0x30, 0x59));
}

#[test]
fn read_date_bcd_mode() {
    let (day, month, year) = Rtc::read_date(&snapshot(0x00));
    assert_eq!((day, month, year), (28, 12, 1999));
}

#[test]
fn read_date_binary_mode() {
    let (day, month, year) = Rtc::read_date(&snapshot(0x04));
    assert_eq!((day, month, year), (0x28, 0x12, 0x99 + 0x19 * 100));
}
