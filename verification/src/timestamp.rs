//! DOS timestamp decoding: the packed date and time words are split into
//! calendar fields, and any field outside its calendar-valid range fails.

use vstd::prelude::*;
use crate::Error;

verus! {

/// A decoded, calendar-valid modification time.
#[derive(Clone, Copy, Debug, PartialEq, Eq, Structural)]
pub struct DosDateTime {
    pub year: u16,
    pub month: u8,
    pub day: u8,
    pub hour: u8,
    pub minute: u8,
    pub second: u8,
}

/// The year stored in a DOS date, offset from 1980.
pub open spec fn spec_dos_year(date: u16) -> u16 {
    ((date >> 9u16) + 1980) as u16
}

/// The month stored in a DOS date.
pub open spec fn spec_dos_month(date: u16) -> u16 {
    (date >> 5u16) & 0xfu16
}

/// The day stored in a DOS date.
pub open spec fn spec_dos_day(date: u16) -> u16 {
    date & 0x1fu16
}

/// The hour stored in a DOS time.
pub open spec fn spec_dos_hour(time: u16) -> u16 {
    time >> 11u16
}

/// The minute stored in a DOS time.
pub open spec fn spec_dos_minute(time: u16) -> u16 {
    (time >> 5u16) & 0x3fu16
}

/// The second stored in a DOS time, in two-second resolution.
pub open spec fn spec_dos_second(time: u16) -> u16 {
    ((time & 0x1fu16) * 2) as u16
}

/// A leap year in the Gregorian calendar.
pub open spec fn spec_is_leap_year(y: int) -> bool {
    y % 4 == 0 && (y % 100 != 0 || y % 400 == 0)
}

/// The number of days in a month.
pub open spec fn spec_days_in_month(y: int, m: int) -> int {
    if m == 2 {
        if spec_is_leap_year(y) {
            29
        } else {
            28
        }
    } else if m == 4 || m == 6 || m == 9 || m == 11 {
        30
    } else {
        31
    }
}

/// Every decoded field lies in its calendar-valid range.
pub open spec fn spec_dos_valid(date: u16, time: u16) -> bool {
    &&& 1 <= spec_dos_month(date) <= 12
    &&& 1 <= spec_dos_day(date) <= spec_days_in_month(
        spec_dos_year(date) as int,
        spec_dos_month(date) as int,
    )
    &&& spec_dos_hour(time) <= 23
    &&& spec_dos_minute(time) <= 59
    &&& spec_dos_second(time) <= 59
}

/// The number of days in a month, executable.
fn days_in_month(y: u16, m: u16) -> (r: u16)
    ensures
        r == spec_days_in_month(y as int, m as int),
{
    if m == 2 {
        if y % 4 == 0 && (y % 100 != 0 || y % 400 == 0) {
            29
        } else {
            28
        }
    } else if m == 4 || m == 6 || m == 9 || m == 11 {
        30
    } else {
        31
    }
}

/// Splits a DOS date and time into calendar fields, failing with the
/// timestamp error exactly when some field falls outside its
/// calendar-valid range.
pub fn dos2time(dos_date: u16, dos_time: u16) -> (r: Result<DosDateTime, Error>)
    ensures
        r is Ok <==> spec_dos_valid(dos_date, dos_time),
        r matches Ok(t) ==> t.year == spec_dos_year(dos_date) && t.month == spec_dos_month(dos_date)
            && t.day == spec_dos_day(dos_date) && t.hour == spec_dos_hour(dos_time) && t.minute
            == spec_dos_minute(dos_time) && t.second == spec_dos_second(dos_time),
        r matches Err(e) ==> e == Error::BadTime,
{
    proof {
        assert(dos_date >> 9u16 <= 127u16 && (dos_date >> 5u16) & 0xfu16 <= 15u16 && dos_date
            & 0x1fu16 <= 31u16 && dos_time >> 11u16 <= 31u16 && (dos_time >> 5u16) & 0x3fu16
            <= 63u16 && dos_time & 0x1fu16 <= 31u16) by (bit_vector);
    }
    let sec = (dos_time & 0x1f) * 2;
    let min = (dos_time >> 5) & 0x3f;
    let hour = dos_time >> 11;
    let day = dos_date & 0x1f;
    let mon = (dos_date >> 5) & 0xf;
    let year = (dos_date >> 9) + 1980;
    if mon < 1 || mon > 12 {
        return Err(Error::BadTime);
    }
    if day < 1 || day > days_in_month(year, mon) {
        return Err(Error::BadTime);
    }
    if hour > 23 || min > 59 || sec > 59 {
        return Err(Error::BadTime);
    }
    Ok(
        DosDateTime {
            year,
            month: mon as u8,
            day: day as u8,
            hour: hour as u8,
            minute: min as u8,
            second: sec as u8,
        },
    )
}

} // verus!
