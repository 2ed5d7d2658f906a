//! Parsing of expiration dates.
//!
//! An expiration date arrives as text of the form `YYYY-MM-DD` and is
//! carried through the library as a plain timestamp: seconds since the Unix
//! epoch, taken at market close (21:00 UTC) of that day. Text that is not a
//! well-formed calendar date falls back to a caller-supplied timestamp.

use vstd::prelude::*;
use vstd::string::StringSliceAdditionalSpecFns;

verus! {

/// Whether the year is a leap year in the Gregorian calendar.
pub open spec fn is_leap_year(y: int) -> bool {
    y % 4 == 0 && (y % 100 != 0 || y % 400 == 0)
}

/// How many days the month has in the year.
pub open spec fn days_in_month(y: int, m: int) -> int {
    if m == 2 {
        if is_leap_year(y) {
            29
        } else {
            28
        }
    } else if m == 4 || m == 6 || m == 9 || m == 11 {
        30
    } else {
        31
    }
}

/// How many days of the year pass before the month begins.
pub open spec fn days_before_month(y: int, m: int) -> int {
    (if m == 1 {
        0int
    } else if m == 2 {
        31int
    } else if m == 3 {
        59int
    } else if m == 4 {
        90int
    } else if m == 5 {
        120int
    } else if m == 6 {
        151int
    } else if m == 7 {
        181int
    } else if m == 8 {
        212int
    } else if m == 9 {
        243int
    } else if m == 10 {
        273int
    } else if m == 11 {
        304int
    } else {
        334int
    }) + (if m >= 3 && is_leap_year(y) {
        1int
    } else {
        0int
    })
}

/// How many leap years lie strictly before the year, counted from year 1.
pub open spec fn leap_years_before(y: int) -> int
    recommends
        y >= 1,
{
    (y - 1) / 4 - (y - 1) / 100 + (y - 1) / 400
}

/// The day's distance from the Unix epoch, in days.
pub open spec fn epoch_days(y: int, m: int, d: int) -> int {
    365 * (y - 1970) + leap_years_before(y) - leap_years_before(1970) + days_before_month(y, m) + (
    d - 1)
}

/// Whether the year, month and day name a real calendar date the parser
/// accepts.
pub open spec fn valid_date(y: int, m: int, d: int) -> bool {
    1 <= y <= 9999 && 1 <= m <= 12 && 1 <= d <= days_in_month(y, m)
}

/// Whether the byte is an ASCII digit.
pub open spec fn spec_digit(b: u8) -> bool {
    48 <= b <= 57
}

/// Whether the bytes spell a date, `YYYY-MM-DD`.
pub open spec fn spec_date_text(bs: Seq<u8>) -> bool {
    &&& bs.len() == 10
    &&& spec_digit(bs[0]) && spec_digit(bs[1]) && spec_digit(bs[2]) && spec_digit(bs[3])
    &&& bs[4] == 45
    &&& spec_digit(bs[5]) && spec_digit(bs[6])
    &&& bs[7] == 45
    &&& spec_digit(bs[8]) && spec_digit(bs[9])
}

/// The year the bytes spell.
pub open spec fn text_year(bs: Seq<u8>) -> int {
    1000 * (bs[0] - 48) + 100 * (bs[1] - 48) + 10 * (bs[2] - 48) + (bs[3] - 48)
}

/// The month the bytes spell.
pub open spec fn text_month(bs: Seq<u8>) -> int {
    10 * (bs[5] - 48) + (bs[6] - 48)
}

/// The day of the month the bytes spell.
pub open spec fn text_day(bs: Seq<u8>) -> int {
    10 * (bs[8] - 48) + (bs[9] - 48)
}

/// The timestamp of market close (21:00 UTC) on the day, in seconds since
/// the Unix epoch.
pub open spec fn close_timestamp(y: int, m: int, d: int) -> int {
    epoch_days(y, m, d) * 86400 + 75600
}

/// Parses an expiration date of the form `YYYY-MM-DD` into the timestamp
/// of that day's market close (21:00 UTC), in seconds since the Unix
/// epoch; text that does not spell a real calendar date yields the
/// fallback timestamp instead.
pub fn parse_expiration_date(date_str: &str, fallback: i64) -> (r: i64)
    ensures
        ({
            let bs = date_str.spec_bytes();
            &&& (spec_date_text(bs) && valid_date(text_year(bs), text_month(bs), text_day(bs))
                ==> r == close_timestamp(text_year(bs), text_month(bs), text_day(bs)))
            &&& (!(spec_date_text(bs) && valid_date(text_year(bs), text_month(bs), text_day(bs)))
                ==> r == fallback)
        }),
{
    let bs = date_str.as_bytes();
    if bs.len() != 10 {
        return fallback;
    }
    let digit_positions: [usize; 8] = [0, 1, 2, 3, 5, 6, 8, 9];
    let mut k: usize = 0;
    while k < 8
        invariant
            k <= 8,
            bs@.len() == 10,
            bs@ == date_str.spec_bytes(),
            (digit_positions@ == seq![0usize, 1usize, 2usize, 3usize, 5usize, 6usize, 8usize, 9usize]),
            forall|j: int| 0 <= j < k ==> spec_digit(bs@[digit_positions@[j] as int]),
        decreases 8 - k,
    {
        let p = digit_positions[k];
        let b = bs[p];
        if b < 48 || b > 57 {
            return fallback;
        }
        k = k + 1;
    }
    if bs[4] != 45 || bs[7] != 45 {
        return fallback;
    }
    let y: i64 = 1000 * ((bs[0] - 48) as i64) + 100 * ((bs[1] - 48) as i64) + 10 * ((bs[2]
        - 48) as i64) + ((bs[3] - 48) as i64);
    let m: i64 = 10 * ((bs[5] - 48) as i64) + ((bs[6] - 48) as i64);
    let d: i64 = 10 * ((bs[8] - 48) as i64) + ((bs[9] - 48) as i64);
    proof {
        assert(spec_digit(bs@[0]) && spec_digit(bs@[1]) && spec_digit(bs@[2]) && spec_digit(
            bs@[3],
        ) && spec_digit(bs@[5]) && spec_digit(bs@[6]) && spec_digit(bs@[8]) && spec_digit(
            bs@[9],
        ));
        assert(y == text_year(bs@));
        assert(m == text_month(bs@));
        assert(d == text_day(bs@));
    }
    let leap = (y % 4 == 0) && (y % 100 != 0 || y % 400 == 0);
    let month_days: i64 = if m == 2 {
        if leap {
            29
        } else {
            28
        }
    } else if m == 4 || m == 6 || m == 9 || m == 11 {
        30
    } else {
        31
    };
    if y < 1 || m < 1 || m > 12 || d < 1 || d > month_days {
        return fallback;
    }
    let before_month: i64 = (match m {
        1 => 0,
        2 => 31,
        3 => 59,
        4 => 90,
        5 => 120,
        6 => 151,
        7 => 181,
        8 => 212,
        9 => 243,
        10 => 273,
        11 => 304,
        _ => 334,
    }) + (if m >= 3 && leap {
        1
    } else {
        0
    });
    let leaps: i64 = (y - 1) / 4 - (y - 1) / 100 + (y - 1) / 400;
    let days: i64 = 365 * (y - 1970) + leaps - 477 + before_month + (d - 1);
    proof {
        assert(leap_years_before(1970) == 477);
        assert(days == epoch_days(y as int, m as int, d as int));
    }
    days * 86400 + 75600
}

} // verus!
