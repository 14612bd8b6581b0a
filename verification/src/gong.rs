//! Selection of the archive H-alpha reference nearest to a scan in time.
//!
//! The archive lists its images in one directory per UTC day, under names that
//! start with the acquisition time. This module turns a scan's timestamp into
//! the directories worth asking for, reads the names out of a directory
//! listing, picks the nearest one and decides whether it is near enough.

use crate::text::{
    chars_of, decimal_string, joined2, padded_string, signed_padded_string, text_of, texts,
};
use vstd::prelude::*;
use vstd::string::StringExecFns;

verus! {

/// Seconds between 0001-01-01, the origin of SER ticks, and 1970-01-01.
pub const DOTNET_UNIX_EPOCH_SECONDS: i64 = 62_135_596_800;

/// SER ticks (100 ns) per second.
pub const TICKS_PER_SECOND: i64 = 10_000_000;

/// A reference further away in time than this is refused.
pub const MAX_REFERENCE_DELTA_SECONDS: i64 = 21_600;

pub const SECONDS_PER_DAY: i64 = 86_400;

/// A full-resolution reference has at least this many pixels on each side.
pub const MIN_REFERENCE_SIDE: u32 = 512;

// ---------------------------------------------------------------------------
// Calendar
// ---------------------------------------------------------------------------

/// The Gregorian leap year rule.
pub open spec fn is_leap(year: int) -> bool {
    year % 4 == 0 && (year % 100 != 0 || year % 400 == 0)
}

/// Length of a month in days.
pub open spec fn days_in_month(year: int, month: int) -> int {
    if month == 2 {
        if is_leap(year) {
            29
        } else {
            28
        }
    } else if month == 4 || month == 6 || month == 9 || month == 11 {
        30
    } else {
        31
    }
}

/// Days of a year before the first of `month`.
pub open spec fn days_before_month(year: int, month: int) -> int
    decreases month,
{
    if month <= 1 {
        0
    } else {
        days_before_month(year, month - 1) + days_in_month(year, month - 1)
    }
}

/// Days from 0000-01-01 to the first of January of `year`.
pub open spec fn days_before_year(year: int) -> int {
    365 * year + (year - 1) / 4 - (year - 1) / 100 + (year - 1) / 400 + 1
}

/// A day that exists in the Gregorian calendar.
pub open spec fn is_civil_date(year: int, month: int, day: int) -> bool {
    &&& 1 <= month <= 12
    &&& 1 <= day <= days_in_month(year, month)
}

/// Days from 1970-01-01 to the given date.
pub open spec fn epoch_day(year: int, month: int, day: int) -> int {
    days_before_year(year) - days_before_year(1970) + days_before_month(year, month) + day - 1
}

/// The day count of a year that starts in March, with `month_from_march`
/// whole months and `day - 1` days added. Months are laid out on the line
/// 30.6 days apart, which also covers month numbers outside the calendar.
pub open spec fn march_day(march_year: int, month_from_march: int, day: int) -> int {
    365 * march_year + march_year / 4 - march_year / 100 + march_year / 400 + (153
        * month_from_march + 2) / 5 + day - 1 - 719_468
}

/// The day number that `days_from_civil` assigns to any year, month and day.
pub open spec fn civil_day_number(year: int, month: int, day: int) -> int {
    if month <= 2 {
        march_day(year - 1, month + 9, day)
    } else {
        march_day(year, month - 3, day)
    }
}

/// A calendar year is 366 days long exactly when it is a leap year.
pub proof fn year_length(year: int)
    ensures
        days_before_year(year + 1) - days_before_year(year) == if is_leap(year) {
            366int
        } else {
            365
        },
        days_before_year(year + 1) - days_before_year(year) == days_before_month(year, 12)
            + days_in_month(year, 12),
{
    lemma_days_before_month(year);
}

proof fn lemma_days_before_month(year: int)
    ensures
        ({
            let l: int = if is_leap(year) {
                1
            } else {
                0
            };
            &&& days_before_month(year, 1) == 0
            &&& days_before_month(year, 2) == 31
            &&& days_before_month(year, 3) == 59 + l
            &&& days_before_month(year, 4) == 90 + l
            &&& days_before_month(year, 5) == 120 + l
            &&& days_before_month(year, 6) == 151 + l
            &&& days_before_month(year, 7) == 181 + l
            &&& days_before_month(year, 8) == 212 + l
            &&& days_before_month(year, 9) == 243 + l
            &&& days_before_month(year, 10) == 273 + l
            &&& days_before_month(year, 11) == 304 + l
            &&& days_before_month(year, 12) == 334 + l
        }),
{
    reveal_with_fuel(days_before_month, 13);
}

/// On every month of the calendar the day number is the number of days since
/// 1970-01-01.
pub proof fn day_number_counts_days(year: int, month: int, day: int)
    requires
        1 <= month <= 12,
    ensures
        civil_day_number(year, month, day) == epoch_day(year, month, day),
{
    lemma_days_before_month(year);
}

/// Two calendar dates with the same day number are the same date.
pub proof fn day_number_is_injective(y1: int, m1: int, d1: int, y2: int, m2: int, d2: int)
    requires
        is_civil_date(y1, m1, d1),
        is_civil_date(y2, m2, d2),
        epoch_day(y1, m1, d1) == epoch_day(y2, m2, d2),
    ensures
        y1 == y2,
        m1 == m2,
        d1 == d2,
{
    lemma_date_within_year(y1, m1, d1);
    lemma_date_within_year(y2, m2, d2);
    if y1 < y2 {
        lemma_years_ascend(y1 + 1, y2);
    } else if y2 < y1 {
        lemma_years_ascend(y2 + 1, y1);
    }
    lemma_days_before_month(y1);
}

proof fn lemma_date_within_year(year: int, month: int, day: int)
    requires
        is_civil_date(year, month, day),
    ensures
        days_before_year(year) <= epoch_day(year, month, day) + days_before_year(1970)
            < days_before_year(year + 1),
{
    lemma_days_before_month(year);
    year_length(year);
}

proof fn lemma_years_ascend(a: int, b: int)
    requires
        a <= b,
    ensures
        days_before_year(a) <= days_before_year(b),
    decreases b - a,
{
    if a < b {
        year_length(a);
        lemma_years_ascend(a + 1, b);
    }
}

/// Quotient rounded towards negative infinity.
fn floor_div(a: i64, b: i64) -> (q: i64)
    requires
        0 < b,
    ensures
        q == a as int / b as int,
{
    proof {
        vstd::arithmetic::div_mod::lemma_fundamental_div_mod(a as int, b as int);
        let q = a as int / b as int;
        let r = a as int % b as int;
        assert(i64::MIN <= q <= i64::MAX) by (nonlinear_arith)
            requires
                a as int == b as int * q + r,
                0 <= r < b,
                i64::MIN <= a <= i64::MAX,
        ;
    }
    a.checked_div_euclid(b).unwrap()
}

proof fn lemma_march_day(era: int, year_of_era: int, month_from_march: int, day: int)
    requires
        0 <= year_of_era < 400,
    ensures
        march_day(400 * era + year_of_era, month_from_march, day) == era * 146_097 + year_of_era
            * 365 + year_of_era / 4 - year_of_era / 100 + (153 * month_from_march + 2) / 5 + day - 1
            - 719_468,
{
    let y = 400 * era + year_of_era;
    assert(y / 400 == era);
    assert(y / 4 == 100 * era + year_of_era / 4);
    assert(y / 100 == 4 * era + year_of_era / 100);
}

proof fn lemma_leap_of_era(era: int, year_of_era: int)
    ensures
        is_leap(400 * era + year_of_era + 1) == is_leap(year_of_era + 1),
{
    let w = year_of_era + 1;
    vstd::arithmetic::div_mod::lemma_mod_multiples_vanish(100 * era, w, 4);
    vstd::arithmetic::div_mod::lemma_mod_multiples_vanish(4 * era, w, 100);
    vstd::arithmetic::div_mod::lemma_mod_multiples_vanish(era, w, 400);
}

/// The day of a March year falls on an existing day of its month.
proof fn lemma_day_of_year(march_year: int, day_of_year: int)
    requires
        0 <= day_of_year <= 365,
        day_of_year == 365 ==> is_leap(march_year + 1),
    ensures
        ({
            let mp = (5 * day_of_year + 2) / 153;
            let day = day_of_year - (153 * mp + 2) / 5 + 1;
            let month = if mp < 10 {
                mp + 3
            } else {
                mp - 9
            };
            let year = if month <= 2 {
                march_year + 1
            } else {
                march_year
            };
            &&& 0 <= mp <= 11
            &&& is_civil_date(year, month, day)
        }),
{
}

/// Day number of a civil date, counted from 1970-01-01.
pub fn days_from_civil(year: i32, month: u32, day: u32) -> (days: i64)
    requires
        !(year == i32::MIN && month <= 2),
    ensures
        days == civil_day_number(year as int, month as int, day as int),
        1 <= month <= 12 ==> days == epoch_day(year as int, month as int, day as int),
{
    let adjusted: i64 = if month <= 2 {
        year as i64 - 1
    } else {
        year as i64
    };
    let shift: i64 = if month > 2 {
        month as i64 - 3
    } else {
        month as i64 + 9
    };
    let era: i64 = floor_div(adjusted, 400);
    let year_of_era: i64 = adjusted - era * 400;
    let day_of_year: i64 = (153 * shift + 2) / 5 + day as i64 - 1;
    let day_of_era: i64 = year_of_era * 365 + year_of_era / 4 - year_of_era / 100 + day_of_year;
    let days: i64 = era * 146_097 + day_of_era - 719_468;
    proof {
        lemma_march_day(era as int, year_of_era as int, shift as int, day as int);
        if 1 <= month <= 12 {
            day_number_counts_days(year as int, month as int, day as int);
        }
    }
    days
}

/// Days of the 400-year cycle before its March year `y`.
spec fn cycle_day(y: int) -> int {
    365 * y + y / 4 - y / 100
}

spec fn cycle_year(day_of_era: int) -> int {
    (day_of_era - day_of_era / 1460 + day_of_era / 36_524 - day_of_era / 146_096) / 365
}

proof fn lemma_cycle_year(x: int)
    requires
        0 <= x < 146_097,
    ensures
        0 <= cycle_year(x) < 400,
        0 <= x - cycle_day(cycle_year(x)) <= 365,
        x - cycle_day(cycle_year(x)) == 365 ==> is_leap(cycle_year(x) + 1),
{
    if x < 146_096 {
        let b = x / 36_524;
        let r = x - 36_524 * b;
        assert(0 <= b <= 3);
        assert(0 <= r < 36_524);
        let k = r / 1461;
        let s = r - 1461 * k;
        assert(0 <= k <= 24);
        assert(0 <= s < 1461);
        let j: int = if s < 365 {
            0
        } else if s < 730 {
            1
        } else if s < 1095 {
            2
        } else {
            3
        };
        let y = 100 * b + 4 * k + j;
        assert(cycle_day(y) == 36_524 * b + 1461 * k + 365 * j);
        assert(cycle_year(x) == y) by {
            let a = x / 1460;
            assert(1460 * a <= x < 1460 * a + 1460);
            assert(x == 36_524 * b + 1461 * k + s);
            assert(365 * y <= x - a + b) by {
                assert(x - a + b == 36_525 * b + 1461 * k + s - a);
            }
            assert(x - a + b < 365 * y + 365);
        }
        if s == 1460 {
            assert((y + 1) % 4 == 0);
            assert(k < 24);
        }
    } else {
        assert(cycle_year(x) == 399);
    }
}

/// The day belongs to a date whose year fits 32 bits.
pub open spec fn fits_civil_date(days: int) -> bool {
    epoch_day(i32::MIN as int, 1, 1) <= days < epoch_day(i32::MAX + 1, 1, 1)
}

/// The 400-year cycle of a day, its March year in that cycle and its day in
/// that year.
fn march_parts(days_since_epoch: i64) -> (parts: (i64, i64, i64))
    requires
        -1_000_000_000_000 <= days_since_epoch <= 1_000_000_000_000,
    ensures
        -10_000_000 <= parts.0 <= 10_000_000,
        0 <= parts.1 < 400,
        0 <= parts.2 <= 365,
        parts.2 == 365 ==> is_leap(parts.1 + 1),
        parts.0 * 146_097 + cycle_day(parts.1 as int) + parts.2 == days_since_epoch + 719_468,
{
    let z: i64 = days_since_epoch + 719_468;
    let era: i64 = floor_div(z, 146_097);
    let day_of_era: i64 = z - era * 146_097;
    let year_of_era: i64 = (day_of_era - day_of_era / 1460 + day_of_era / 36_524 - day_of_era
        / 146_096) / 365;
    proof {
        lemma_cycle_year(day_of_era as int);
    }
    let day_of_year: i64 = day_of_era - (365 * year_of_era + year_of_era / 4 - year_of_era / 100);
    (era, year_of_era, day_of_year)
}

/// A date between the first and the last day that fit has a year that fits.
proof fn lemma_year_fits(year: int, month: int, day: int)
    requires
        is_civil_date(year, month, day),
        fits_civil_date(epoch_day(year, month, day)),
    ensures
        i32::MIN <= year <= i32::MAX,
{
    lemma_date_within_year(year, month, day);
    if year < i32::MIN {
        lemma_years_ascend(year + 1, i32::MIN as int);
    }
    if year > i32::MAX {
        lemma_years_ascend(i32::MAX + 1, year);
    }
}

/// The date of a day in a March year.
proof fn lemma_civil_date(era: int, year_of_era: int, day_of_year: int)
    requires
        0 <= year_of_era < 400,
        0 <= day_of_year <= 365,
        day_of_year == 365 ==> is_leap(year_of_era + 1),
    ensures
        ({
            let mp = (5 * day_of_year + 2) / 153;
            let day = day_of_year - (153 * mp + 2) / 5 + 1;
            let month = if mp < 10 {
                mp + 3
            } else {
                mp - 9
            };
            let march_year = 400 * era + year_of_era;
            let year = if month <= 2 {
                march_year + 1
            } else {
                march_year
            };
            &&& 0 <= mp <= 11
            &&& is_civil_date(year, month, day)
            &&& epoch_day(year, month, day) == era * 146_097 + cycle_day(year_of_era) + day_of_year
                - 719_468
        }),
{
    let march_year = 400 * era + year_of_era;
    let mp = (5 * day_of_year + 2) / 153;
    let day = day_of_year - (153 * mp + 2) / 5 + 1;
    let month = if mp < 10 {
        mp + 3
    } else {
        mp - 9
    };
    let year = if month <= 2 {
        march_year + 1
    } else {
        march_year
    };
    lemma_leap_of_era(era, year_of_era);
    lemma_day_of_year(march_year, day_of_year);
    lemma_march_day(era, year_of_era, mp, day);
    day_number_counts_days(year, month, day);
}

/// The days that fit are within a thousand milliards of the epoch.
proof fn lemma_fitting_days(days: int)
    requires
        fits_civil_date(days),
    ensures
        -1_000_000_000_000 <= days <= 1_000_000_000_000,
{
    lemma_days_before_month(i32::MIN as int);
    lemma_days_before_month(i32::MAX + 1);
}

/// The civil date with the given day number.
pub fn civil_from_days(days_since_epoch: i64) -> (date: (i32, u32, u32))
    requires
        fits_civil_date(days_since_epoch as int),
    ensures
        is_civil_date(date.0 as int, date.1 as int, date.2 as int),
        epoch_day(date.0 as int, date.1 as int, date.2 as int) == days_since_epoch,
{
    proof {
        lemma_fitting_days(days_since_epoch as int);
    }
    let (era, year_of_era, day_of_year) = march_parts(days_since_epoch);
    proof {
        lemma_civil_date(era as int, year_of_era as int, day_of_year as int);
    }
    let month_prime: i64 = (5 * day_of_year + 2) / 153;
    let day: i64 = day_of_year - (153 * month_prime + 2) / 5 + 1;
    let month: i64 = if month_prime < 10 {
        month_prime + 3
    } else {
        month_prime - 9
    };
    let march_year: i64 = year_of_era + era * 400;
    let year: i64 = if month <= 2 {
        march_year + 1
    } else {
        march_year
    };
    proof {
        lemma_year_fits(year as int, month as int, day as int);
    }
    (year as i32, month as u32, day as u32)
}

/// A date survives the way to its day number and back.
pub proof fn date_round_trip(year: int, month: int, day: int, back: (i32, u32, u32))
    requires
        is_civil_date(year, month, day),
        is_civil_date(back.0 as int, back.1 as int, back.2 as int),
        epoch_day(back.0 as int, back.1 as int, back.2 as int) == civil_day_number(
            year,
            month,
            day,
        ),
    ensures
        back.0 == year,
        back.1 == month,
        back.2 == day,
{
    day_number_counts_days(year, month, day);
    day_number_is_injective(year, month, day, back.0 as int, back.1 as int, back.2 as int);
}

// ---------------------------------------------------------------------------
// Time of the scan and the archive directories around it
// ---------------------------------------------------------------------------

/// Seconds since 1970 of a SER timestamp, or the reason it cannot be used.
pub fn scan_seconds(ticks: i64) -> (seconds: Result<i64, String>)
    ensures
        match seconds {
            Ok(s) => ticks > DOTNET_UNIX_EPOCH_SECONDS * TICKS_PER_SECOND && s == ticks as int
                / TICKS_PER_SECOND as int - DOTNET_UNIX_EPOCH_SECONDS,
            Err(e) => ticks <= DOTNET_UNIX_EPOCH_SECONDS * TICKS_PER_SECOND && e@
                == "this SER has no valid UTC timestamp; GONG feature matching needs acquisition time"@,
        },
{
    let epoch_ticks: i64 = 621_355_968_000_000_000;
    if ticks <= epoch_ticks {
        Err(
            "this SER has no valid UTC timestamp; GONG feature matching needs acquisition time".to_owned(),
        )
    } else {
        Ok(ticks / 10_000_000 - DOTNET_UNIX_EPOCH_SECONDS)
    }
}

/// The archive is searched on the day of the scan and on both days around it,
/// the earliest first.
pub fn search_days(target_seconds: i64) -> (days: Vec<i64>)
    ensures
        days@ == seq![
            (target_seconds as int / SECONDS_PER_DAY as int - 1) as i64,
            (target_seconds as int / SECONDS_PER_DAY as int) as i64,
            (target_seconds as int / SECONDS_PER_DAY as int + 1) as i64,
        ],
{
    let day: i64 = floor_div(target_seconds, 86_400);
    let mut days: Vec<i64> = Vec::new();
    days.push(day - 1);
    days.push(day);
    days.push(day + 1);
    days
}

/// Text of the archive directory of one civil date.
pub open spec fn directory_url(year: int, month: int, day: int) -> Seq<char> {
    "https://gong2.nso.edu/ftp/HA/hag"@ + "/"@ + crate::text::signed_padded(year, 4)
        + crate::text::padded(month as nat, 2) + "/"@ + crate::text::signed_padded(year, 4)
        + crate::text::padded(month as nat, 2) + crate::text::padded(day as nat, 2) + "/"@
}

/// The archive directory of a day: its month, then the day itself.
pub fn index_url(day: i64) -> (url: String)
    requires
        fits_civil_date(day as int),
    ensures
        exists|y: int, m: int, d: int| #[trigger]
            is_civil_date(y, m, d) && epoch_day(y, m, d) == day && url@ == directory_url(y, m, d),
{
    let (year, month, day_of_month) = civil_from_days(day);
    let year_text = signed_padded_string(year, 4);
    let month_text = padded_string(month as u64, 2);
    let day_text = padded_string(day_of_month as u64, 2);
    let mut url = String::new();
    url.append("https://gong2.nso.edu/ftp/HA/hag");
    url.append("/");
    url.append(year_text.as_str());
    url.append(month_text.as_str());
    url.append("/");
    url.append(year_text.as_str());
    url.append(month_text.as_str());
    url.append(day_text.as_str());
    url.append("/");
    proof {
        assert(url@ =~= directory_url(year as int, month as int, day_of_month as int));
        assert(is_civil_date(year as int, month as int, day_of_month as int));
    }
    url
}

// ---------------------------------------------------------------------------
// Names in a directory listing
// ---------------------------------------------------------------------------

pub open spec fn is_digit_char(c: char) -> bool {
    '0' <= c <= '9'
}

/// Fourteen digits, the letter of one of the six sites, `h.jpg`: a calibrated
/// H-alpha image.
pub open spec fn is_reference_name(name: Seq<char>) -> bool {
    &&& name.len() == 20
    &&& forall|i: int| 0 <= i < 14 ==> is_digit_char(#[trigger] name[i])
    &&& (name[14] == 'B' || name[14] == 'C' || name[14] == 'L' || name[14] == 'M' || name[14] == 'T'
        || name[14] == 'U')
    &&& name[15] == 'h'
    &&& name[16] == '.'
    &&& name[17] == 'j'
    &&& name[18] == 'p'
    &&& name[19] == 'g'
}

/// The reference names that start at one of the first `starts` positions of a
/// listing, in order; a name that repeats the one before it is left out.
pub open spec fn reference_names(listing: Seq<char>, starts: nat) -> Seq<Seq<char>>
    decreases starts,
{
    if starts == 0 {
        seq![]
    } else {
        let before = reference_names(listing, (starts - 1) as nat);
        let name = listing.subrange(starts - 1, starts as int + 19);
        if is_reference_name(name) && !(before.len() > 0 && before.last() == name) {
            before.push(name)
        } else {
            before
        }
    }
}

/// Every reference name of a listing.
pub open spec fn listed_names(listing: Seq<char>) -> Seq<Seq<char>> {
    if listing.len() < 20 {
        seq![]
    } else {
        reference_names(listing, (listing.len() - 19) as nat)
    }
}

fn is_digit_at(chars: &[char], i: usize) -> (r: bool)
    requires
        i < chars@.len(),
    ensures
        r == is_digit_char(chars@[i as int]),
{
    let c: char = chars[i];
    '0' <= c && c <= '9'
}

fn reference_name_at(chars: &[char], start: usize) -> (r: bool)
    requires
        start + 20 <= chars@.len(),
    ensures
        r == is_reference_name(chars@.subrange(start as int, start + 20)),
{
    let ghost name = chars@.subrange(start as int, start + 20);
    let length: usize = chars.len();
    let mut i: usize = 0;
    while i < 14
        invariant
            i <= 14,
            start + 20 <= chars@.len(),
            length == chars@.len(),
            name == chars@.subrange(start as int, start + 20),
            forall|k: int| 0 <= k < i ==> is_digit_char(#[trigger] name[k]),
        decreases 14 - i,
    {
        if !is_digit_at(chars, start + i) {
            assert(!is_digit_char(name[i as int]));
            return false;
        }
        assert(name[i as int] == chars@[start + i]);
        i = i + 1;
    }
    let site: char = chars[start + 14];
    let known_site: bool = site == 'B' || site == 'C' || site == 'L' || site == 'M' || site == 'T'
        || site == 'U';
    known_site && chars[start + 15] == 'h' && chars[start + 16] == '.' && chars[start + 17] == 'j'
        && chars[start + 18] == 'p' && chars[start + 19] == 'g'
}

/// Names of the calibrated H-alpha images in a directory listing.
pub fn parse_filenames(index: &str) -> (names: Vec<String>)
    ensures
        texts(names@) == listed_names(index@),
{
    let chars = chars_of(index);
    let mut names: Vec<String> = Vec::new();
    if chars.len() < 20 {
        assert(texts(names@) =~= listed_names(index@));
        return names;
    }
    let count: usize = chars.len() - 19;
    let mut start: usize = 0;
    assert(texts(names@) =~= reference_names(index@, 0));
    while start < count
        invariant
            chars@ == index@,
            20 <= chars@.len() <= usize::MAX,
            count == chars@.len() - 19,
            start <= count,
            texts(names@) == reference_names(index@, start as nat),
        decreases count - start,
    {
        let ghost before = reference_names(index@, start as nat);
        let ghost name_here = index@.subrange(start as int, start + 20);
        assert(before.len() == names@.len());
        if reference_name_at(chars.as_slice(), start) {
            let name = text_of(chars.as_slice(), start, start + 20);
            let n: usize = names.len();
            let repeated: bool = n > 0 && names[n - 1] == name;
            assert(n > 0 ==> before.last() == names@[n - 1]@);
            if !repeated {
                names.push(name);
                assert(texts(names@) =~= before.push(name_here));
            }
        }
        start = start + 1;
        assert(reference_names(index@, start as nat) == texts(names@));
    }
    names
}

/// Every name read from a listing has the form of a reference name.
pub proof fn listed_names_are_references(listing: Seq<char>, i: int)
    requires
        0 <= i < listed_names(listing).len(),
    ensures
        is_reference_name(listed_names(listing)[i]),
{
    lemma_names_are_references(listing, (listing.len() - 19) as nat, i);
}

proof fn lemma_names_are_references(listing: Seq<char>, starts: nat, i: int)
    requires
        0 <= i < reference_names(listing, starts).len(),
    ensures
        is_reference_name(reference_names(listing, starts)[i]),
    decreases starts,
{
    let before = reference_names(listing, (starts - 1) as nat);
    if i < before.len() {
        lemma_names_are_references(listing, (starts - 1) as nat, i);
    }
}

/// A reference name that stands anywhere in a listing is among the names read
/// from it.
pub proof fn references_are_listed(listing: Seq<char>, start: int)
    requires
        0 <= start,
        start + 20 <= listing.len(),
        is_reference_name(listing.subrange(start, start + 20)),
    ensures
        listed_names(listing).contains(listing.subrange(start, start + 20)),
{
    lemma_reference_found(listing, (listing.len() - 19) as nat, start);
}

proof fn lemma_reference_found(listing: Seq<char>, starts: nat, start: int)
    requires
        0 <= start < starts,
        starts + 19 <= listing.len(),
        is_reference_name(listing.subrange(start, start + 20)),
    ensures
        reference_names(listing, starts).contains(listing.subrange(start, start + 20)),
    decreases starts,
{
    let name = listing.subrange(start, start + 20);
    let before = reference_names(listing, (starts - 1) as nat);
    let here = reference_names(listing, starts);
    if start == starts - 1 {
        if before.len() > 0 && before.last() == name {
            assert(here[before.len() - 1] == name);
        } else {
            assert(here[before.len() as int] == name);
        }
    } else {
        lemma_reference_found(listing, (starts - 1) as nat, start);
        let k = choose|k: int| 0 <= k < before.len() && before[k] == name;
        assert(here[k] == name);
    }
}

// ---------------------------------------------------------------------------
// Time of a reference
// ---------------------------------------------------------------------------

pub open spec fn digit_value(c: char) -> int {
    c as int - '0' as int
}

/// The two-digit number at position `i`.
pub open spec fn pair_value(name: Seq<char>, i: int) -> int {
    10 * digit_value(name[i]) + digit_value(name[i + 1])
}

/// Acquisition time that a name starts with, in seconds since 1970: year,
/// month, day, hour, minute and second, each within its range. A second of 60
/// is a leap second.
pub open spec fn name_seconds(name: Seq<char>) -> Option<int> {
    if name.len() < 14 || exists|i: int| 0 <= i < 14 && !is_digit_char(#[trigger] name[i]) {
        None
    } else {
        let year = 100 * pair_value(name, 0) + pair_value(name, 2);
        let month = pair_value(name, 4);
        let day = pair_value(name, 6);
        let hour = pair_value(name, 8);
        let minute = pair_value(name, 10);
        let second = pair_value(name, 12);
        if 1 <= month <= 12 && 1 <= day <= 31 && hour <= 23 && minute <= 59 && second <= 60 {
            Some(epoch_day(year, month, day) * SECONDS_PER_DAY + hour * 3600 + minute * 60 + second)
        } else {
            None
        }
    }
}

fn pair_at(chars: &[char], i: usize) -> (v: u32)
    requires
        i + 1 < chars@.len(),
        is_digit_char(chars@[i as int]),
        is_digit_char(chars@[i + 1]),
    ensures
        v == pair_value(chars@, i as int),
        v <= 99,
{
    let high: u32 = chars[i] as u32 - '0' as u32;
    let low: u32 = chars[i + 1] as u32 - '0' as u32;
    10 * high + low
}

/// Acquisition time of a reference, read from its name.
pub fn filename_unix_seconds(filename: &str) -> (seconds: Option<i64>)
    ensures
        match seconds {
            Some(s) => name_seconds(filename@) == Some(s as int) && -62_167_219_200 <= s
                <= 253_402_300_800,
            None => name_seconds(filename@) is None,
        },
{
    let chars = chars_of(filename);
    if chars.len() < 14 {
        return None;
    }
    let mut i: usize = 0;
    while i < 14
        invariant
            i <= 14,
            chars@ == filename@,
            chars@.len() >= 14,
            forall|k: int| 0 <= k < i ==> is_digit_char(#[trigger] filename@[k]),
        decreases 14 - i,
    {
        if !is_digit_at(chars.as_slice(), i) {
            assert(!is_digit_char(filename@[i as int]));
            return None;
        }
        i = i + 1;
    }
    let s = chars.as_slice();
    let year: u32 = 100 * pair_at(s, 0) + pair_at(s, 2);
    let month: u32 = pair_at(s, 4);
    let day: u32 = pair_at(s, 6);
    let hour: i64 = pair_at(s, 8) as i64;
    let minute: i64 = pair_at(s, 10) as i64;
    let second: i64 = pair_at(s, 12) as i64;
    if month < 1 || month > 12 || day < 1 || day > 31 || hour > 23 || minute > 59 || second > 60 {
        return None;
    }
    let days: i64 = days_from_civil(year as i32, month, day);
    proof {
        lemma_days_before_month(year as int);
        lemma_years_ascend(0, year as int);
        lemma_years_ascend(year as int, 9999);
    }
    Some(days * 86_400 + hour * 3600 + minute * 60 + second)
}

// ---------------------------------------------------------------------------
// The nearest reference
// ---------------------------------------------------------------------------

/// A reference found in the archive and its distance in time from the scan.
pub struct Candidate {
    pub delta_seconds: i64,
    pub filename: String,
    pub directory_url: String,
}

/// What a candidate says.
pub struct CandidateView {
    pub delta_seconds: int,
    pub filename: Seq<char>,
    pub directory_url: Seq<char>,
}

impl View for Candidate {
    type V = CandidateView;

    open spec fn view(&self) -> CandidateView {
        CandidateView {
            delta_seconds: self.delta_seconds as int,
            filename: self.filename@,
            directory_url: self.directory_url@,
        }
    }
}

pub open spec fn optional_view(c: Option<Candidate>) -> Option<CandidateView> {
    match c {
        Some(c) => Some(c@),
        None => None,
    }
}

pub open spec fn distance(a: int, b: int) -> int {
    if a >= b {
        a - b
    } else {
        b - a
    }
}

/// The nearest of `start` and the named references; the earlier one wins where
/// two are equally near. Names without a time are passed over.
pub open spec fn nearest_of(
    start: Option<CandidateView>,
    target: int,
    directory_url: Seq<char>,
    names: Seq<Seq<char>>,
) -> Option<CandidateView>
    decreases names.len(),
{
    if names.len() == 0 {
        start
    } else {
        let best = nearest_of(start, target, directory_url, names.drop_last());
        match name_seconds(names.last()) {
            None => best,
            Some(s) => if best is Some && best->0.delta_seconds <= distance(s, target) {
                best
            } else {
                Some(
                    CandidateView {
                        delta_seconds: distance(s, target),
                        filename: names.last(),
                        directory_url,
                    },
                )
            },
        }
    }
}

/// Seconds that leave room for the distance to any named time.
pub open spec fn usable_target(target_seconds: i64) -> bool {
    i64::MIN + 253_402_300_801 <= target_seconds <= i64::MAX - 253_402_300_800
}

/// Carries the nearest reference on over one more directory listing.
pub fn consider_index(
    nearest: Option<Candidate>,
    target_seconds: i64,
    directory_url: &str,
    index: &str,
) -> (result: Option<Candidate>)
    requires
        usable_target(target_seconds),
    ensures
        optional_view(result) == nearest_of(
            optional_view(nearest),
            target_seconds as int,
            directory_url@,
            listed_names(index@),
        ),
{
    let names = parse_filenames(index);
    let ghost listed = listed_names(index@);
    let ghost start = optional_view(nearest);
    let mut best = nearest;
    let mut i: usize = 0;
    assert(listed.take(0) =~= Seq::<Seq<char>>::empty());
    while i < names.len()
        invariant
            usable_target(target_seconds),
            texts(names@) == listed,
            i <= names@.len(),
            optional_view(best) == nearest_of(
                start,
                target_seconds as int,
                directory_url@,
                listed.take(i as int),
            ),
        decreases names@.len() - i,
    {
        assert(listed[i as int] == names@[i as int]@);
        assert(listed.take(i + 1).drop_last() =~= listed.take(i as int));
        match filename_unix_seconds(names[i].as_str()) {
            None => {},
            Some(seconds) => {
                let delta: i64 = if seconds >= target_seconds {
                    seconds - target_seconds
                } else {
                    target_seconds - seconds
                };
                let keep: bool = match &best {
                    Some(c) => c.delta_seconds <= delta,
                    None => false,
                };
                if !keep {
                    best = Some(
                        Candidate {
                            delta_seconds: delta,
                            filename: names[i].clone(),
                            directory_url: directory_url.to_owned(),
                        },
                    );
                }
            },
        }
        i = i + 1;
    }
    assert(listed.take(names@.len() as int) =~= listed);
    best
}

/// No listed reference is nearer to the scan than the selected one, and the
/// selection never moves away from what was found before.
pub proof fn nearest_is_minimal(
    start: Option<CandidateView>,
    target: int,
    directory_url: Seq<char>,
    names: Seq<Seq<char>>,
)
    ensures
        ({
            let best = nearest_of(start, target, directory_url, names);
            &&& forall|i: int|
                0 <= i < names.len() && name_seconds(#[trigger] names[i]) is Some ==> best is Some
                    && best->0.delta_seconds <= distance(name_seconds(names[i])->0, target)
            &&& start is Some ==> best is Some && best->0.delta_seconds <= start->0.delta_seconds
            &&& best is Some ==> best == start || (exists|i: int|
                0 <= i < names.len() && #[trigger] names[i] == best->0.filename && name_seconds(
                    names[i],
                ) is Some && best->0.delta_seconds == distance(name_seconds(names[i])->0, target))
        }),
    decreases names.len(),
{
    if names.len() > 0 {
        let shorter = names.drop_last();
        nearest_is_minimal(start, target, directory_url, shorter);
        let before = nearest_of(start, target, directory_url, shorter);
        let best = nearest_of(start, target, directory_url, names);
        assert forall|i: int|
            0 <= i < names.len() && name_seconds(#[trigger] names[i]) is Some implies best is Some
            && best->0.delta_seconds <= distance(name_seconds(names[i])->0, target) by {
            if i < shorter.len() {
                assert(shorter[i] == names[i]);
            }
        }
        if best is Some && best != start {
            if best == before {
                let k = choose|k: int|
                    0 <= k < shorter.len() && #[trigger] shorter[k] == best->0.filename
                        && name_seconds(shorter[k]) is Some && best->0.delta_seconds == distance(
                        name_seconds(shorter[k])->0,
                        target,
                    );
                assert(names[k] == best->0.filename);
            } else {
                assert(names[names.len() - 1] == best->0.filename);
            }
        }
    }
}

/// A directory of the archive: where it is, and its listing where it could be
/// read.
pub struct IndexPage {
    pub url: String,
    pub listing: Option<String>,
}

/// The nearest reference of several directories, in their order. A directory
/// that could not be read is passed over.
pub open spec fn nearest_on(target: int, pages: Seq<IndexPage>) -> Option<CandidateView>
    decreases pages.len(),
{
    if pages.len() == 0 {
        None
    } else {
        let best = nearest_on(target, pages.drop_last());
        match pages.last().listing {
            None => best,
            Some(listing) => nearest_of(
                best,
                target,
                pages.last().url@,
                listed_names(listing@),
            ),
        }
    }
}

/// The reference for a scan, from the directories around its day.
pub fn nearest_reference(target_seconds: i64, pages: &Vec<IndexPage>) -> (choice: Result<
    Candidate,
    ReferenceRefusal,
>)
    requires
        usable_target(target_seconds),
    ensures
        ({
            let nearest = nearest_on(target_seconds as int, pages@);
            match choice {
                Ok(c) => nearest == Some(c@) && c.delta_seconds <= MAX_REFERENCE_DELTA_SECONDS,
                Err(ReferenceRefusal::NoneAvailable) => nearest is None,
                Err(ReferenceRefusal::TooFar { delta_seconds }) => nearest is Some
                    && nearest->0.delta_seconds == delta_seconds && delta_seconds
                    > MAX_REFERENCE_DELTA_SECONDS,
            }
        }),
{
    let mut nearest: Option<Candidate> = None;
    let mut i: usize = 0;
    assert(pages@.take(0) =~= Seq::<IndexPage>::empty());
    while i < pages.len()
        invariant
            usable_target(target_seconds),
            i <= pages@.len(),
            optional_view(nearest) == nearest_on(target_seconds as int, pages@.take(i as int)),
        decreases pages@.len() - i,
    {
        assert(pages@.take(i + 1).drop_last() =~= pages@.take(i as int));
        if let Some(listing) = &pages[i].listing {
            nearest = consider_index(
                nearest,
                target_seconds,
                pages[i].url.as_str(),
                listing.as_str(),
            );
        }
        i = i + 1;
    }
    assert(pages@.take(pages@.len() as int) =~= pages@);
    choose_reference(nearest)
}

/// No reference that any of the directories lists is nearer to the scan than
/// the selected one.
pub proof fn nearest_on_all_pages(target: int, pages: Seq<IndexPage>, page: int, entry: int)
    requires
        0 <= page < pages.len(),
        pages[page].listing is Some,
        0 <= entry < listed_names(pages[page].listing->0@).len(),
        name_seconds(listed_names(pages[page].listing->0@)[entry]) is Some,
    ensures
        ({
            let best = nearest_on(target, pages);
            let seconds = name_seconds(listed_names(pages[page].listing->0@)[entry])->0;
            best is Some && best->0.delta_seconds <= distance(seconds, target)
        }),
    decreases pages.len(),
{
    let shorter = pages.drop_last();
    let before = nearest_on(target, shorter);
    if page < shorter.len() {
        assert(shorter[page] == pages[page]);
        nearest_on_all_pages(target, shorter, page, entry);
    }
    if let Some(listing) = pages.last().listing {
        nearest_is_minimal(before, target, pages.last().url@, listed_names(listing@));
    }
}

/// Why no reference is used.
pub enum ReferenceRefusal {
    /// The archive listed nothing near the scan.
    NoneAvailable,
    /// The nearest one is too far away in time.
    TooFar { delta_seconds: i64 },
}

impl ReferenceRefusal {
    /// The message for the log. `hours` is the distance in hours, to one
    /// decimal.
    pub fn text(&self, hours: &str) -> (message: String)
        ensures
            message@ == match *self {
                ReferenceRefusal::NoneAvailable =>
                    "no GONG H-alpha reference was available near the SER timestamp"@,
                ReferenceRefusal::TooFar { .. } => "nearest GONG H-alpha reference is "@ + hours@
                    + " hours away; refusing an unreliable match"@,
            },
    {
        match self {
            ReferenceRefusal::NoneAvailable =>
                "no GONG H-alpha reference was available near the SER timestamp".to_owned(),
            ReferenceRefusal::TooFar { .. } => crate::text::joined3(
                "nearest GONG H-alpha reference is ",
                hours,
                " hours away; refusing an unreliable match",
            ),
        }
    }
}

/// Accepts the nearest reference when there is one and it is near enough.
pub fn choose_reference(nearest: Option<Candidate>) -> (choice: Result<Candidate, ReferenceRefusal>)
    ensures
        match choice {
            Ok(c) => nearest == Some(c) && c.delta_seconds <= MAX_REFERENCE_DELTA_SECONDS,
            Err(ReferenceRefusal::NoneAvailable) => nearest is None,
            Err(ReferenceRefusal::TooFar { delta_seconds }) => nearest is Some
                && nearest->0.delta_seconds == delta_seconds && delta_seconds
                > MAX_REFERENCE_DELTA_SECONDS,
        },
{
    match nearest {
        None => Err(ReferenceRefusal::NoneAvailable),
        Some(c) => if c.delta_seconds > MAX_REFERENCE_DELTA_SECONDS {
            Err(ReferenceRefusal::TooFar { delta_seconds: c.delta_seconds })
        } else {
            Ok(c)
        },
    }
}

/// Where the accepted reference is downloaded from.
pub fn reference_url(candidate: &Candidate) -> (url: String)
    ensures
        url@ == candidate.directory_url@ + candidate.filename@,
{
    joined2(candidate.directory_url.as_str(), candidate.filename.as_str())
}

// ---------------------------------------------------------------------------
// The image of a reference
// ---------------------------------------------------------------------------

/// `image::DynamicImage`, a decoded image of any pixel type.
#[verifier::external_type_specification]
#[verifier::external_body]
pub struct ExDynamicImage(image::DynamicImage);

/// `image::ImageError`, the reason why an image could not be decoded.
#[verifier::external_type_specification]
#[verifier::external_body]
pub struct ExImageError(image::ImageError);

/// `image::load_from_memory` decodes an image whose format it guesses from its
/// first bytes. Nothing is said of the pixels: the decoder takes vector
/// instructions where the processor has them, and formats may be added at run
/// time.
pub assume_specification[ image::load_from_memory ](buffer: &[u8]) -> (decoded: Result<
    image::DynamicImage,
    image::ImageError,
>)
;

/// `image::DynamicImage::to_luma8` with the width, the height and the buffer of
/// its result. A grey image keeps one byte per pixel, row after row, in a
/// buffer that holds at least all of its pixels. Nothing is said of the grey
/// values.
#[verifier::external_body]
fn luma_pixels(decoded: &image::DynamicImage) -> (gray: (u32, u32, Vec<u8>))
    ensures
        gray.2@.len() >= gray.0 * gray.1,
{
    let gray = decoded.to_luma8();
    let (width, height) = gray.dimensions();
    (width, height, gray.into_raw())
}

/// Why a downloaded reference cannot be used.
pub enum ReferenceImageError {
    Decode(image::ImageError),
    TooSmall { width: u32, height: u32 },
}

/// A reference on the 16-bit intensity scale of the scans.
pub struct GrayReference {
    pub width: u32,
    pub height: u32,
    pub pixels: Vec<u16>,
}

/// What becomes of a grey image: of full resolution it is brought to the 16-bit
/// scale, exactly as many pixels as its size says; what its buffer lacks is dark.
pub open spec fn made_of(
    width: u32,
    height: u32,
    gray: Seq<u8>,
    image: Result<GrayReference, ReferenceImageError>,
) -> bool {
    match image {
        Ok(r) => {
            &&& width >= MIN_REFERENCE_SIDE && height >= MIN_REFERENCE_SIDE
            &&& r.width == width && r.height == height
            &&& r.pixels@ == Seq::new(
                (width * height) as nat,
                |i: int|
                    if i < gray.len() {
                        (gray[i] * 257) as u16
                    } else {
                        0u16
                    },
            )
        },
        Err(ReferenceImageError::TooSmall { width: w, height: h }) => (width < MIN_REFERENCE_SIDE
            || height < MIN_REFERENCE_SIDE) && w == width && h == height,
        Err(ReferenceImageError::Decode(_)) => false,
    }
}

/// Scales an 8-bit reference to 16 bits, refusing one below full resolution.
pub fn reference_image(width: u32, height: u32, gray: &[u8]) -> (image: Result<
    GrayReference,
    ReferenceImageError,
>)
    requires
        width * height <= usize::MAX,
    ensures
        made_of(width, height, gray@, image),
{
    if width < MIN_REFERENCE_SIDE || height < MIN_REFERENCE_SIDE {
        return Err(ReferenceImageError::TooSmall { width, height });
    }
    assert(0 <= width * height <= u64::MAX) by (nonlinear_arith)
        requires
            0 <= width <= u32::MAX,
            0 <= height <= u32::MAX,
    ;
    let total: usize = (width as u64 * height as u64) as usize;
    let mut pixels: Vec<u16> = Vec::new();
    let mut i: usize = 0;
    while i < total
        invariant
            i <= total,
            pixels@.len() == i,
            forall|k: int|
                0 <= k < i ==> #[trigger] pixels@[k] == (if k < gray@.len() {
                    (gray@[k] * 257) as u16
                } else {
                    0u16
                }),
        decreases total - i,
    {
        let v: u16 = if i < gray.len() {
            gray[i] as u16 * 257
        } else {
            0
        };
        pixels.push(v);
        i = i + 1;
    }
    assert(pixels@ =~= Seq::new(
        (width * height) as nat,
        |k: int|
            if k < gray@.len() {
                (gray@[k] * 257) as u16
            } else {
                0u16
            },
    ));
    Ok(GrayReference { width, height, pixels })
}

/// `gray` is a possible outcome of turning `decoded` grey.
pub closed spec fn grayed(decoded: image::DynamicImage, gray: (u32, u32, Vec<u8>)) -> bool {
    call_ensures(luma_pixels, (&decoded,), gray)
}

/// Decodes a downloaded reference: what `image::load_from_memory` makes of the
/// bytes, turned grey and brought to the scale of the scans. Its refusal is
/// handed on.
pub fn decode_reference(bytes: &[u8]) -> (image: Result<GrayReference, ReferenceImageError>)
    ensures
        exists|d: Result<image::DynamicImage, image::ImageError>|
            #[trigger] call_ensures(image::load_from_memory, (bytes,), d) && match d {
                Err(e) => image == Err::<GrayReference, ReferenceImageError>(
                    ReferenceImageError::Decode(e),
                ),
                Ok(decoded) => exists|g: (u32, u32, Vec<u8>)|
                    #[trigger] grayed(decoded, g) && g.2@.len() >= g.0 * g.1 && made_of(
                        g.0,
                        g.1,
                        g.2@,
                        image,
                    ),
            },
        image matches Ok(r) ==> r.pixels@.len() == r.width * r.height,
{
    match image::load_from_memory(bytes) {
        Err(e) => Err(ReferenceImageError::Decode(e)),
        Ok(decoded) => {
            let gray: (u32, u32, Vec<u8>) = luma_pixels(&decoded);
            assert(grayed(decoded, gray));
            assert(gray.2.len() == gray.2@.len());
            reference_image(gray.0, gray.1, gray.2.as_slice())
        },
    }
}

/// The bytes of an earlier download, where there are any.
pub fn cached_image(bytes: Option<Vec<u8>>) -> (cached: Option<Vec<u8>>)
    ensures
        cached == (match bytes {
            Some(b) => if b@.len() > 0 {
                Some(b)
            } else {
                None
            },
            None => None,
        }),
{
    match bytes {
        Some(b) => if b.len() > 0 {
            Some(b)
        } else {
            None
        },
        None => None,
    }
}

/// A download, unless it is empty.
pub fn downloaded_image(bytes: Vec<u8>) -> (image: Result<Vec<u8>, String>)
    ensures
        match image {
            Ok(b) => b == bytes && b@.len() > 0,
            Err(e) => bytes@.len() == 0 && e@ == "GONG returned an empty image"@,
        },
{
    if bytes.len() == 0 {
        Err("GONG returned an empty image".to_owned())
    } else {
        Ok(bytes)
    }
}

/// The message for a reference that is too small.
pub fn too_small_text(width: u32, height: u32) -> (message: String)
    ensures
        message@ == "GONG reference is unexpectedly small ("@ + crate::text::decimal(width as nat)
            + "x"@ + crate::text::decimal(height as nat) + "); full resolution is required"@,
{
    let mut message = String::new();
    message.append("GONG reference is unexpectedly small (");
    message.append(decimal_string(width as u64).as_str());
    message.append("x");
    message.append(decimal_string(height as u64).as_str());
    message.append("); full resolution is required");
    assert(message@ =~= "GONG reference is unexpectedly small ("@ + crate::text::decimal(
        width as nat,
    ) + "x"@ + crate::text::decimal(height as nat) + "); full resolution is required"@);
    message
}

// ---------------------------------------------------------------------------
// What the selection promises
// ---------------------------------------------------------------------------

/// Ticks count tenths of a microsecond since the first of January of the year one, and
/// a reference may be six hours away.
pub proof fn ticks_count_from_the_year_one()
    ensures
        epoch_day(1, 1, 1) * 86_400 == -DOTNET_UNIX_EPOCH_SECONDS,
        epoch_day(1970, 1, 1) == 0,
        TICKS_PER_SECOND * 100 == 1_000_000_000,
        SECONDS_PER_DAY == 24 * 60 * 60,
        MAX_REFERENCE_DELTA_SECONDS == 6 * 60 * 60,
{
    lemma_days_before_month(1);
    lemma_days_before_month(1970);
}

/// Every reference that is near enough lies on the day of the scan or on one of the
/// days around it, so that no more directories have to be asked for.
pub proof fn near_references_lie_on_the_searched_days(target: int, seconds: int)
    requires
        distance(seconds, target) <= MAX_REFERENCE_DELTA_SECONDS,
    ensures
        target / SECONDS_PER_DAY as int - 1 <= seconds / SECONDS_PER_DAY as int <= target
            / SECONDS_PER_DAY as int + 1,
{
}

/// The time in a name is the day that its first eight digits give and the time of day
/// that the next six give.
pub proof fn names_tell_their_time(name: Seq<char>)
    ensures
        name_seconds(name) matches Some(s) ==> {
            let day = epoch_day(
                1000 * digit_value(name[0]) + 100 * digit_value(name[1]) + 10 * digit_value(name[2])
                    + digit_value(name[3]),
                10 * digit_value(name[4]) + digit_value(name[5]),
                10 * digit_value(name[6]) + digit_value(name[7]),
            );
            let time = 36_000 * digit_value(name[8]) + 3_600 * digit_value(name[9]) + 600
                * digit_value(name[10]) + 60 * digit_value(name[11]) + 10 * digit_value(name[12])
                + digit_value(name[13]);
            s == day * 86_400 + time && 0 <= time <= 86_400
        },
{
}

/// Distances in time are told without their sign.
pub proof fn distances_have_no_sign(a: int, b: int)
    ensures
        distance(a, b) == distance(b, a),
        distance(a, b) >= 0,
        distance(a, b) == 0 <==> a == b,
        a + distance(a, b) == b || a - distance(a, b) == b,
{
}

/// Of references that are equally near, the one that was found first stays.
pub proof fn first_of_equals_stays(
    start: CandidateView,
    target: int,
    directory_url: Seq<char>,
    names: Seq<Seq<char>>,
)
    requires
        forall|i: int|
            0 <= i < names.len() && name_seconds(#[trigger] names[i]) is Some
                ==> start.delta_seconds <= distance(name_seconds(names[i])->0, target),
    ensures
        nearest_of(Some(start), target, directory_url, names) == Some(start),
    decreases names.len(),
{
    if names.len() > 0 {
        let less = names.drop_last();
        assert forall|i: int|
            0 <= i < less.len() && name_seconds(#[trigger] less[i]) is Some implies start.delta_seconds
            <= distance(name_seconds(less[i])->0, target) by {
            assert(less[i] == names[i]);
        }
        first_of_equals_stays(start, target, directory_url, less);
        assert(names[names.len() - 1] == names.last());
    }
}

/// A selected reference comes from the directory that it was listed in.
pub proof fn references_keep_their_directory(
    target: int,
    directory_url: Seq<char>,
    names: Seq<Seq<char>>,
)
    ensures
        nearest_of(None, target, directory_url, names) matches Some(c) ==> c.directory_url
            == directory_url && names.contains(c.filename),
    decreases names.len(),
{
    if names.len() > 0 {
        let less = names.drop_last();
        references_keep_their_directory(target, directory_url, less);
        assert(names[names.len() - 1] == names.last());
        if let Some(c) = nearest_of(None, target, directory_url, less) {
            let k = choose|k: int| 0 <= k < less.len() && less[k] == c.filename;
            assert(names[k] == c.filename);
        }
    }
}

/// Grey is stretched over the whole scale of the scans: black stays black, white is
/// white, and what was brighter stays brighter. A side below five hundred and twelve
/// pixels is refused.
pub proof fn grey_is_stretched(
    width: u32,
    height: u32,
    gray: Seq<u8>,
    image: Result<GrayReference, ReferenceImageError>,
    i: int,
)
    requires
        made_of(width, height, gray, image),
        0 <= i < width * height,
        i < gray.len(),
    ensures
        image is Ok <==> width >= 512 && height >= 512,
        image matches Ok(r) ==> r.pixels@.len() == width * height && r.pixels@[i] * 255 == gray[i]
            * 65_535,
{
}

/// A name of fourteen digits has a time exactly where its month, day, hour, minute and
/// second exist; a sixtieth second is a leap second.
pub proof fn possible_times_are_read(name: Seq<char>)
    requires
        name.len() >= 14,
        forall|i: int| 0 <= i < 14 ==> is_digit_char(#[trigger] name[i]),
    ensures
        name_seconds(name) is Some <==> {
            &&& 1 <= pair_value(name, 4) && pair_value(name, 4) <= 12
            &&& 1 <= pair_value(name, 6) && pair_value(name, 6) <= 31
            &&& pair_value(name, 8) < 24 && pair_value(name, 10) < 60 && pair_value(name, 12) < 61
        },
{
}

/// A reference is a time, the letter of one of the six sites and the ending of a
/// calibrated image, and everything that is made so is one.
pub proof fn references_are_times_of_a_site(time: Seq<char>, site: char, name: Seq<char>)
    ensures
        time.len() == 14 && (forall|i: int| 0 <= i < 14 ==> is_digit_char(#[trigger] time[i]))
            && seq!['B', 'C', 'L', 'M', 'T', 'U'].contains(site) ==> is_reference_name(
            time + seq![site] + "h.jpg"@,
        ),
        is_reference_name(name) ==> name.len() == 20 && seq!['B', 'C', 'L', 'M', 'T', 'U'].contains(
            name[14],
        ) && name.skip(15) =~= "h.jpg"@ && (forall|i: int|
            0 <= i < 14 ==> is_digit_char(#[trigger] name[i])),
{
    reveal_strlit("h.jpg");
    let sites = seq!['B', 'C', 'L', 'M', 'T', 'U'];
    assert(sites[0] == 'B' && sites[1] == 'C' && sites[2] == 'L');
    assert(sites[3] == 'M' && sites[4] == 'T' && sites[5] == 'U');
    let made = time + seq![site] + "h.jpg"@;
    if time.len() == 14 && (forall|i: int| 0 <= i < 14 ==> is_digit_char(#[trigger] time[i])) {
        assert forall|i: int| 0 <= i < 14 implies is_digit_char(#[trigger] made[i]) by {
            assert(made[i] == time[i]);
        }
    }
}

} // verus!
