//! Calendar arithmetic for the OLE date conversions. An OLE date counts
//! days from 1899-12-30; the fractional part of the day is left to the
//! caller, in floating point.

use vstd::prelude::*;

use crate::vm::{add32, arg, u16_or0, wrap_add, Vm};

verus! {

pub open spec fn leap(year: int) -> bool {
    (year % 4 == 0 && year % 100 != 0) || year % 400 == 0
}

pub open spec fn month_days(year: int, month: int) -> int {
    if month == 1 || month == 3 || month == 5 || month == 7 || month == 8 || month == 10 || month == 12 {
        31
    } else if month == 4 || month == 6 || month == 9 || month == 11 {
        30
    } else if month == 2 {
        if leap(year) { 29 } else { 28 }
    } else {
        0
    }
}

pub open spec fn valid_date(year: int, month: int, day: int) -> bool {
    year >= 1 && 1 <= month <= 12 && 1 <= day <= month_days(year, month)
}

/// Days from 1970-01-01 to a date of the proleptic Gregorian calendar (for
/// years from 0 on).
pub open spec fn civil_days(year: int, month: int, day: int) -> int {
    let y = if month <= 2 { year - 1 } else { year };
    let era = y / 400;
    let yoe = y - era * 400;
    let mp = if month > 2 { month - 3 } else { month + 9 };
    let doy = (153 * mp + 2) / 5 + day - 1;
    let doe = yoe * 365 + yoe / 4 - yoe / 100 + yoe / 400 + doy;
    era * 146097 + doe - 719468
}

/// The date `days` after 1970-01-01 (for dates from 0000-03-01 on).
pub open spec fn civil_date(days: int) -> (int, int, int) {
    let z = days + 719468;
    let era = z / 146097;
    let doe = z - era * 146097;
    let yoe = (doe - doe / 1460 + doe / 36524 - doe / 146096) / 365;
    let y = yoe + era * 400;
    let doy = doe - (365 * yoe + yoe / 4 - yoe / 100 + yoe / 400);
    let mp = (5 * doy + 2) / 153;
    let day = doy - (153 * mp + 2) / 5 + 1;
    let month = if mp < 10 { mp + 3 } else { mp - 9 };
    (if month <= 2 { y + 1 } else { y }, month, day)
}

/// The day of a year counted from March 1st, and the month index from
/// March, come back from `(5 * doy + 2) / 153`.
proof fn lemma_month_round_trip(year: int, month: int, day: int)
    requires
        valid_date(year, month, day),
    ensures
        ({
            let mp = if month > 2 { month - 3 } else { month + 9 };
            let doy = (153 * mp + 2) / 5 + day - 1;
            &&& 0 <= doy
            &&& doy <= 364 || (doy == 365 && month == 2 && leap(year))
            &&& (5 * doy + 2) / 153 == mp
            &&& doy - (153 * mp + 2) / 5 + 1 == day
        }),
{
}

/// Within a 400-year era, the year counted from March comes back from the
/// day of the era.
#[verifier::spinoff_prover]
proof fn lemma_year_of_era(yoe: int, doy: int)
    requires
        0 <= yoe < 400,
        0 <= doy,
        doy <= 364 || (doy == 365 && leap(yoe + 1)),
    ensures
        ({
            let doe = yoe * 365 + yoe / 4 - yoe / 100 + yoe / 400 + doy;
            &&& 0 <= doe < 146097
            &&& (doe - doe / 1460 + doe / 36524 - doe / 146096) / 365 == yoe
            &&& doe - (365 * yoe + yoe / 4 - yoe / 100 + yoe / 400) == doy
        }),
{
    let c = yoe / 100;
    let q = (yoe % 100) / 4;
    let r = yoe % 4;
    assert(yoe == 100 * c + 4 * q + r && yoe / 4 == 25 * c + q && 0 <= c < 4 && 0 <= q < 25 && 0 <= r < 4);
    let doe = yoe * 365 + yoe / 4 - yoe / 100 + yoe / 400 + doy;
    assert(doe == 36524 * c + 1461 * q + 365 * r + doy);
    if c == 0 {
        if r == 0 {} else if r == 1 {} else if r == 2 {} else {}
    } else if c == 1 {
        if r == 0 {} else if r == 1 {} else if r == 2 {} else {}
    } else if c == 2 {
        if r == 0 {} else if r == 1 {} else if r == 2 {} else {}
    } else {
        if r == 0 {} else if r == 1 {} else if r == 2 {} else {}
    }
}

/// A date comes back from its day count: converting a valid date to the
/// days since 1970-01-01 and the count back to a date gives the date.
#[verifier::spinoff_prover]
#[verifier::rlimit(40)]
pub proof fn law_civil_date_round_trip(year: int, month: int, day: int)
    requires
        valid_date(year, month, day),
    ensures
        civil_date(civil_days(year, month, day)) == (year, month, day),
{
    let y = if month <= 2 { year - 1 } else { year };
    let era = y / 400;
    let yoe = y - era * 400;
    assert(0 <= yoe < 400 && era >= 0);
    let mp = if month > 2 { month - 3 } else { month + 9 };
    let doy = (153 * mp + 2) / 5 + day - 1;
    lemma_month_round_trip(year, month, day);
    if month == 2 && leap(year) {
        assert(year == era * 400 + yoe + 1);
        assert((era * 400 + yoe + 1) % 4 == (yoe + 1) % 4);
        assert((era * 400 + yoe + 1) % 100 == (yoe + 1) % 100);
        assert((era * 400 + yoe + 1) % 400 == (yoe + 1) % 400);
    }
    lemma_year_of_era(yoe, doy);
    let doe = yoe * 365 + yoe / 4 - yoe / 100 + yoe / 400 + doy;
    let z = civil_days(year, month, day) + 719468;
    assert(z == era * 146097 + doe);
    vstd::arithmetic::div_mod::lemma_fundamental_div_mod_converse(z, 146097, era, doe);
}

/// The day after a date.
pub open spec fn next_date(year: int, month: int, day: int) -> (int, int, int) {
    if day < month_days(year, month) {
        (year, month, day + 1)
    } else if month < 12 {
        (year, month + 1, 1)
    } else {
        (year + 1, 1, 1)
    }
}

/// The day count of the first of March of `y + 1`, counted within its era,
/// is one more than that of the last day of February.
#[verifier::spinoff_prover]
proof fn lemma_march_first(y: int)
    requires
        y >= 0,
    ensures
        ({
            let last = if leap(y + 1) { 29int } else { 28int };
            civil_days(y + 1, 3, 1) == civil_days(y + 1, 2, last) + 1
        }),
{
    let era = y / 400;
    let yoe = y - era * 400;
    assert(0 <= yoe < 400 && era >= 0);
    assert(y == era * 400 + yoe);
    assert((era * 400 + yoe + 1) % 4 == (yoe + 1) % 4);
    assert((era * 400 + yoe + 1) % 100 == (yoe + 1) % 100);
    assert((era * 400 + yoe + 1) % 400 == (yoe + 1) % 400);
    if yoe < 399 {
        vstd::arithmetic::div_mod::lemma_fundamental_div_mod_converse(y + 1, 400, era, yoe + 1);
        let c = yoe / 100;
        let q = (yoe % 100) / 4;
        let r = yoe % 4;
        assert(yoe == 100 * c + 4 * q + r && 0 <= c < 4 && 0 <= q < 25 && 0 <= r < 4);
        if r < 3 {
            assert((yoe + 1) / 4 == yoe / 4 && (yoe + 1) / 100 == yoe / 100);
        } else if q < 24 {
            assert((yoe + 1) / 4 == yoe / 4 + 1 && (yoe + 1) / 100 == yoe / 100);
        } else {
            assert((yoe + 1) / 4 == yoe / 4 + 1 && (yoe + 1) / 100 == yoe / 100 + 1);
        }
    } else {
        vstd::arithmetic::div_mod::lemma_fundamental_div_mod_converse(y + 1, 400, era + 1, 0);
    }
}

/// The day after a valid date is a valid date, counted one day later.
#[verifier::spinoff_prover]
pub proof fn law_next_day(year: int, month: int, day: int)
    requires
        valid_date(year, month, day),
    ensures
        ({
            let (y2, m2, d2) = next_date(year, month, day);
            &&& valid_date(y2, m2, d2)
            &&& civil_days(y2, m2, d2) == civil_days(year, month, day) + 1
        }),
{
    if day < month_days(year, month) {
    } else if month == 2 {
        lemma_march_first(year - 1);
    } else if month < 12 {
        let y = if month <= 2 { year - 1 } else { year };
        assert(y >= 0);
    } else {
        let y = year;
        assert(y >= 0);
    }
}

#[verifier::spinoff_prover]
pub fn is_leap_year(year: i32) -> (r: bool)
    ensures
        r == leap(year as int),
{
    // Shifted by whole 400-year cycles to a nonnegative value, which keeps
    // every remainder below.
    let y: i64 = year as i64 + 400 * 6_000_000;
    assert(y % 4 == (year as int) % 4 && y % 100 == (year as int) % 100 && y % 400 == (year as int) % 400)
        by (nonlinear_arith)
        requires
            y == year + 400 * 6_000_000,
    ;
    (y % 4 == 0 && y % 100 != 0) || y % 400 == 0
}

pub fn days_in_month(year: i32, month: u32) -> (r: u32)
    ensures
        r == month_days(year as int, month as int),
{
    if month == 1 || month == 3 || month == 5 || month == 7 || month == 8 || month == 10 || month == 12 {
        31
    } else if month == 4 || month == 6 || month == 9 || month == 11 {
        30
    } else if month == 2 {
        if is_leap_year(year) { 29 } else { 28 }
    } else {
        0
    }
}

pub fn is_valid_date(year: i32, month: u32, day: u32) -> (r: bool)
    ensures
        r == valid_date(year as int, month as int, day as int),
{
    if year < 1 || month < 1 || month > 12 {
        return false;
    }
    let dim = days_in_month(year, month);
    day >= 1 && day <= dim
}

/// Days from 1970-01-01 to a date.
#[verifier::spinoff_prover]
pub fn days_from_civil(year: i32, month: u32, day: u32) -> (r: i64)
    requires
        1 <= year <= 1_000_000,
        1 <= month <= 12,
        day <= 31,
    ensures
        r == civil_days(year as int, month as int, day as int),
{
    let y: i64 = if month <= 2 { year as i64 - 1 } else { year as i64 };
    let era: i64 = y / 400;
    let yoe: i64 = y - era * 400;
    let m = month as i64;
    let mp: i64 = if m > 2 { m - 3 } else { m + 9 };
    let doy: i64 = (153 * mp + 2) / 5 + day as i64 - 1;
    assert(0 <= yoe < 400 && 0 <= era <= 2500) by (nonlinear_arith)
        requires
            era == y / 400,
            yoe == y - era * 400,
            0 <= y <= 1_000_000,
    ;
    let doe: i64 = yoe * 365 + yoe / 4 - yoe / 100 + yoe / 400 + doy;
    era * 146097 + doe - 719468
}

/// The date `days` after 1970-01-01, for every day count whose year fits
/// in an `i32`.
#[verifier::spinoff_prover]
#[verifier::rlimit(40)]
pub fn civil_from_days(days: i64) -> (r: (i32, u32, u32))
    requires
        -784_352_998_241 <= days <= 784_351_559_304,
    ensures
        (r.0 as int, r.1 as int, r.2 as int) == civil_date(days as int),
{
    let z: i64 = days + 719468;
    let shift: i64 = 5_368_709;
    let zp: i64 = z + shift * 146097;
    let eras: i64 = zp / 146097;
    let doe: i64 = zp - eras * 146097;
    assert(0 <= doe < 146097 && 0 <= eras <= 10_737_418) by (nonlinear_arith)
        requires
            eras == zp / 146097,
            doe == zp - eras * 146097,
            0 <= zp <= 1_568_704_557_545,
    ;
    let era: i64 = eras - shift;
    proof {
        vstd::arithmetic::div_mod::lemma_fundamental_div_mod_converse(z as int, 146097, era as int, doe as int);
    }
    let yoe: i64 = (doe - doe / 1460 + doe / 36524 - doe / 146096) / 365;
    assert(0 <= yoe <= 400) by (nonlinear_arith)
        requires
            yoe == (doe - doe / 1460 + doe / 36524 - doe / 146096) / 365,
            0 <= doe < 146097,
    ;
    let y: i64 = yoe + era * 400;
    let doy: i64 = doe - (365 * yoe + yoe / 4 - yoe / 100 + yoe / 400);
    assert(-200000 <= doy <= 200000) by (nonlinear_arith)
        requires
            doy == doe - (365 * yoe + yoe / 4 - yoe / 100 + yoe / 400),
            0 <= doe < 146097,
            0 <= yoe <= 400,
    ;
    let mp: i64 = (5 * doy + 2) / 153;
    let day: i64 = doy - (153 * mp + 2) / 5 + 1;
    let month: i64 = if mp < 10 { mp + 3 } else { mp - 9 };
    let year: i64 = if month <= 2 { y + 1 } else { y };
    assert(-20000 <= mp <= 20000) by (nonlinear_arith)
        requires
            mp == (5 * doy + 2) / 153,
            -200000 <= doy <= 200000,
    ;
    assert(-5000000 <= day <= 5000000) by (nonlinear_arith)
        requires
            day == doy - (153 * mp + 2) / 5 + 1,
            -20000 <= mp <= 20000,
            -200000 <= doy <= 200000,
    ;
    (year as i32, month as u32, day as u32)
}

/// What `SystemTimeToVariantTime` reads from a `SYSTEMTIME`: where the
/// result goes, the days since 1899-12-30, and the time of day.
#[derive(Debug, Clone, Copy, PartialEq, Eq)]
pub struct VariantTimeParts {
    pub out: u32,
    pub days: i64,
    pub seconds: u32,
    pub millis: u32,
}

/// The `SYSTEMTIME` at `p` (year, month, day, hour, minute, second and
/// milliseconds as read; unreadable fields as 0) as OLE date parts, where
/// it holds a valid date and time.
pub open spec fn variant_time_parts(vm: &Vm, stack_ptr: u32) -> Option<VariantTimeParts> {
    let p = arg(vm, stack_ptr, 0);
    let out = arg(vm, stack_ptr, 1);
    let year = u16_or0(vm, p as int) as int;
    let month = u16_or0(vm, add32(p, 2) as int) as int;
    let day = u16_or0(vm, add32(p, 6) as int) as int;
    let hour = u16_or0(vm, add32(p, 8) as int) as int;
    let minute = u16_or0(vm, add32(p, 10) as int) as int;
    let second = u16_or0(vm, add32(p, 12) as int) as int;
    let millis = u16_or0(vm, add32(p, 14) as int) as int;
    if p == 0 || out == 0 || !valid_date(year, month, day) || hour > 23 || minute > 59 || second > 59 || millis > 999 {
        None
    } else {
        Some(VariantTimeParts {
            out,
            days: (civil_days(year, month, day) - civil_days(1899, 12, 30)) as i64,
            seconds: (hour * 3600 + minute * 60 + second) as u32,
            millis: millis as u32,
        })
    }
}

/// The integer part of `SystemTimeToVariantTime(systime, out)`: `None` (the
/// routine returns 0) for a null argument or an invalid date or time; the
/// caller stores `days + (seconds + millis / 1000) / 86400` at `out`.
pub fn system_time_to_variant_parts(vm: &Vm, stack_ptr: u32) -> (r: Option<VariantTimeParts>)
    ensures
        r == variant_time_parts(vm, stack_ptr),
{
    let time_ptr = vm.arg(stack_ptr, 0);
    let out = vm.arg(stack_ptr, 1);
    if time_ptr == 0 || out == 0 {
        return None;
    }
    let year = vm.read_u16_or0(time_ptr) as i32;
    let month = vm.read_u16_or0(wrap_add(time_ptr, 2)) as u32;
    let day = vm.read_u16_or0(wrap_add(time_ptr, 6)) as u32;
    let hour = vm.read_u16_or0(wrap_add(time_ptr, 8)) as u32;
    let minute = vm.read_u16_or0(wrap_add(time_ptr, 10)) as u32;
    let second = vm.read_u16_or0(wrap_add(time_ptr, 12)) as u32;
    let millis = vm.read_u16_or0(wrap_add(time_ptr, 14)) as u32;
    if !is_valid_date(year, month, day) || hour > 23 || minute > 59 || second > 59 || millis > 999 {
        return None;
    }
    let base_days = days_from_civil(1899, 12, 30);
    let days = days_from_civil(year, month, day) - base_days;
    Some(VariantTimeParts { out, days, seconds: hour * 3600 + minute * 60 + second, millis })
}

/// The `SYSTEMTIME` fields of a day count since 1899-12-30 and a time of
/// day in milliseconds: year, month, day of week (0 is Sunday), day, hour,
/// minute, second and milliseconds.
pub open spec fn system_time_fields(days: int, ms: int) -> Seq<int> {
    let (y, m, d) = civil_date(civil_days(1899, 12, 30) + days);
    let dow = (days + 6) % 7;
    seq![y, m, dow, d, ms / 3_600_000, (ms % 3_600_000) / 60_000, (ms % 60_000) / 1000, ms % 1000]
}

/// A `SYSTEMTIME` comes back from its OLE date parts: the fields that
/// `system_time_from_parts` writes for the day count and the time of day
/// that `system_time_to_variant_parts` reads from a valid date and time are
/// that date and time.
pub proof fn law_system_time_round_trip(
    year: int,
    month: int,
    day: int,
    hour: int,
    minute: int,
    second: int,
    millis: int,
)
    requires
        valid_date(year, month, day),
        0 <= hour <= 23,
        0 <= minute <= 59,
        0 <= second <= 59,
        0 <= millis <= 999,
    ensures
        ({
            let f = system_time_fields(
                civil_days(year, month, day) - civil_days(1899, 12, 30),
                (hour * 3600 + minute * 60 + second) * 1000 + millis,
            );
            &&& f[0] == year
            &&& f[1] == month
            &&& f[3] == day
            &&& f[4] == hour
            &&& f[5] == minute
            &&& f[6] == second
            &&& f[7] == millis
        }),
{
    law_civil_date_round_trip(year, month, day);
    let ms = (hour * 3600 + minute * 60 + second) * 1000 + millis;
    assert(ms == hour * 3_600_000 + (minute * 60_000 + second * 1000 + millis));
    vstd::arithmetic::div_mod::lemma_fundamental_div_mod_converse(
        ms, 3_600_000, hour, minute * 60_000 + second * 1000 + millis);
    let rest = minute * 60_000 + second * 1000 + millis;
    vstd::arithmetic::div_mod::lemma_fundamental_div_mod_converse(rest, 60_000, minute, second * 1000 + millis);
    vstd::arithmetic::div_mod::lemma_fundamental_div_mod_converse(
        ms, 60_000, hour * 60 + minute, second * 1000 + millis);
    vstd::arithmetic::div_mod::lemma_fundamental_div_mod_converse(second * 1000 + millis, 1000, second, millis);
    vstd::arithmetic::div_mod::lemma_fundamental_div_mod_converse(
        ms, 1000, (hour * 3600 + minute * 60 + second), millis);
}

/// The day of the week (0 is Sunday) of a day count since 1899-12-30.
fn day_of_week(days: i64) -> (r: u16)
    requires
        -784_352_972_672 <= days <= 784_351_584_873,
    ensures
        r as int == (days + 6) % 7,
{
    let mut dow: i64 = (days + 6) % 7;
    if dow < 0 {
        dow = dow + 7;
    }
    dow as u16
}

/// The `SYSTEMTIME` that `VariantTimeToSystemTime` writes for a day count
/// since 1899-12-30 and a time of day in milliseconds (which the caller
/// takes from the floating-point date).
pub fn system_time_from_parts(days: i64, ms: u32) -> (r: Vec<u16>)
    requires
        -784_352_972_672 <= days <= 784_351_584_873,
        ms < 86_400_000,
    ensures
        r@.len() == 8,
        forall|i: int| 0 <= i < 8 ==> r@[i] == system_time_fields(days as int, ms as int)[i] as u16,
{
    let base_days = days_from_civil(1899, 12, 30);
    let (year, month, day) = civil_from_days(base_days + days);
    let hour = ms / 3_600_000;
    let minute = (ms % 3_600_000) / 60_000;
    let second = (ms % 60_000) / 1000;
    let millis = ms % 1000;
    let dow = day_of_week(days);
    let ghost f = system_time_fields(days as int, ms as int);
    let mut out: Vec<u16> = Vec::new();
    out.push(year as u16);
    out.push(month as u16);
    out.push(dow);
    out.push(day as u16);
    out.push(hour as u16);
    out.push(minute as u16);
    out.push(second as u16);
    out.push(millis as u16);
    assert(out@ =~= seq![year as u16, month as u16, dow, day as u16, hour as u16, minute as u16, second as u16, millis as u16]);
    out
}

} // verus!
