//! Instants at second resolution and their RFC 3339 text.

use vstd::prelude::*;
use vstd::string::*;
use crate::text;

verus! {

/// An instant: seconds since 1970-01-01T00:00:00Z.
#[derive(Debug, Clone, Copy, PartialEq, Eq, PartialOrd, Ord, Structural)]
pub struct Timestamp {
    pub secs: i64,
}

impl DeepView for Timestamp {
    type V = Timestamp;

    open spec fn deep_view(&self) -> Timestamp {
        *self
    }
}

// ---------------------------------------------------------------------------
// The proleptic Gregorian calendar
// ---------------------------------------------------------------------------

/// The day number of 1970-01-01, counted from 0000-01-01.
pub const UNIX_DAY: i64 = 719_528;

/// Whether a year has a 29th of February.
pub open spec fn leap(y: int) -> bool {
    y % 4 == 0 && (y % 100 != 0 || y % 400 == 0)
}

/// The day number of the first of January of a year, counted from 0000-01-01.
pub open spec fn year_start(y: int) -> int {
    365 * y + (y + 3) / 4 - (y + 99) / 100 + (y + 399) / 400
}

/// The number of days of a month.
pub open spec fn month_days(y: int, m: int) -> int {
    if m == 2 {
        if leap(y) {
            29
        } else {
            28
        }
    } else if m == 4 || m == 6 || m == 9 || m == 11 {
        30
    } else {
        31
    }
}

/// The number of days of a year that precede a month.
pub open spec fn month_start(y: int, m: int) -> int
    decreases m,
{
    if m <= 1 {
        0
    } else {
        month_start(y, m - 1) + month_days(y, m - 1)
    }
}

/// A calendar date.
pub struct Date {
    pub year: int,
    pub month: int,
    pub day: int,
}

impl Date {
    /// Whether the calendar has this date.
    pub open spec fn valid(self) -> bool {
        1 <= self.month <= 12 && 1 <= self.day <= month_days(self.year, self.month)
    }

    /// The number of the date, counted from 0000-01-01.
    pub open spec fn number(self) -> int {
        year_start(self.year) + month_start(self.year, self.month) + self.day - 1
    }
}

/// The date with a given number.
pub open spec fn date_of_number(n: int) -> Date {
    choose|d: Date| #[trigger] d.valid() && d.number() == n
}

proof fn lemma_year_length(y: int)
    ensures
        year_start(y + 1) == year_start(y) + if leap(y) {
            366int
        } else {
            365int
        },
{
    assert((y + 4) / 4 == (y + 3) / 4 + if y % 4 == 0 {
        1int
    } else {
        0int
    });
    assert((y + 100) / 100 == (y + 99) / 100 + if y % 100 == 0 {
        1int
    } else {
        0int
    });
    assert((y + 400) / 400 == (y + 399) / 400 + if y % 400 == 0 {
        1int
    } else {
        0int
    });
    assert(y % 400 == 0 ==> y % 100 == 0);
    assert(y % 100 == 0 ==> y % 4 == 0);
}

pub proof fn lemma_year_step(y: int)
    ensures
        year_start(y + 1) == year_start(y) + if leap(y) {
            366int
        } else {
            365int
        },
        year_start(y) + month_start(y, 13) == year_start(y + 1),
{
    lemma_year_length(y);
    reveal_with_fuel(month_start, 14);
}

pub proof fn lemma_year_start_monotone(a: int, b: int)
    requires
        a <= b,
    ensures
        year_start(a) + 365 * (b - a) <= year_start(b),
    decreases b - a,
{
    if a < b {
        lemma_year_start_monotone(a, b - 1);
        lemma_year_step(b - 1);
    }
}

proof fn lemma_month_start_monotone(y: int, a: int, b: int)
    requires
        1 <= a <= b,
    ensures
        month_start(y, a) <= month_start(y, b),
        a < b ==> month_start(y, a) + month_days(y, a) <= month_start(y, b),
    decreases b - a,
{
    if a < b {
        lemma_month_start_monotone(y, a, b - 1);
    }
}

/// A date lies in its year.
pub proof fn lemma_date_in_year(d: Date)
    requires
        d.valid(),
    ensures
        year_start(d.year) <= d.number() < year_start(d.year + 1),
{
    lemma_year_step(d.year);
    lemma_month_start_monotone(d.year, 1, d.month);
    lemma_month_start_monotone(d.year, d.month, 13);
}

/// Two valid dates with one number are the same date.
pub proof fn lemma_date_unique(a: Date, b: Date)
    requires
        a.valid(),
        b.valid(),
        a.number() == b.number(),
    ensures
        a == b,
{
    lemma_date_in_year(a);
    lemma_date_in_year(b);
    if a.year < b.year {
        lemma_year_start_monotone(a.year + 1, b.year);
    } else if b.year < a.year {
        lemma_year_start_monotone(b.year + 1, a.year);
    }
    if a.month < b.month {
        lemma_month_start_monotone(a.year, a.month, b.month);
    } else if b.month < a.month {
        lemma_month_start_monotone(a.year, b.month, a.month);
    }
}

/// A valid date is the one that its number stands for.
pub proof fn lemma_date_of_number(d: Date)
    requires
        d.valid(),
    ensures
        date_of_number(d.number()) == d,
{
    lemma_date_unique(date_of_number(d.number()), d);
}

// ---------------------------------------------------------------------------
// The text of an instant
// ---------------------------------------------------------------------------

/// The text of a year: four digits, or a sign and at least four digits.
pub open spec fn year_text(y: int) -> Seq<char> {
    if y < 0 {
        "-"@ + text::padded((-y) as nat, 4)
    } else if y > 9999 {
        "+"@ + text::padded(y as nat, 4)
    } else {
        text::padded(y as nat, 4)
    }
}

/// The date of an instant.
pub open spec fn date_of(t: Timestamp) -> Date {
    date_of_number(t.secs as int / 86400 + UNIX_DAY)
}

/// The text made of the parts of an instant.
#[verifier::opaque]
pub open spec fn joined(
    y: Seq<char>,
    m: Seq<char>,
    d: Seq<char>,
    hh: Seq<char>,
    mm: Seq<char>,
    ss: Seq<char>,
) -> Seq<char> {
    y + "-"@ + m + "-"@ + d + "T"@ + hh + ":"@ + mm + ":"@ + ss + "Z"@
}

/// The RFC 3339 text of an instant, in UTC.
pub open spec fn stamp_text(t: Timestamp) -> Seq<char> {
    let d = date_of(t);
    let s = t.secs as int % 86400;
    joined(
        year_text(d.year),
        text::padded(d.month as nat, 2),
        text::padded(d.day as nat, 2),
        text::padded((s / 3600) as nat, 2),
        text::padded((s / 60 % 60) as nat, 2),
        text::padded((s % 60) as nat, 2),
    )
}

/// Whether an instant lies in a year of four digits, the years that RFC 3339
/// can write.
pub open spec fn in_range(t: Timestamp) -> bool {
    -62_167_219_200 <= t.secs <= 253_402_300_799
}

/// The number written in the `n` digits of `s` that start at `i`.
pub open spec fn digits_at(s: Seq<char>, i: int, n: int) -> Option<int> {
    if 0 <= i && i + n <= s.len() && text::all_digits(s.subrange(i, i + n)) {
        Some(text::digits_value(s.subrange(i, i + n)) as int)
    } else {
        None
    }
}

/// The day number of a date `YYYY-MM-DD`.
pub open spec fn day_of_text(s: Seq<char>) -> Option<int> {
    match (digits_at(s, 0, 4), digits_at(s, 5, 2), digits_at(s, 8, 2)) {
        (Some(y), Some(m), Some(d)) => {
            let date = Date { year: y, month: m, day: d };
            if s[4] == '-' && s[7] == '-' && date.valid() {
                Some(date.number())
            } else {
                None
            }
        },
        _ => None,
    }
}

/// The second of the day of a time `hh:mm:ss` that starts at `i`.
pub open spec fn second_of_text(s: Seq<char>, i: int) -> Option<int> {
    match (digits_at(s, i, 2), digits_at(s, i + 3, 2), digits_at(s, i + 6, 2)) {
        (Some(h), Some(m), Some(x)) => if s[i + 2] == ':' && s[i + 5] == ':' && h <= 23 && m <= 59
            && x <= 59 {
            Some(3600 * h + 60 * m + x)
        } else {
            None
        },
        _ => None,
    }
}

/// Where the digits of `s` that start at `i` end.
pub open spec fn digits_end(s: Seq<char>, i: int) -> int
    decreases s.len() - i,
{
    if 0 <= i < s.len() && text::is_digit(s[i]) {
        digits_end(s, i + 1)
    } else {
        i
    }
}

/// Where the fraction of a second that starts at `i` ends: a period and at
/// least one digit, or nothing.
pub open spec fn fraction_end(s: Seq<char>, i: int) -> int {
    if i + 1 < s.len() && s[i] == '.' && text::is_digit(s[i + 1]) {
        digits_end(s, i + 1)
    } else {
        i
    }
}

/// The offset from UTC, in seconds, that the end of `s` from `i` on writes.
pub open spec fn zone_of_text(s: Seq<char>, i: int) -> Option<int> {
    if i + 1 == s.len() && (s[i] == 'Z' || s[i] == 'z') {
        Some(0)
    } else if i + 6 == s.len() && (s[i] == '+' || s[i] == '-') && s[i + 3] == ':' {
        match (digits_at(s, i + 1, 2), digits_at(s, i + 4, 2)) {
            (Some(h), Some(m)) => if h <= 23 && m <= 59 {
                Some(if s[i] == '+' {
                    3600 * h + 60 * m
                } else {
                    -(3600 * h + 60 * m)
                })
            } else {
                None
            },
            _ => None,
        }
    } else {
        None
    }
}

/// The instant that a text denotes: an RFC 3339 date and time, of which a
/// fraction of a second is dropped, or a date alone for its first second in
/// UTC.
pub open spec fn instant_of(s: Seq<char>) -> Option<int> {
    if s.len() == 10 {
        match day_of_text(s) {
            Some(d) => Some((d - UNIX_DAY) * 86400),
            None => None,
        }
    } else if s.len() >= 20 && (s[10] == 'T' || s[10] == 't' || s[10] == ' ') {
        match (day_of_text(s), second_of_text(s, 11), zone_of_text(s, fraction_end(s, 19))) {
            (Some(d), Some(x), Some(z)) => Some((d - UNIX_DAY) * 86400 + x - z),
            _ => None,
        }
    } else {
        None
    }
}

/// What reading the text of an instant gives. An instant whose year in UTC does
/// not have four digits is refused.
pub open spec fn stamp_parsed(s: Seq<char>) -> Result<Timestamp, Seq<char>> {
    match instant_of(s) {
        Some(n) => if -62_167_219_200 <= n <= 253_402_300_799 {
            Ok(Timestamp { secs: n as i64 })
        } else {
            Err("`"@ + s + "` is not an RFC 3339 instant"@)
        },
        None => Err("`"@ + s + "` is not an RFC 3339 instant"@),
    }
}

// ---------------------------------------------------------------------------
// Calendar arithmetic
// ---------------------------------------------------------------------------

/// A calendar date whose year is counted from 400 000 000 000 BC, so that no
/// instant lies before year zero.
struct ShiftedDate {
    year: u64,
    month: u64,
    day: u64,
}

impl ShiftedDate {
    spec fn date(self) -> Date {
        Date { year: self.year as int, month: self.month as int, day: self.day as int }
    }
}

fn is_leap(y: u64) -> (b: bool)
    ensures
        b == leap(y as int),
{
    y % 4 == 0 && (y % 100 != 0 || y % 400 == 0)
}

fn days_in_month(y: u64, m: u64) -> (d: u64)
    ensures
        d == month_days(y as int, m as int),
{
    if m == 2 {
        if is_leap(y) {
            29
        } else {
            28
        }
    } else if m == 4 || m == 6 || m == 9 || m == 11 {
        30
    } else {
        31
    }
}

fn start_of_year(y: u64) -> (d: u64)
    requires
        y <= 1_000_000_000_000,
    ensures
        d == year_start(y as int),
{
    365 * y + (y + 3) / 4 - (y + 99) / 100 + (y + 399) / 400
}

/// The date with the number `n`.
fn date_from_number(n: u64) -> (d: ShiftedDate)
    requires
        n <= 300_000_000_000_000,
    ensures
        d.date().valid(),
        d.date().number() == n,
{
    let mut year: u64 = n * 400 / 146_097;
    while start_of_year(year) > n
        invariant
            year <= 900_000_000_000,
        decreases year,
    {
        year = year - 1;
    }
    while start_of_year(year + 1) <= n
        invariant
            n <= 300_000_000_000_000,
            year <= 900_000_000_000,
            year_start(year as int) <= n,
        decreases n - year_start(year as int),
    {
        proof {
            lemma_year_step(year as int);
        }
        year = year + 1;
    }
    let mut rest: u64 = n - start_of_year(year);
    let mut month: u64 = 1;
    proof {
        lemma_year_step(year as int);
    }
    while rest >= days_in_month(year, month)
        invariant
            1 <= month <= 12,
            rest + month_start(year as int, month as int) == n - year_start(year as int),
            n < year_start(year as int) + month_start(year as int, 13),
        decreases rest,
    {
        rest = rest - days_in_month(year, month);
        proof {
            assert(month_start(year as int, month as int + 1) == month_start(
                year as int,
                month as int,
            ) + month_days(year as int, month as int));
        }
        month = month + 1;
    }
    ShiftedDate { year, month, day: rest + 1 }
}

/// Taking a multiple of the divisor away changes the quotient by the factor and
/// leaves the remainder.
proof fn lemma_shift(x: int, k: int, d: int)
    requires
        d > 0,
    ensures
        (x - k * d) / d == x / d - k,
        (x - k * d) % d == x % d,
{
    vstd::arithmetic::div_mod::lemma_fundamental_div_mod(x, d);
    let (q, r) = (x / d, x % d);
    assert(x - k * d == (q - k) * d + r) by (nonlinear_arith)
        requires
            x == d * q + r,
    ;
    vstd::arithmetic::div_mod::lemma_fundamental_div_mod_converse(x - k * d, d, q - k, r);
}

proof fn lemma_year_periodic(y: int)
    ensures
        leap(y - 400_000_000_000) == leap(y),
        year_start(y - 400_000_000_000) == year_start(y) - 146_097_000_000_000,
{
    lemma_shift(y + 3, 100_000_000_000, 4);
    lemma_shift(y + 99, 4_000_000_000, 100);
    lemma_shift(y + 399, 1_000_000_000, 400);
    lemma_shift(y, 100_000_000_000, 4);
    lemma_shift(y, 4_000_000_000, 100);
    lemma_shift(y, 1_000_000_000, 400);
}

proof fn lemma_month_start_periodic(y: int, m: int)
    requires
        m >= 1,
    ensures
        month_start(y - 400_000_000_000, m) == month_start(y, m),
    decreases m,
{
    if m > 1 {
        lemma_year_periodic(y);
        lemma_month_start_periodic(y, m - 1);
    }
}

/// The calendar repeats every 400 years.
pub proof fn lemma_calendar_periodic(d: Date)
    requires
        d.valid(),
    ensures
        (Date { year: d.year - 400_000_000_000, ..d }).valid(),
        (Date { year: d.year - 400_000_000_000, ..d }).number() == d.number()
            - 146_097_000_000_000,
{
    lemma_year_periodic(d.year);
    lemma_month_start_periodic(d.year, d.month);
}

fn text_of_year(y: i64) -> (r: String)
    requires
        -1_000_000_000_000 <= y <= 1_000_000_000_000,
    ensures
        r@ == year_text(y as int),
{
    if y < 0 {
        text::cat2("-", &text::padded_u64((-y) as u64, 4))
    } else if y > 9999 {
        text::cat2("+", &text::padded_u64(y as u64, 4))
    } else {
        text::padded_u64(y as u64, 4)
    }
}

/// The number written in the `n` digits of `v` that start at `i`.
fn read_digits(v: &Vec<char>, i: usize, n: usize) -> (r: Option<u64>)
    requires
        i <= 100,
        n <= 4,
    ensures
        match digits_at(v@, i as int, n as int) {
            Some(x) => r is Some && r->0 == x,
            None => r is None,
        },
        r matches Some(x) ==> x <= 9999,
{
    if i + n > v.len() {
        return None;
    }
    let ghost d = v@.subrange(i as int, i + n);
    proof {
        assert(d.len() == n);
    }
    let mut acc: u64 = 0;
    let mut k: usize = 0;
    while k < n
        invariant
            i <= 100,
            n <= 4,
            k <= n,
            i + n <= v@.len(),
            d == v@.subrange(i as int, i + n),
            acc == text::digits_value(d.take(k as int)),
            text::all_digits(d.take(k as int)),
            k == 0 ==> acc == 0,
            k == 1 ==> acc <= 9,
            k == 2 ==> acc <= 99,
            k == 3 ==> acc <= 999,
            k == 4 ==> acc <= 9999,
        decreases n - k,
    {
        let c: char = v[i + k];
        proof {
            assert(d[k as int] == c);
            let t = d.take(k + 1);
            assert(t.drop_last() =~= d.take(k as int));
            assert(t.last() == c);
        }
        if c < '0' || '9' < c {
            return None;
        }
        acc = acc * 10 + (c as u64 - '0' as u64);
        k = k + 1;
    }
    proof {
        assert(d.take(k as int) =~= d);
    }
    Some(acc)
}

/// The day number of the date at the start of `v`.
fn read_day(v: &Vec<char>) -> (r: Option<u64>)
    ensures
        match day_of_text(v@) {
            Some(x) => r is Some && r->0 == x,
            None => r is None,
        },
        r matches Some(x) ==> x <= 4_000_000,
{
    match (read_digits(v, 0, 4), read_digits(v, 5, 2), read_digits(v, 8, 2)) {
        (Some(y), Some(m), Some(d)) => {
            if v[4] != '-' || v[7] != '-' || m < 1 || m > 12 || d < 1 || d > days_in_month(y, m) {
                return None;
            }
            let mut n: u64 = start_of_year(y);
            let mut k: u64 = 1;
            proof {
                lemma_year_start_monotone(0, y as int);
                lemma_year_start_monotone(y as int, 10_000);
            }
            while k < m
                invariant
                    1 <= k <= m <= 12,
                    n == year_start(y as int) + month_start(y as int, k as int),
                    n <= 3_660_000 + 31 * k,
                decreases m - k,
            {
                n = n + days_in_month(y, k);
                proof {
                    assert(month_start(y as int, k as int + 1) == month_start(y as int, k as int)
                        + month_days(y as int, k as int));
                }
                k = k + 1;
            }
            Some(n + d - 1)
        },
        _ => None,
    }
}

fn read_second(v: &Vec<char>, i: usize) -> (r: Option<u64>)
    requires
        i <= 20,
    ensures
        match second_of_text(v@, i as int) {
            Some(x) => r is Some && r->0 == x,
            None => r is None,
        },
        r matches Some(x) ==> x < 86400,
{
    match (read_digits(v, i, 2), read_digits(v, i + 3, 2), read_digits(v, i + 6, 2)) {
        (Some(h), Some(m), Some(x)) => {
            if v[i + 2] != ':' || v[i + 5] != ':' || h > 23 || m > 59 || x > 59 {
                None
            } else {
                Some(3600 * h + 60 * m + x)
            }
        },
        _ => None,
    }
}

fn read_fraction_end(v: &Vec<char>, i: usize) -> (r: usize)
    requires
        i < v@.len(),
    ensures
        r == fraction_end(v@, i as int),
        i <= r <= v@.len(),
{
    if v.len() - i > 1 && v[i] == '.' && '0' <= v[i + 1] && v[i + 1] <= '9' {
        let mut k: usize = i + 1;
        while k < v.len() && '0' <= v[k] && v[k] <= '9'
            invariant
                i < k <= v@.len(),
                digits_end(v@, i + 1) == digits_end(v@, k as int),
            decreases v@.len() - k,
        {
            k = k + 1;
        }
        k
    } else {
        i
    }
}

fn read_zone(v: &Vec<char>, i: usize) -> (r: Option<i64>)
    requires
        i <= v@.len(),
    ensures
        match zone_of_text(v@, i as int) {
            Some(x) => r is Some && r->0 == x,
            None => r is None,
        },
        r matches Some(x) ==> -86400 < x < 86400,
{
    let n: usize = v.len() - i;
    if n == 1 && (v[i] == 'Z' || v[i] == 'z') {
        return Some(0);
    }
    if n != 6 || (v[i] != '+' && v[i] != '-') || v[i + 3] != ':' {
        return None;
    }
    let tail = vec![v[i + 1], v[i + 2], v[i + 4], v[i + 5]];
    proof {
        assert(tail@.subrange(0, 2) =~= v@.subrange(i + 1, i + 3));
        assert(tail@.subrange(2, 4) =~= v@.subrange(i + 4, i + 6));
    }
    match (read_digits(&tail, 0, 2), read_digits(&tail, 2, 2)) {
        (Some(h), Some(m)) => {
            if h > 23 || m > 59 {
                return None;
            }
            let offset: i64 = (3600 * h + 60 * m) as i64;
            Some(
                if v[i] == '+' {
                    offset
                } else {
                    -offset
                },
            )
        },
        _ => None,
    }
}

impl Timestamp {
    /// The instant `secs` seconds after the first of 1970.
    pub fn from_secs(secs: i64) -> (t: Timestamp)
        ensures
            t.secs == secs,
    {
        Timestamp { secs }
    }

    /// The RFC 3339 text of the instant.
    pub fn to_string(&self) -> (r: String)
        ensures
            r@ == stamp_text(*self),
    {
        // Seconds since the start of 400 000 000 000 BC.
        let total: u128 = (self.secs as i128 + 12_622_780_800_000_000_000_i128 + 62_167_219_200_i128) as u128;
        let n: u64 = (total / 86400) as u64;
        let s: u64 = (total % 86400) as u64;
        let d = date_from_number(n);
        proof {
            lemma_calendar_periodic(d.date());
            lemma_date_of_number(Date { year: d.year - 400_000_000_000, ..d.date() });
            lemma_date_in_year(d.date());
            if d.year > 1_000_000_000_000 {
                lemma_year_start_monotone(1_000_000_000_000, d.year as int);
            }
        }
        let mut r = text_of_year(d.year as i64 - 400_000_000_000);
        r.append("-");
        r.append(&text::padded_u64(d.month, 2));
        r.append("-");
        r.append(&text::padded_u64(d.day, 2));
        r.append("T");
        r.append(&text::padded_u64(s / 3600, 2));
        r.append(":");
        r.append(&text::padded_u64(s / 60 % 60, 2));
        r.append(":");
        r.append(&text::padded_u64(s % 60, 2));
        r.append("Z");
        proof {
            reveal(joined);
        }
        r
    }

    /// Read an RFC 3339 date and time, or a date alone.
    pub fn parse(s: &str) -> (r: Result<Timestamp, String>)
        ensures
            match stamp_parsed(s@) {
                Ok(t) => r is Ok && r->Ok_0 == t,
                Err(e) => r is Err && r->Err_0@ == e,
            },
    {
        let v = text::chars_of(s);
        let secs: Option<i64> = if v.len() == 10 {
            match read_day(&v) {
                Some(d) => Some((d as i64 - UNIX_DAY) * 86400),
                None => None,
            }
        } else if v.len() >= 20 && (v[10] == 'T' || v[10] == 't' || v[10] == ' ') {
            match (read_day(&v), read_second(&v, 11), read_zone(&v, read_fraction_end(&v, 19))) {
                (Some(d), Some(x), Some(z)) => Some(
                    (d as i64 - UNIX_DAY) * 86400 + x as i64 - z,
                ),
                _ => None,
            }
        } else {
            None
        };
        match secs {
            Some(secs) if -62_167_219_200 <= secs && secs <= 253_402_300_799 => Ok(
                Timestamp { secs },
            ),
            _ => Err(text::cat3("`", s, "` is not an RFC 3339 instant")),
        }
    }
}

// ---------------------------------------------------------------------------
// Laws
// ---------------------------------------------------------------------------

/// An instant that was read can be written.
pub proof fn law_parsed_stamp_is_writable(s: Seq<char>)
    ensures
        stamp_parsed(s) matches Ok(t) ==> in_range(t),
{
}

/// Every day from 0000-01-01 on has a date.
pub proof fn lemma_date_exists(n: int)
    requires
        n >= 0,
    ensures
        date_of_number(n).valid(),
        date_of_number(n).number() == n,
    decreases n,
{
    if n == 0 {
        let first = Date { year: 0, month: 1, day: 1 };
        assert(first.valid() && first.number() == 0);
    } else {
        lemma_date_exists(n - 1);
        let d = date_of_number(n - 1);
        lemma_year_step(d.year);
        if d.day < month_days(d.year, d.month) {
            let next = Date { day: d.day + 1, ..d };
            assert(next.valid() && next.number() == n);
        } else if d.month < 12 {
            let next = Date { year: d.year, month: d.month + 1, day: 1 };
            assert(next.valid() && next.number() == n);
        } else {
            let next = Date { year: d.year + 1, month: 1, day: 1 };
            assert(next.valid() && next.number() == n);
        }
    }
}

/// The parts of the text of an instant stand at fixed places.
proof fn lemma_stamp_shape(
    y: Seq<char>,
    m: Seq<char>,
    d: Seq<char>,
    hh: Seq<char>,
    mm: Seq<char>,
    ss: Seq<char>,
)
    requires
        y.len() == 4,
        m.len() == 2,
        d.len() == 2,
        hh.len() == 2,
        mm.len() == 2,
        ss.len() == 2,
    ensures
        ({
            let x = joined(y, m, d, hh, mm, ss);
            &&& x.len() == 20
            &&& x.subrange(0, 4) == y
            &&& x.subrange(5, 7) == m
            &&& x.subrange(8, 10) == d
            &&& x.subrange(11, 13) == hh
            &&& x.subrange(14, 16) == mm
            &&& x.subrange(17, 19) == ss
            &&& x[4] == '-' && x[7] == '-' && x[10] == 'T' && x[13] == ':' && x[16] == ':'
            &&& x[19] == 'Z'
        }),
{
    reveal_strlit("-");
    reveal_strlit("T");
    reveal_strlit(":");
    reveal_strlit("Z");
    reveal(joined);
    let x = y + "-"@ + m + "-"@ + d + "T"@ + hh + ":"@ + mm + ":"@ + ss + "Z"@;
    assert(x.subrange(0, 4) =~= y);
    assert(x.subrange(5, 7) =~= m);
    assert(x.subrange(8, 10) =~= d);
    assert(x.subrange(11, 13) =~= hh);
    assert(x.subrange(14, 16) =~= mm);
    assert(x.subrange(17, 19) =~= ss);
}

/// An instant that RFC 3339 can write has a date in a year of four digits.
pub proof fn lemma_date_in_range(t: Timestamp)
    requires
        in_range(t),
    ensures
        date_of(t).valid(),
        date_of(t).number() == t.secs as int / 86400 + UNIX_DAY,
        0 <= date_of(t).year <= 9999,
{
    let d = date_of(t);
    lemma_date_exists(t.secs as int / 86400 + UNIX_DAY);
    lemma_date_in_year(d);
    if d.year < 0 {
        lemma_year_start_monotone(d.year + 1, 0);
    }
    if d.year > 9999 {
        lemma_year_start_monotone(10_000, d.year);
    }
}

pub proof fn lemma_padded_fields(d: Date, s: int)
    requires
        0 <= d.year <= 9999,
        1 <= d.month <= 12,
        1 <= d.day <= 31,
        0 <= s < 86400,
    ensures
        text::padded(d.year as nat, 4).len() == 4,
        text::all_digits(text::padded(d.year as nat, 4)),
        text::digits_value(text::padded(d.year as nat, 4)) == d.year,
        forall|n: nat|
            n < 100 ==> (#[trigger] text::padded(n, 2)).len() == 2 && text::all_digits(
                text::padded(n, 2),
            ) && text::digits_value(text::padded(n, 2)) == n,
{
    assert(vstd::arithmetic::power::pow(10, 4) == 10_000 && vstd::arithmetic::power::pow(10, 2)
        == 100) by {
        reveal_with_fuel(vstd::arithmetic::power::pow, 5);
    }
    text::lemma_padded(d.year as nat, 4);
    assert forall|n: nat| n < 100 implies (#[trigger] text::padded(n, 2)).len() == 2
        && text::all_digits(text::padded(n, 2)) && text::digits_value(text::padded(n, 2)) == n by {
        text::lemma_padded(n, 2);
    }
}

/// A text of twenty characters with the parts of an instant at their places
/// denotes that instant.
proof fn lemma_read_back(x: Seq<char>, d: Date, h: int, m: int, s: int)
    requires
        x.len() == 20,
        d.valid(),
        digits_at(x, 0, 4) == Some(d.year),
        digits_at(x, 5, 2) == Some(d.month),
        digits_at(x, 8, 2) == Some(d.day),
        digits_at(x, 11, 2) == Some(h),
        digits_at(x, 14, 2) == Some(m),
        digits_at(x, 17, 2) == Some(s),
        h <= 23,
        m <= 59,
        s <= 59,
        x[4] == '-' && x[7] == '-' && x[10] == 'T' && x[13] == ':' && x[16] == ':' && x[19] == 'Z',
    ensures
        instant_of(x) == Some((d.number() - UNIX_DAY) * 86400 + 3600 * h + 60 * m + s),
{
    let date = Date { year: d.year, month: d.month, day: d.day };
    assert(date == d);
    assert(day_of_text(x) == Some(d.number()));
    assert(second_of_text(x, 11) == Some(3600 * h + 60 * m + s));
    assert(zone_of_text(x, 19) == Some(0int));
}

proof fn lemma_clock(s: int)
    requires
        0 <= s < 86400,
    ensures
        0 <= s / 3600 <= 23,
        0 <= s / 60 % 60 <= 59,
        0 <= s % 60 <= 59,
        3600 * (s / 3600) + 60 * (s / 60 % 60) + s % 60 == s,
{
}

/// An instant of a year of four digits is read back from its text.
pub proof fn law_stamp_round_trip(t: Timestamp)
    requires
        in_range(t),
    ensures
        stamp_parsed(stamp_text(t)) == Ok::<Timestamp, Seq<char>>(t),
{
    let d = date_of(t);
    let s = t.secs as int % 86400;
    let (h, m, sec) = (s / 3600, s / 60 % 60, s % 60);
    lemma_date_in_range(t);
    lemma_clock(s);
    lemma_padded_fields(d, s);
    let (yt, mt, dt) = (
        text::padded(d.year as nat, 4),
        text::padded(d.month as nat, 2),
        text::padded(d.day as nat, 2),
    );
    let (ht, mit, st) = (
        text::padded(h as nat, 2),
        text::padded(m as nat, 2),
        text::padded(sec as nat, 2),
    );
    lemma_stamp_shape(yt, mt, dt, ht, mit, st);
    let x = stamp_text(t);
    lemma_read_back(x, d, h, m, sec);
}

} // verus!
