//! The calendar, and the texts that denote instants.

use vstd::prelude::*;
use crate::laws::texts;
use crate::laws::words;
use crate::text;
use crate::time;
use crate::time::Date;
use crate::time::Timestamp;

verus! {

// ---------------------------------------------------------------------------
// The calendar
// ---------------------------------------------------------------------------

/// The number of days of a month in the Gregorian calendar.
pub open spec fn month_length(y: int, m: int) -> int {
    let february = if (y % 4 == 0 && y % 100 != 0) || y % 400 == 0 {
        29int
    } else {
        28int
    };
    seq![31int, february, 31, 30, 31, 30, 31, 31, 30, 31, 30, 31][m - 1]
}

/// Whether the Gregorian calendar has a date.
pub open spec fn on_calendar(d: Date) -> bool {
    1 <= d.month <= 12 && 1 <= d.day <= month_length(d.year, d.month)
}

/// The date of the day after.
pub open spec fn day_after(d: Date) -> Date {
    if d.day < month_length(d.year, d.month) {
        Date { year: d.year, month: d.month, day: d.day + 1 }
    } else if d.month < 12 {
        Date { year: d.year, month: d.month + 1, day: 1 }
    } else {
        Date { year: d.year + 1, month: 1, day: 1 }
    }
}

/// The valid dates are those of the Gregorian calendar. They are numbered one by one:
/// the day after a date has the next number.
pub proof fn law_days_are_counted_one_by_one(d: Date)
    ensures
        d.valid() <==> on_calendar(d),
        on_calendar(d) ==> on_calendar(day_after(d)) && day_after(d).number() == d.number() + 1,
{
    if d.valid() {
        time::lemma_year_step(d.year);
    }
}

/// The instants of a day: the first day of 1970 begins at zero, and every date has the
/// number of the day that its instants lie in.
pub proof fn law_date_is_that_of_the_day(t: Timestamp)
    ensures
        ({
            let d = time::date_of(t);
            let epoch = Date { year: 1970, month: 1, day: 1 };
            &&& on_calendar(d)
            &&& 86400 * (d.number() - epoch.number()) <= t.secs < 86400 * (d.number()
                - epoch.number()) + 86400
            &&& 0 <= t.secs < 86400 ==> d == epoch
        }),
{
    let epoch = Date { year: 1970, month: 1, day: 1 };
    assert(epoch.number() == time::UNIX_DAY);
    assert(epoch.valid());
    let n = t.secs as int / 86400 + time::UNIX_DAY;
    time::lemma_date_exists(n + 146_097_000_000_000);
    let far = time::date_of_number(n + 146_097_000_000_000);
    time::lemma_calendar_periodic(far);
    let d = Date { year: far.year - 400_000_000_000, ..far };
    assert(d.valid() && d.number() == n);
    time::lemma_date_of_number(d);
    law_days_are_counted_one_by_one(d);
    if 0 <= t.secs < 86400 {
        time::lemma_date_unique(d, epoch);
    }
}

// ---------------------------------------------------------------------------
// Reading
// ---------------------------------------------------------------------------

/// Whether `n` decimal digits stand in a text from `i` on.
pub open spec fn digits_stand(s: Seq<char>, i: int, n: int) -> bool {
    0 <= i && i + n <= s.len() && forall|k: int| i <= k < i + n ==> '0' <= #[trigger] s[k] <= '9'
}

/// The number that the `n` digits from `i` on write.
pub open spec fn number_at(s: Seq<char>, i: int, n: int) -> int {
    words::figure(s.subrange(i, i + n))
}

/// The date in a text that begins with `YYYY-MM-DD`.
pub open spec fn date_at(s: Seq<char>) -> Date {
    Date { year: number_at(s, 0, 4), month: number_at(s, 5, 2), day: number_at(s, 8, 2) }
}

/// Whether a text begins with a date `YYYY-MM-DD` of the calendar.
pub open spec fn date_stands(s: Seq<char>) -> bool {
    &&& digits_stand(s, 0, 4)
    &&& digits_stand(s, 5, 2)
    &&& digits_stand(s, 8, 2)
    &&& s[4] == '-' && s[7] == '-'
    &&& on_calendar(date_at(s))
}

/// Whether a time of day `hh:mm:ss` follows after the date and one character.
pub open spec fn time_stands(s: Seq<char>) -> bool {
    &&& digits_stand(s, 11, 2)
    &&& digits_stand(s, 14, 2)
    &&& digits_stand(s, 17, 2)
    &&& s[13] == ':' && s[16] == ':'
    &&& number_at(s, 11, 2) < 24 && number_at(s, 14, 2) < 60 && number_at(s, 17, 2) < 60
}

/// Whether nothing, or a period and digits, stands between the time of day and `k`.
pub open spec fn fraction_stands(s: Seq<char>, k: int) -> bool {
    k == 19 || (k > 20 && 19 < s.len() && s[19] == '.' && digits_stand(s, 20, k - 20))
}

/// Whether a text ends, from `k` on, with `Z` or an offset `+hh:mm` or `-hh:mm`.
pub open spec fn zone_stands(s: Seq<char>, k: int) -> bool {
    ||| k + 1 == s.len() && (s[k] == 'Z' || s[k] == 'z')
    ||| k + 6 == s.len() && (s[k] == '+' || s[k] == '-') && digits_stand(s, k + 1, 2) && s[k + 3]
        == ':' && digits_stand(s, k + 4, 2) && number_at(s, k + 1, 2) < 24 && number_at(s, k + 4, 2)
        < 60
}

/// By how many seconds the local time is ahead of UTC.
pub open spec fn offset_at(s: Seq<char>, k: int) -> int {
    if s[k] == '+' {
        3600 * number_at(s, k + 1, 2) + 60 * number_at(s, k + 4, 2)
    } else if s[k] == '-' {
        -3600 * number_at(s, k + 1, 2) - 60 * number_at(s, k + 4, 2)
    } else {
        0
    }
}

/// The number of the days from the first day of 1970 on.
pub open spec fn days_since_epoch(d: Date) -> int {
    d.number() - Date { year: 1970, month: 1, day: 1 }.number()
}

/// Whether a text denotes an instant: a date alone for its first second in UTC, or a
/// date and a time of day, of which a fraction of a second counts for nothing, with an
/// offset from UTC.
pub open spec fn denotes(s: Seq<char>, n: int) -> bool {
    ||| s.len() == 10 && date_stands(s) && n == 86400 * days_since_epoch(date_at(s))
    ||| s.len() >= 20 && (s[10] == 'T' || s[10] == 't' || s[10] == ' ') && date_stands(s)
        && time_stands(s) && exists|k: int| #[trigger]
        fraction_stands(s, k) && zone_stands(s, k) && n == 86400 * days_since_epoch(date_at(s))
            + 3600 * number_at(s, 11, 2) + 60 * number_at(s, 14, 2) + number_at(s, 17, 2)
            - offset_at(s, k)
}

proof fn lemma_digits_at(s: Seq<char>, i: int, n: int)
    requires
        n > 0,
    ensures
        time::digits_at(s, i, n) is Some <==> digits_stand(s, i, n),
        time::digits_at(s, i, n) matches Some(x) ==> x == number_at(s, i, n),
{
    if 0 <= i && i + n <= s.len() {
        let d = s.subrange(i, i + n);
        texts::law_digits_are_read_as_written(d);
        if digits_stand(s, i, n) {
            assert forall|k: int| 0 <= k < d.len() implies '0' <= #[trigger] d[k] <= '9' by {
                assert(d[k] == s[i + k]);
            }
        }
        if text::all_digits(d) {
            assert forall|k: int| i <= k < i + n implies '0' <= #[trigger] s[k] <= '9' by {
                assert(d[k - i] == s[k]);
                assert('0' <= d[k - i] <= '9');
            }
        }
    }
}

proof fn lemma_day(s: Seq<char>)
    ensures
        time::day_of_text(s) is Some <==> date_stands(s),
        time::day_of_text(s) matches Some(n) ==> n - time::UNIX_DAY == days_since_epoch(date_at(s)),
{
    lemma_digits_at(s, 0, 4);
    lemma_digits_at(s, 5, 2);
    lemma_digits_at(s, 8, 2);
    law_days_are_counted_one_by_one(date_at(s));
    assert(Date { year: 1970, month: 1, day: 1 }.number() == time::UNIX_DAY);
}

proof fn lemma_second(s: Seq<char>)
    ensures
        time::second_of_text(s, 11) is Some <==> time_stands(s),
        time::second_of_text(s, 11) matches Some(n) ==> n == 3600 * number_at(s, 11, 2) + 60
            * number_at(s, 14, 2) + number_at(s, 17, 2),
{
    lemma_digits_at(s, 11, 2);
    lemma_digits_at(s, 14, 2);
    lemma_digits_at(s, 17, 2);
}

proof fn lemma_zone(s: Seq<char>, k: int)
    requires
        k >= 0,
    ensures
        time::zone_of_text(s, k) is Some <==> zone_stands(s, k),
        time::zone_of_text(s, k) matches Some(n) ==> n == offset_at(s, k),
{
    lemma_digits_at(s, k + 1, 2);
    lemma_digits_at(s, k + 4, 2);
}

proof fn lemma_digits_end(s: Seq<char>, i: int)
    requires
        0 <= i <= s.len(),
    ensures
        i <= time::digits_end(s, i) <= s.len(),
        digits_stand(s, i, time::digits_end(s, i) - i),
        time::digits_end(s, i) < s.len() ==> !('0' <= s[time::digits_end(s, i)] <= '9'),
    decreases s.len() - i,
{
    if i < s.len() && text::is_digit(s[i]) {
        lemma_digits_end(s, i + 1);
    }
}

proof fn lemma_fraction(s: Seq<char>, k: int)
    requires
        s.len() >= 20,
    ensures
        fraction_stands(s, time::fraction_end(s, 19)),
        fraction_stands(s, k) && zone_stands(s, k) ==> k == time::fraction_end(s, 19),
{
    lemma_digits_end(s, 20);
    let e = time::digits_end(s, 20);
    if s[19] == '.' && 20 < s.len() && text::is_digit(s[20]) {
        assert(time::fraction_end(s, 19) == e);
        assert(e > 20) by {
            reveal_with_fuel(time::digits_end, 2);
            lemma_digits_end(s, 21);
        }
    }
    if fraction_stands(s, k) && zone_stands(s, k) && k != 19 {
        assert('0' <= s[20] <= '9');
        if k < e {
            assert('0' <= s[k] <= '9');
        } else if e < k {
            assert('0' <= s[e] <= '9');
        }
    }
}

/// A text is read as an instant exactly if it denotes it and the year of the instant
/// has four digits in UTC.
pub proof fn law_instant_is_read_as_written(s: Seq<char>, t: Timestamp)
    ensures
        time::stamp_parsed(s) == Ok::<Timestamp, Seq<char>>(t) <==> denotes(s, t.secs as int)
            && -62_167_219_200 <= t.secs <= 253_402_300_799,
{
    lemma_day(s);
    if s.len() >= 20 {
        lemma_second(s);
        let k = time::fraction_end(s, 19);
        lemma_fraction(s, k);
        assert(k >= 19);
        lemma_zone(s, k);
        assert(fraction_stands(s, k));
        assert forall|j: int| #[trigger] fraction_stands(s, j) && zone_stands(s, j) implies j
            == k by {
            lemma_fraction(s, j);
        }
    }
}

/// The years that can be read are those from 0 to 9999.
pub proof fn law_readable_years_have_four_digits(t: Timestamp)
    ensures
        -62_167_219_200 <= t.secs <= 253_402_300_799 <==> 0 <= time::date_of(t).year <= 9999,
{
    let d = time::date_of(t);
    law_date_is_that_of_the_day(t);
    law_days_are_counted_one_by_one(d);
    if time::in_range(t) {
        time::lemma_date_in_range(t);
    } else {
        let first = Date { year: 0, month: 1, day: 1 };
        let end = Date { year: 10_000, month: 1, day: 1 };
        assert(first.number() == 0 && end.number() == 3_652_425);
        assert(Date { year: 1970, month: 1, day: 1 }.number() == 719_528);
        time::lemma_date_in_year(d);
        if 0 <= d.year <= 9999 {
            time::lemma_year_start_monotone(0, d.year);
            time::lemma_year_start_monotone(d.year + 1, 10_000);
        }
    }
}

// ---------------------------------------------------------------------------
// Writing
// ---------------------------------------------------------------------------

/// A year is written in four digits, and outside of these years with a sign in front.
pub proof fn law_years_are_written_in_full(y: int)
    ensures
        ({
            let s = time::year_text(y);
            &&& 0 <= y <= 9999 ==> s.len() == 4 && words::figures(s) && words::figure(s) == y
            &&& y > 9999 ==> s.len() >= 5 && s[0] == '+' && words::figures(s.skip(1))
                && words::figure(s.skip(1)) == y
            &&& y < 0 ==> s.len() >= 5 && s[0] == '-' && words::figures(s.skip(1)) && words::figure(
                s.skip(1),
            ) == -y
        }),
{
    let a = if y < 0 {
        (-y) as nat
    } else {
        y as nat
    };
    let p = text::padded(a, 4);
    reveal_strlit("+");
    reveal_strlit("-");
    text::lemma_decimal(a);
    text::lemma_leading_zeros((4 - text::decimal(a).len()) as nat, text::decimal(a));
    texts::law_digits_are_read_as_written(p);
    texts::law_padding_is_zeros_in_front(a, 4);
    assert(("+"@ + p).skip(1) =~= p);
    assert(("-"@ + p).skip(1) =~= p);
    if 0 <= y <= 9999 {
        time::lemma_padded_fields(Date { year: y, month: 1, day: 1 }, 0);
    }
}

proof fn lemma_joined(
    y: Seq<char>,
    m: Seq<char>,
    d: Seq<char>,
    hh: Seq<char>,
    mm: Seq<char>,
    ss: Seq<char>,
)
    requires
        m.len() == 2,
        d.len() == 2,
        hh.len() == 2,
        mm.len() == 2,
        ss.len() == 2,
    ensures
        ({
            let x = time::joined(y, m, d, hh, mm, ss);
            let n = y.len() as int;
            &&& x.len() == n + 16
            &&& x.take(n) == y
            &&& x.subrange(n + 1, n + 3) == m
            &&& x.subrange(n + 4, n + 6) == d
            &&& x.subrange(n + 7, n + 9) == hh
            &&& x.subrange(n + 10, n + 12) == mm
            &&& x.subrange(n + 13, n + 15) == ss
            &&& x[n] == '-' && x[n + 3] == '-' && x[n + 6] == 'T' && x[n + 9] == ':'
            &&& x[n + 12] == ':' && x[n + 15] == 'Z'
        }),
{
    reveal_strlit("-");
    reveal_strlit("T");
    reveal_strlit(":");
    reveal_strlit("Z");
    reveal(time::joined);
    let x = y + "-"@ + m + "-"@ + d + "T"@ + hh + ":"@ + mm + ":"@ + ss + "Z"@;
    let n = y.len() as int;
    assert(x.take(n) =~= y);
    assert(x.subrange(n + 1, n + 3) =~= m);
    assert(x.subrange(n + 4, n + 6) =~= d);
    assert(x.subrange(n + 7, n + 9) =~= hh);
    assert(x.subrange(n + 10, n + 12) =~= mm);
    assert(x.subrange(n + 13, n + 15) =~= ss);
}

/// An instant is written as its year and then `-MM-DDThh:mm:ssZ`: the date of its day
/// and the time of day in UTC, which make up the instant.
pub proof fn law_instant_is_written_in_utc(t: Timestamp)
    ensures
        ({
            let x = time::stamp_text(t);
            let n = x.len() - 16;
            let d = time::date_of(t);
            &&& n >= 4
            &&& x.take(n) == time::year_text(d.year)
            &&& x[n] == '-' && x[n + 3] == '-' && x[n + 6] == 'T' && x[n + 9] == ':'
            &&& x[n + 12] == ':' && x[n + 15] == 'Z'
            &&& number_at(x, n + 1, 2) == d.month
            &&& number_at(x, n + 4, 2) == d.day
            &&& 0 <= number_at(x, n + 7, 2) < 24
            &&& 0 <= number_at(x, n + 10, 2) < 60
            &&& 0 <= number_at(x, n + 13, 2) < 60
            &&& t.secs == 86400 * days_since_epoch(d) + 3600 * number_at(x, n + 7, 2) + 60
                * number_at(x, n + 10, 2) + number_at(x, n + 13, 2)
        }),
{
    let d = time::date_of(t);
    let s = t.secs as int % 86400;
    law_date_is_that_of_the_day(t);
    law_years_are_written_in_full(d.year);
    time::lemma_padded_fields(Date { year: 0, month: 1, day: 1 }, 0);
    assert(month_length(d.year, d.month) <= 31);
    let (mo, da) = (text::padded(d.month as nat, 2), text::padded(d.day as nat, 2));
    let (hh, mm, ss) = (
        text::padded((s / 3600) as nat, 2),
        text::padded((s / 60 % 60) as nat, 2),
        text::padded((s % 60) as nat, 2),
    );
    assert(0 <= s / 3600 < 24);
    lemma_joined(time::year_text(d.year), mo, da, hh, mm, ss);
    texts::law_digits_are_read_as_written(mo);
    texts::law_digits_are_read_as_written(da);
    texts::law_digits_are_read_as_written(hh);
    texts::law_digits_are_read_as_written(mm);
    texts::law_digits_are_read_as_written(ss);
    assert(t.secs == 86400 * days_since_epoch(d) + s);
}

/// The text of an instant of a year of four digits denotes it and no other instant.
pub proof fn law_written_instant_denotes_itself(t: Timestamp, n: int)
    requires
        -62_167_219_200 <= t.secs <= 253_402_300_799,
    ensures
        denotes(time::stamp_text(t), n) <==> n == t.secs,
        time::stamp_text(t).len() == 20,
{
    let x = time::stamp_text(t);
    time::law_stamp_round_trip(t);
    law_instant_is_read_as_written(x, t);
    law_instant_is_written_in_utc(t);
    law_readable_years_have_four_digits(t);
    law_years_are_written_in_full(time::date_of(t).year);
    if denotes(x, n) {
        let k = choose|k: int| #[trigger]
            fraction_stands(x, k) && zone_stands(x, k) && n == 86400 * days_since_epoch(date_at(x))
                + 3600 * number_at(x, 11, 2) + 60 * number_at(x, 14, 2) + number_at(x, 17, 2)
                - offset_at(x, k);
        lemma_fraction(x, k);
        let j = choose|j: int| #[trigger]
            fraction_stands(x, j) && zone_stands(x, j) && t.secs == 86400 * days_since_epoch(
                date_at(x),
            ) + 3600 * number_at(x, 11, 2) + 60 * number_at(x, 14, 2) + number_at(x, 17, 2)
                - offset_at(x, j);
        lemma_fraction(x, j);
    }
}

} // verus!
