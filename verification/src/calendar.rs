//! Calendar dates and wall-clock timestamps as plain numbers, together with
//! the three textual forms that the diary service uses for them.

use crate::digits::{
    digit_value, four_digits, is_digit, lemma_digit_char, lemma_digit_value, push_four_digits,
    push_two_digits, two_digits,
};
use vstd::prelude::*;

verus! {

/// Whether `year` is a leap year of the proleptic Gregorian calendar.
pub open spec fn is_leap_year(year: int) -> bool {
    year % 4 == 0 && (year % 100 != 0 || year % 400 == 0)
}

/// The number of days of `month` (1 to 12) in `year`.
pub open spec fn days_in_month(year: int, month: int) -> int {
    if month == 2 {
        if is_leap_year(year) {
            29
        } else {
            28
        }
    } else if month == 4 || month == 6 || month == 9 || month == 11 {
        30
    } else {
        31
    }
}

/// Whether the three numbers name a day that exists and whose year four
/// digits can write.
pub open spec fn valid_date(year: int, month: int, day: int) -> bool {
    0 <= year <= 9999 && 1 <= month <= 12 && 1 <= day <= days_in_month(year, month)
}

/// Whether hour and minute name a minute of the day.
pub open spec fn valid_minute(hour: int, minute: int) -> bool {
    0 <= hour < 24 && 0 <= minute < 60
}

/// Whether second and nanosecond name an instant of a minute. A leap
/// second is written as second 59 with a billion nanoseconds or more.
pub open spec fn valid_second(second: int, nanosecond: int) -> bool {
    &&& 0 <= second < 60
    &&& 0 <= nanosecond < 2_000_000_000
    &&& nanosecond < 1_000_000_000 || second == 59
}

/// A calendar date.
#[derive(Clone, Copy, Debug, PartialEq, Eq, Structural)]
pub struct Date {
    pub year: u16,
    pub month: u8,
    pub day: u8,
}

/// A date with a time of day, without a time zone.
#[derive(Clone, Copy, Debug, PartialEq, Eq, Structural)]
pub struct Timestamp {
    pub date: Date,
    pub hour: u8,
    pub minute: u8,
    pub second: u8,
    /// Nanoseconds past the second; a billion or more in a leap second
    pub nanosecond: u32,
}

fn leap(year: u16) -> (r: bool)
    ensures
        r == is_leap_year(year as int),
{
    year % 4 == 0 && (year % 100 != 0 || year % 400 == 0)
}

fn month_length(year: u16, month: u8) -> (r: u8)
    ensures
        r as int == days_in_month(year as int, month as int),
{
    if month == 2 {
        if leap(year) {
            29
        } else {
            28
        }
    } else if month == 4 || month == 6 || month == 9 || month == 11 {
        30
    } else {
        31
    }
}

impl Date {
    /// Whether this is a day that exists.
    pub open spec fn wf(self) -> bool {
        valid_date(self.year as int, self.month as int, self.day as int)
    }

    /// The date as `DD.MM.YYYY`.
    pub open spec fn dmy_text(self) -> Seq<char> {
        two_digits(self.day as int) + seq!['.'] + two_digits(self.month as int) + seq!['.']
            + four_digits(self.year as int)
    }

    /// The date as `YYYY-MM-DD`.
    pub open spec fn iso_text(self) -> Seq<char> {
        four_digits(self.year as int) + seq!['-'] + two_digits(self.month as int) + seq!['-']
            + two_digits(self.day as int)
    }

    /// The date of the three numbers, if there is such a day.
    pub fn new(year: i32, month: u32, day: u32) -> (r: Option<Date>)
        ensures
            r is Some <==> valid_date(year as int, month as int, day as int),
            r is Some ==> r.unwrap().year == year && r.unwrap().month == month && r.unwrap().day
                == day,
    {
        if year < 0 || year > 9999 || month < 1 || month > 12 || day < 1 || day > 31 {
            return None;
        }
        let date = Date { year: year as u16, month: month as u8, day: day as u8 };
        if date.day > month_length(date.year, date.month) {
            return None;
        }
        Some(date)
    }

    /// Whether this is a day that exists.
    pub fn is_valid(&self) -> (r: bool)
        ensures
            r == self.wf(),
    {
        self.year <= 9999 && 1 <= self.month && self.month <= 12 && 1 <= self.day && self.day
            <= month_length(self.year, self.month)
    }

    /// The date as the homework endpoint wants it, `DD.MM.YYYY`.
    pub fn to_dmy_string(&self) -> (r: String)
        requires
            self.wf(),
        ensures
            r@ == self.dmy_text(),
    {
        let mut out = String::new();
        push_two_digits(&mut out, self.day);
        out.append(".");
        push_two_digits(&mut out, self.month);
        out.append(".");
        push_four_digits(&mut out, self.year);
        proof {
            reveal_strlit(".");
            assert("."@ =~= seq!['.']);
            assert(out@ =~= self.dmy_text());
        }
        out
    }

    /// The date as the schedule and attendance endpoints want it,
    /// `YYYY-MM-DD`.
    pub fn to_iso_string(&self) -> (r: String)
        requires
            self.wf(),
        ensures
            r@ == self.iso_text(),
    {
        let mut out = String::new();
        push_four_digits(&mut out, self.year);
        out.append("-");
        push_two_digits(&mut out, self.month);
        out.append("-");
        push_two_digits(&mut out, self.day);
        proof {
            reveal_strlit("-");
            assert("-"@ =~= seq!['-']);
            assert(out@ =~= self.iso_text());
        }
        out
    }
}

impl Timestamp {
    /// Whether date and time of day both exist.
    pub open spec fn wf(self) -> bool {
        &&& self.date.wf()
        &&& valid_minute(self.hour as int, self.minute as int)
        &&& valid_second(self.second as int, self.nanosecond as int)
    }

    /// Whether the timestamp falls on a full minute.
    pub open spec fn on_the_minute(self) -> bool {
        self.second == 0 && self.nanosecond == 0
    }

    /// The timestamp as `DD.MM.YYYY HH:MM`; seconds are not written.
    pub open spec fn day_minute_text(self) -> Seq<char> {
        self.date.dmy_text() + seq![' '] + two_digits(self.hour as int) + seq![':'] + two_digits(
            self.minute as int,
        )
    }

    /// The timestamp of the given fields, if date and time both exist.
    pub fn new(date: Date, hour: u32, minute: u32, second: u32, nanosecond: u32) -> (r: Option<
        Timestamp,
    >)
        ensures
            r is Some <==> date.wf() && valid_minute(hour as int, minute as int) && valid_second(
                second as int,
                nanosecond as int,
            ),
            r is Some ==> r.unwrap().date == date && r.unwrap().hour == hour && r.unwrap().minute
                == minute && r.unwrap().second == second && r.unwrap().nanosecond == nanosecond,
    {
        if !date.is_valid() || hour >= 24 || minute >= 60 || second >= 60 || nanosecond
            >= 2_000_000_000 || (nanosecond >= 1_000_000_000 && second != 59) {
            return None;
        }
        Some(
            Timestamp {
                date,
                hour: hour as u8,
                minute: minute as u8,
                second: second as u8,
                nanosecond,
            },
        )
    }

    /// Whether date and time of day both exist.
    pub fn is_valid(&self) -> (r: bool)
        ensures
            r == self.wf(),
    {
        self.date.is_valid() && self.hour < 24 && self.minute < 60 && self.second < 60
            && self.nanosecond < 2_000_000_000 && (self.nanosecond < 1_000_000_000 || self.second
            == 59)
    }

    /// The timestamp as homework records write it, `DD.MM.YYYY HH:MM`.
    pub fn to_day_minute_string(&self) -> (r: String)
        requires
            self.wf(),
        ensures
            r@ == self.day_minute_text(),
    {
        let mut out = self.date.to_dmy_string();
        out.append(" ");
        push_two_digits(&mut out, self.hour);
        out.append(":");
        push_two_digits(&mut out, self.minute);
        proof {
            reveal_strlit(" ");
            reveal_strlit(":");
            assert(" "@ =~= seq![' ']);
            assert(":"@ =~= seq![':']);
            assert(out@ =~= self.day_minute_text());
        }
        out
    }
}

/// The number that two digits write, the first of them at `at`.
pub open spec fn read_two(s: Seq<char>, at: int) -> int {
    digit_value(s[at]) * 10 + digit_value(s[at + 1])
}

/// The number that four digits write, the first of them at `at`.
pub open spec fn read_four(s: Seq<char>, at: int) -> int {
    digit_value(s[at]) * 1000 + digit_value(s[at + 1]) * 100 + digit_value(s[at + 2]) * 10
        + digit_value(s[at + 3])
}

/// Whether `s` has the shape `DD.MM.YYYY HH:MM`: sixteen characters, digits
/// and separators each in their place.
pub open spec fn has_day_minute_shape(s: Seq<char>) -> bool {
    &&& s.len() == 16
    &&& is_digit(s[0]) && is_digit(s[1]) && s[2] == '.'
    &&& is_digit(s[3]) && is_digit(s[4]) && s[5] == '.'
    &&& is_digit(s[6]) && is_digit(s[7]) && is_digit(s[8]) && is_digit(s[9]) && s[10] == ' '
    &&& is_digit(s[11]) && is_digit(s[12]) && s[13] == ':'
    &&& is_digit(s[14]) && is_digit(s[15])
}

/// Whether `s` is the `DD.MM.YYYY HH:MM` text of a minute that exists.
pub open spec fn is_day_minute_text(s: Seq<char>) -> bool {
    &&& has_day_minute_shape(s)
    &&& valid_date(read_four(s, 6), read_two(s, 3), read_two(s, 0))
    &&& valid_minute(read_two(s, 11), read_two(s, 14))
}

/// The timestamp that a `DD.MM.YYYY HH:MM` text writes.
pub open spec fn read_day_minute(s: Seq<char>) -> Timestamp {
    Timestamp {
        date: Date {
            year: read_four(s, 6) as u16,
            month: read_two(s, 3) as u8,
            day: read_two(s, 0) as u8,
        },
        hour: read_two(s, 11) as u8,
        minute: read_two(s, 14) as u8,
        second: 0,
        nanosecond: 0,
    }
}

/// Two digit characters are the two-digit text of the number they write.
proof fn lemma_pair_writes(a: char, b: char)
    requires
        is_digit(a),
        is_digit(b),
    ensures
        0 <= digit_value(a) * 10 + digit_value(b) < 100,
        two_digits(digit_value(a) * 10 + digit_value(b)) == seq![a, b],
{
    lemma_digit_value(a);
    lemma_digit_value(b);
    let x = digit_value(a);
    let y = digit_value(b);
    let n = x * 10 + y;
    assert(n / 10 == x && n % 10 == y);
}

/// The decimal places of a number made of four digits.
proof fn lemma_four_places(x: int, y: int, z: int, w: int)
    requires
        0 <= x < 10,
        0 <= y < 10,
        0 <= z < 10,
        0 <= w < 10,
    ensures
        0 <= x * 1000 + y * 100 + z * 10 + w < 10000,
        (x * 1000 + y * 100 + z * 10 + w) / 1000 == x,
        ((x * 1000 + y * 100 + z * 10 + w) / 100) % 10 == y,
        ((x * 1000 + y * 100 + z * 10 + w) / 10) % 10 == z,
        (x * 1000 + y * 100 + z * 10 + w) % 10 == w,
{
    let n = x * 1000 + y * 100 + z * 10 + w;
    let tens = x * 100 + y * 10 + z;
    let hundreds = x * 10 + y;
    assert(n == tens * 10 + w);
    assert(n / 10 == tens && n % 10 == w);
    assert(tens == hundreds * 10 + z);
    assert(tens / 10 == hundreds && tens % 10 == z);
    assert(n / 100 == hundreds) by {
        assert(n == hundreds * 100 + (z * 10 + w));
    }
    assert(hundreds / 10 == x && hundreds % 10 == y);
    assert(n / 1000 == x) by {
        assert(n == x * 1000 + (y * 100 + z * 10 + w));
    }
}

/// Four digit characters are the four-digit text of the number they write.
proof fn lemma_quad_writes(a: char, b: char, c: char, d: char)
    requires
        is_digit(a),
        is_digit(b),
        is_digit(c),
        is_digit(d),
    ensures
        0 <= digit_value(a) * 1000 + digit_value(b) * 100 + digit_value(c) * 10 + digit_value(d)
            < 10000,
        four_digits(
            digit_value(a) * 1000 + digit_value(b) * 100 + digit_value(c) * 10 + digit_value(d),
        ) == seq![a, b, c, d],
{
    lemma_digit_value(a);
    lemma_digit_value(b);
    lemma_digit_value(c);
    lemma_digit_value(d);
    lemma_four_places(digit_value(a), digit_value(b), digit_value(c), digit_value(d));
}

/// The two-digit text of a number below 100 is two digits that write it.
proof fn lemma_two_digits_read(n: int)
    requires
        0 <= n < 100,
    ensures
        two_digits(n).len() == 2,
        is_digit(two_digits(n)[0]),
        is_digit(two_digits(n)[1]),
        read_two(two_digits(n), 0) == n,
{
    lemma_digit_char(n / 10);
    lemma_digit_char(n % 10);
}

/// A number below 10000 is the sum of its four decimal places.
proof fn lemma_four_places_sum(n: int)
    requires
        0 <= n < 10000,
    ensures
        0 <= n / 1000 < 10,
        0 <= (n / 100) % 10 < 10,
        0 <= (n / 10) % 10 < 10,
        0 <= n % 10 < 10,
        n == (n / 1000) * 1000 + ((n / 100) % 10) * 100 + ((n / 10) % 10) * 10 + n % 10,
{
    let tens = n / 10;
    let hundreds = n / 100;
    let thousands = n / 1000;
    assert(n == tens * 10 + n % 10);
    assert(hundreds == tens / 10);
    assert(tens == hundreds * 10 + tens % 10);
    assert(thousands == hundreds / 10);
    assert(hundreds == thousands * 10 + hundreds % 10);
}

/// The four-digit text of a number below 10000 is four digits that write it.
proof fn lemma_four_digits_read(n: int)
    requires
        0 <= n < 10000,
    ensures
        four_digits(n).len() == 4,
        is_digit(four_digits(n)[0]),
        is_digit(four_digits(n)[1]),
        is_digit(four_digits(n)[2]),
        is_digit(four_digits(n)[3]),
        read_four(four_digits(n), 0) == n,
{
    lemma_four_places_sum(n);
    lemma_digit_char(n / 1000);
    lemma_digit_char((n / 100) % 10);
    lemma_digit_char((n / 10) % 10);
    lemma_digit_char(n % 10);
}

/// Reading a `DD.MM.YYYY HH:MM` text and writing the timestamp again gives
/// the same text.
pub proof fn lemma_day_minute_text_round_trip(s: Seq<char>)
    requires
        is_day_minute_text(s),
    ensures
        read_day_minute(s).wf(),
        read_day_minute(s).on_the_minute(),
        read_day_minute(s).day_minute_text() == s,
{
    let t = read_day_minute(s);
    lemma_pair_writes(s[0], s[1]);
    lemma_pair_writes(s[3], s[4]);
    lemma_quad_writes(s[6], s[7], s[8], s[9]);
    lemma_pair_writes(s[11], s[12]);
    lemma_pair_writes(s[14], s[15]);
    assert(two_digits(t.date.day as int) == seq![s[0], s[1]]);
    assert(two_digits(t.date.month as int) == seq![s[3], s[4]]);
    assert(four_digits(t.date.year as int) == seq![s[6], s[7], s[8], s[9]]);
    assert(two_digits(t.hour as int) == seq![s[11], s[12]]);
    assert(two_digits(t.minute as int) == seq![s[14], s[15]]);
    assert(t.day_minute_text() =~= s);
}

/// Writing a timestamp as `DD.MM.YYYY HH:MM` and reading the text gives the
/// timestamp back, cut to the minute.
pub proof fn lemma_day_minute_text_reads_back(t: Timestamp)
    requires
        t.wf(),
    ensures
        is_day_minute_text(t.day_minute_text()),
        read_day_minute(t.day_minute_text()) == (Timestamp { second: 0, nanosecond: 0, ..t }),
{
    let s = t.day_minute_text();
    let dd = two_digits(t.date.day as int);
    let mm = two_digits(t.date.month as int);
    let yy = four_digits(t.date.year as int);
    let hh = two_digits(t.hour as int);
    let mi = two_digits(t.minute as int);
    lemma_two_digits_read(t.date.day as int);
    lemma_two_digits_read(t.date.month as int);
    lemma_four_digits_read(t.date.year as int);
    lemma_two_digits_read(t.hour as int);
    lemma_two_digits_read(t.minute as int);
    assert(s =~= seq![
        dd[0],
        dd[1],
        '.',
        mm[0],
        mm[1],
        '.',
        yy[0],
        yy[1],
        yy[2],
        yy[3],
        ' ',
        hh[0],
        hh[1],
        ':',
        mi[0],
        mi[1],
    ]);
    assert(read_two(s, 0) == read_two(dd, 0));
    assert(read_two(s, 3) == read_two(mm, 0));
    assert(read_four(s, 6) == read_four(yy, 0));
    assert(read_two(s, 11) == read_two(hh, 0));
    assert(read_two(s, 14) == read_two(mi, 0));
}

/// Two timestamps on the minute with the same `DD.MM.YYYY HH:MM` text are
/// the same timestamp.
pub proof fn lemma_day_minute_text_injective(a: Timestamp, b: Timestamp)
    requires
        a.wf(),
        b.wf(),
        a.on_the_minute(),
        b.on_the_minute(),
        a.day_minute_text() == b.day_minute_text(),
    ensures
        a == b,
{
    lemma_day_minute_text_reads_back(a);
    lemma_day_minute_text_reads_back(b);
}

} // verus!
