//! Calendar dates and the two spellings in which a membership workbook
//! writes them.

use chrono::Datelike;
use vstd::prelude::*;
use crate::text::{
    chars_of, digit_char, digit_to_char, digit_value, is_digit, push_chars, text_of,
};

verus! {

/// A day of the proleptic Gregorian calendar.
#[derive(Clone, Copy, Debug, PartialEq, Eq, Structural)]
pub struct CalendarDate {
    pub year: i32,
    pub month: u8,
    pub day: u8,
}

/// A spelling of dates in the workbook.
#[derive(Clone, Copy, Debug, PartialEq, Eq, Structural)]
pub enum DatePattern {
    /// Day, abbreviated English month name and four-digit year, each
    /// followed by one space: `"05 Sep 2015 "`.
    DayMonthYear,
    /// Two-digit month and two-digit year around a slash, `"09/15"`: the
    /// first day of that month. Years 70 to 99 are in the 1900s, years 00 to
    /// 69 in the 2000s.
    MonthYear,
}

/// Whether `year` has a 29th of February.
pub open spec fn is_leap_year(year: int) -> bool {
    year % 4 == 0 && (year % 100 != 0 || year % 400 == 0)
}

/// The number of days of `month` in `year`; zero when there is no such month.
pub open spec fn days_in_month(year: int, month: int) -> int {
    if month == 2 {
        if is_leap_year(year) {
            29
        } else {
            28
        }
    } else if month == 4 || month == 6 || month == 9 || month == 11 {
        30
    } else if 1 <= month <= 12 {
        31
    } else {
        0
    }
}

/// Whether the calendar has a day `day` of month `month` in `year`.
pub open spec fn is_calendar_day(year: int, month: int, day: int) -> bool {
    1 <= month <= 12 && 1 <= day <= days_in_month(year, month)
}

/// The three letters that abbreviate the English name of `month`.
pub open spec fn month_letters(month: int) -> (char, char, char) {
    if month == 1 {
        ('J', 'a', 'n')
    } else if month == 2 {
        ('F', 'e', 'b')
    } else if month == 3 {
        ('M', 'a', 'r')
    } else if month == 4 {
        ('A', 'p', 'r')
    } else if month == 5 {
        ('M', 'a', 'y')
    } else if month == 6 {
        ('J', 'u', 'n')
    } else if month == 7 {
        ('J', 'u', 'l')
    } else if month == 8 {
        ('A', 'u', 'g')
    } else if month == 9 {
        ('S', 'e', 'p')
    } else if month == 10 {
        ('O', 'c', 't')
    } else if month == 11 {
        ('N', 'o', 'v')
    } else {
        ('D', 'e', 'c')
    }
}

/// The abbreviated English name of `month`.
pub open spec fn month_abbreviation(month: int) -> Seq<char> {
    let (a, b, c) = month_letters(month);
    seq![a, b, c]
}

/// The month that the three letters abbreviate, if any.
pub open spec fn month_of_abbreviation(a: char, b: char, c: char) -> Option<int> {
    if month_letters(1) == (a, b, c) {
        Some(1int)
    } else if month_letters(2) == (a, b, c) {
        Some(2int)
    } else if month_letters(3) == (a, b, c) {
        Some(3int)
    } else if month_letters(4) == (a, b, c) {
        Some(4int)
    } else if month_letters(5) == (a, b, c) {
        Some(5int)
    } else if month_letters(6) == (a, b, c) {
        Some(6int)
    } else if month_letters(7) == (a, b, c) {
        Some(7int)
    } else if month_letters(8) == (a, b, c) {
        Some(8int)
    } else if month_letters(9) == (a, b, c) {
        Some(9int)
    } else if month_letters(10) == (a, b, c) {
        Some(10int)
    } else if month_letters(11) == (a, b, c) {
        Some(11int)
    } else if month_letters(12) == (a, b, c) {
        Some(12int)
    } else {
        None
    }
}

/// Two decimal digits for a number under one hundred.
pub open spec fn two_digits(n: int) -> Seq<char> {
    seq![digit_char(n / 10), digit_char(n % 10)]
}

/// Four decimal digits for a number under ten thousand.
pub open spec fn four_digits(n: int) -> Seq<char> {
    seq![
        digit_char(n / 1000),
        digit_char((n / 100) % 10),
        digit_char((n / 10) % 10),
        digit_char(n % 10),
    ]
}

/// The number that two decimal digits write, if both are digits.
pub open spec fn two_digit_number(a: char, b: char) -> Option<int> {
    if is_digit(a) && is_digit(b) {
        Some(10 * digit_value(a) + digit_value(b))
    } else {
        None
    }
}

/// The century that a two-digit year belongs to.
pub open spec fn full_year(two_digit_year: int) -> int {
    if two_digit_year < 70 {
        2000 + two_digit_year
    } else {
        1900 + two_digit_year
    }
}

impl CalendarDate {
    /// Whether this is a day that the calendar has.
    pub open spec fn is_valid(self) -> bool {
        is_calendar_day(self.year as int, self.month as int, self.day as int)
    }

    /// Whether `pattern` can write this date: a year of four digits at most
    /// for `DayMonthYear`; the first of a month from 1970 to 2069 for
    /// `MonthYear`.
    pub open spec fn fits(self, pattern: DatePattern) -> bool {
        self.is_valid() && match pattern {
            DatePattern::DayMonthYear => 0 <= self.year <= 9999,
            DatePattern::MonthYear => self.day == 1 && 1970 <= self.year <= 2069,
        }
    }

    /// This date as `pattern` writes it.
    pub open spec fn rendered(self, pattern: DatePattern) -> Seq<char>
        recommends
            self.fits(pattern),
    {
        match pattern {
            DatePattern::DayMonthYear => two_digits(self.day as int) + seq![' ']
                + month_abbreviation(self.month as int) + seq![' '] + four_digits(self.year as int)
                + seq![' '],
            DatePattern::MonthYear => two_digits(self.month as int) + seq!['/'] + two_digits(
                self.year as int % 100,
            ),
        }
    }
}

/// The date that `text` writes in exactly the spelling of `pattern`: the
/// date which, written in the pattern, is `text`. `None` where no date is
/// written so.
pub open spec fn canonical_date(text: Seq<char>, pattern: DatePattern) -> Option<CalendarDate> {
    if exists|date: CalendarDate| date.fits(pattern) && date.rendered(pattern) == text {
        Some(choose|date: CalendarDate| date.fits(pattern) && date.rendered(pattern) == text)
    } else {
        None
    }
}

/// The date that the characters of `text` spell place by place: every digit
/// in its place, the month name capitalised, single spaces. `None` for any
/// other text, and for a day that the calendar does not have.
pub open spec fn spelled_date(text: Seq<char>, pattern: DatePattern) -> Option<CalendarDate> {
    match pattern {
        DatePattern::DayMonthYear => {
            if text.len() == 12 && text[2] == ' ' && text[6] == ' ' && text[11] == ' ' {
                match (
                    two_digit_number(text[0], text[1]),
                    month_of_abbreviation(text[3], text[4], text[5]),
                    two_digit_number(text[7], text[8]),
                    two_digit_number(text[9], text[10]),
                ) {
                    (Some(day), Some(month), Some(century), Some(year)) => {
                        if is_calendar_day(100 * century + year, month, day) {
                            Some(
                                CalendarDate {
                                    year: (100 * century + year) as i32,
                                    month: month as u8,
                                    day: day as u8,
                                },
                            )
                        } else {
                            None
                        }
                    },
                    _ => None,
                }
            } else {
                None
            }
        },
        DatePattern::MonthYear => {
            if text.len() == 5 && text[2] == '/' {
                match (two_digit_number(text[0], text[1]), two_digit_number(text[3], text[4])) {
                    (Some(month), Some(year)) => {
                        if 1 <= month <= 12 {
                            Some(
                                CalendarDate {
                                    year: full_year(year) as i32,
                                    month: month as u8,
                                    day: 1,
                                },
                            )
                        } else {
                            None
                        }
                    },
                    _ => None,
                }
            } else {
                None
            }
        },
    }
}

/// Whether `year` has a 29th of February.
pub fn leap_year(year: i32) -> (leap: bool)
    ensures
        leap == is_leap_year(year as int),
{
    let shifted: i64 = year as i64 + 4_000_000_000;
    assert(shifted % 4 == 0 <==> year as int % 4 == 0);
    assert(shifted % 100 == 0 <==> year as int % 100 == 0);
    assert(shifted % 400 == 0 <==> year as int % 400 == 0);
    shifted % 4 == 0 && (shifted % 100 != 0 || shifted % 400 == 0)
}

/// The number of days of `month` in `year`; zero when there is no such month.
pub fn month_length(year: i32, month: u8) -> (days: u8)
    ensures
        days == days_in_month(year as int, month as int),
{
    if month == 2 {
        if leap_year(year) {
            29
        } else {
            28
        }
    } else if month == 4 || month == 6 || month == 9 || month == 11 {
        30
    } else if 1 <= month && month <= 12 {
        31
    } else {
        0
    }
}

impl CalendarDate {
    /// Whether this is a day that the calendar has.
    pub fn valid(&self) -> (valid: bool)
        ensures
            valid == self.is_valid(),
    {
        1 <= self.month && self.month <= 12 && 1 <= self.day && self.day <= month_length(
            self.year,
            self.month,
        )
    }
}

/// The three letters that abbreviate the English name of `month`.
fn letters_of_month(month: u8) -> (letters: (char, char, char))
    requires
        1 <= month <= 12,
    ensures
        letters == month_letters(month as int),
{
    if month == 1 {
        ('J', 'a', 'n')
    } else if month == 2 {
        ('F', 'e', 'b')
    } else if month == 3 {
        ('M', 'a', 'r')
    } else if month == 4 {
        ('A', 'p', 'r')
    } else if month == 5 {
        ('M', 'a', 'y')
    } else if month == 6 {
        ('J', 'u', 'n')
    } else if month == 7 {
        ('J', 'u', 'l')
    } else if month == 8 {
        ('A', 'u', 'g')
    } else if month == 9 {
        ('S', 'e', 'p')
    } else if month == 10 {
        ('O', 'c', 't')
    } else if month == 11 {
        ('N', 'o', 'v')
    } else {
        ('D', 'e', 'c')
    }
}

/// The month that the three letters abbreviate, if any.
fn month_from_letters(a: char, b: char, c: char) -> (month: Option<u8>)
    ensures
        month is Some <==> month_of_abbreviation(a, b, c) is Some,
        month matches Some(m) ==> month_of_abbreviation(a, b, c) == Some(m as int) && 1 <= m <= 12,
{
    let mut m: u8 = 1;
    while m <= 12
        invariant
            1 <= m <= 13,
            forall|k: int| 1 <= k < m ==> month_letters(k) != (a, b, c),
        decreases 13 - m,
    {
        let (x, y, z) = letters_of_month(m);
        if x == a && y == b && z == c {
            return Some(m);
        }
        m += 1;
    }
    None
}

/// The number that two decimal digits write, if both are digits.
fn read_two_digits(a: char, b: char) -> (number: Option<u8>)
    ensures
        number is Some <==> two_digit_number(a, b) is Some,
        number matches Some(n) ==> two_digit_number(a, b) == Some(n as int) && n <= 99,
{
    if '0' <= a && a <= '9' && '0' <= b && b <= '9' {
        Some(10 * ((a as u8) - 48) + ((b as u8) - 48))
    } else {
        None
    }
}

/// Appends the two decimal digits of `n` to `out`.
fn push_two_digits(out: &mut Vec<char>, n: u8)
    requires
        n <= 99,
    ensures
        final(out)@ == old(out)@ + two_digits(n as int),
{
    out.push(digit_to_char(n / 10));
    out.push(digit_to_char(n % 10));
}

/// The date that `text` writes in exactly the spelling of `pattern`.
pub fn read_canonical(text: &Vec<char>, pattern: DatePattern) -> (date: Option<CalendarDate>)
    ensures
        date == canonical_date(text@, pattern),
{
    proof {
        lemma_canonical_by_place(text@, pattern);
    }
    read_spelled(text, pattern)
}

/// The date that the characters of `text` spell place by place.
fn read_spelled(text: &Vec<char>, pattern: DatePattern) -> (date: Option<CalendarDate>)
    ensures
        date == spelled_date(text@, pattern),
{
    match pattern {
        DatePattern::DayMonthYear => {
            if text.len() != 12 || text[2] != ' ' || text[6] != ' ' || text[11] != ' ' {
                return None;
            }
            let day = read_two_digits(text[0], text[1]);
            let month = month_from_letters(text[3], text[4], text[5]);
            let century = read_two_digits(text[7], text[8]);
            let year = read_two_digits(text[9], text[10]);
            match (day, month, century, year) {
                (Some(day), Some(month), Some(century), Some(year)) => {
                    let date = CalendarDate {
                        year: 100 * (century as i32) + (year as i32),
                        month,
                        day,
                    };
                    if date.valid() {
                        Some(date)
                    } else {
                        None
                    }
                },
                _ => None,
            }
        },
        DatePattern::MonthYear => {
            if text.len() != 5 || text[2] != '/' {
                return None;
            }
            let month = read_two_digits(text[0], text[1]);
            let year = read_two_digits(text[3], text[4]);
            match (month, year) {
                (Some(month), Some(year)) => {
                    if 1 <= month && month <= 12 {
                        let full: i32 = if year < 70 {
                            2000 + (year as i32)
                        } else {
                            1900 + (year as i32)
                        };
                        Some(CalendarDate { year: full, month, day: 1 })
                    } else {
                        None
                    }
                },
                _ => None,
            }
        },
    }
}

impl CalendarDate {
    /// Whether `pattern` can write this date.
    pub fn writable(&self, pattern: DatePattern) -> (fits: bool)
        ensures
            fits == self.fits(pattern),
    {
        self.valid() && match pattern {
            DatePattern::DayMonthYear => 0 <= self.year && self.year <= 9999,
            DatePattern::MonthYear => self.day == 1 && 1970 <= self.year && self.year <= 2069,
        }
    }

    /// This date as `pattern` writes it; `None` when the pattern cannot
    /// write it.
    pub fn render(&self, pattern: DatePattern) -> (out: Option<String>)
        ensures
            out is Some <==> self.fits(pattern),
            out matches Some(text) ==> text@ == self.rendered(pattern),
    {
        if !self.writable(pattern) {
            return None;
        }
        let chars = match pattern {
            DatePattern::DayMonthYear => self.write_day_month_year(),
            DatePattern::MonthYear => self.write_month_year(),
        };
        Some(text_of(&chars))
    }

    /// Day, month name and year, each followed by a space.
    fn write_day_month_year(&self) -> (chars: Vec<char>)
        requires
            self.fits(DatePattern::DayMonthYear),
        ensures
            chars@ == self.rendered(DatePattern::DayMonthYear),
    {
        let (a, b, c) = letters_of_month(self.month);
        let century: u8 = (self.year / 100) as u8;
        let year: u8 = (self.year % 100) as u8;
        proof {
            lemma_four_digits_split(century as int, year as int);
        }
        let mut chars: Vec<char> = Vec::new();
        push_two_digits(&mut chars, self.day);
        chars.push(' ');
        chars.push(a);
        chars.push(b);
        chars.push(c);
        chars.push(' ');
        let ghost front = chars@;
        assert(front =~= two_digits(self.day as int) + seq![' '] + month_abbreviation(
            self.month as int,
        ) + seq![' ']);
        push_two_digits(&mut chars, century);
        push_two_digits(&mut chars, year);
        assert(chars@ =~= front + four_digits(self.year as int));
        chars.push(' ');
        assert(chars@ =~= front + four_digits(self.year as int) + seq![' ']);
        chars
    }

    /// Month and year in the century, two digits each, around a slash.
    fn write_month_year(&self) -> (chars: Vec<char>)
        requires
            self.fits(DatePattern::MonthYear),
        ensures
            chars@ == self.rendered(DatePattern::MonthYear),
    {
        let year: u8 = (self.year % 100) as u8;
        let mut chars: Vec<char> = Vec::new();
        push_two_digits(&mut chars, self.month);
        chars.push('/');
        push_two_digits(&mut chars, year);
        assert(chars@ =~= two_digits(self.month as int) + seq!['/'] + two_digits(
            self.year as int % 100,
        ));
        chars
    }
}

/// What `chrono::NaiveDate::parse_from_str` makes of `text` under the format
/// string `format`: the year, month and day of the date, or `None` where it
/// reports an error.
pub uninterp spec fn chrono_reading(text: Seq<char>, format: Seq<char>) -> Option<(i32, u32, u32)>;

/// The format string that tells chrono how `pattern` spells a date.
pub open spec fn chrono_format(pattern: DatePattern) -> Seq<char> {
    match pattern {
        DatePattern::DayMonthYear => "%d %b %Y "@,
        DatePattern::MonthYear => "%d/%m/%y"@,
    }
}

/// The text handed to chrono for a cell that holds `text`: a `MonthYear`
/// cell names no day, so the first of the month is put in front.
pub open spec fn chrono_input(text: Seq<char>, pattern: DatePattern) -> Seq<char> {
    match pattern {
        DatePattern::DayMonthYear => text,
        DatePattern::MonthYear => seq!['0', '1', '/'] + text,
    }
}

/// The date read from a cell, given what the exact spelling yields and what
/// chrono yields: the exact spelling decides where it applies, chrono
/// elsewhere. Year, month and day that are no day of the calendar give no
/// date.
pub open spec fn resolved_reading(
    canonical: Option<CalendarDate>,
    parsed: Option<(i32, u32, u32)>,
) -> Option<CalendarDate> {
    match canonical {
        Some(date) => Some(date),
        None => match parsed {
            Some((year, month, day)) => if is_calendar_day(year as int, month as int, day as int) {
                Some(CalendarDate { year, month: month as u8, day: day as u8 })
            } else {
                None
            },
            None => None,
        },
    }
}

/// The date that a cell holding `text` stands for under `pattern`, if any.
pub open spec fn date_reading(text: Seq<char>, pattern: DatePattern) -> Option<CalendarDate> {
    resolved_reading(
        canonical_date(text, pattern),
        chrono_reading(chrono_input(text, pattern), chrono_format(pattern)),
    )
}

/// Calls `chrono::NaiveDate::parse_from_str` with one of the two format
/// strings of this module, and takes year, month and day out of the date it
/// returns. Trusted: the result is what chrono computes from the two
/// strings alone.
#[verifier::external_body]
fn chrono_parse(text: &str, format: &str) -> (parsed: Option<(i32, u32, u32)>)
    requires
        format@ == chrono_format(DatePattern::DayMonthYear) || format@ == chrono_format(
            DatePattern::MonthYear,
        ),
    ensures
        parsed == chrono_reading(text@, format@),
{
    match chrono::NaiveDate::parse_from_str(text, format) {
        Ok(date) => Some((date.year(), date.month(), date.day())),
        Err(_) => None,
    }
}

/// The date read from a cell, given what the exact spelling yields and what
/// chrono yields.
pub fn resolve_reading(canonical: Option<CalendarDate>, parsed: Option<(i32, u32, u32)>) -> (date:
    Option<CalendarDate>)
    ensures
        date == resolved_reading(canonical, parsed),
{
    match canonical {
        Some(date) => Some(date),
        None => match parsed {
            Some((year, month, day)) => {
                if month > 12 || day > 31 {
                    return None;
                }
                let date = CalendarDate { year, month: month as u8, day: day as u8 };
                if date.valid() {
                    Some(date)
                } else {
                    None
                }
            },
            None => None,
        },
    }
}

/// Reads the date that `text` stands for under `pattern`. Text in the exact
/// spelling of the pattern is read here; any other text is handed to chrono,
/// which also accepts looser spellings such as a day of one digit.
pub fn parse_date(text: &str, pattern: DatePattern) -> (date: Option<CalendarDate>)
    ensures
        date == date_reading(text@, pattern),
        date matches Some(day) ==> day.is_valid(),
{
    let chars = chars_of(text);
    let canonical = read_canonical(&chars, pattern);
    if canonical.is_some() {
        return canonical;
    }
    let parsed = match pattern {
        DatePattern::DayMonthYear => chrono_parse(text, "%d %b %Y "),
        DatePattern::MonthYear => {
            let mut input: Vec<char> = Vec::new();
            input.push('0');
            input.push('1');
            input.push('/');
            push_chars(&mut input, &chars);
            assert(input@ == chrono_input(text@, pattern));
            let input = text_of(&input);
            chrono_parse(input.as_str(), "%d/%m/%y")
        },
    };
    resolve_reading(canonical, parsed)
}

/// Two digits, read as a number and written again, are the same two digits.
proof fn lemma_two_digits_written(a: char, b: char)
    requires
        two_digit_number(a, b) is Some,
    ensures
        0 <= two_digit_number(a, b)->0 <= 99,
        two_digits(two_digit_number(a, b)->0) == seq![a, b],
{
    let n = two_digit_number(a, b)->0;
    assert(n / 10 == digit_value(a));
    assert(n % 10 == digit_value(b));
    assert(digit_char(digit_value(a)) == a);
    assert(digit_char(digit_value(b)) == b);
}

/// A number under one hundred, written as two digits and read again, is the
/// same number.
proof fn lemma_two_digits_read(n: int)
    requires
        0 <= n <= 99,
    ensures
        two_digit_number(two_digits(n)[0], two_digits(n)[1]) == Some(n),
{
    assert(digit_value(digit_char(n / 10)) == n / 10);
    assert(digit_value(digit_char(n % 10)) == n % 10);
}

/// The four digits of a year are the two of its century and the two of the
/// year in the century.
proof fn lemma_four_digits_split(century: int, year: int)
    requires
        0 <= century <= 99,
        0 <= year <= 99,
    ensures
        four_digits(100 * century + year) == two_digits(century) + two_digits(year),
        (100 * century + year) / 100 == century,
        (100 * century + year) % 100 == year,
{
    let n = 100 * century + year;
    assert(n / 1000 == century / 10);
    assert((n / 100) % 10 == century % 10);
    assert((n / 10) % 10 == year / 10);
    assert(n % 10 == year % 10);
    assert(four_digits(n) =~= two_digits(century) + two_digits(year));
}

/// Three letters that abbreviate a month are the letters of that month.
proof fn lemma_month_letters_written(a: char, b: char, c: char)
    requires
        month_of_abbreviation(a, b, c) is Some,
    ensures
        1 <= month_of_abbreviation(a, b, c)->0 <= 12,
        month_abbreviation(month_of_abbreviation(a, b, c)->0) == seq![a, b, c],
{
}

/// The letters of a month abbreviate that month and no other.
proof fn lemma_month_letters_read(month: int)
    requires
        1 <= month <= 12,
    ensures
        month_of_abbreviation(
            month_letters(month).0,
            month_letters(month).1,
            month_letters(month).2,
        ) == Some(month),
{
}

/// A date spelled place by place, written again in the pattern, is the
/// text that spelled it.
#[verifier::rlimit(50)]
proof fn lemma_spelled_renders(text: Seq<char>, pattern: DatePattern)
    requires
        spelled_date(text, pattern) is Some,
    ensures
        spelled_date(text, pattern)->0.fits(pattern),
        spelled_date(text, pattern)->0.rendered(pattern) == text,
{
    let date = spelled_date(text, pattern)->0;
    match pattern {
        DatePattern::DayMonthYear => {
            let day = two_digit_number(text[0], text[1])->0;
            let month = month_of_abbreviation(text[3], text[4], text[5])->0;
            let century = two_digit_number(text[7], text[8])->0;
            let year = two_digit_number(text[9], text[10])->0;
            lemma_two_digits_written(text[0], text[1]);
            lemma_two_digits_written(text[7], text[8]);
            lemma_two_digits_written(text[9], text[10]);
            lemma_month_letters_written(text[3], text[4], text[5]);
            lemma_four_digits_split(century, year);
            assert(date.year == 100 * century + year);
            assert(date.month == month);
            assert(date.day == day);
            assert(date.rendered(pattern) =~= text);
        },
        DatePattern::MonthYear => {
            let month = two_digit_number(text[0], text[1])->0;
            let year = two_digit_number(text[3], text[4])->0;
            lemma_two_digits_written(text[0], text[1]);
            lemma_two_digits_written(text[3], text[4]);
            assert(date.year as int % 100 == year);
            assert(date.rendered(pattern) =~= text);
        },
    }
}

/// A date written in a pattern that can write it spells that date place by
/// place.
#[verifier::rlimit(50)]
proof fn lemma_rendered_spells(date: CalendarDate, pattern: DatePattern)
    requires
        date.fits(pattern),
    ensures
        spelled_date(date.rendered(pattern), pattern) == Some(date),
{
    let text = date.rendered(pattern);
    match pattern {
        DatePattern::DayMonthYear => {
            let century = date.year as int / 100;
            let year = date.year as int % 100;
            lemma_two_digits_read(date.day as int);
            lemma_two_digits_read(century);
            lemma_two_digits_read(year);
            lemma_four_digits_split(century, year);
            lemma_month_letters_read(date.month as int);
            assert(text.len() == 12);
            assert(two_digits(date.day as int) == seq![text[0], text[1]]);
            assert(two_digits(century) == seq![text[7], text[8]]);
            assert(two_digits(year) == seq![text[9], text[10]]);
        },
        DatePattern::MonthYear => {
            let year = date.year as int % 100;
            lemma_two_digits_read(date.month as int);
            lemma_two_digits_read(year);
            assert(text.len() == 5);
            assert(two_digits(date.month as int) == seq![text[0], text[1]]);
            assert(two_digits(year) == seq![text[3], text[4]]);
        },
    }
}

/// The exact spelling, place by place: a text is the writing of a date in
/// a pattern exactly where its characters spell that date, every digit in
/// its place, the month name capitalised, single spaces.
pub proof fn lemma_canonical_by_place(text: Seq<char>, pattern: DatePattern)
    ensures
        canonical_date(text, pattern) == spelled_date(text, pattern),
{
    match spelled_date(text, pattern) {
        Some(date) => {
            lemma_spelled_renders(text, pattern);
            let chosen = canonical_date(text, pattern)->0;
            lemma_rendered_spells(chosen, pattern);
        },
        None => {
            if canonical_date(text, pattern) is Some {
                lemma_rendered_spells(canonical_date(text, pattern)->0, pattern);
            }
        },
    }
}

/// Reading a date in the exact spelling of a pattern and writing it again
/// in that pattern gives back the text that was read.
pub proof fn lemma_reading_renders(text: Seq<char>, pattern: DatePattern)
    requires
        canonical_date(text, pattern) is Some,
    ensures
        canonical_date(text, pattern)->0.fits(pattern),
        canonical_date(text, pattern)->0.rendered(pattern) == text,
{
}

/// Writing a date in a pattern that can write it and reading the result
/// gives back the date: no two dates are written alike.
pub proof fn lemma_rendering_reads(date: CalendarDate, pattern: DatePattern)
    requires
        date.fits(pattern),
    ensures
        canonical_date(date.rendered(pattern), pattern) == Some(date),
{
    lemma_rendered_spells(date, pattern);
    lemma_canonical_by_place(date.rendered(pattern), pattern);
}

/// Round trip of a normalized date: where a cell holds a date in the exact
/// spelling of its pattern, the date read from it, written again in that
/// pattern, is the text of the cell. Looser spellings that chrono accepts
/// are read too, but are written back in the exact spelling.
pub proof fn lemma_date_round_trip(text: Seq<char>, pattern: DatePattern)
    requires
        canonical_date(text, pattern) is Some,
    ensures
        date_reading(text, pattern) is Some,
        date_reading(text, pattern)->0.fits(pattern),
        date_reading(text, pattern)->0.rendered(pattern) == text,
{
}

/// The round trip holds of the exact spelling only: where the date read
/// from a cell, written again in the pattern, is the text of the cell, the
/// text is in the exact spelling of the pattern.
pub proof fn lemma_round_trip_only_exact(text: Seq<char>, pattern: DatePattern)
    requires
        date_reading(text, pattern) is Some,
        date_reading(text, pattern)->0.fits(pattern),
        date_reading(text, pattern)->0.rendered(pattern) == text,
    ensures
        canonical_date(text, pattern) == date_reading(text, pattern),
{
}

} // verus!
