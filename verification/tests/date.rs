use chrono::{Datelike, NaiveDate};
use roster_ingest::date::{
    leap_year, month_length, parse_date, read_canonical, resolve_reading, CalendarDate,
    DatePattern,
};

const LONG: &str = "%d %b %Y ";

fn day(year: i32, month: u8, day: u8) -> CalendarDate {
    CalendarDate { year, month, day }
}

fn chrono_long(text: &str) -> Option<CalendarDate> {
    NaiveDate::parse_from_str(text, LONG)
        .ok()
        .map(|d| day(d.year(), d.month() as u8, d.day() as u8))
}

fn chrono_short(text: &str) -> Option<CalendarDate> {
    NaiveDate::parse_from_str(&format!("01/{text}"), "%d/%m/%y")
        .ok()
        .map(|d| day(d.year(), d.month() as u8, d.day() as u8))
}

#[test]
fn exact_spelling_is_read() {
    assert_eq!(parse_date("05 Sep 2015 ", DatePattern::DayMonthYear), Some(day(2015, 9, 5)));
    assert_eq!(parse_date("31 Dec 2026 ", DatePattern::DayMonthYear), Some(day(2026, 12, 31)));
    assert_eq!(parse_date("29 Feb 2024 ", DatePattern::DayMonthYear), Some(day(2024, 2, 29)));
    assert_eq!(parse_date("01 Jan 0001 ", DatePattern::DayMonthYear), Some(day(1, 1, 1)));
    assert_eq!(parse_date("03/08", DatePattern::MonthYear), Some(day(2008, 3, 1)));
    assert_eq!(parse_date("12/69", DatePattern::MonthYear), Some(day(2069, 12, 1)));
    assert_eq!(parse_date("01/70", DatePattern::MonthYear), Some(day(1970, 1, 1)));
    assert_eq!(parse_date("03/98", DatePattern::MonthYear), Some(day(1998, 3, 1)));
}

#[test]
fn looser_spellings_are_read_by_chrono() {
    assert_eq!(parse_date("5 Sep 2015", DatePattern::DayMonthYear), Some(day(2015, 9, 5)));
    assert_eq!(parse_date("05 sep 2015 ", DatePattern::DayMonthYear), Some(day(2015, 9, 5)));
    assert_eq!(parse_date("05  Sep  2015  ", DatePattern::DayMonthYear), Some(day(2015, 9, 5)));
    assert_eq!(parse_date("9/15", DatePattern::MonthYear), Some(day(2015, 9, 1)));
}

#[test]
fn text_that_is_no_date_is_refused() {
    for text in ["", " ", "Not Complete", "31 Feb 2024 ", "29 Feb 2023 ", "00 Jan 2024 ",
        "32 Jan 2024 ", "05 Sept 2015 ", "2015-09-05", "05 Sep 15 x"]
    {
        assert_eq!(parse_date(text, DatePattern::DayMonthYear), None, "{text:?}");
    }
    for text in ["", "13/15", "00/15", "03/1998", "3-98", "ab/cd", "03/9x"] {
        assert_eq!(parse_date(text, DatePattern::MonthYear), None, "{text:?}");
    }
}

#[test]
fn reading_agrees_with_chrono() {
    for text in ["05 Sep 2015 ", "5 Sep 2015 ", "05 Sep 2015", "05 SEP 2015 ", "31 Apr 2024 ",
        "30 Apr 2024 ", "29 Feb 1900 ", "29 Feb 2000 ", "1 Jan 99 ", "01 Jan +2024 ",
        " 01 Jan 2024 ", "01 January 2024 ", "01 Jan 12024 ", "15 Feb 2024 x", "", " "]
    {
        assert_eq!(parse_date(text, DatePattern::DayMonthYear), chrono_long(text), "{text:?}");
    }
    for text in ["03/08", "3/08", "03/8", "12/70", "12/69", "00/10", "13/10", "03/08 ", " 03/08",
        "03/2008", "", "/"]
    {
        assert_eq!(parse_date(text, DatePattern::MonthYear), chrono_short(text), "{text:?}");
    }
}

#[test]
fn every_day_of_a_century_is_written_as_chrono_writes_it_and_read_back() {
    let mut date = NaiveDate::from_ymd_opt(1970, 1, 1).unwrap();
    let end = NaiveDate::from_ymd_opt(2069, 12, 31).unwrap();
    while date <= end {
        let ours = day(date.year(), date.month() as u8, date.day() as u8);
        let text = ours.render(DatePattern::DayMonthYear).unwrap();
        assert_eq!(text, date.format(LONG).to_string());
        let chars: Vec<char> = text.chars().collect();
        assert_eq!(read_canonical(&chars, DatePattern::DayMonthYear), Some(ours));
        assert_eq!(parse_date(&text, DatePattern::DayMonthYear), Some(ours));
        assert_eq!(chrono_long(&text), Some(ours));
        if date.day() == 1 {
            let short = ours.render(DatePattern::MonthYear).unwrap();
            assert_eq!(short, date.format("%m/%y").to_string());
            assert_eq!(parse_date(&short, DatePattern::MonthYear), Some(ours));
            assert_eq!(chrono_short(&short), Some(ours));
        } else {
            assert_eq!(ours.render(DatePattern::MonthYear), None);
        }
        date = date.succ_opt().unwrap();
    }
}

#[test]
fn a_date_read_and_written_again_is_the_text_that_was_read() {
    for text in ["05 Sep 2015 ", "31 Dec 2026 ", "29 Feb 2024 ", "01 Jan 0000 ", "31 Dec 9999 "] {
        let date = parse_date(text, DatePattern::DayMonthYear).unwrap();
        assert_eq!(date.render(DatePattern::DayMonthYear).as_deref(), Some(text));
    }
    for text in ["03/08", "12/69", "01/70", "11/99", "02/00"] {
        let date = parse_date(text, DatePattern::MonthYear).unwrap();
        assert_eq!(date.render(DatePattern::MonthYear).as_deref(), Some(text));
    }
    let loose = parse_date("5 Sep 2015", DatePattern::DayMonthYear).unwrap();
    assert_eq!(loose.render(DatePattern::DayMonthYear).as_deref(), Some("05 Sep 2015 "));
}

#[test]
fn dates_that_a_pattern_cannot_write_are_not_written() {
    assert_eq!(day(2024, 2, 30).render(DatePattern::DayMonthYear), None);
    assert_eq!(day(10000, 1, 1).render(DatePattern::DayMonthYear), None);
    assert_eq!(day(-1, 1, 1).render(DatePattern::DayMonthYear), None);
    assert_eq!(day(1969, 12, 1).render(DatePattern::MonthYear), None);
    assert_eq!(day(2070, 1, 1).render(DatePattern::MonthYear), None);
    assert_eq!(day(2024, 5, 2).render(DatePattern::MonthYear), None);
    assert!(!day(2024, 13, 1).valid());
    assert!(!day(2024, 0, 1).valid());
    assert!(!day(2024, 4, 31).valid());
    assert!(day(2024, 4, 30).valid());
}

#[test]
fn leap_years_follow_the_gregorian_rule() {
    assert!(leap_year(2024));
    assert!(leap_year(2000));
    assert!(!leap_year(1900));
    assert!(!leap_year(2023));
    assert!(leap_year(0));
    assert!(leap_year(-4));
    assert!(!leap_year(-100));
    assert!(leap_year(-400));
    assert!(!leap_year(i32::MAX));
    assert!(leap_year(i32::MIN));
    assert_eq!(month_length(2024, 2), 29);
    assert_eq!(month_length(2023, 2), 28);
    assert_eq!(month_length(2023, 11), 30);
    assert_eq!(month_length(2023, 12), 31);
    assert_eq!(month_length(2023, 0), 0);
    assert_eq!(month_length(2023, 13), 0);
}

#[test]
fn the_exact_spelling_decides_before_chrono() {
    let exact = Some(day(2015, 9, 5));
    assert_eq!(resolve_reading(exact, None), exact);
    assert_eq!(resolve_reading(exact, Some((1999, 1, 1))), exact);
    assert_eq!(resolve_reading(None, Some((1999, 1, 2))), Some(day(1999, 1, 2)));
    assert_eq!(resolve_reading(None, None), None);
}
