use chrono::{NaiveDate, NaiveDateTime};
use dnevnik_mos::calendar::{Date, Timestamp};
use dnevnik_mos::digits::push_decimal;
use dnevnik_mos::error::{DecodeFault, DiaryError};
use dnevnik_mos::model::hw::{
    deserialize_datetime, deserialize_opt_datetime, timestamp_from_parsed,
};

fn stamp(year: u16, month: u8, day: u8, hour: u8, minute: u8) -> Timestamp {
    Timestamp { date: Date { year, month, day }, hour, minute, second: 0, nanosecond: 0 }
}

const INVALID: &str = "input contains invalid characters";
const TOO_SHORT: &str = "premature end of input";
const TOO_LONG: &str = "trailing input";
const OUT_OF_RANGE: &str = "input is out of range";

fn bad_timestamp(reason: &str, text: &str) -> Result<Timestamp, DiaryError> {
    Err(DiaryError::Decode(DecodeFault::BadTimestamp {
        reason: reason.to_string(),
        text: text.to_string(),
    }))
}

#[test]
fn date_new_takes_days_that_exist() {
    assert_eq!(Date::new(2023, 9, 5), Some(Date { year: 2023, month: 9, day: 5 }));
    assert_eq!(Date::new(2024, 2, 29), Some(Date { year: 2024, month: 2, day: 29 }));
    assert_eq!(Date::new(2000, 2, 29), Some(Date { year: 2000, month: 2, day: 29 }));
    assert_eq!(Date::new(0, 1, 1), Some(Date { year: 0, month: 1, day: 1 }));
    assert_eq!(Date::new(9999, 12, 31), Some(Date { year: 9999, month: 12, day: 31 }));
}

#[test]
fn date_new_refuses_days_that_do_not_exist() {
    assert_eq!(Date::new(2023, 2, 29), None);
    assert_eq!(Date::new(1900, 2, 29), None);
    assert_eq!(Date::new(2023, 4, 31), None);
    assert_eq!(Date::new(2023, 13, 1), None);
    assert_eq!(Date::new(2023, 0, 1), None);
    assert_eq!(Date::new(2023, 1, 0), None);
    assert_eq!(Date::new(2023, 1, 32), None);
    assert_eq!(Date::new(10000, 1, 1), None);
    assert_eq!(Date::new(-1, 1, 1), None);
    assert_eq!(Date::new(2023, 1, 300), None);
    assert_eq!(Date::new(2023, 257, 1), None);
}

#[test]
fn date_is_valid_agrees_with_new() {
    assert!(Date { year: 2024, month: 2, day: 29 }.is_valid());
    assert!(!Date { year: 2023, month: 2, day: 29 }.is_valid());
    assert!(!Date { year: 2023, month: 0, day: 1 }.is_valid());
    assert!(!Date { year: 10000, month: 1, day: 1 }.is_valid());
}

#[test]
fn date_texts_are_padded() {
    let date = Date { year: 2023, month: 9, day: 5 };
    assert_eq!(date.to_dmy_string(), "05.09.2023");
    assert_eq!(date.to_iso_string(), "2023-09-05");
    let early = Date { year: 7, month: 12, day: 31 };
    assert_eq!(early.to_dmy_string(), "31.12.0007");
    assert_eq!(early.to_iso_string(), "0007-12-31");
}

#[test]
fn timestamp_new_checks_every_field() {
    let date = Date { year: 2023, month: 9, day: 5 };
    assert_eq!(
        Timestamp::new(date, 23, 59, 59, 999_999_999),
        Some(Timestamp { date, hour: 23, minute: 59, second: 59, nanosecond: 999_999_999 })
    );
    assert_eq!(Timestamp::new(date, 24, 0, 0, 0), None);
    assert_eq!(Timestamp::new(date, 0, 60, 0, 0), None);
    assert_eq!(Timestamp::new(date, 0, 0, 60, 0), None);
    assert_eq!(Timestamp::new(date, 0, 0, 0, 2_000_000_000), None);
    assert_eq!(Timestamp::new(date, 0, 0, 58, 1_000_000_000), None);
    assert_eq!(
        Timestamp::new(date, 23, 59, 59, 1_999_999_999),
        Some(Timestamp { date, hour: 23, minute: 59, second: 59, nanosecond: 1_999_999_999 })
    );
    assert_eq!(Timestamp::new(Date { year: 2023, month: 2, day: 30 }, 0, 0, 0, 0), None);
    assert!(stamp(2023, 9, 5, 14, 7).is_valid());
    assert!(!stamp(2023, 9, 5, 24, 7).is_valid());
}

#[test]
fn timestamp_text_drops_the_seconds() {
    assert_eq!(stamp(2023, 9, 5, 14, 7).to_day_minute_string(), "05.09.2023 14:07");
    let with_seconds = Timestamp {
        date: Date { year: 1999, month: 12, day: 31 },
        hour: 23,
        minute: 59,
        second: 58,
        nanosecond: 5,
    };
    assert_eq!(with_seconds.to_day_minute_string(), "31.12.1999 23:59");
}

#[test]
fn decodes_a_timestamp_of_the_custom_format() {
    assert_eq!(deserialize_datetime("05.09.2023 14:07"), Ok(stamp(2023, 9, 5, 14, 7)));
    assert_eq!(deserialize_datetime("29.02.2024 00:00"), Ok(stamp(2024, 2, 29, 0, 0)));
    assert_eq!(deserialize_datetime("31.12.9999 23:59"), Ok(stamp(9999, 12, 31, 23, 59)));
    assert_eq!(deserialize_datetime("01.01.0000 00:00"), Ok(stamp(0, 1, 1, 0, 0)));
}

#[test]
fn timestamp_text_round_trips() {
    for text in [
        "05.09.2023 14:07",
        "29.02.2024 00:00",
        "31.12.9999 23:59",
        "01.01.0000 00:00",
        "28.02.1900 09:30",
        "10.10.2010 10:10",
    ] {
        let decoded = deserialize_datetime(text).unwrap();
        assert!(decoded.is_valid());
        assert_eq!(decoded.second, 0);
        assert_eq!(decoded.nanosecond, 0);
        assert_eq!(decoded.to_day_minute_string(), text);
    }
}

#[test]
fn timestamp_reads_back_from_its_text() {
    for t in [stamp(2023, 9, 5, 14, 7), stamp(1, 1, 1, 0, 0), stamp(2024, 2, 29, 23, 59)] {
        assert_eq!(deserialize_datetime(&t.to_day_minute_string()), Ok(t));
    }
}

#[test]
fn refuses_what_is_no_timestamp() {
    for (text, reason) in [
        ("", TOO_SHORT),
        ("05.09.2023", TOO_SHORT),
        ("2023-09-05 14:07", INVALID),
        ("2023-09-05T14:07:00", INVALID),
        ("31.02.2023 10:00", OUT_OF_RANGE),
        ("29.02.2023 10:00", OUT_OF_RANGE),
        ("05.13.2023 10:00", OUT_OF_RANGE),
        ("00.09.2023 10:00", OUT_OF_RANGE),
        ("05.09.2023 24:00", OUT_OF_RANGE),
        ("05.09.2023 14:60", OUT_OF_RANGE),
        ("05.09.2023 14:07:00", TOO_LONG),
        ("05.09.2023 14:07 ", TOO_LONG),
        ("05/09/2023 14:07", INVALID),
        ("aa.bb.cccc dd:ee", INVALID),
        ("yesterday", INVALID),
    ] {
        assert_eq!(deserialize_datetime(text), bad_timestamp(reason, text));
    }
}

#[test]
fn refusal_carries_the_words_of_the_parser() {
    for text in ["", "2023-09-05 14:07", "31.02.2023 10:00", "05.09.2023 14:07:00", "x"] {
        let theirs = NaiveDateTime::parse_from_str(text, "%d.%m.%Y %H:%M").unwrap_err();
        assert_eq!(deserialize_datetime(text), bad_timestamp(&theirs.to_string(), text));
    }
}

#[test]
fn refuses_a_year_that_four_digits_cannot_write() {
    let text = "01.01.+12345 00:00";
    assert_eq!(deserialize_datetime(text), bad_timestamp(OUT_OF_RANGE, text));
    let text = "01.01.-0001 00:00";
    assert_eq!(deserialize_datetime(text), bad_timestamp(OUT_OF_RANGE, text));
}

#[test]
fn takes_the_short_forms_that_the_parser_takes() {
    assert_eq!(deserialize_datetime("5.9.2023 4:07"), Ok(stamp(2023, 9, 5, 4, 7)));
    assert_eq!(deserialize_datetime("05.09.2023  14:07"), Ok(stamp(2023, 9, 5, 14, 7)));
}

#[test]
fn decodes_an_absent_timestamp_as_nothing() {
    assert_eq!(deserialize_opt_datetime(None), Ok(None));
    assert_eq!(
        deserialize_opt_datetime(Some("05.09.2023 14:07")),
        Ok(Some(stamp(2023, 9, 5, 14, 7)))
    );
    assert_eq!(
        deserialize_opt_datetime(Some("soon")),
        Err(DiaryError::Decode(DecodeFault::BadTimestamp {
            reason: INVALID.to_string(),
            text: "soon".to_string(),
        }))
    );
}

#[test]
fn timestamp_from_parsed_checks_the_numbers() {
    assert_eq!(timestamp_from_parsed(Ok((2023, 9, 5, 14, 7)), "x"), Ok(stamp(2023, 9, 5, 14, 7)));
    assert_eq!(
        timestamp_from_parsed(Err("no digits".to_string()), "x"),
        bad_timestamp("no digits", "x")
    );
    for numbers in [
        (2023, 2, 29, 14, 7),
        (12345, 1, 1, 0, 0),
        (-1, 1, 1, 0, 0),
        (2023, 9, 5, 24, 0),
        (2023, 9, 5, 0, 60),
        (2023, 9, 5, 256, 0),
    ] {
        assert_eq!(timestamp_from_parsed(Ok(numbers), "x"), bad_timestamp(OUT_OF_RANGE, "x"));
    }
}

#[test]
fn decimal_text_has_no_padding() {
    let mut out = String::from("n=");
    push_decimal(&mut out, 0);
    assert_eq!(out, "n=0");
    let mut out = String::new();
    push_decimal(&mut out, 7);
    out.push(',');
    push_decimal(&mut out, 10);
    out.push(',');
    push_decimal(&mut out, 1234567890);
    out.push(',');
    push_decimal(&mut out, u64::MAX);
    assert_eq!(out, "7,10,1234567890,18446744073709551615");
}

#[test]
fn date_validity_agrees_with_chrono() {
    for year in [0, 1, 4, 100, 400, 1900, 2000, 2023, 2024, 9999] {
        for month in 0..=13 {
            for day in 0..=32 {
                assert_eq!(
                    Date::new(year, month, day).is_some(),
                    NaiveDate::from_ymd_opt(year, month, day).is_some()
                );
            }
        }
    }
}

#[test]
fn date_texts_agree_with_chrono() {
    for (year, month, day) in
        [(2023, 9, 5), (2024, 2, 29), (0, 1, 1), (9999, 12, 31), (7, 3, 4), (1999, 12, 31)]
    {
        let ours = Date::new(year, month, day).unwrap();
        let theirs = NaiveDate::from_ymd_opt(year, month, day).unwrap();
        assert_eq!(ours.to_iso_string(), theirs.to_string());
        assert_eq!(ours.to_dmy_string(), theirs.format("%d.%m.%Y").to_string());
    }
}

#[test]
fn timestamp_text_agrees_with_chrono() {
    for (year, month, day, hour, minute) in
        [(2023, 9, 5, 14, 7), (2024, 2, 29, 0, 0), (0, 1, 1, 23, 59), (9999, 12, 31, 9, 5)]
    {
        let ours = stamp(year as u16, month as u8, day as u8, hour as u8, minute as u8);
        let theirs: NaiveDateTime = NaiveDate::from_ymd_opt(year, month, day)
            .unwrap()
            .and_hms_opt(hour, minute, 0)
            .unwrap();
        assert_eq!(ours.to_day_minute_string(), theirs.format("%d.%m.%Y %H:%M").to_string());
    }
}

#[test]
fn every_minute_of_a_leap_day_round_trips() {
    for hour in 0..24 {
        for minute in 0..60 {
            let t = stamp(2024, 2, 29, hour, minute);
            let text = t.to_day_minute_string();
            assert_eq!(text.len(), 16);
            assert_eq!(deserialize_datetime(&text), Ok(t));
        }
    }
}

#[test]
fn every_day_of_a_year_round_trips() {
    let mut days = 0;
    for month in 1..=12 {
        for day in 1..=31 {
            if let Some(date) = Date::new(2023, month, day) {
                let t = Timestamp { date, hour: 12, minute: 30, second: 0, nanosecond: 0 };
                assert_eq!(deserialize_datetime(&t.to_day_minute_string()), Ok(t));
                days += 1;
            }
        }
    }
    assert_eq!(days, 365);
}
