use manteau::bitsearch;
use manteau::i1337x::date::{parse, parse_in_year};
use manteau::time::{DateErrorKind, Timestamp};

fn seconds(input: &str, year: i32) -> Result<i64, DateErrorKind> {
    parse_in_year(input, year).map(|t| t.unix())
}

#[test]
fn should_parse_same_date() {
    parse("9:30am").unwrap();
    parse("3:23pm").unwrap();
}

#[test]
fn should_parse_close_date() {
    parse("9am Mar. 21st").unwrap();
    parse("3pm Mar. 21st").unwrap();
}

#[test]
fn should_parse_far_date() {
    parse("Mar. 3rd '11").unwrap();
    parse("Jul. 18th '20").unwrap();
}

#[test]
fn bare_time_is_a_time_of_day() {
    assert_eq!(seconds("9:30am", 2023), Ok(9 * 3600 + 30 * 60));
    assert_eq!(seconds("3:23pm", 2023), Ok(15 * 3600 + 23 * 60));
    assert_eq!(seconds("12:00am", 2023), Ok(0));
    assert_eq!(seconds("12:05pm", 2023), Ok(12 * 3600 + 5 * 60));
    assert_eq!(seconds("11:59PM", 1999), Ok(23 * 3600 + 59 * 60));
    assert_eq!(seconds("1:5Am", 1999), Ok(3600 + 5 * 60));
    assert_eq!(seconds(" 9: 30am", 1999), Ok(34200));
    assert_eq!(parse("9:30am").unwrap().unix(), 34200);
}

#[test]
fn same_year_uses_the_year_given() {
    assert_eq!(seconds("9pm Mar. 21st", 2023), Ok(1679432400));
    assert_eq!(seconds("9am Mar. 21st", 2023), Ok(1679389200));
    assert_eq!(seconds("3pm  mar.\t21st", 2023), Ok(1679410800));
    assert_eq!(seconds("12am Feb. 29th", 2024), Ok(1709164800));
    assert_eq!(
        seconds("12am Feb. 29th", 2023),
        Err(DateErrorKind::Impossible)
    );
    assert_eq!(
        seconds("9pm Mar. 21st", 10_000),
        Err(DateErrorKind::Impossible)
    );
    assert_eq!(seconds("9pm Mar. 21st", -1), Err(DateErrorKind::Impossible));
}

#[test]
fn same_year_uses_the_current_year() {
    let now = parse("9pm Mar. 21st").unwrap().unix();
    let year = (1970..=9999)
        .find(|year| seconds("9pm Mar. 21st", *year) == Ok(now))
        .unwrap();
    assert!(year >= 2024);
}

#[test]
fn with_year_is_nine_in_the_morning() {
    assert_eq!(seconds("Jul. 18th '20", 2023), Ok(1595062800));
    assert_eq!(seconds("Jul. 18th '20", 1980), Ok(1595062800));
    assert_eq!(seconds("Mar. 3rd '11", 2023), Ok(1299142800));
    assert_eq!(seconds("jan. 1st '0", 2023), Ok(946717200));
    assert_eq!(seconds("DEC.  31ST   '99", 2023), Ok(4102390800));
    assert_eq!(
        Timestamp::from_unix(1595062800).unwrap().to_rfc2822(),
        "Sat, 18 Jul 2020 09:00:00 +0000"
    );
}

#[test]
fn the_longest_shape_wins() {
    assert_eq!(seconds("Jul. 18th '20", 2023), Ok(1595062800));
    assert_eq!(seconds("9pm Mar. 21st", 2023), Ok(1679432400));
    assert_eq!(seconds("9:30am", 2023), Ok(34200));
}

#[test]
fn other_texts_fail() {
    for text in [
        "yesterday",
        "",
        "9:30",
        "9:30 am",
        "9 :30am",
        "9:30am ",
        "930am",
        "9pm Mar 21st",
        "9pm Mar. 21",
        "9pm Mar. 21ST",
        "9PM Mar. 21st",
        "Jul. 18th 20",
        "Jul. 18 '20",
        "Jul 18th '20",
        "Jul. 18th '",
        "2023-03-21",
    ] {
        assert_eq!(seconds(text, 2023), Err(DateErrorKind::Invalid), "{text:?}");
    }
    assert!(parse("yesterday").is_err());
    for text in [
        "Jul. 118th '20",
        "Jul. 18th '2020",
        "July. 18th '20",
        "Foo. 18th '20",
        "123pm Mar. 21st",
        "9pm Marc. 21st",
        "100:30am",
        "9:300am",
    ] {
        assert_eq!(seconds(text, 2023), Err(DateErrorKind::Invalid), "{text:?}");
    }
}

#[test]
fn fields_out_of_range() {
    for text in [
        "0:30am",
        "13:30pm",
        "9:60am",
        "0pm Mar. 21st",
        "13am Mar. 21st",
        "9pm Mar. 0th",
        "9pm Mar. 32nd",
        "Jul. 0th '20",
        "Jul. 32nd '20",
    ] {
        assert_eq!(
            seconds(text, 2023),
            Err(DateErrorKind::OutOfRange),
            "{text:?}"
        );
    }
    assert_eq!(
        seconds("Feb. 30th '20", 2023),
        Err(DateErrorKind::Impossible)
    );
    assert_eq!(
        seconds("Apr. 31st '21", 2023),
        Err(DateErrorKind::Impossible)
    );
}

#[test]
fn bitsearch_dates() {
    let at = |input: &str| bitsearch::date::parse(input).map(|t| t.unix());
    assert_eq!(at("Mar 21, 2023"), Ok(1679389200));
    assert_eq!(at("May  9,  2023"), Ok(1683622800));
    assert_eq!(at("May9,2023"), Ok(1683622800));
    assert_eq!(at("MAY\t9,\n2023"), Ok(1683622800));
    assert_eq!(at("jan 1, 1"), Ok(-62135564400));
    assert_eq!(at("Dec 31, 9999"), Ok(253402246800));
    assert_eq!(at("Feb 29, 2024"), Ok(1709164800 + 9 * 3600));
    assert_eq!(at("Feb 29, 2023"), Err(DateErrorKind::Impossible));
    assert_eq!(at("Mar 32, 2023"), Err(DateErrorKind::OutOfRange));
    assert_eq!(at("Mar 0, 2023"), Err(DateErrorKind::OutOfRange));
    for text in [
        "",
        "Mar 21 2023",
        " Mar 21, 2023",
        "Mar 21 , 2023",
        "Mar 21st, 2023",
        "March 21, 2023",
        "Mar 21, +2023",
        "Mar 21, 20230",
        "Mar 121, 2023",
        "Mar 21, 2023 ",
        "21 Mar, 2023",
    ] {
        assert_eq!(at(text), Err(DateErrorKind::Invalid), "{text:?}");
    }
}

#[test]
fn instants_of_the_feed() {
    assert!(Timestamp::from_unix(-62_167_219_200).is_some());
    assert!(Timestamp::from_unix(-62_167_219_201).is_none());
    assert!(Timestamp::from_unix(253_402_300_799).is_some());
    assert!(Timestamp::from_unix(253_402_300_800).is_none());
    assert_eq!(
        Timestamp::from_unix(-62_167_219_200).unwrap().to_rfc2822(),
        "Sat, 1 Jan 0000 00:00:00 +0000"
    );
    assert_eq!(
        Timestamp::from_unix(253_402_300_799).unwrap().to_rfc2822(),
        "Fri, 31 Dec 9999 23:59:59 +0000"
    );
    assert_eq!(
        Timestamp::from_unix(0).unwrap().to_rfc2822(),
        "Thu, 1 Jan 1970 00:00:00 +0000"
    );
    assert_eq!(
        Timestamp::from_civil(2020, 7, 18, 9, 0).unwrap().unix(),
        1595062800
    );
    assert!(Timestamp::from_civil(2020, 13, 1, 0, 0).is_none());
    assert!(Timestamp::from_civil(2020, 1, 1, 24, 0).is_none());
    assert!(Timestamp::from_civil(2020, 1, 1, 0, 60).is_none());
    assert!(Timestamp::from_civil(10_000, 1, 1, 0, 0).is_none());
    assert_eq!(
        Timestamp::from_civil_or(2021, 2, 29, 0, 0).unwrap_err(),
        DateErrorKind::Impossible
    );
}

#[test]
fn bitsearch_dates_as_chrono_reads_them() {
    for text in [
        "Mar 21, 2023",
        "mar 21, 2023",
        "MAR 1, 2023",
        "Mar21,2023",
        "Mar  21,  2023",
        "Feb 29, 2024",
        "Feb 29, 2023",
        "Feb 30, 2024",
        "Apr 31, 2020",
        "Dec 31, 9999",
        "Jan 1, 0001",
        "Jan 1, 1",
        "Jan 01, 2000",
        "Jan 0, 2000",
        "Jan 32, 2000",
        "Jan 100, 2000",
        "Jan 1, 20000",
        "Jan 1 2000",
        "Jan 1, 2000 ",
        " Jan 1, 2000",
        "January 1, 2000",
        "Janu 1, 2000",
        "Ja 1, 2000",
        "Foo 1, 2000",
        "1 Jan, 2000",
        "Jan, 2000",
        "Jan 1,",
        "Jan 1, x",
        "",
        "Sep 9, 999",
        "sEp 09, 0999",
    ] {
        let reference = chrono::NaiveDate::parse_from_str(text, "%b %e, %Y")
            .ok()
            .and_then(|date| date.and_hms_opt(9, 0, 0))
            .map(|at| at.and_utc().timestamp());
        let ours = bitsearch::date::parse(text).ok().map(|t| t.unix());
        assert_eq!(ours, reference, "{text:?}");
    }
}

#[test]
fn bare_times_as_chrono_reads_them() {
    for text in [
        "9:30am", "3:23pm", "12:00am", "12:00pm", "12:59PM", "1:00Am", "01:05pm", "1:5pm",
        " 9:30am", "\t 9: 30am", "9 :30am", "9:30 am", "9:\n5pm", " 9 :30am",
        "0:30am", "13:00pm", "9:60am", "9:30", "9:30xm", "9:30amm", "9:30am ", "930am", ":30am",
        "9:am", "100:30am", "9:300am", "", "am", "9-30am",
    ] {
        let reference = chrono::NaiveTime::parse_from_str(text, "%l:%M%P")
            .ok()
            .map(|time| chrono::NaiveDate::default().and_time(time).and_utc().timestamp());
        let ours = parse_in_year(text, 2023).ok().map(|t| t.unix());
        assert_eq!(ours, reference, "{text:?}");
    }
}

#[test]
fn dated_rows_as_chrono_reads_them() {
    for (text, rebuilt) in [
        ("Jul. 18th '20", "9:00am 20 Jul 18"),
        ("Mar. 3rd '11", "9:00am 11 Mar 3"),
        ("feb. 29th '24", "9:00am 24 feb 29"),
        ("Feb. 29th '23", "9:00am 23 Feb 29"),
        ("Dec. 32nd '23", "9:00am 23 Dec 32"),
        ("Foo. 1st '23", "9:00am 23 Foo 1"),
        ("June. 1st '23", "9:00am 23 June 1"),
        ("Jan. 1st '5", "9:00am 5 Jan 1"),
        ("Jan. 111th '05", "9:00am 05 Jan 111"),
        ("Jan. 11th '2005", "9:00am 2005 Jan 11"),
    ] {
        let reference = chrono::NaiveDateTime::parse_from_str(rebuilt, "%l:%M%P %y %b %e")
            .ok()
            .map(|at| at.and_utc().timestamp());
        assert_eq!(seconds(text, 2023).ok(), reference, "{text:?}");
    }
    for (text, rebuilt) in [
        ("9pm Mar. 21st", "9:00pm 2023 Mar 21"),
        ("12am Feb. 29th", "12:00am 2023 Feb 29"),
        ("12pm Dec. 31st", "12:00pm 2023 Dec 31"),
        ("0am Jan. 1st", "0:00am 2023 Jan 1"),
        ("13pm Jan. 1st", "13:00pm 2023 Jan 1"),
        ("123pm Jan. 1st", "123:00pm 2023 Jan 1"),
        ("1am Jan. 40th", "1:00am 2023 Jan 40"),
        ("1am Sept. 4th", "1:00am 2023 Sept 4"),
    ] {
        let reference = chrono::NaiveDateTime::parse_from_str(rebuilt, "%l:%M%P %Y %b %e")
            .ok()
            .map(|at| at.and_utc().timestamp());
        assert_eq!(seconds(text, 2023).ok(), reference, "{text:?}");
    }
}
