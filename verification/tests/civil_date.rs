use chrono::{Datelike, FixedOffset, TimeZone};
use notes_planner_desktop::civil_date::{clock_seconds, CivilDate, LAST_CLOCK_SECOND};
use notes_planner_desktop::dto::CivilDateInput;
use notes_planner_desktop::error::AppErrorCode;

#[test]
fn rejects_non_canonical_and_impossible_calendar_date_inputs() {
    let invalid_inputs = [
        "2026-02-30",
        "2026-07-30T00:00:00Z",
        "2026-07-30T00:00:00+01:00",
        "2026-7-30",
    ];

    let results = invalid_inputs.map(CivilDate::parse);

    assert!(results.into_iter().all(|result| result.is_err()));
}

#[test]
fn derives_the_same_civil_key_from_a_fixed_local_midnight_fixture() {
    let offset = FixedOffset::east_opt(3_600).expect("one-hour offset should be valid");
    let local_midnight = offset
        .with_ymd_and_hms(2026, 3, 29, 0, 0, 0)
        .single()
        .expect("fixed-offset midnight should be unambiguous");
    let local_date = local_midnight.date_naive();

    let today = CivilDate::from_local_datetime(
        local_date.year(),
        local_date.month(),
        local_date.day(),
    )
    .expect("local fixture should derive");

    assert_eq!(today.as_str(), "2026-03-29");
}

#[test]
fn navigates_by_calendar_days_across_leap_month_year_and_dst_boundaries() {
    let leap_day = CivilDate::parse("2024-02-29").expect("leap date should parse");
    let year_end = CivilDate::parse("2026-12-31").expect("year end should parse");
    let dst_start = CivilDate::parse("2026-03-29").expect("DST date should parse");

    let after_leap_day = leap_day
        .next_day()
        .expect("next leap-day date should exist");
    let after_year_end = year_end.next_day().expect("next year date should exist");
    let before_dst_start = dst_start
        .previous_day()
        .expect("previous DST date should exist");
    let after_dst_start = dst_start.next_day().expect("next DST date should exist");

    assert_eq!(after_leap_day.as_str(), "2024-03-01");
    assert_eq!(after_year_end.as_str(), "2027-01-01");
    assert_eq!(before_dst_start.as_str(), "2026-03-28");
    assert_eq!(after_dst_start.as_str(), "2026-03-30");
}

#[test]
fn parse_accepts_canonical_days_and_keeps_their_text() {
    for text in ["0000-01-01", "0001-12-31", "1900-02-28", "2000-02-29", "9999-12-31"] {
        let date = CivilDate::parse(text).expect("canonical day should parse");
        assert_eq!(date.as_str(), text);
    }
}

#[test]
fn parse_refuses_impossible_and_malformed_days() {
    for text in [
        "1900-02-29",
        "2023-02-29",
        "2026-04-31",
        "2026-13-01",
        "2026-00-10",
        "2026-01-00",
        "2026-01-32",
        " 2026-01-01",
        "2026-01-01 ",
        "+2026-01-01",
        "20260101",
        "",
        "2026-01-1",
        "２０２６-01-01",
    ] {
        let error = CivilDate::parse(text).expect_err("text should be refused");
        assert_eq!(error.code, AppErrorCode::InvalidDate);
    }
}

#[test]
fn stepping_past_the_four_digit_years_is_refused() {
    let last = CivilDate::parse("9999-12-31").unwrap();
    assert_eq!(last.next_day().unwrap_err().code, AppErrorCode::InvalidDate);
    let first = CivilDate::parse("0000-01-01").unwrap();
    assert_eq!(first.previous_day().unwrap_err().code, AppErrorCode::InvalidDate);
    assert_eq!(first.next_day().unwrap().as_str(), "0000-01-02");
    assert_eq!(last.previous_day().unwrap().as_str(), "9999-12-30");
}

#[test]
fn next_then_previous_day_returns_the_same_text() {
    for text in ["2024-02-28", "2024-02-29", "2023-12-31", "2100-02-28", "2000-03-01"] {
        let date = CivilDate::parse(text).unwrap();
        let back = date.next_day().unwrap().previous_day().unwrap();
        assert_eq!(back.as_str(), text);
        let forward = date.previous_day().unwrap().next_day().unwrap();
        assert_eq!(forward.as_str(), text);
    }
}

#[test]
fn local_dates_outside_four_digit_years_are_refused() {
    assert_eq!(
        CivilDate::from_local_datetime(10000, 1, 1).unwrap_err().code,
        AppErrorCode::InvalidDate
    );
    assert_eq!(
        CivilDate::from_local_datetime(-1, 12, 31).unwrap_err().code,
        AppErrorCode::InvalidDate
    );
    assert_eq!(
        CivilDate::from_local_datetime(5, 6, 7).unwrap().as_str(),
        "0005-06-07"
    );
}

#[test]
fn local_parts_that_name_no_day_are_refused() {
    assert_eq!(
        CivilDate::from_local_datetime(2026, 2, 29).unwrap_err().code,
        AppErrorCode::InvalidDate
    );
    assert_eq!(
        CivilDate::from_local_datetime(2026, 13, 1).unwrap_err().code,
        AppErrorCode::InvalidDate
    );
    assert_eq!(
        CivilDate::from_local_datetime(2024, 2, 29).unwrap().as_str(),
        "2024-02-29"
    );
    assert_eq!(
        CivilDate::from_local_datetime(2000, 2, 29).unwrap().as_str(),
        "2000-02-29"
    );
    assert!(CivilDate::from_local_datetime(1900, 2, 29).is_err());
}

#[test]
fn today_is_a_canonical_day() {
    let today = CivilDate::today().expect("the clock should give a four-digit year");
    let reparsed = CivilDate::parse(today.as_str()).expect("today should be canonical");
    assert!(today.same_day(&reparsed));
}

#[test]
fn add_days_steps_calendar_days() {
    let start = CivilDateInput::parse("2024-02-27").unwrap();
    let later = start.add_days(3).unwrap();
    assert_eq!(later.as_str().unwrap(), "2024-03-01");
    let same = start.add_days(0).unwrap();
    assert_eq!(same.as_str().unwrap(), "2024-02-27");
    let near_end = CivilDateInput::parse("9999-12-30").unwrap();
    assert_eq!(near_end.add_days(1).unwrap().as_str().unwrap(), "9999-12-31");
    assert_eq!(near_end.add_days(2).unwrap_err().code, AppErrorCode::InvalidDate);
}

#[test]
fn add_days_keeps_an_invalid_date_only_when_no_day_is_added() {
    assert_eq!(CivilDateInput::Invalid.add_days(0).unwrap(), CivilDateInput::Invalid);
    assert_eq!(
        CivilDateInput::Invalid.add_days(1).unwrap_err().code,
        AppErrorCode::InvalidDate
    );
    assert_eq!(
        CivilDateInput::Invalid.as_str().unwrap_err().code,
        AppErrorCode::InvalidDate
    );
}

#[test]
fn payload_date_texts_decode_to_valid_or_invalid_inputs() {
    assert_eq!(
        CivilDateInput::from_payload_text("2026-07-30"),
        CivilDateInput::parse("2026-07-30").unwrap()
    );
    assert_eq!(CivilDateInput::from_payload_text("2026-02-30"), CivilDateInput::Invalid);
    assert_eq!(CivilDateInput::from_payload_text("2026-7-30"), CivilDateInput::Invalid);
    assert_eq!(CivilDateInput::from_payload_text(""), CivilDateInput::Invalid);
}

#[test]
fn clock_readings_outside_four_digit_years_are_refused() {
    assert_eq!(clock_seconds(Some(0)), Ok(0));
    assert_eq!(clock_seconds(Some(1_785_369_600)), Ok(1_785_369_600));
    assert_eq!(clock_seconds(Some(LAST_CLOCK_SECOND)), Ok(253_402_387_199));
    assert_eq!(
        clock_seconds(Some(LAST_CLOCK_SECOND + 1)).unwrap_err().code,
        AppErrorCode::InvalidDate
    );
    assert_eq!(clock_seconds(None).unwrap_err().code, AppErrorCode::InvalidDate);
}

#[test]
fn adding_days_twice_is_adding_their_sum() {
    let start = CivilDateInput::parse("2024-02-27").unwrap();
    for (a, b) in [(0u16, 3u16), (2, 1), (3, 0), (1, 365), (300, 400)] {
        let twice = start.add_days(a).and_then(|middle| middle.add_days(b)).unwrap();
        assert_eq!(twice, start.add_days(a + b).unwrap());
    }
    let near_end = CivilDateInput::parse("9999-12-29").unwrap();
    assert_eq!(
        near_end.add_days(1).and_then(|middle| middle.add_days(1)).unwrap(),
        near_end.add_days(2).unwrap()
    );
    assert!(near_end.add_days(1).and_then(|middle| middle.add_days(2)).is_err());
    assert!(near_end.add_days(3).is_err());
}
