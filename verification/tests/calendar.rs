use chrono::{Datelike, NaiveDate, Weekday};
use mqtt_sn::calendar::{
    days_in_year, days_in_year_month, is_leap_year, jan_weekday, weeks_in_year, ymd_to_yo,
    ywd_to_yo,
};

#[test]
fn leap_years() {
    assert!(is_leap_year(2000));
    assert!(!is_leap_year(1900));
    assert!(is_leap_year(2024));
    assert!(!is_leap_year(2023));
    assert!(is_leap_year(-4));
    assert!(is_leap_year(0));
    assert_eq!(days_in_year(2024), 366);
    assert_eq!(days_in_year(2023), 365);
}

#[test]
fn month_lengths() {
    assert_eq!(days_in_year_month(2024, 2), 29);
    assert_eq!(days_in_year_month(2023, 2), 28);
    assert_eq!(days_in_year_month(2023, 4), 30);
    assert_eq!(days_in_year_month(2023, 12), 31);
    let total: u32 = (1..=12u8).map(|m| days_in_year_month(2024, m) as u32).sum();
    assert_eq!(total, 366);
}

#[test]
fn ordinal_dates() {
    assert_eq!(ymd_to_yo(2023, 1, 1), (2023, 1));
    assert_eq!(ymd_to_yo(2023, 3, 1), (2023, 60));
    assert_eq!(ymd_to_yo(2024, 3, 1), (2024, 61));
    assert_eq!(ymd_to_yo(2024, 12, 31), (2024, 366));
}

#[test]
fn iso_weeks() {
    // 2021-01-01 was a Friday; Monday is 0.
    assert_eq!(jan_weekday(2021, 1), 4);
    assert_eq!(jan_weekday(2024, 1), 0);
    assert_eq!(weeks_in_year(2020), 53);
    assert_eq!(weeks_in_year(2021), 52);
    assert_eq!(weeks_in_year(2026), 53);
    // 2021-W01-1 is 2021-01-04.
    assert_eq!(ywd_to_yo(2021, 1, 1), (2021, 4));
    // 2020-W53-5 is 2021-01-01.
    assert_eq!(ywd_to_yo(2020, 53, 5), (2021, 1));
    // 2015-W01-1 is 2014-12-29.
    assert_eq!(ywd_to_yo(2015, 1, 1), (2014, 363));
}

#[test]
fn weekdays_before_year_one() {
    // 1 January of year 1 is a Monday and of year 0 a Saturday (proleptic Gregorian).
    assert_eq!(jan_weekday(1, 1), 0);
    assert_eq!(jan_weekday(0, 1), 5);
    assert_eq!(jan_weekday(-1, 1), 4);
}

#[test]
fn weekday_runs_on_from_year_to_year() {
    for year in -9999..9999 {
        assert_eq!(
            jan_weekday(year + 1, 1) as u32,
            (jan_weekday(year, 1) as u32 + days_in_year(year) as u32) % 7
        );
    }
}

#[test]
fn weeks_of_leap_years_starting_on_thursday() {
    assert_eq!(weeks_in_year(2004), 53);
    assert_eq!(weeks_in_year(2032), 53);
    assert_eq!(weeks_in_year(2009), 53);
    assert_eq!(weeks_in_year(2003), 52);
}

#[test]
fn calendar_agrees_with_chrono() {
    for year in -2000..2400 {
        let jan1 = NaiveDate::from_ymd_opt(year, 1, 1).unwrap();
        assert_eq!(jan_weekday(year, 1) as u32, jan1.weekday().num_days_from_monday());
        let weeks = NaiveDate::from_ymd_opt(year, 12, 28).unwrap().iso_week().week();
        assert_eq!(weeks_in_year(year) as u32, weeks);
        for week in 1..=weeks {
            for (n, day) in [
                Weekday::Mon,
                Weekday::Tue,
                Weekday::Wed,
                Weekday::Thu,
                Weekday::Fri,
                Weekday::Sat,
                Weekday::Sun,
            ]
            .into_iter()
            .enumerate()
            {
                let date = NaiveDate::from_isoywd_opt(year, week, day).unwrap();
                let (y, o) = ywd_to_yo(year, week as u8, n as u8 + 1);
                assert_eq!((y, o as u32), (date.year(), date.ordinal()));
                assert_eq!(jan_weekday(y, o as i32) as usize, n);
            }
        }
    }
}
