use std::path::{Path, PathBuf};

use mylog::config::{
    config_file_path, construct_log_file_path, get_date_from_log_file_name, log_file_name, Config,
    LogConfig,
};
use mylog::journal::{parse_date_from_str, view_target, ViewError, ViewTarget};
use mylog::range::{Range, RangeError};
use mylog::time::{
    add_one_day, date_label, date_time_now, format_date, format_date_time, format_year,
    get_today_date, leap_year, month_length, parse_date_time, parse_ymd, sub_one_day, Date,
    Timestamp, MAX_YEAR, MIN_YEAR,
};

#[test]
fn test_parse_date_from_str() {
    let today = get_today_date();
    assert_eq!(parse_date_from_str("2024-5-12", &today), Ok(Date::new(2024, 5, 12).unwrap()));
    assert_eq!(parse_date_from_str("12-02", &today), Ok(Date::new(today.year, 12, 2).unwrap()));
}

#[test]
fn typed_dates_take_the_year_of_today() {
    let today = Date::new(2023, 7, 9).unwrap();
    assert_eq!(parse_date_from_str("2-28", &today), Ok(Date::new(2023, 2, 28).unwrap()));
    assert_eq!(parse_date_from_str("2024-02-29", &today), Ok(Date::new(2024, 2, 29).unwrap()));
    let impossible = parse_date_from_str("2-29", &today).unwrap_err();
    assert_eq!(impossible.message, "input is out of range");
    let words = parse_date_from_str("tomorrow", &today).unwrap_err();
    assert_eq!(words.message, "input contains invalid characters");
    let short = parse_date_from_str("", &today).unwrap_err();
    assert_eq!(short.message, "premature end of input");
}

#[test]
fn the_target_of_a_view_follows_the_arguments() {
    let today = Date::new(2023, 7, 9).unwrap();
    assert_eq!(view_target(true, None, true, &today), Ok(ViewTarget::All));
    assert_eq!(view_target(true, Some("nonsense"), true, &today), Ok(ViewTarget::All));
    assert_eq!(view_target(true, None, false, &today), Ok(ViewTarget::Day(today)));
    assert_eq!(
        view_target(true, Some("2024-5-12"), false, &today),
        Ok(ViewTarget::Day(Date::new(2024, 5, 12).unwrap()))
    );
    assert_eq!(
        view_target(true, Some("nonsense"), false, &today),
        Err(ViewError::DateParse {
            input: "nonsense".to_owned(),
            message: "input contains invalid characters".to_owned(),
        })
    );
}

#[test]
fn without_the_log_directory_nothing_is_shown() {
    let today = Date::new(2023, 7, 9).unwrap();
    assert_eq!(view_target(false, None, true, &today), Err(ViewError::LogDirNotFound));
    assert_eq!(view_target(false, None, false, &today), Err(ViewError::LogDirNotFound));
    assert_eq!(view_target(false, Some("2024-5-12"), false, &today), Err(ViewError::LogDirNotFound));
    assert_eq!(view_target(false, Some("nonsense"), false, &today), Err(ViewError::LogDirNotFound));
}

#[test]
fn days_are_stepped_over_months_and_years() {
    let day = |y: i32, m: u32, d: u32| Date::new(y, m, d).unwrap();
    assert_eq!(add_one_day(&day(2024, 5, 12)), Some(day(2024, 5, 13)));
    assert_eq!(add_one_day(&day(2024, 2, 28)), Some(day(2024, 2, 29)));
    assert_eq!(add_one_day(&day(2024, 2, 29)), Some(day(2024, 3, 1)));
    assert_eq!(add_one_day(&day(2023, 2, 28)), Some(day(2023, 3, 1)));
    assert_eq!(add_one_day(&day(2024, 4, 30)), Some(day(2024, 5, 1)));
    assert_eq!(add_one_day(&day(2024, 12, 31)), Some(day(2025, 1, 1)));
    assert_eq!(add_one_day(&day(-1, 12, 31)), Some(day(0, 1, 1)));
    assert_eq!(add_one_day(&day(MAX_YEAR, 12, 30)), Some(day(MAX_YEAR, 12, 31)));
    assert_eq!(add_one_day(&day(MAX_YEAR, 12, 31)), None);
    assert_eq!(sub_one_day(&day(2024, 5, 12)), Some(day(2024, 5, 11)));
    assert_eq!(sub_one_day(&day(2024, 3, 1)), Some(day(2024, 2, 29)));
    assert_eq!(sub_one_day(&day(2023, 3, 1)), Some(day(2023, 2, 28)));
    assert_eq!(sub_one_day(&day(2024, 5, 1)), Some(day(2024, 4, 30)));
    assert_eq!(sub_one_day(&day(2024, 1, 1)), Some(day(2023, 12, 31)));
    assert_eq!(sub_one_day(&day(2024, 8, 1)), Some(day(2024, 7, 31)));
    assert_eq!(sub_one_day(&day(MIN_YEAR, 1, 2)), Some(day(MIN_YEAR, 1, 1)));
    assert_eq!(sub_one_day(&day(MIN_YEAR, 1, 1)), None);
}

#[test]
fn days_are_stepped_as_chrono_steps_them() {
    let mut day = Date::new(1899, 12, 25).unwrap();
    let mut other = chrono::NaiveDate::from_ymd_opt(1899, 12, 25).unwrap();
    for _ in 0..1600 {
        day = add_one_day(&day).unwrap();
        other = other.checked_add_days(chrono::Days::new(1)).unwrap();
        assert_eq!(
            (day.year, day.month, day.day),
            (chrono::Datelike::year(&other), chrono::Datelike::month(&other), chrono::Datelike::day(&other))
        );
    }
    for _ in 0..1600 {
        day = sub_one_day(&day).unwrap();
        other = other.checked_sub_days(chrono::Days::new(1)).unwrap();
        assert_eq!(
            (day.year, day.month, day.day),
            (chrono::Datelike::year(&other), chrono::Datelike::month(&other), chrono::Datelike::day(&other))
        );
    }
    assert_eq!(day, Date::new(1899, 12, 25).unwrap());
    let last = chrono::NaiveDate::MAX;
    assert_eq!(
        (chrono::Datelike::year(&last), chrono::Datelike::month(&last), chrono::Datelike::day(&last)),
        (MAX_YEAR, 12, 31)
    );
    let first = chrono::NaiveDate::MIN;
    assert_eq!(
        (chrono::Datelike::year(&first), chrono::Datelike::month(&first), chrono::Datelike::day(&first)),
        (MIN_YEAR, 1, 1)
    );
}

#[test]
fn days_are_ordered_year_first() {
    let day = |y: i32, m: u32, d: u32| Date::new(y, m, d).unwrap();
    assert!(day(2023, 12, 31).is_before(&day(2024, 1, 1)));
    assert!(day(2024, 1, 31).is_before(&day(2024, 2, 1)));
    assert!(day(2024, 2, 1).is_before(&day(2024, 2, 2)));
    assert!(!day(2024, 2, 2).is_before(&day(2024, 2, 2)));
    assert!(!day(2024, 2, 3).is_before(&day(2024, 2, 2)));
    assert!(!day(2024, 3, 1).is_before(&day(2024, 2, 28)));
    assert!(!day(2025, 1, 1).is_before(&day(2024, 12, 31)));
}

#[test]
fn stamps_and_dates_are_printed_and_read_in_their_formats() {
    let t = Timestamp::new(2024, 5, 2, 9, 7).unwrap();
    assert_eq!(format_date_time(&t), "2024-05-02 09:07");
    assert_eq!(parse_date_time("2024-05-02 09:07"), Some(t));
    assert_eq!(parse_date_time("2024-5-2 9:7"), Some(t));
    assert_eq!(parse_date_time("2024-05-02"), None);
    assert_eq!(parse_date_time("2024-05-02 09:07:00"), None);
    let far = Timestamp::new(12345, 1, 1, 0, 0).unwrap();
    assert_eq!(format_date_time(&far), "+12345-01-01 00:00");
    assert_eq!(parse_date_time(&format_date_time(&far)), Some(far));
    let old = Timestamp::new(-5, 12, 31, 23, 59).unwrap();
    assert_eq!(format_date_time(&old), "-0005-12-31 23:59");
    assert_eq!(parse_date_time(&format_date_time(&old)), Some(old));
    let d = Date::new(2024, 5, 12).unwrap();
    assert_eq!(format_date(&d), "2024-05-12");
    assert_eq!(format_year(&d), "2024");
    assert_eq!(date_label(&d), "2024-05-12 Sun");
    assert_eq!(date_label(&Date::new(1970, 1, 1).unwrap()), "1970-01-01 Thu");
    assert_eq!(parse_ymd("2024-5-12"), Some(d));
    assert_eq!(parse_ymd("2024-05-12 09:00"), None);
    assert_eq!(parse_ymd("12-05-2024x"), None);
}

#[test]
fn paths_are_joined_from_a_directory_and_a_name() {
    assert_eq!(config_file_path(Path::new("/home/me/.config/mylog")), PathBuf::from("/home/me/.config/mylog/conf.toml"));
    assert_eq!(config_file_path(Path::new("")), PathBuf::from("conf.toml"));
    assert_eq!(
        construct_log_file_path(Path::new("/var/log/mylog"), &Date::new(2024, 5, 2).unwrap()),
        PathBuf::from("/var/log/mylog/2024-05-02.log")
    );
    assert_eq!(
        construct_log_file_path(Path::new("logs"), &Date::new(987, 12, 31).unwrap()),
        Path::new("logs").join("0987-12-31.log")
    );
}

#[test]
fn dates_are_days_that_exist() {
    assert!(Date::new(2024, 2, 29).is_some());
    assert!(Date::new(2023, 2, 29).is_none());
    assert!(Date::new(1900, 2, 29).is_none());
    assert!(Date::new(2000, 2, 29).is_some());
    assert!(Date::new(-4, 2, 29).is_some());
    assert!(Date::new(2024, 4, 31).is_none());
    assert!(Date::new(2024, 0, 1).is_none());
    assert!(Date::new(2024, 13, 1).is_none());
    assert!(Date::new(2024, 1, 0).is_none());
    assert!(Date::new(MAX_YEAR, 12, 31).is_some());
    assert!(Date::new(MAX_YEAR + 1, 1, 1).is_none());
    assert!(Date::new(MIN_YEAR, 1, 1).is_some());
    assert!(Date::new(MIN_YEAR - 1, 12, 31).is_none());
    assert_eq!(Date::new(2024, 5, 12), Some(Date { year: 2024, month: 5, day: 12 }));
    assert!(leap_year(2024) && !leap_year(2100) && leap_year(0) && leap_year(-400));
    assert_eq!(month_length(2023, 2), 28);
    assert_eq!(month_length(2024, 2), 29);
    assert_eq!(month_length(2024, 11), 30);
    assert_eq!(month_length(2024, 12), 31);
}

#[test]
fn time_stamps_are_minutes_that_exist() {
    assert!(Timestamp::new(2024, 5, 12, 23, 59).is_some());
    assert!(Timestamp::new(2024, 5, 12, 24, 0).is_none());
    assert!(Timestamp::new(2024, 5, 12, 0, 60).is_none());
    assert!(Timestamp::new(2024, 2, 30, 0, 0).is_none());
    let t = Timestamp::new(2024, 5, 12, 9, 7).unwrap();
    assert_eq!((t.date.year, t.date.month, t.date.day, t.hour, t.minute), (2024, 5, 12, 9, 7));
}

#[test]
fn the_clock_gives_days_that_exist() {
    let today = get_today_date();
    assert_eq!(Date::new(today.year, today.month, today.day), Some(today));
    let now = date_time_now();
    assert_eq!(
        Timestamp::new(now.date.year, now.date.month, now.date.day, now.hour, now.minute),
        Some(now)
    );
    assert!(today.year >= 2024);
}

#[test]
fn dates_are_ordered_as_the_calendar() {
    let mut days = vec![
        Date::new(2024, 5, 12).unwrap(),
        Date::new(2023, 12, 31).unwrap(),
        Date::new(2024, 1, 31).unwrap(),
        Date::new(2024, 5, 2).unwrap(),
    ];
    days.sort();
    assert_eq!(
        days,
        vec![
            Date::new(2023, 12, 31).unwrap(),
            Date::new(2024, 1, 31).unwrap(),
            Date::new(2024, 5, 2).unwrap(),
            Date::new(2024, 5, 12).unwrap(),
        ]
    );
}

#[test]
fn log_files_are_named_by_their_day() {
    assert_eq!(log_file_name(&Date::new(2024, 5, 2).unwrap()), "2024-05-02.log");
    assert_eq!(log_file_name(&Date::new(987, 12, 31).unwrap()), "0987-12-31.log");
    assert_eq!(get_date_from_log_file_name("2024-05-02.log"), Date::new(2024, 5, 2));
    assert_eq!(get_date_from_log_file_name("2024-5-2.log"), Date::new(2024, 5, 2));
    assert_eq!(get_date_from_log_file_name("2024-05-02.txt"), None);
    assert_eq!(get_date_from_log_file_name("2024-05-02"), None);
    assert_eq!(get_date_from_log_file_name("notes.log"), None);
    assert_eq!(get_date_from_log_file_name(".log"), None);
    assert_eq!(get_date_from_log_file_name("2024-02-30.log"), None);
    assert_eq!(get_date_from_log_file_name("2024-05.log-02.log"), Date::new(2024, 5, 2));
    let day = Date::new(2031, 1, 9).unwrap();
    assert_eq!(get_date_from_log_file_name(&log_file_name(&day)), Some(day));
}

#[test]
fn the_configuration_has_one_key() {
    let config = Config { log: LogConfig { dir: "/var/log/mylog".to_owned() } };
    assert_eq!(config.get_by_key("log.dir"), Some("/var/log/mylog"));
    assert_eq!(config.get_by_key("log"), None);
    assert_eq!(config.get_by_key("log.dir "), None);
    assert_eq!(config.get_by_key(""), None);
    assert_eq!(Config::default().get_by_key("log.dir"), Some(""));
}

#[test]
fn ranges_keep_their_bounds_in_order() {
    let r = Range::new(3, 7);
    assert_eq!((r.begin, r.end, r.len()), (3, 7, 4));
    let empty = Range::new(5, 5);
    assert_eq!(empty.len(), 0);
    assert!(Range::try_new(2, 9).is_ok());
    assert_eq!(Range::try_new(9, 2).err(), Some(RangeError::BeginAfterEnd));
}
