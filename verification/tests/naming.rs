use xanthidae::config::Config;
use xanthidae::naming::{get_versioned_filename_impl, repeatable_filename};
use xanthidae::timestamp::Timestamp;

#[test]
fn get_versioned_filename_impl_should_use_provided_timestamp() {
    let timestamp = Timestamp::from_ymd_hms(1970, 1, 2, 3, 4, 5).unwrap();
    let basename = "do_it.sql";
    let got = get_versioned_filename_impl(&Config::default(), timestamp, basename);
    assert_eq!("V1970_01_02_03_04_05__do_it.sql", got);
}

#[test]
fn get_versioned_filename_impl_should_add_sql_suffix() {
    let timestamp = Timestamp::from_ymd_hms(1970, 1, 2, 3, 4, 5).unwrap();
    let basename = "do_it";
    let got = get_versioned_filename_impl(&Config::default(), timestamp, basename);
    assert_eq!("V1970_01_02_03_04_05__do_it.sql", got);
}

#[test]
fn get_versioned_filename_impl_should_take_config_into_account() {
    let timestamp = Timestamp::from_ymd_hms_micro(1970, 1, 2, 3, 4, 5, 678000).unwrap();
    let basename = "do_it";
    let config = Config::new(true);
    let got = get_versioned_filename_impl(&config, timestamp, basename);
    assert_eq!("V1970_01_02_03_04_05.678__do_it.sql", got);
}

#[test]
fn versioned_filename_strips_every_trailing_extension() {
    let timestamp = Timestamp::from_ymd_hms(2021, 12, 31, 23, 59, 58).unwrap();
    let config = Config::default();
    assert_eq!(
        "V2021_12_31_23_59_58__x.sql",
        get_versioned_filename_impl(&config, timestamp, "x.sql.sql")
    );
    assert_eq!(
        get_versioned_filename_impl(&config, timestamp, "x"),
        get_versioned_filename_impl(&config, timestamp, "x.sql")
    );
    assert_eq!(
        "V2021_12_31_23_59_58__.sql",
        get_versioned_filename_impl(&config, timestamp, "")
    );
    assert_eq!(
        "V2021_12_31_23_59_58__a.sqlx.sql",
        get_versioned_filename_impl(&config, timestamp, "a.sqlx")
    );
}

#[test]
fn millisecond_flag_only_adds_the_fraction() {
    let timestamp = Timestamp::new(2024, 2, 29, 0, 0, 9, 7_999_999).unwrap();
    let seconds = get_versioned_filename_impl(&Config::new(false), timestamp, "a.b");
    let millis = get_versioned_filename_impl(&Config::new(true), timestamp, "a.b");
    assert_eq!("V2024_02_29_00_00_09__a.b.sql", seconds);
    assert_eq!("V2024_02_29_00_00_09.007__a.b.sql", millis);
    assert!(!seconds[..seconds.find("__").unwrap()].contains('.'));
}

#[test]
fn versions_of_unusual_years_and_leap_seconds() {
    let config = Config::new(true);
    let early = Timestamp::new(999, 1, 1, 0, 0, 0, 0).unwrap();
    assert_eq!("V0999_01_01_00_00_00.000__x.sql", get_versioned_filename_impl(&config, early, "x"));
    let zero = Timestamp::new(0, 1, 1, 0, 0, 0, 0).unwrap();
    assert_eq!("V0000_01_01_00_00_00.000__x.sql", get_versioned_filename_impl(&config, zero, "x"));
    let late = Timestamp::new(10000, 1, 1, 0, 0, 0, 0).unwrap();
    assert_eq!("V+10000_01_01_00_00_00.000__x.sql", get_versioned_filename_impl(&config, late, "x"));
    let last = Timestamp::new(262142, 12, 31, 23, 59, 59, 999_999_999).unwrap();
    assert_eq!("V+262142_12_31_23_59_59.999__x.sql", get_versioned_filename_impl(&config, last, "x"));
    let before = Timestamp::new(-1, 12, 31, 0, 0, 0, 0).unwrap();
    assert_eq!("V-0001_12_31_00_00_00.000__x.sql", get_versioned_filename_impl(&config, before, "x"));
    let first = Timestamp::new(-262143, 1, 1, 0, 0, 0, 0).unwrap();
    assert_eq!("V-262143_01_01_00_00_00.000__x.sql", get_versioned_filename_impl(&config, first, "x"));
    let leap = Timestamp::new(2016, 12, 31, 23, 59, 59, 1_500_000_000).unwrap();
    assert_eq!("V2016_12_31_23_59_60.500__x.sql", get_versioned_filename_impl(&config, leap, "x"));
    assert_eq!(
        "V2016_12_31_23_59_60__x.sql",
        get_versioned_filename_impl(&Config::default(), leap, "x")
    );
}

#[test]
fn timestamps_of_days_that_do_not_exist_are_refused() {
    assert!(Timestamp::new(2023, 2, 29, 0, 0, 0, 0).is_none());
    assert!(Timestamp::new(2024, 2, 29, 0, 0, 0, 0).is_some());
    assert!(Timestamp::new(1900, 2, 29, 0, 0, 0, 0).is_none());
    assert!(Timestamp::new(2000, 2, 29, 0, 0, 0, 0).is_some());
    assert!(Timestamp::new(-4, 2, 29, 0, 0, 0, 0).is_some());
    assert!(Timestamp::new(-100, 2, 29, 0, 0, 0, 0).is_none());
    assert!(Timestamp::new(-400, 2, 29, 0, 0, 0, 0).is_some());
    assert!(Timestamp::new(2023, 4, 31, 0, 0, 0, 0).is_none());
    assert!(Timestamp::new(2023, 0, 1, 0, 0, 0, 0).is_none());
    assert!(Timestamp::new(2023, 13, 1, 0, 0, 0, 0).is_none());
    assert!(Timestamp::new(2023, 1, 0, 0, 0, 0, 0).is_none());
    assert!(Timestamp::new(2023, 1, 1, 24, 0, 0, 0).is_none());
    assert!(Timestamp::new(2023, 1, 1, 0, 60, 0, 0).is_none());
    assert!(Timestamp::new(2023, 1, 1, 0, 0, 60, 0).is_none());
    assert!(Timestamp::new(2023, 1, 1, 0, 0, 58, 1_000_000_000).is_none());
    assert!(Timestamp::new(2023, 1, 1, 0, 0, 59, 2_000_000_000).is_none());
    assert!(Timestamp::new(262143, 1, 1, 0, 0, 0, 0).is_none());
    assert!(Timestamp::new(-262144, 1, 1, 0, 0, 0, 0).is_none());
    assert!(Timestamp::from_ymd_hms_micro(2023, 1, 1, 0, 0, 0, 2_000_000).is_none());
    let timestamp = Timestamp::from_ymd_hms_micro(2023, 6, 7, 8, 9, 10, 11).unwrap();
    assert_eq!(
        (2023, 6, 7, 8, 9, 10, 11_000),
        (
            timestamp.year(),
            timestamp.month(),
            timestamp.day(),
            timestamp.hour(),
            timestamp.minute(),
            timestamp.second(),
            timestamp.nanosecond()
        )
    );
}

#[test]
fn repeatable_filename_frames_the_basename() {
    assert_eq!("R__PKG_SNAFU.sql", repeatable_filename("PKG_SNAFU"));
    assert_eq!("R__.sql", repeatable_filename(""));
    assert_eq!("R__a.sql.sql", repeatable_filename("a.sql"));
}

/// The year of a version: four digits from 0 to 9999, else a sign and at
/// least four digits.
fn year_text(year: i32) -> String {
    if (0..=9999).contains(&year) {
        format!("{:04}", year)
    } else if year < 0 {
        format!("-{:04}", -(year as i64))
    } else {
        format!("+{:04}", year)
    }
}

#[test]
fn versions_of_many_timestamps() {
    let with_millis = Config::new(true);
    let without = Config::new(false);
    let mut year = -262_143;
    let mut step = 0u32;
    while year <= 262_142 {
        let month = 1 + step % 12;
        let day = 1 + step % 28;
        let hour = step % 24;
        let minute = (step * 7) % 60;
        let second = (step * 11) % 60;
        let nanosecond = (step.wrapping_mul(2_654_435_761)) % 1_000_000_000;
        let timestamp = Timestamp::new(year, month, day, hour, minute, second, nanosecond).unwrap();
        let seconds = format!(
            "V{}_{:02}_{:02}_{:02}_{:02}_{:02}",
            year_text(year),
            month,
            day,
            hour,
            minute,
            second
        );
        assert_eq!(
            format!("{}__x.sql", seconds),
            get_versioned_filename_impl(&without, timestamp, "x")
        );
        assert_eq!(
            format!("{}.{:03}__x.sql", seconds, nanosecond / 1_000_000),
            get_versioned_filename_impl(&with_millis, timestamp, "x")
        );
        year += if (-20..10_020).contains(&year) { 1 } else { 997 };
        step += 1;
    }
}

#[test]
fn timestamps_exist_exactly_where_the_calendar_has_the_day() {
    let years = [
        -262_144, -262_143, -401, -400, -101, -100, -5, -4, -1, 0, 1, 4, 100, 400, 1582, 1900,
        1999, 2000, 2023, 2024, 2100, 9999, 10_000, 262_142, 262_143,
    ];
    for year in years {
        for month in 0..=13 {
            for day in 0..=32 {
                assert_eq!(
                    chrono::NaiveDate::from_ymd_opt(year, month, day).is_some(),
                    Timestamp::new(year, month, day, 0, 0, 0, 0).is_some(),
                    "{}-{}-{}",
                    year,
                    month,
                    day
                );
            }
        }
    }
    let day = chrono::NaiveDate::from_ymd_opt(2024, 2, 29).unwrap();
    for hour in [0, 23, 24] {
        for minute in [0, 59, 60] {
            for second in [0, 58, 59, 60] {
                for nanosecond in [0, 999_999_999, 1_000_000_000, 1_999_999_999, 2_000_000_000] {
                    assert_eq!(
                        day.and_hms_nano_opt(hour, minute, second, nanosecond).is_some(),
                        Timestamp::new(2024, 2, 29, hour, minute, second, nanosecond).is_some(),
                        "{}:{}:{}.{}",
                        hour,
                        minute,
                        second,
                        nanosecond
                    );
                }
            }
        }
    }
}
