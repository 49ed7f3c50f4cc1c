use black::record::{compose_line, open_context, record_line, render_line, write_context};
use black::stamp::{days_in_month, leap_year, Stamp};
use black::timestamp::{current_stamp, format_timestamp, signed_timestamp, usable_stamp};
use black::{BlackBoxError, Level};

fn stamp(year: i32, month: u32, day: u32, hour: u32, minute: u32, second: u32) -> Stamp {
    Stamp { year, month, day, hour, minute, second }
}

#[test]
fn each_level_has_its_own_tag() {
    assert_eq!(Level::Debug.tag(), "DEBUG");
    assert_eq!(Level::Info.tag(), "INFO");
    assert_eq!(Level::Warn.tag(), "WARN");
    assert_eq!(Level::Event.tag(), "EVENT");
    assert_eq!(Level::Error.tag(), "ERROR");
}

#[test]
fn every_level_renders_its_tag_literally() {
    let s = stamp(2024, 1, 2, 3, 4, 5);
    let levels = [Level::Debug, Level::Info, Level::Warn, Level::Event, Level::Error];
    let tags = ["DEBUG", "INFO", "WARN", "EVENT", "ERROR"];
    for (level, tag) in levels.iter().zip(tags.iter()) {
        assert_eq!(render_line(&s, *level, "m"), format!("[2024-01-02 03:04:05] [{}] m\n", tag));
    }
}

#[test]
fn application_started_record() {
    let s = stamp(2024, 1, 2, 3, 4, 5);
    assert_eq!(
        render_line(&s, Level::Event, "Application started"),
        "[2024-01-02 03:04:05] [EVENT] Application started\n"
    );
}

#[test]
fn database_error_record() {
    let s = stamp(2024, 1, 2, 3, 4, 6);
    assert_eq!(
        render_line(&s, Level::Error, "Error: could not connect to the database"),
        "[2024-01-02 03:04:06] [ERROR] Error: could not connect to the database\n"
    );
}

#[test]
fn info_record() {
    let s = stamp(1999, 12, 31, 23, 59, 59);
    assert_eq!(render_line(&s, Level::Info, "hi"), "[1999-12-31 23:59:59] [INFO] hi\n");
}

#[test]
fn empty_message_keeps_the_separator() {
    assert_eq!(
        compose_line("2024-01-02 03:04:05", Level::Info, ""),
        "[2024-01-02 03:04:05] [INFO] \n"
    );
}

#[test]
fn newlines_in_the_message_pass_through() {
    assert_eq!(
        compose_line("2024-01-02 03:04:05", Level::Warn, "a\nb"),
        "[2024-01-02 03:04:05] [WARN] a\nb\n"
    );
}

#[test]
fn compose_takes_the_timestamp_verbatim() {
    assert_eq!(compose_line("ts", Level::Debug, "x"), "[ts] [DEBUG] x\n");
}

#[test]
fn timestamp_fields_are_zero_padded() {
    assert_eq!(format_timestamp(&stamp(2024, 1, 2, 3, 4, 5)), "2024-01-02 03:04:05");
    assert_eq!(format_timestamp(&stamp(5, 10, 11, 12, 13, 14)), "0005-10-11 12:13:14");
    assert_eq!(format_timestamp(&stamp(0, 1, 1, 0, 0, 0)), "0000-01-01 00:00:00");
}

#[test]
fn years_outside_four_digits_carry_a_sign() {
    assert_eq!(format_timestamp(&stamp(10000, 1, 1, 0, 0, 0)), "+10000-01-01 00:00:00");
    assert_eq!(format_timestamp(&stamp(-1, 1, 1, 0, 0, 0)), "-0001-01-01 00:00:00");
}

#[test]
fn leap_years_follow_the_gregorian_rule() {
    assert!(leap_year(2024));
    assert!(!leap_year(2023));
    assert!(!leap_year(1900));
    assert!(leap_year(2000));
    assert!(leap_year(0));
    assert!(leap_year(-4));
    assert!(!leap_year(-100));
}

#[test]
fn month_lengths() {
    assert_eq!(days_in_month(2023, 2), 28);
    assert_eq!(days_in_month(2024, 2), 29);
    assert_eq!(days_in_month(2024, 4), 30);
    assert_eq!(days_in_month(2024, 12), 31);
}

#[test]
fn validity_of_readings() {
    assert!(stamp(2024, 2, 29, 23, 59, 59).is_valid());
    assert!(!stamp(2023, 2, 29, 0, 0, 0).is_valid());
    assert!(!stamp(2024, 13, 1, 0, 0, 0).is_valid());
    assert!(!stamp(2024, 1, 0, 0, 0, 0).is_valid());
    assert!(!stamp(2024, 1, 1, 24, 0, 0).is_valid());
    assert!(!stamp(2024, 1, 1, 0, 60, 0).is_valid());
    assert!(!stamp(2024, 1, 1, 0, 0, 60).is_valid());
    assert!(!stamp(262143, 1, 1, 0, 0, 0).is_valid());
    assert!(stamp(262142, 12, 31, 0, 0, 0).is_valid());
}

#[test]
fn unusable_reading_falls_back_to_the_epoch() {
    let epoch = Stamp::epoch();
    assert_eq!(epoch, stamp(1970, 1, 1, 0, 0, 0));
    assert_eq!(usable_stamp(Some(stamp(2023, 2, 30, 1, 2, 3))), epoch);
    assert_eq!(usable_stamp(None), epoch);
    let good = stamp(2023, 3, 30, 1, 2, 3);
    assert_eq!(usable_stamp(Some(good)), good);
    assert_eq!(format_timestamp(&epoch), "1970-01-01 00:00:00");
}

#[test]
fn clock_reading_is_valid_and_recent() {
    let now = current_stamp();
    assert!(now.is_valid());
    assert!(now.year >= 2020);
}

fn has_record_shape(line: &str, tag: &str, message: &str) -> bool {
    let b = line.as_bytes();
    let digits = [1, 2, 3, 4, 6, 7, 9, 10, 12, 13, 15, 16, 18, 19];
    line.len() == 26 + tag.len() + message.len()
        && b[0] == b'['
        && digits.iter().all(|&i| b[i].is_ascii_digit())
        && &line[5..6] == "-"
        && &line[8..9] == "-"
        && &line[11..12] == " "
        && &line[14..15] == ":"
        && &line[17..18] == ":"
        && line[20..].starts_with(&format!("] [{}] {}\n", tag, message))
}

#[test]
fn current_record_has_the_record_shape() {
    for (level, tag) in [(Level::Info, "INFO"), (Level::Error, "ERROR")] {
        let line = record_line(level, "t3-7");
        assert!(has_record_shape(&line, tag, "t3-7"), "{}", line);
        assert_eq!(line.matches('\n').count(), 1);
    }
}

#[test]
fn rendered_record_has_the_record_shape() {
    let line = render_line(&stamp(1, 2, 3, 4, 5, 6), Level::Debug, "x y");
    assert_eq!(line, "[0001-02-03 04:05:06] [DEBUG] x y\n");
    assert!(has_record_shape(&line, "DEBUG", "x y"));
}

#[test]
fn context_texts() {
    assert_eq!(open_context("/tmp/a.log"), "Could not open or create log file at path: /tmp/a.log");
    assert_eq!(open_context(""), "Could not open or create log file at path: ");
    assert_eq!(write_context(), "Could not write to log file");
}

#[test]
fn error_variants() {
    let e = BlackBoxError::Lock;
    assert!(matches!(e, BlackBoxError::Lock));
    let io = BlackBoxError::Io(std::io::Error::new(std::io::ErrorKind::NotFound, "gone"));
    assert!(matches!(io, BlackBoxError::Io(ref inner) if inner.kind() == std::io::ErrorKind::NotFound));
}

#[test]
fn clock_offsets_become_unix_timestamps() {
    assert_eq!(signed_timestamp(Ok((0, 0))), Some((0, 0)));
    assert_eq!(signed_timestamp(Ok((1_700_000_000, 5))), Some((1_700_000_000, 5)));
    assert_eq!(signed_timestamp(Err((10, 0))), Some((-10, 0)));
    assert_eq!(signed_timestamp(Err((10, 250_000_000))), Some((-11, 750_000_000)));
    assert_eq!(signed_timestamp(Ok((i64::MAX as u64, 0))), Some((i64::MAX, 0)));
    assert_eq!(signed_timestamp(Ok((i64::MAX as u64 + 1, 0))), None);
    assert_eq!(signed_timestamp(Err((i64::MAX as u64 + 1, 0))), Some((i64::MIN, 0)));
    assert_eq!(signed_timestamp(Err((i64::MAX as u64 + 1, 1))), None);
    assert_eq!(signed_timestamp(Err((i64::MAX as u64, 1))), Some((i64::MIN, 999_999_999)));
}
