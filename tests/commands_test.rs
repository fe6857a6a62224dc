use similarium::commands::{parse_command, Command};
use similarium::dates::{get_header_text, get_utc_naive_time, when_human, TimeOfDay};
use similarium::error::validation_error;
use similarium::SimilariumErrorType;

fn time(hour: u32, minute: u32) -> TimeOfDay {
    TimeOfDay::from_hm(hour, minute).unwrap()
}

fn time_s(hour: u32, minute: u32, second: u32) -> TimeOfDay {
    TimeOfDay { hour, minute, second }
}

#[test]
fn test_parse_command() {
    assert_eq!(parse_command("help").unwrap(), Command::Help);
}

#[test]
fn test_parse_command_handles_spaces() {
    assert_eq!(parse_command("help me please").unwrap(), Command::Help);
}

#[test]
fn test_parse_command_returns_error_on_unknown_command() {
    assert_eq!(parse_command("foobar"), validation_error("Unknown command: foobar".to_string()));
    assert_eq!(parse_command("foo bar"), validation_error("Unknown command: foo bar".to_string()));
}

#[test]
fn test_parse_command_start_raises_if_no_time_given() {
    assert_eq!(
        parse_command("start").unwrap_err().error_type,
        SimilariumErrorType::ValidationError
    );
}

#[test]
fn test_parse_command_start_raises_with_invalid_time() {
    assert_eq!(
        parse_command("start 25:00"),
        validation_error(":no_entry_sign: Unable to parse the time, please specify it in a 24-hour HH:MM format".to_string())
    );
    assert_eq!(
        parse_command("start around midnight maybe?"),
        validation_error(":no_entry_sign: Unable to parse the time, please specify it in a 24-hour HH:MM format".to_string()),
    );
}

#[test]
fn test_parse_command_start_parses_time_correctly() {
    assert_eq!(parse_command("start 23:59").unwrap(), Command::Start(time(23, 59)));

    assert_eq!(parse_command("start 3:00").unwrap(), Command::Start(time(3, 0)));
}

#[test]
fn test_parse_command_manual_start() {
    assert_eq!(parse_command("manual start").unwrap(), Command::ManualStart);
}

#[test]
fn test_parse_command_manual_end() {
    assert_eq!(parse_command("manual end").unwrap(), Command::ManualEnd);
}

#[test]
fn test_parse_command_manual_unknown() {
    assert_eq!(
        parse_command("manual foobar"),
        validation_error("Unknown command: manual foobar".to_string())
    );
}

#[test]
fn test_parse_command_stop_and_debug() {
    assert_eq!(parse_command("stop").unwrap(), Command::Stop);
    assert_eq!(parse_command("debug now").unwrap(), Command::Debug);
}

#[test]
fn test_when_human() {
    assert_eq!(when_human(time(0, 0)), "late night at 00:00");
    assert_eq!(when_human(time(1, 0)), "late night at 01:00");
    assert_eq!(when_human(time(2, 0)), "late night at 02:00");
    assert_eq!(when_human(time(3, 0)), "late night at 03:00");
    assert_eq!(when_human(time(4, 0)), "in the early morning at 04:00");
    assert_eq!(when_human(time(5, 0)), "in the early morning at 05:00");
    assert_eq!(when_human(time(6, 0)), "in the early morning at 06:00");
    assert_eq!(when_human(time(7, 0)), "in the early morning at 07:00");
    assert_eq!(when_human(time(8, 0)), "in the morning at 08:00");
    assert_eq!(when_human(time(9, 0)), "in the morning at 09:00");
    assert_eq!(when_human(time(10, 0)), "in the morning at 10:00");
    assert_eq!(when_human(time(11, 0)), "in the morning at 11:00");
    assert_eq!(when_human(time(12, 0)), "at noon at 12:00");
    assert_eq!(when_human(time(13, 0)), "in the afternoon at 13:00");
    assert_eq!(when_human(time(14, 0)), "in the afternoon at 14:00");
    assert_eq!(when_human(time(15, 0)), "in the afternoon at 15:00");
    assert_eq!(when_human(time(16, 0)), "in the afternoon at 16:00");
    assert_eq!(when_human(time(17, 0)), "in the evening at 17:00");
    assert_eq!(when_human(time(18, 0)), "in the evening at 18:00");
    assert_eq!(when_human(time(19, 0)), "in the evening at 19:00");
    assert_eq!(when_human(time(20, 0)), "in the evening at 20:00");
    assert_eq!(when_human(time(21, 0)), "at night at 21:00");
    assert_eq!(when_human(time(22, 0)), "at night at 22:00");
    assert_eq!(when_human(time(23, 0)), "at night at 23:00");

    assert_eq!(when_human(time(12, 34)), "at noon at 12:34");
}

#[test]
fn test_get_utc_naive_time_without_offset() {
    assert_eq!(get_utc_naive_time(time(0, 0), 0), time(0, 0));
    assert_eq!(get_utc_naive_time(time(11, 0), 0), time(11, 0));
}

#[test]
fn test_get_utc_naive_time_with_positive_offset() {
    assert_eq!(get_utc_naive_time(time(0, 0), 3600), time(23, 0));
    assert_eq!(get_utc_naive_time(time(0, 0), 1800), time(23, 30));
}

#[test]
fn test_get_utc_naive_time_with_negative_offset() {
    assert_eq!(get_utc_naive_time(time(0, 0), -3600), time(1, 0));
    assert_eq!(get_utc_naive_time(time(0, 0), -1800), time(0, 30));
}

#[test]
fn test_get_utc_naive_time_keeps_seconds() {
    assert_eq!(get_utc_naive_time(time(10, 0), 45), time_s(9, 59, 15));
    assert_eq!(get_utc_naive_time(time(23, 0), -86400 - 3600), time(0, 0));
}

#[test]
fn test_get_header_text() {
    // 2022-05-07T00:00:00Z
    let datetime = 1_651_881_600_000;
    let puzzle_number = 123;
    assert_eq!(
        get_header_text(datetime, puzzle_number),
        String::from("Saturday May 7 - Puzzle number 123")
    );
}

#[test]
fn test_get_header_text_out_of_range_date() {
    assert_eq!(get_header_text(i64::MAX, 5), "Puzzle number 5");
}
