use hyper_bed_caller::clock::Civil;
use hyper_bed_caller::clock::Zone;
use hyper_bed_caller::cmd::alarm_args;
use hyper_bed_caller::cmd::parse_alarm_args;
use hyper_bed_caller::cmd::parse_command_msg;
use hyper_bed_caller::cmd::test_cron;
use hyper_bed_caller::cmd::test_time_str;
use hyper_bed_caller::cmd::time_str_to_cron;
use hyper_bed_caller::cmd::ParseError;

const EIGHT: i64 = 1705305600; // 2024-01-15 08:00:00 UTC

fn utc() -> Zone {
    Zone::Named(String::from("UTC"))
}

fn morning() -> Civil {
    Civil { year: 2024, month: 1, day: 31, hour: 8, minute: 0, second: 0 }
}

fn day_after() -> Civil {
    Civil { year: 2024, month: 2, day: 1, hour: 8, minute: 0, second: 0 }
}

#[test]
fn command_and_argument() {
    let command = parse_command_msg("  #alarm   7:30 Mon #work  ");
    assert_eq!(command.cmd(), "#alarm");
    assert_eq!(command.arg(), "7:30 Mon #work");
    let command = parse_command_msg("#list");
    assert_eq!(command.cmd(), "#list");
    assert_eq!(command.arg(), "");
    let command = parse_command_msg("#disable\u{3000}3");
    assert_eq!(command.cmd(), "#disable");
    assert_eq!(command.arg(), "3");
    let command = parse_command_msg("   ");
    assert_eq!(command.cmd(), "");
    assert_eq!(command.arg(), "");
}

#[test]
fn cron_gets_its_seconds() {
    assert_eq!(test_cron("30 9 * * *"), Ok(String::from("0 30 9 * * *")));
    assert_eq!(test_cron("30 9 * * Mon-Fri *"), Ok(String::from("0 30 9 * * Mon-Fri *")));
    assert_eq!(test_cron("30 9 * *"), Err(ParseError::BadCron));
    assert_eq!(test_cron("61 9 * * *"), Err(ParseError::BadCron));
    assert_eq!(test_cron("hello"), Err(ParseError::BadCron));
    assert_eq!(test_cron(""), Err(ParseError::BadCron));
}

#[test]
fn time_of_day_errors() {
    let (a, b) = (morning(), day_after());
    assert_eq!(time_str_to_cron("730", &a, &b), Err(ParseError::MissingColon));
    assert_eq!(time_str_to_cron("", &a, &b), Err(ParseError::MissingColon));
    assert_eq!(time_str_to_cron("x:30", &a, &b), Err(ParseError::HourNotInteger));
    assert_eq!(time_str_to_cron(":30", &a, &b), Err(ParseError::HourNotInteger));
    assert_eq!(time_str_to_cron("24:30", &a, &b), Err(ParseError::HourOutOfRange));
    assert_eq!(time_str_to_cron("-1:30", &a, &b), Err(ParseError::HourOutOfRange));
    assert_eq!(time_str_to_cron("7:", &a, &b), Err(ParseError::MinuteNotInteger));
    assert_eq!(time_str_to_cron("7:3o", &a, &b), Err(ParseError::MinuteNotInteger));
    assert_eq!(time_str_to_cron("7:60", &a, &b), Err(ParseError::MinuteOutOfRange));
    assert_eq!(time_str_to_cron("7:-1", &a, &b), Err(ParseError::MinuteOutOfRange));
    assert_eq!(time_str_to_cron("7:30:15", &a, &b), Err(ParseError::MinuteNotInteger));
}

#[test]
fn error_messages() {
    assert_eq!(ParseError::MissingColon.message(), "Bad time string: Missing selecolon");
    assert_eq!(ParseError::HourNotInteger.message(), "Bad time string: Hour must be an integer");
    assert_eq!(ParseError::HourOutOfRange.message(), "Bad time string: Hour must between 0-23");
    assert_eq!(
        ParseError::MinuteNotInteger.message(),
        "Bad time string: Minute must be an integer"
    );
    assert_eq!(
        ParseError::MinuteOutOfRange.message(),
        "Bad time string: Minute must between 0-59"
    );
    assert_eq!(ParseError::BadCron.message(), "Bad cron expression");
}

#[test]
fn once_is_today_or_tomorrow() {
    let (a, b) = (morning(), day_after());
    assert_eq!(time_str_to_cron("9:05", &a, &b), Ok(String::from("5 9 31 1 * 2024")));
    assert_eq!(time_str_to_cron(" 09:05 ", &a, &b), Ok(String::from("5 9 31 1 * 2024")));
    assert_eq!(time_str_to_cron("9:05 once", &a, &b), Ok(String::from("5 9 31 1 * 2024")));
    // the time has passed today
    assert_eq!(time_str_to_cron("7:59", &a, &b), Ok(String::from("59 7 1 2 * 2024")));
    // right now is not past
    assert_eq!(time_str_to_cron("8:00", &a, &b), Ok(String::from("0 8 31 1 * 2024")));
    let second_later = Civil { second: 1, ..morning() };
    assert_eq!(time_str_to_cron("8:00", &second_later, &b), Ok(String::from("0 8 1 2 * 2024")));
    assert_eq!(time_str_to_cron("+8:+1", &a, &b), Ok(String::from("1 8 31 1 * 2024")));
}

#[test]
fn days_of_the_week() {
    let (a, b) = (morning(), day_after());
    assert_eq!(time_str_to_cron("7:30 Mon-Fri", &a, &b), Ok(String::from("30 7 * * Mon-Fri *")));
    assert_eq!(time_str_to_cron("7:30  Sat", &a, &b), Ok(String::from("30 7 * *  Sat *")));
    assert_eq!(time_str_to_cron("23:59 1,7", &a, &b), Ok(String::from("59 23 * * 1,7 *")));
}

#[test]
fn time_of_day_in_a_zone() {
    assert_eq!(test_time_str("9:30", &utc(), EIGHT), Ok(String::from("30 9 15 1 * 2024")));
    assert_eq!(test_time_str("7:30", &utc(), EIGHT), Ok(String::from("30 7 16 1 * 2024")));
    let shanghai = Zone::Named(String::from("Asia/Shanghai"));
    assert_eq!(test_time_str("9:30", &shanghai, EIGHT), Ok(String::from("30 9 16 1 * 2024")));
    assert_eq!(test_time_str("16:30", &shanghai, EIGHT), Ok(String::from("30 16 15 1 * 2024")));
    assert_eq!(test_time_str("25:00", &utc(), EIGHT), Err(ParseError::HourOutOfRange));
    let local = test_time_str("9:30", &Zone::Local, EIGHT).expect("a time of day");
    assert!(local.starts_with("30 9 1"));
    assert!(local.ends_with(" 1 * 2024"));
}

#[test]
fn alarm_arguments() {
    let (a, b) = (morning(), day_after());
    let args = alarm_args("7:30 Mon-Fri #work", &a, &b).expect("a valid argument");
    assert_eq!(args.cron(), "0 30 7 * * Mon-Fri *");
    assert_eq!(args.title(), "#work");
    let args = alarm_args("9:05", &a, &b).expect("a valid argument");
    assert_eq!(args.cron(), "0 5 9 31 1 * 2024");
    assert_eq!(args.title(), "");
    // what is no time of day is taken for a cron expression
    let args = alarm_args("*/5 * * * *#often #really", &a, &b).expect("a valid argument");
    assert_eq!(args.cron(), "0 */5 * * * *");
    assert_eq!(args.title(), "#often #really");
    assert_eq!(alarm_args("25:00", &a, &b).err(), Some(ParseError::BadCron));
    assert_eq!(alarm_args("7:30 Someday", &a, &b).err(), Some(ParseError::BadCron));
    assert_eq!(alarm_args("#only a title", &a, &b).err(), Some(ParseError::BadCron));
    assert_eq!(alarm_args("", &a, &b).err(), Some(ParseError::BadCron));
}

#[test]
fn alarm_arguments_in_a_zone() {
    let args = parse_alarm_args("7:30 #early", &utc(), EIGHT).expect("a valid argument");
    assert_eq!(args.cron(), "0 30 7 16 1 * 2024");
    assert_eq!(args.title(), "#early");
    assert_eq!(parse_alarm_args("nonsense", &utc(), EIGHT).err(), Some(ParseError::BadCron));
}
