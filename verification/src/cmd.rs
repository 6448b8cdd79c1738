//! Commands as users type them: a word, an argument, and for an alarm a
//! time of day or a cron expression with a title.

use crate::clock::civil_at;
use crate::clock::cron_accepts;
use crate::clock::is_instant;
use crate::clock::schedule_parses;
use crate::clock::shows;
use crate::clock::Civil;
use crate::clock::Zone;
use crate::clock::DAY;
use crate::text::append_decimal;
use crate::text::append_signed_decimal;
use crate::text::chars_of;
use crate::text::decimal;
use crate::text::find_char;
use crate::text::find_space;
use crate::text::first_char;
use crate::text::first_space;
use crate::text::parse_number;
use crate::text::same_text;
use crate::text::signed_decimal;
use crate::text::signed_of;
use crate::text::trim_bounds;
use crate::text::trimmed;
use vstd::prelude::*;
use vstd::string::StrSliceExecFns;
use vstd::string::StringExecFns;

verus! {

/// A command: its word and what follows it.
#[derive(Clone, Copy, Debug)]
pub struct Command<'a> {
    cmd: &'a str,
    arg: &'a str,
}

impl<'a> Command<'a> {
    pub closed spec fn spec_cmd(&self) -> &'a str {
        self.cmd
    }

    pub closed spec fn spec_arg(&self) -> &'a str {
        self.arg
    }

    /// The word of the command.
    #[verifier::when_used_as_spec(spec_cmd)]
    pub fn cmd(&self) -> (cmd: &'a str)
        ensures
            cmd == self.spec_cmd(),
    {
        self.cmd
    }

    /// What follows the word.
    #[verifier::when_used_as_spec(spec_arg)]
    pub fn arg(&self) -> (arg: &'a str)
        ensures
            arg == self.spec_arg(),
    {
        self.arg
    }
}

/// The word of a message: what stands before the first white space, once
/// the white space around the message is gone.
pub open spec fn command_word(input: Seq<char>) -> Seq<char> {
    let text = trimmed(input);
    match first_space(text) {
        Some(k) => trimmed(text.take(k)),
        None => text,
    }
}

/// The argument of a message: what stands behind the first white space,
/// without the white space around it.
pub open spec fn command_arg(input: Seq<char>) -> Seq<char> {
    let text = trimmed(input);
    match first_space(text) {
        Some(k) => trimmed(text.skip(k + 1)),
        None => Seq::empty(),
    }
}

/// Splits a message into the word of a command and its argument.
pub fn parse_command_msg<'a>(input: &'a str) -> (command: Command<'a>)
    ensures
        command.cmd()@ == command_word(input@),
        command.arg()@ == command_arg(input@),
{
    let chars = chars_of(input);
    let (from, to) = trim_bounds(&chars, 0, chars.len());
    assert(chars@.subrange(0, chars.len() as int) =~= input@);
    let ghost text = chars@.subrange(from as int, to as int);
    match find_space(&chars, from, to) {
        Some(k) => {
            let (a, b) = trim_bounds(&chars, from, from + k);
            let (c, d) = trim_bounds(&chars, from + k + 1, to);
            assert(chars@.subrange(from as int, from + k) =~= text.take(k as int));
            assert(chars@.subrange(from + k + 1, to as int) =~= text.skip(k + 1));
            Command { cmd: input.substring_char(a, b), arg: input.substring_char(c, d) }
        },
        None => {
            proof {
                reveal_strlit("");
            }
            Command { cmd: input.substring_char(from, to), arg: "" }
        },
    }
}

/// Why a time of day or a schedule was not understood.
#[derive(Clone, Copy, Debug, PartialEq, Eq, Structural)]
pub enum ParseError {
    /// The time of day has no colon.
    MissingColon,
    /// What stands before the colon is not a number.
    HourNotInteger,
    /// The hour is not one from 0 to 23.
    HourOutOfRange,
    /// What stands behind the colon is not a number.
    MinuteNotInteger,
    /// The minute is not one from 0 to 59.
    MinuteOutOfRange,
    /// `cron` does not accept the expression.
    BadCron,
}

impl ParseError {
    /// The error in words.
    pub fn message(&self) -> (message: &'static str)
        ensures
            message@ == (match self {
                ParseError::MissingColon => "Bad time string: Missing selecolon"@,
                ParseError::HourNotInteger => "Bad time string: Hour must be an integer"@,
                ParseError::HourOutOfRange => "Bad time string: Hour must between 0-23"@,
                ParseError::MinuteNotInteger => "Bad time string: Minute must be an integer"@,
                ParseError::MinuteOutOfRange => "Bad time string: Minute must between 0-59"@,
                ParseError::BadCron => "Bad cron expression"@,
            }),
    {
        match self {
            ParseError::MissingColon => "Bad time string: Missing selecolon",
            ParseError::HourNotInteger => "Bad time string: Hour must be an integer",
            ParseError::HourOutOfRange => "Bad time string: Hour must between 0-23",
            ParseError::MinuteNotInteger => "Bad time string: Minute must be an integer",
            ParseError::MinuteOutOfRange => "Bad time string: Minute must between 0-59",
            ParseError::BadCron => "Bad cron expression",
        }
    }
}

/// A schedule with its seconds field: the seconds are always 0.
pub open spec fn with_seconds(expr: Seq<char>) -> Seq<char> {
    "0 "@ + expr
}

/// Puts the seconds field in front of a cron expression of minutes, hours,
/// day, month and weekday (and year, if there is one) and has `cron` test
/// the result.
pub fn test_cron(input: &str) -> (tested: Result<String, ParseError>)
    ensures
        tested is Ok <==> cron_accepts(with_seconds(input@)),
        tested matches Ok(expr) ==> expr@ == with_seconds(input@),
        tested matches Err(e) ==> e == ParseError::BadCron,
{
    let mut expr = String::from_str("0 ");
    expr.append(input);
    if schedule_parses(expr.as_str()) {
        Ok(expr)
    } else {
        Err(ParseError::BadCron)
    }
}

/// The hour and the minute that a time of day names.
pub open spec fn time_of_day(time: Seq<char>) -> Result<(int, int), ParseError> {
    match first_char(time, ':') {
        None => Err(ParseError::MissingColon),
        Some(colon) => match signed_of(time.take(colon), i32::MIN as int, i32::MAX as int) {
            None => Err(ParseError::HourNotInteger),
            Some(h) => if h < 0 || h > 23 {
                Err(ParseError::HourOutOfRange)
            } else {
                match signed_of(time.skip(colon + 1), i32::MIN as int, i32::MAX as int) {
                    None => Err(ParseError::MinuteNotInteger),
                    Some(m) => if m < 0 || m > 59 {
                        Err(ParseError::MinuteOutOfRange)
                    } else {
                        Ok((h, m))
                    },
                }
            },
        },
    }
}

/// The time of day in an alarm's specification: what stands before the
/// first white space.
pub open spec fn time_part(input: Seq<char>) -> Seq<char> {
    let text = trimmed(input);
    match first_space(text) {
        Some(k) => text.take(k),
        None => text,
    }
}

/// The days in an alarm's specification: what stands behind the first
/// white space; `once` if there is nothing.
pub open spec fn days_part(input: Seq<char>) -> Seq<char> {
    let text = trimmed(input);
    match first_space(text) {
        Some(k) => text.skip(k + 1),
        None => "once"@,
    }
}

/// Whether the clock shows a time later than `h`:`m`:00.
pub open spec fn is_past(civil: Civil, h: int, m: int) -> bool {
    civil.hour > h || (civil.hour == h && (civil.minute > m || (civil.minute == m && civil.second
        > 0)))
}

/// The schedule of an alarm that goes off once, at `h`:`m` on the day of `date`.
pub open spec fn once_cron(h: int, m: int, date: Civil) -> Seq<char> {
    decimal(m as nat) + " "@ + decimal(h as nat) + " "@ + decimal(date.day as nat) + " "@ + decimal(
        date.month as nat,
    ) + " * "@ + signed_decimal(date.year as int)
}

/// The schedule of an alarm that goes off at `h`:`m` on the given days of
/// the week.
pub open spec fn weekly_cron(h: int, m: int, days: Seq<char>) -> Seq<char> {
    decimal(m as nat) + " "@ + decimal(h as nat) + " * * "@ + days + " *"@
}

/// The schedule that an alarm's specification of a time of day stands for.
/// An alarm for once goes off today, or tomorrow if the time has passed
/// today; `today` and `tomorrow` are what calendar and clock show now and a
/// day from now.
pub open spec fn time_str_cron(input: Seq<char>, today: Civil, tomorrow: Civil) -> Result<
    Seq<char>,
    ParseError,
> {
    match time_of_day(time_part(input)) {
        Err(e) => Err(e),
        Ok((h, m)) => if days_part(input) == "once"@ {
            Ok(once_cron(h, m, if is_past(today, h, m) { tomorrow } else { today }))
        } else {
            Ok(weekly_cron(h, m, days_part(input)))
        },
    }
}

/// Reads a time of day in `chars[from..to]`.
fn read_time_of_day(chars: &Vec<char>, from: usize, to: usize) -> (time: Result<
    (u32, u32),
    ParseError,
>)
    requires
        from <= to <= chars.len(),
    ensures
        (match time {
            Ok(t) => Ok::<(int, int), ParseError>((t.0 as int, t.1 as int)),
            Err(e) => Err(e),
        }) == time_of_day(chars@.subrange(from as int, to as int)),
        time matches Ok(t) ==> t.0 <= 23 && t.1 <= 59,
{
    let ghost time = chars@.subrange(from as int, to as int);
    let colon = match find_char(chars, from, to, ':') {
        Some(colon) => colon,
        None => { return Err(ParseError::MissingColon); },
    };
    assert(chars@.subrange(from as int, from + colon) =~= time.take(colon as int));
    assert(chars@.subrange(from + colon + 1, to as int) =~= time.skip(colon + 1));
    let h = match parse_number(chars, from, from + colon) {
        Some(h) => h,
        None => { return Err(ParseError::HourNotInteger); },
    };
    if h < 0 || h > 23 {
        return Err(ParseError::HourOutOfRange);
    }
    let m = match parse_number(chars, from + colon + 1, to) {
        Some(m) => m,
        None => { return Err(ParseError::MinuteNotInteger); },
    };
    if m < 0 || m > 59 {
        return Err(ParseError::MinuteOutOfRange);
    }
    Ok((h as u32, m as u32))
}

/// Turns an alarm's specification of a time of day, `HH:MM` with or
/// without days of the week behind it, into a schedule; `today` and
/// `tomorrow` are what calendar and clock show now and a day from now.
pub fn time_str_to_cron(input: &str, today: &Civil, tomorrow: &Civil) -> (cron: Result<
    String,
    ParseError,
>)
    ensures
        (match cron {
            Ok(expr) => Ok::<Seq<char>, ParseError>(expr@),
            Err(e) => Err(e),
        }) == time_str_cron(input@, *today, *tomorrow),
{
    let chars = chars_of(input);
    let (from, to) = trim_bounds(&chars, 0, chars.len());
    assert(chars@.subrange(0, chars.len() as int) =~= input@);
    let ghost text = chars@.subrange(from as int, to as int);
    let space = find_space(&chars, from, to);
    let time_end = match space {
        Some(k) => from + k,
        None => to,
    };
    proof {
        match space {
            Some(k) => {
                assert(chars@.subrange(from as int, from + k) =~= text.take(k as int));
                assert(chars@.subrange(from + k + 1, to as int) =~= text.skip(k + 1));
            },
            None => {},
        }
        reveal_strlit("once");
        reveal_strlit(" ");
        reveal_strlit(" * ");
        reveal_strlit(" * * ");
        reveal_strlit(" *");
    }
    let (h, m) = match read_time_of_day(&chars, from, time_end) {
        Ok(time) => time,
        Err(e) => { return Err(e); },
    };
    let days = match space {
        Some(k) => input.substring_char(from + k + 1, to),
        None => "once",
    };
    let mut cron = String::new();
    append_decimal(&mut cron, m as u64);
    cron.append(" ");
    append_decimal(&mut cron, h as u64);
    if same_text(days, "once") {
        let past = today.hour > h || (today.hour == h && (today.minute > m || (today.minute == m
            && today.second > 0)));
        let date = if past {
            tomorrow
        } else {
            today
        };
        cron.append(" ");
        append_decimal(&mut cron, date.day as u64);
        cron.append(" ");
        append_decimal(&mut cron, date.month as u64);
        cron.append(" * ");
        append_signed_decimal(&mut cron, date.year as i64);
        assert(cron@ =~= once_cron(h as int, m as int, *date));
    } else {
        cron.append(" * * ");
        cron.append(days);
        cron.append(" *");
        assert(cron@ =~= weekly_cron(h as int, m as int, days@));
    }
    Ok(cron)
}

/// Turns an alarm's specification of a time of day into a schedule, as
/// `time_str_to_cron` does; calendar and clock are read in `zone` at the
/// instant `now`.
pub fn test_time_str(input: &str, zone: &Zone, now: i64) -> (cron: Result<String, ParseError>)
    requires
        zone.wf(),
        is_instant(now as int),
        is_instant(now + DAY),
    ensures
        exists|today: Civil, tomorrow: Civil|
            {
                &&& shows(zone@, now, today)
                &&& shows(zone@, (now + DAY) as i64, tomorrow)
                &&& (match cron {
                    Ok(expr) => Ok::<Seq<char>, ParseError>(expr@),
                    Err(e) => Err(e),
                }) == #[trigger] time_str_cron(input@, today, tomorrow)
            },
{
    let today = civil_at(zone, now);
    let tomorrow = civil_at(zone, now + DAY);
    time_str_to_cron(input, &today, &tomorrow)
}

/// What an alarm is set with: its schedule and its title.
#[derive(Debug)]
pub struct CronArgs<'a> {
    cron: String,
    title: &'a str,
}

impl<'a> CronArgs<'a> {
    pub closed spec fn cron_view(&self) -> Seq<char> {
        self.cron@
    }

    pub closed spec fn spec_title(&self) -> &'a str {
        self.title
    }

    /// The schedule, with its seconds field.
    pub fn cron(&self) -> (cron: &str)
        ensures
            cron@ == self.cron_view(),
    {
        self.cron.as_str()
    }

    /// The title: empty, or a text that starts with `#`.
    #[verifier::when_used_as_spec(spec_title)]
    pub fn title(&self) -> (title: &'a str)
        ensures
            title == self.spec_title(),
    {
        self.title
    }
}

/// The title in the argument of a command that sets an alarm: what starts
/// at the first `#`.
pub open spec fn title_part(input: Seq<char>) -> Seq<char> {
    match first_char(input, '#') {
        Some(k) => input.skip(k),
        None => Seq::empty(),
    }
}

/// The schedule in the argument of a command that sets an alarm: what
/// stands before the first `#`.
pub open spec fn schedule_part(input: Seq<char>) -> Seq<char> {
    match first_char(input, '#') {
        Some(k) => input.take(k),
        None => input,
    }
}

/// The cron expression that the argument stands for: the one for the time of
/// day if the schedule is a time of day, else the schedule as it is typed.
pub open spec fn alarm_expr(input: Seq<char>, today: Civil, tomorrow: Civil) -> Seq<char> {
    match time_str_cron(schedule_part(input), today, tomorrow) {
        Ok(expr) => expr,
        Err(_) => schedule_part(input),
    }
}

/// Reads the argument of a command that sets an alarm; `today` and
/// `tomorrow` are what calendar and clock show now and a day from now.
/// The argument is turned down if and only if `cron` does not accept the
/// expression that it stands for.
pub fn alarm_args<'a>(input: &'a str, today: &Civil, tomorrow: &Civil) -> (args: Result<
    CronArgs<'a>,
    ParseError,
>)
    ensures
        args_read(input@, *today, *tomorrow, args),
{
    let chars = chars_of(input);
    let hash = find_char(&chars, 0, chars.len(), '#');
    assert(chars@.subrange(0, chars.len() as int) =~= input@);
    let (schedule, title) = match hash {
        Some(k) => {
            assert(input@.subrange(0, k as int) =~= input@.take(k as int));
            assert(input@.subrange(k as int, chars.len() as int) =~= input@.skip(k as int));
            (input.substring_char(0, k), input.substring_char(k, chars.len()))
        },
        None => {
            proof {
                reveal_strlit("");
            }
            (input, "")
        },
    };
    let tested = match time_str_to_cron(schedule, today, tomorrow) {
        Ok(expr) => test_cron(expr.as_str()),
        Err(_) => test_cron(schedule),
    };
    let args = match tested {
        Ok(cron) => Ok(CronArgs { cron, title }),
        Err(e) => Err(e),
    };
    assert(args matches Ok(a) ==> a.title()@ == title_part(input@));
    args
}

/// `args` is what the argument `input` of a command that sets an alarm
/// reads as, given what calendar and clock show now and a day from now.
pub open spec fn args_read(
    input: Seq<char>,
    today: Civil,
    tomorrow: Civil,
    args: Result<CronArgs<'_>, ParseError>,
) -> bool {
    let expr = with_seconds(alarm_expr(input, today, tomorrow));
    &&& args is Ok <==> cron_accepts(expr)
    &&& args matches Ok(a) ==> a.cron_view() == expr && a.title()@ == title_part(input)
    &&& args matches Err(e) ==> e == ParseError::BadCron
}

/// Reads the argument of a command that sets an alarm, as `alarm_args`
/// does; calendar and clock are read in `zone` at the instant `now`.
pub fn parse_alarm_args<'a>(input: &'a str, zone: &Zone, now: i64) -> (args: Result<
    CronArgs<'a>,
    ParseError,
>)
    requires
        zone.wf(),
        is_instant(now as int),
        is_instant(now + DAY),
    ensures
        exists|today: Civil, tomorrow: Civil|
            {
                &&& shows(zone@, now, today)
                &&& shows(zone@, (now + DAY) as i64, tomorrow)
                &&& #[trigger] args_read(input@, today, tomorrow, args)
            },
{
    let today = civil_at(zone, now);
    let tomorrow = civil_at(zone, now + DAY);
    let args = alarm_args(input, &today, &tomorrow);
    assert(args_read(input@, today, tomorrow, args));
    args
}

} // verus!
