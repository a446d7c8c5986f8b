//! The recurrence engine: validation and normalisation of the fields that
//! say how a task repeats, and the time of its next firing.

use crate::datemath::{
    civil_from_day, civil_of_day, clock_text, clock_text_minutes, datetime_formatted,
    day_from_civil, day_of_civil, digit_char, digit_of, digit_value, format_naive_datetime,
    is_clock_text,
    is_digit, lemma_plus_seconds_later, local_to_utc, moment_at, moment_of, parse_naive_time,
    time_parsed, Moment, Timestamp, MAX_DAY, MIN_DAY,
};
use crate::errors::{AppError, AppErrorView};
use crate::models::{int_of, text_of, RecurrenceView, RecurringTask, RecurringTaskView};
use crate::text::{
    count_fields, field_count, is_ascii_graphic, is_ascii_without_lowercase,
    lemma_trimmed_idempotent, lemma_trimmed_of_tight, str_eq, to_uppercase, trim, trimmed,
    upper_text,
};
use chrono::{Datelike, Timelike};
use vstd::prelude::*;

verus! {

/// Name of the mode that repeats after an interval, within a daily window.
pub const REPEAT_MODE_INTERVAL_RANGE: &'static str = "INTERVAL_RANGE";

/// Name of the mode that repeats every day.
pub const REPEAT_MODE_DAILY: &'static str = "DAILY";

/// Name of the mode that repeats every week.
pub const REPEAT_MODE_WEEKLY: &'static str = "WEEKLY";

/// Name of the mode that repeats every month.
pub const REPEAT_MODE_MONTHLY: &'static str = "MONTHLY";

/// Name of the mode that repeats at the times of a cron expression.
pub const REPEAT_MODE_CRON: &'static str = "CRON";

/// The pattern of a time of day in a recurrence: hour and minute.
pub open spec fn clock_pattern() -> Seq<char> {
    "%H:%M"@
}

/// The five ways in which a task can repeat.
#[derive(Clone, Copy, Debug, PartialEq, Eq, Structural)]
pub enum RepeatMode {
    IntervalRange,
    Daily,
    Weekly,
    Monthly,
    Cron,
}

/// The mode that an uppercase name stands for; a name that is none of the
/// known ones stands for the interval mode.
pub open spec fn mode_of_upper(upper: Seq<char>) -> RepeatMode {
    if upper == "DAILY"@ {
        RepeatMode::Daily
    } else if upper == "WEEKLY"@ {
        RepeatMode::Weekly
    } else if upper == "MONTHLY"@ {
        RepeatMode::Monthly
    } else if upper == "CRON"@ {
        RepeatMode::Cron
    } else {
        RepeatMode::IntervalRange
    }
}

/// The canonical name of a mode.
pub open spec fn mode_name(mode: RepeatMode) -> Seq<char> {
    match mode {
        RepeatMode::IntervalRange => "INTERVAL_RANGE"@,
        RepeatMode::Daily => "DAILY"@,
        RepeatMode::Weekly => "WEEKLY"@,
        RepeatMode::Monthly => "MONTHLY"@,
        RepeatMode::Cron => "CRON"@,
    }
}

/// The mode that a name stands for, whatever its case and the whitespace
/// around it.
pub open spec fn mode_of(name: Seq<char>) -> RepeatMode {
    mode_of_upper(upper_text(trimmed(name)))
}

/// Reads the mode off a name that is already trimmed and in uppercase.
pub fn repeat_mode_of_upper(upper: &str) -> (mode: RepeatMode)
    ensures
        mode == mode_of_upper(upper@),
{
    if str_eq(upper, "DAILY") {
        RepeatMode::Daily
    } else if str_eq(upper, "WEEKLY") {
        RepeatMode::Weekly
    } else if str_eq(upper, "MONTHLY") {
        RepeatMode::Monthly
    } else if str_eq(upper, "CRON") {
        RepeatMode::Cron
    } else {
        RepeatMode::IntervalRange
    }
}

/// The canonical name of a mode.
pub fn repeat_mode_name(mode: RepeatMode) -> (name: String)
    ensures
        name@ == mode_name(mode),
{
    match mode {
        RepeatMode::IntervalRange => String::from_str("INTERVAL_RANGE"),
        RepeatMode::Daily => String::from_str("DAILY"),
        RepeatMode::Weekly => String::from_str("WEEKLY"),
        RepeatMode::Monthly => String::from_str("MONTHLY"),
        RepeatMode::Cron => String::from_str("CRON"),
    }
}

/// Reads the mode off a name, whatever its case and the whitespace around it.
pub fn repeat_mode_of(name: &str) -> (mode: RepeatMode)
    ensures
        mode == mode_of(name@),
{
    let upper = to_uppercase(trim(name));
    repeat_mode_of_upper(upper.as_str())
}

/// Brings the name of a repeat mode into its canonical form: one of the
/// five known names, the interval mode for every unknown one.
pub fn normalize_repeat_mode(mode: &str) -> (r: String)
    ensures
        r@ == mode_name(mode_of(mode@)),
{
    repeat_mode_name(repeat_mode_of(mode))
}

/// The view of an optional string slice.
pub open spec fn slice_of(v: Option<&str>) -> Option<Seq<char>> {
    match v {
        Some(s) => Some(s@),
        None => None,
    }
}

/// An optional text without the whitespace around it; a text of whitespace
/// alone counts as absent.
pub open spec fn normalized_text(v: Option<Seq<char>>) -> Option<Seq<char>> {
    match v {
        Some(s) => if trimmed(s).len() == 0 {
            None
        } else {
            Some(trimmed(s))
        },
        None => None,
    }
}

/// Trims an optional text and drops it when nothing is left.
pub fn normalize_text(value: Option<&str>) -> (r: Option<String>)
    ensures
        text_of(r) == normalized_text(slice_of(value)),
{
    match value {
        Some(raw) => {
            let t = trim(raw);
            if t.unicode_len() == 0 {
                None
            } else {
                Some(String::from_str(t))
            }
        },
        None => None,
    }
}

/// Writes a minute of the day as two digits, a colon and two digits.
pub fn format_clock(minute_of_day: u32) -> (r: String)
    requires
        minute_of_day < 1440,
    ensures
        r@ == clock_text(minute_of_day as int),
{
    let h: u32 = minute_of_day / 60;
    let m: u32 = minute_of_day % 60;
    let mut r = String::new();
    r.push(digit_of(h / 10));
    r.push(digit_of(h % 10));
    r.push(':');
    r.push(digit_of(m / 10));
    r.push(digit_of(m % 10));
    assert(r@ =~= clock_text(minute_of_day as int));
    r
}

/// What is wrong with the fields of a recurrence, or with the time it asks
/// for.
pub enum Fault {
    /// A time of day is not of the form `HH:mm`; the payload names the field.
    TimeFormat(Seq<char>),
    StartAfterEnd,
    DailyWithoutTime,
    WeeklyWithoutTime,
    WeeklyWithoutWeekday,
    WeekdayOutOfRange,
    MonthlyWithoutTime,
    MonthlyWithoutDay,
    DayOutOfRange,
    CronWithoutExpression,
    CronEmpty,
    CronFieldCount,
    /// The cron parser refused the expression; the payload is its message.
    CronRejected(Seq<char>),
    /// The month after a date cannot be found.
    MonthUnknown,
    /// The day asked for does not exist in the month.
    MonthlyDateUnknown,
    /// The base time has no local reading.
    LocalTimeUnknown,
    /// The cron schedule has no time left.
    CronExhausted,
    /// No later time can be represented.
    NoLaterTime,
}

/// The message of a fault.
pub open spec fn fault_text(f: Fault) -> Seq<char> {
    match f {
        Fault::TimeFormat(field) => field + "格式错误，应为 HH:mm，例如 08:30"@,
        Fault::StartAfterEnd => "间隔模式中开始时间不能晚于结束时间"@,
        Fault::DailyWithoutTime => "每日模式需要设置触发时间"@,
        Fault::WeeklyWithoutTime => "每周模式需要设置触发时间"@,
        Fault::WeeklyWithoutWeekday => "每周模式需要设置周几"@,
        Fault::WeekdayOutOfRange => "每周模式中的周几必须在 1 到 7 之间"@,
        Fault::MonthlyWithoutTime => "每月模式需要设置触发时间"@,
        Fault::MonthlyWithoutDay => "每月模式需要设置几号"@,
        Fault::DayOutOfRange => "每月模式中的几号必须在 1 到 31 之间"@,
        Fault::CronWithoutExpression => "Cron 模式需要表达式"@,
        Fault::CronEmpty => "Cron 表达式不能为空"@,
        Fault::CronFieldCount => "Cron 表达式需为 5、6 或 7 段"@,
        Fault::CronRejected(message) => "Cron 表达式无效: "@ + message,
        Fault::MonthUnknown => "无法解析月份"@,
        Fault::MonthlyDateUnknown => "无法生成每月触发日期"@,
        Fault::LocalTimeUnknown => "无法解析本地时间"@,
        Fault::CronExhausted => "Cron 表达式没有未来触发时间"@,
        Fault::NoLaterTime => "无法计算下一次触发时间"@,
    }
}

/// The error that reports a fault.
pub open spec fn fault_error(f: Fault) -> AppErrorView {
    AppErrorView::Invalid(fault_text(f))
}

/// An error of the kind that rejects a user's value, with the given message.
fn invalid(message: &str) -> (e: AppError)
    ensures
        e@ == AppErrorView::Invalid(message@),
{
    AppError::Invalid(String::from_str(message))
}

/// The minute of the day that an optional text names: none for an absent
/// or blank text, an error for one that is no time of day.
pub open spec fn time_field(v: Option<Seq<char>>) -> Result<Option<int>, ()> {
    match normalized_text(v) {
        None => Ok(None),
        Some(t) => match time_parsed(t, clock_pattern()) {
            Some(parsed) => Ok(Some(parsed.0 / 60)),
            None => Err(()),
        },
    }
}

/// The canonical text of an optional minute of the day.
pub open spec fn clock_text_of(m: Option<int>) -> Option<Seq<char>> {
    match m {
        Some(m) => Some(clock_text(m)),
        None => None,
    }
}

/// Brings an optional time of day into the form `HH:mm`. An absent or blank
/// text gives none; a text that is no time of day is rejected with a
/// message that names the field.
pub fn normalize_time_field(value: Option<&str>, field: &str) -> (r: Result<
    Option<String>,
    AppError,
>)
    ensures
        match time_field(slice_of(value)) {
            Ok(m) => r matches Ok(t) && text_of(t) == clock_text_of(m),
            Err(_) => r matches Err(e) && e@ == fault_error(Fault::TimeFormat(field@)),
        },
{
    match normalize_time_minutes(value, field) {
        Ok(Some(m)) => Ok(Some(format_clock(m))),
        Ok(None) => Ok(None),
        Err(e) => Err(e),
    }
}

/// The minute of the day that an optional text names, with the same
/// rejections as [`normalize_time_field`].
pub fn normalize_time_minutes(value: Option<&str>, field: &str) -> (r: Result<
    Option<u32>,
    AppError,
>)
    ensures
        match time_field(slice_of(value)) {
            Ok(m) => r matches Ok(t) && match t {
                Some(t) => m == Some(t as int) && t < 1440,
                None => m is None,
            },
            Err(_) => r matches Err(e) && e@ == fault_error(Fault::TimeFormat(field@)),
        },
{
    match value {
        None => Ok(None),
        Some(raw) => {
            let t = trim(raw);
            if t.unicode_len() == 0 {
                Ok(None)
            } else {
                match parse_naive_time(t, "%H:%M") {
                    Some(parsed) => Ok(Some(parsed.0 / 60)),
                    None => {
                        let mut message = String::from_str(field);
                        message.append("格式错误，应为 HH:mm，例如 08:30");
                        Err(AppError::Invalid(message))
                    },
                }
            }
        },
    }
}

/// What `Schedule::from_str` of the `cron` crate says against an expression:
/// the text of its error, or nothing where it accepts the expression.
pub uninterp spec fn cron_parse_fault(expression: Seq<char>) -> Option<Seq<char>>;

#[verifier::external_type_specification]
#[verifier::external_body]
pub struct ExSchedule(cron::Schedule);

/// `Schedule::from_str` of the `cron` crate. An error comes back as the text
/// that it displays.
#[verifier::external_body]
pub(crate) fn parse_schedule(expression: &str) -> (r: Result<cron::Schedule, String>)
    ensures
        match r {
            Ok(_) => cron_parse_fault(expression@) is None,
            Err(m) => cron_parse_fault(expression@) == Some(m@),
        },
{
    expression.parse::<cron::Schedule>().map_err(|e| e.to_string())
}

/// The expression that is handed to the cron parser: one of five fields
/// gets a seconds field of zero in front, one of six or seven fields is
/// taken as it is.
pub open spec fn schedule_expression(value: Seq<char>) -> Option<Seq<char>> {
    let n = field_count(value);
    if n == 5 {
        Some("0 "@ + value)
    } else if n == 6 || n == 7 {
        Some(value)
    } else {
        None
    }
}

/// Completes a cron expression to the form with seconds, and rejects one
/// that has not five, six or seven fields.
pub fn cron_schedule_expr(value: &str) -> (r: Result<String, AppError>)
    ensures
        match schedule_expression(value@) {
            Some(e) => r matches Ok(s) && s@ == e,
            None => r matches Err(e) && e@ == fault_error(Fault::CronFieldCount),
        },
{
    let n = count_fields(value);
    if n == 5 {
        let mut s = String::from_str("0 ");
        s.append(value);
        Ok(s)
    } else if n == 6 || n == 7 {
        Ok(String::from_str(value))
    } else {
        Err(invalid("Cron 表达式需为 5、6 或 7 段"))
    }
}

/// What is wrong with a cron expression, if anything: it is blank, has the
/// wrong number of fields, or the parser refuses it.
pub open spec fn cron_fault(value: Seq<char>) -> Option<Fault> {
    let t = trimmed(value);
    if t.len() == 0 {
        Some(Fault::CronEmpty)
    } else {
        match schedule_expression(t) {
            None => Some(Fault::CronFieldCount),
            Some(e) => match cron_parse_fault(e) {
                Some(m) => Some(Fault::CronRejected(m)),
                None => None,
            },
        }
    }
}

/// Trims a cron expression and has the parser check it.
pub fn sanitize_cron_expression(value: &str) -> (r: Result<String, AppError>)
    ensures
        match cron_fault(value@) {
            None => r matches Ok(s) && s@ == trimmed(value@),
            Some(f) => r matches Err(e) && e@ == fault_error(f),
        },
{
    let t = trim(value);
    if t.unicode_len() == 0 {
        return Err(invalid("Cron 表达式不能为空"));
    }
    let expression = match cron_schedule_expr(t) {
        Ok(e) => e,
        Err(e) => {
            return Err(e);
        },
    };
    match parse_schedule(expression.as_str()) {
        Ok(_) => Ok(String::from_str(t)),
        Err(m) => {
            let mut message = String::from_str("Cron 表达式无效: ");
            message.append(m.as_str());
            Err(AppError::Invalid(message))
        },
    }
}

/// How a task repeats, once its fields are validated: times of day are
/// minutes of the day.
#[derive(Debug, PartialEq, Eq)]
pub enum RecurrenceRule {
    /// Every `minutes` minutes, within a daily window.
    IntervalRange { minutes: i64, start: Option<u32>, end: Option<u32> },
    /// Every day at `time`.
    Daily { time: u32 },
    /// Every week on `weekday`, 1 for Monday to 7 for Sunday, at `time`.
    Weekly { time: u32, weekday: u32 },
    /// Every month on `day`, or on the month's last day where it is shorter,
    /// at `time`.
    Monthly { time: u32, day: u32 },
    /// At the times of a cron expression.
    Cron { expression: String },
}

/// The mathematical value of a [`RecurrenceRule`].
pub enum Rule {
    IntervalRange { minutes: int, start: Option<int>, end: Option<int> },
    Daily { time: int },
    Weekly { time: int, weekday: int },
    Monthly { time: int, day: int },
    Cron { expression: Seq<char> },
}

/// The view of an optional minute of the day.
pub open spec fn minute_of(m: Option<u32>) -> Option<int> {
    match m {
        Some(m) => Some(m as int),
        None => None,
    }
}

impl View for RecurrenceRule {
    type V = Rule;

    open spec fn view(&self) -> Rule {
        match self {
            RecurrenceRule::IntervalRange { minutes, start, end } => Rule::IntervalRange {
                minutes: *minutes as int,
                start: minute_of(*start),
                end: minute_of(*end),
            },
            RecurrenceRule::Daily { time } => Rule::Daily { time: *time as int },
            RecurrenceRule::Weekly { time, weekday } => Rule::Weekly {
                time: *time as int,
                weekday: *weekday as int,
            },
            RecurrenceRule::Monthly { time, day } => Rule::Monthly {
                time: *time as int,
                day: *day as int,
            },
            RecurrenceRule::Cron { expression } => Rule::Cron { expression: expression@ },
        }
    }
}

/// Whether an optional minute of the day is within the day.
pub open spec fn minute_in_day(m: Option<int>) -> bool {
    m matches Some(m) ==> 0 <= m < 1440
}

impl Rule {
    /// The ranges that every validated rule keeps.
    pub open spec fn wf(self) -> bool {
        match self {
            Rule::IntervalRange { minutes, start, end } => {
                &&& minutes >= 1
                &&& minute_in_day(start)
                &&& minute_in_day(end)
                &&& start is Some && end is Some ==> start->0 <= end->0
            },
            Rule::Daily { time } => 0 <= time < 1440,
            Rule::Weekly { time, weekday } => 0 <= time < 1440 && 1 <= weekday <= 7,
            Rule::Monthly { time, day } => 0 <= time < 1440 && 1 <= day <= 31,
            Rule::Cron { expression } => cron_fault(expression) is None && trimmed(expression)
                == expression,
        }
    }
}

/// An interval of at least one minute.
pub open spec fn at_least_one(n: int) -> int {
    if n < 1 {
        1
    } else {
        n
    }
}

/// The rule of a mode, from fields that are already normalised, or the
/// first thing that the mode misses in them.
pub open spec fn mode_rule(
    mode: RepeatMode,
    minutes: int,
    start: Option<int>,
    end: Option<int>,
    time: Option<int>,
    weekday: Option<int>,
    day: Option<int>,
    cron: Option<Seq<char>>,
) -> Result<Rule, Fault> {
    match mode {
        RepeatMode::IntervalRange => Ok(Rule::IntervalRange { minutes, start, end }),
        RepeatMode::Daily => match time {
            None => Err(Fault::DailyWithoutTime),
            Some(time) => Ok(Rule::Daily { time }),
        },
        RepeatMode::Weekly => match time {
            None => Err(Fault::WeeklyWithoutTime),
            Some(time) => match weekday {
                None => Err(Fault::WeeklyWithoutWeekday),
                Some(weekday) => if 1 <= weekday <= 7 {
                    Ok(Rule::Weekly { time, weekday })
                } else {
                    Err(Fault::WeekdayOutOfRange)
                },
            },
        },
        RepeatMode::Monthly => match time {
            None => Err(Fault::MonthlyWithoutTime),
            Some(time) => match day {
                None => Err(Fault::MonthlyWithoutDay),
                Some(day) => if 1 <= day <= 31 {
                    Ok(Rule::Monthly { time, day })
                } else {
                    Err(Fault::DayOutOfRange)
                },
            },
        },
        RepeatMode::Cron => match cron {
            None => Err(Fault::CronWithoutExpression),
            Some(expression) => match cron_fault(expression) {
                Some(f) => Err(f),
                None => Ok(Rule::Cron { expression: trimmed(expression) }),
            },
        },
    }
}

/// The rule that the fields of a recurrence describe, or the first fault
/// found in them: the three times of day are checked first, then the order
/// of start and end, then what the mode requires.
pub open spec fn rule_of(r: RecurrenceView) -> Result<Rule, Fault> {
    match time_field(r.start_time) {
        Err(_) => Err(Fault::TimeFormat("开始时间"@)),
        Ok(start) => match time_field(r.end_time) {
            Err(_) => Err(Fault::TimeFormat("结束时间"@)),
            Ok(end) => match time_field(r.schedule_time) {
                Err(_) => Err(Fault::TimeFormat("触发时间"@)),
                Ok(time) => if start is Some && end is Some && start->0 > end->0 {
                    Err(Fault::StartAfterEnd)
                } else {
                    mode_rule(
                        mode_of(r.repeat_mode),
                        at_least_one(r.interval_minutes),
                        start,
                        end,
                        time,
                        r.schedule_weekday,
                        r.schedule_day,
                        normalized_text(r.cron_expression),
                    )
                },
            },
        },
    }
}

/// The fields of a recurrence in normal form: the mode's canonical name,
/// the fields that the mode uses, and nothing in the others.
pub open spec fn fields_of(rule: Rule, interval_minutes: int) -> RecurrenceView {
    let blank = RecurrenceView {
        repeat_mode: mode_name(RepeatMode::IntervalRange),
        interval_minutes,
        start_time: None,
        end_time: None,
        schedule_time: None,
        schedule_weekday: None,
        schedule_day: None,
        cron_expression: None,
    };
    match rule {
        Rule::IntervalRange { minutes, start, end } => RecurrenceView {
            start_time: clock_text_of(start),
            end_time: clock_text_of(end),
            ..blank
        },
        Rule::Daily { time } => RecurrenceView {
            repeat_mode: mode_name(RepeatMode::Daily),
            schedule_time: Some(clock_text(time)),
            ..blank
        },
        Rule::Weekly { time, weekday } => RecurrenceView {
            repeat_mode: mode_name(RepeatMode::Weekly),
            schedule_time: Some(clock_text(time)),
            schedule_weekday: Some(weekday),
            ..blank
        },
        Rule::Monthly { time, day } => RecurrenceView {
            repeat_mode: mode_name(RepeatMode::Monthly),
            schedule_time: Some(clock_text(time)),
            schedule_day: Some(day),
            ..blank
        },
        Rule::Cron { expression } => RecurrenceView {
            repeat_mode: mode_name(RepeatMode::Cron),
            cron_expression: Some(expression),
            ..blank
        },
    }
}

/// A recurring task in normal form, or the fault that rejects it: the
/// description is trimmed, the interval is at least one minute, and the
/// recurrence fields are those of the task's rule.
pub open spec fn sanitized(v: RecurringTaskView) -> Result<RecurringTaskView, Fault> {
    match rule_of(v.recurrence) {
        Err(f) => Err(f),
        Ok(rule) => Ok(
            RecurringTaskView {
                description: trimmed(v.description),
                recurrence: fields_of(rule, at_least_one(v.recurrence.interval_minutes)),
                ..v
            },
        ),
    }
}

/// An optional string as an optional slice.
fn as_slice(t: &Option<String>) -> (r: Option<&str>)
    ensures
        slice_of(r) == text_of(*t),
{
    match t {
        Some(s) => Some(s.as_str()),
        None => None,
    }
}

/// The view of the outcome of a check of a cron expression: the checked
/// expression, or the error that rejects it.
pub open spec fn checked_view(c: Option<Result<String, AppError>>) -> Option<
    Result<Seq<char>, AppErrorView>,
> {
    match c {
        None => None,
        Some(Ok(x)) => Some(Ok(x@)),
        Some(Err(e)) => Some(Err(e@)),
    }
}

/// The view of a rule or of the error in its place.
pub open spec fn rule_view(r: Result<RecurrenceRule, AppError>) -> Result<Rule, AppErrorView> {
    match r {
        Ok(rule) => Ok(rule@),
        Err(e) => Err(e@),
    }
}

/// The rule that a mode and the fields of a recurrence give, once the
/// times of day are read as minutes and the cron expression is checked.
/// Start and end are compared first, whatever the mode; then the mode asks
/// for its fields, in the order time, weekday or day, expression; an
/// interval below one minute counts as one minute.
pub open spec fn rule_from(
    mode: RepeatMode,
    interval_minutes: int,
    start: Option<int>,
    end: Option<int>,
    time: Option<int>,
    weekday: Option<int>,
    day: Option<int>,
    cron: Option<Result<Seq<char>, AppErrorView>>,
) -> Result<Rule, AppErrorView> {
    if start is Some && end is Some && start->0 > end->0 {
        Err(fault_error(Fault::StartAfterEnd))
    } else {
        match mode {
            RepeatMode::IntervalRange => Ok(
                Rule::IntervalRange { minutes: at_least_one(interval_minutes), start, end },
            ),
            RepeatMode::Daily => match time {
                None => Err(fault_error(Fault::DailyWithoutTime)),
                Some(time) => Ok(Rule::Daily { time }),
            },
            RepeatMode::Weekly => match time {
                None => Err(fault_error(Fault::WeeklyWithoutTime)),
                Some(time) => match weekday {
                    None => Err(fault_error(Fault::WeeklyWithoutWeekday)),
                    Some(weekday) => if 1 <= weekday <= 7 {
                        Ok(Rule::Weekly { time, weekday })
                    } else {
                        Err(fault_error(Fault::WeekdayOutOfRange))
                    },
                },
            },
            RepeatMode::Monthly => match time {
                None => Err(fault_error(Fault::MonthlyWithoutTime)),
                Some(time) => match day {
                    None => Err(fault_error(Fault::MonthlyWithoutDay)),
                    Some(day) => if 1 <= day <= 31 {
                        Ok(Rule::Monthly { time, day })
                    } else {
                        Err(fault_error(Fault::DayOutOfRange))
                    },
                },
            },
            RepeatMode::Cron => match cron {
                None => Err(fault_error(Fault::CronWithoutExpression)),
                Some(Err(e)) => Err(e),
                Some(Ok(expression)) => Ok(Rule::Cron { expression }),
            },
        }
    }
}

/// Reads the rule off a mode and the fields of a recurrence, once the
/// times of day are read as minutes and the cron expression is checked:
/// `cron` holds what the check came to, and nothing where the recurrence has
/// no expression.
pub fn rule_from_fields(
    mode: RepeatMode,
    interval_minutes: i64,
    start: Option<u32>,
    end: Option<u32>,
    time: Option<u32>,
    weekday: Option<i64>,
    day: Option<i64>,
    cron: Option<Result<String, AppError>>,
) -> (r: Result<RecurrenceRule, AppError>)
    ensures
        rule_view(r) == rule_from(
            mode,
            interval_minutes as int,
            minute_of(start),
            minute_of(end),
            minute_of(time),
            int_of(weekday),
            int_of(day),
            checked_view(cron),
        ),
{
    match (start, end) {
        (Some(s), Some(e)) => {
            if s > e {
                return Err(invalid("间隔模式中开始时间不能晚于结束时间"));
            }
        },
        _ => {},
    }
    match mode {
        RepeatMode::IntervalRange => {
            let minutes: i64 = if interval_minutes < 1 {
                1
            } else {
                interval_minutes
            };
            Ok(RecurrenceRule::IntervalRange { minutes, start, end })
        },
        RepeatMode::Daily => match time {
            None => Err(invalid("每日模式需要设置触发时间")),
            Some(time) => Ok(RecurrenceRule::Daily { time }),
        },
        RepeatMode::Weekly => match time {
            None => Err(invalid("每周模式需要设置触发时间")),
            Some(time) => match weekday {
                None => Err(invalid("每周模式需要设置周几")),
                Some(weekday) => if 1 <= weekday && weekday <= 7 {
                    Ok(RecurrenceRule::Weekly { time, weekday: weekday as u32 })
                } else {
                    Err(invalid("每周模式中的周几必须在 1 到 7 之间"))
                },
            },
        },
        RepeatMode::Monthly => match time {
            None => Err(invalid("每月模式需要设置触发时间")),
            Some(time) => match day {
                None => Err(invalid("每月模式需要设置几号")),
                Some(day) => if 1 <= day && day <= 31 {
                    Ok(RecurrenceRule::Monthly { time, day: day as u32 })
                } else {
                    Err(invalid("每月模式中的几号必须在 1 到 31 之间"))
                },
            },
        },
        RepeatMode::Cron => match cron {
            None => Err(invalid("Cron 模式需要表达式")),
            Some(Err(e)) => Err(e),
            Some(Ok(expression)) => Ok(RecurrenceRule::Cron { expression }),
        },
    }
}

/// Validates the fields of a task's recurrence and reads its rule off them:
/// the three times of day are read, the cron expression of a cron mode is
/// checked, and [`rule_from_fields`] does the rest.
pub fn recurrence_rule(task: &RecurringTask) -> (r: Result<RecurrenceRule, AppError>)
    ensures
        match rule_of(task@.recurrence) {
            Ok(rule) => r matches Ok(x) && x@ == rule && rule.wf(),
            Err(f) => r matches Err(e) && e@ == fault_error(f),
        },
{
    let start = match normalize_time_minutes(as_slice(&task.start_time), "开始时间") {
        Ok(m) => m,
        Err(e) => {
            return Err(e);
        },
    };
    let end = match normalize_time_minutes(as_slice(&task.end_time), "结束时间") {
        Ok(m) => m,
        Err(e) => {
            return Err(e);
        },
    };
    let time = match normalize_time_minutes(as_slice(&task.schedule_time), "触发时间") {
        Ok(m) => m,
        Err(e) => {
            return Err(e);
        },
    };
    let mode = repeat_mode_of(task.repeat_mode.as_str());
    let cron = match mode {
        RepeatMode::Cron => match normalize_text(as_slice(&task.cron_expression)) {
            None => None,
            Some(expression) => {
                proof {
                    lemma_trimmed_idempotent(text_of(task.cron_expression)->0);
                    lemma_cron_fault_of_trimmed(text_of(task.cron_expression)->0);
                }
                Some(sanitize_cron_expression(expression.as_str()))
            },
        },
        _ => None,
    };
    rule_from_fields(
        mode,
        task.interval_minutes,
        start,
        end,
        time,
        task.schedule_weekday,
        task.schedule_day,
        cron,
    )
}

/// What the parser says of a trimmed expression, it says of the expression
/// trimmed again.
proof fn lemma_cron_fault_of_trimmed(value: Seq<char>)
    ensures
        cron_fault(trimmed(value)) == cron_fault(value),
{
    lemma_trimmed_idempotent(value);
}

/// An optional minute of the day in its canonical text.
fn format_clock_of(m: &Option<u32>) -> (r: Option<String>)
    requires
        minute_in_day(minute_of(*m)),
    ensures
        text_of(r) == clock_text_of(minute_of(*m)),
{
    match m {
        Some(m) => Some(format_clock(*m)),
        None => None,
    }
}

/// Validates a recurring task and brings it into normal form. The
/// description is trimmed, the mode gets its canonical name, the interval
/// is raised to one minute where it is less, the times of day are written as
/// `HH:mm`, and every field that the mode does not use is emptied. A task
/// that is rejected is left as it was.
pub fn sanitize_recurring_task(task: &mut RecurringTask) -> (r: Result<(), AppError>)
    ensures
        match sanitized(old(task)@) {
            Ok(v) => r is Ok && final(task)@ == v,
            Err(f) => r matches Err(e) && e@ == fault_error(f) && *final(task) == *old(task),
        },
{
    let rule = match recurrence_rule(task) {
        Ok(rule) => rule,
        Err(e) => {
            return Err(e);
        },
    };
    let description = String::from_str(trim(task.description.as_str()));
    task.description = description;
    if task.interval_minutes < 1 {
        task.interval_minutes = 1;
    }
    task.start_time = None;
    task.end_time = None;
    task.schedule_time = None;
    task.cron_expression = None;
    match rule {
        RecurrenceRule::IntervalRange { minutes, start, end } => {
            task.repeat_mode = repeat_mode_name(RepeatMode::IntervalRange);
            task.start_time = format_clock_of(&start);
            task.end_time = format_clock_of(&end);
            task.schedule_weekday = None;
            task.schedule_day = None;
        },
        RecurrenceRule::Daily { time } => {
            task.repeat_mode = repeat_mode_name(RepeatMode::Daily);
            task.schedule_time = Some(format_clock(time));
            task.schedule_weekday = None;
            task.schedule_day = None;
        },
        RecurrenceRule::Weekly { time, weekday } => {
            task.repeat_mode = repeat_mode_name(RepeatMode::Weekly);
            task.schedule_time = Some(format_clock(time));
            task.schedule_day = None;
        },
        RecurrenceRule::Monthly { time, day } => {
            task.repeat_mode = repeat_mode_name(RepeatMode::Monthly);
            task.schedule_time = Some(format_clock(time));
            task.schedule_weekday = None;
        },
        RecurrenceRule::Cron { expression } => {
            task.repeat_mode = repeat_mode_name(RepeatMode::Cron);
            task.cron_expression = Some(expression);
            task.schedule_weekday = None;
            task.schedule_day = None;
        },
    }
    Ok(())
}

/// The key of the time of day at the start of a minute.
pub open spec fn minute_key(minute_of_day: int) -> int {
    moment_at(0, minute_of_day).time_key()
}

/// The start of the window on the day after a day, where there is such a
/// day.
pub open spec fn opening_after(day: int, opening: int) -> Result<Moment, Fault> {
    if day < MAX_DAY {
        Ok(moment_at(day + 1, opening))
    } else {
        Err(Fault::NoLaterTime)
    }
}

/// The next firing of an interval rule. Before the window opens it is the
/// window's start on the same day; after the window has closed it is the
/// start on the next day; within the window it is the base time plus the
/// interval, and where that falls behind the window's end, the start on
/// the day after the base time's day. A firing that the interval carries
/// to a time of day before the window opens waits for the window's start on
/// that day. A window without a start opens at midnight. Where the day
/// after is asked for and the base time is on the last representable day,
/// there is no next firing.
pub open spec fn interval_next(
    minutes: int,
    start: Option<int>,
    end: Option<int>,
    base: Moment,
) -> Result<Moment, Fault> {
    let opening = if start is Some {
        start->0
    } else {
        0
    };
    if start is Some && base.time_key() < minute_key(start->0) {
        Ok(moment_at(base.day, start->0))
    } else if end is Some && base.time_key() > minute_key(end->0) {
        opening_after(base.day, opening)
    } else {
        match base.plus_seconds(minutes * 60) {
            None => Err(Fault::NoLaterTime),
            Some(stepped) => if end is Some && stepped.time_key() > minute_key(end->0) {
                opening_after(base.day, opening)
            } else if start is Some && stepped.time_key() < minute_key(start->0) {
                Ok(moment_at(stepped.day, start->0))
            } else {
                Ok(stepped)
            },
        }
    }
}

/// The next firing of a daily rule: the time on the base day where that is
/// still ahead, else on the day after.
pub open spec fn daily_next(time: int, base: Moment) -> Result<Moment, Fault> {
    if moment_at(base.day, time).key() > base.key() {
        Ok(moment_at(base.day, time))
    } else if base.day < MAX_DAY {
        Ok(moment_at(base.day + 1, time))
    } else {
        Err(Fault::NoLaterTime)
    }
}

/// Days from a weekday to the next occurrence of another, 0 to 6.
pub open spec fn days_ahead(from: int, to: int) -> int {
    (to - from + 7) % 7
}

/// The next firing of a weekly rule: the time on the nearest day from the
/// base day on that has the weekday, and a week later where that is not
/// ahead of the base time.
pub open spec fn weekly_next(time: int, weekday: int, base: Moment) -> Result<Moment, Fault> {
    let near = base.day + days_ahead(base.weekday(), weekday);
    let day = if moment_at(near, time).key() > base.key() {
        near
    } else {
        near + 7
    };
    if day <= MAX_DAY {
        Ok(moment_at(day, time))
    } else {
        Err(Fault::NoLaterTime)
    }
}

/// The month after a month.
pub open spec fn month_after(year: int, month: int) -> (int, int) {
    if month == 12 {
        (year + 1, 1)
    } else {
        (year, month + 1)
    }
}

/// The number of the last day of a month: the day of the month of the day
/// before the first of the month after.
pub open spec fn month_length(year: int, month: int) -> Option<int> {
    let after = month_after(year, month);
    match day_from_civil(after.0, after.1, 1) {
        Some(first) => if first > MIN_DAY {
            Some(civil_from_day(first - 1).2)
        } else {
            None
        },
        None => None,
    }
}

/// The smaller of two numbers.
pub open spec fn smaller(a: int, b: int) -> int {
    if a <= b {
        a
    } else {
        b
    }
}

/// The firing of a monthly rule in a given month: the day asked for, or
/// the month's last day where the month is shorter, at the rule's time.
pub open spec fn month_moment(year: int, month: int, day: int, time: int) -> Result<
    Moment,
    Fault,
> {
    match month_length(year, month) {
        None => Err(Fault::MonthUnknown),
        Some(last) => match day_from_civil(year, month, smaller(day, last)) {
            Some(d) => Ok(moment_at(d, time)),
            None => Err(Fault::MonthlyDateUnknown),
        },
    }
}

/// The next firing of a monthly rule: the firing in the base time's month
/// where that is ahead of the base time, else the firing in the month
/// after.
pub open spec fn monthly_next(time: int, day: int, base: Moment) -> Result<Moment, Fault> {
    let civil = civil_from_day(base.day);
    match month_moment(civil.0, civil.1, day, time) {
        Err(f) => Err(f),
        Ok(first) => if first.key() > base.key() {
            Ok(first)
        } else {
            let after = month_after(civil.0, civil.1);
            match month_moment(after.0, after.1, day, time) {
                Err(f) => Err(f),
                Ok(second) => if second.key() > base.key() {
                    Ok(second)
                } else {
                    Err(Fault::NoLaterTime)
                },
            }
        },
    }
}

/// The next firing of a rule after a base time. For a cron rule there is
/// none to name, since it depends on the machine's time zone; only a base
/// time on the first or the last representable day is always refused.
pub open spec fn next_moment(rule: Rule, base: Moment) -> Option<Result<Moment, Fault>> {
    match rule {
        Rule::IntervalRange { minutes, start, end } => Some(
            interval_next(minutes, start, end, base),
        ),
        Rule::Daily { time } => Some(daily_next(time, base)),
        Rule::Weekly { time, weekday } => Some(weekly_next(time, weekday, base)),
        Rule::Monthly { time, day } => Some(monthly_next(time, day, base)),
        Rule::Cron { expression } => if at_the_edge(base) {
            Some(Err(Fault::LocalTimeUnknown))
        } else {
            None
        },
    }
}

/// Whether a result is the given moment or reports the given fault.
pub open spec fn agrees(r: Result<Timestamp, AppError>, m: Result<Moment, Fault>) -> bool {
    match m {
        Ok(m) => r matches Ok(t) && t@ == m,
        Err(f) => r matches Err(e) && e@ == fault_error(f),
    }
}

/// The next firing of an interval rule after a base time.
pub fn compute_interval_next(
    minutes: i64,
    start: Option<u32>,
    end: Option<u32>,
    base: &Timestamp,
) -> (r: Result<Timestamp, AppError>)
    requires
        base@.wf(),
        (Rule::IntervalRange { minutes: minutes as int, start: minute_of(start), end: minute_of(end) }).wf(),
    ensures
        agrees(r, interval_next(minutes as int, minute_of(start), minute_of(end), base@)),
        r matches Ok(t) ==> t@.wf() && t@.key() > base@.key(),
{
    let opening: u32 = match start {
        Some(s) => s,
        None => 0,
    };
    match start {
        Some(s) => {
            if base.time_before_minute(s) {
                return Ok(Timestamp::at_minute(base.day, s));
            }
        },
        None => {},
    }
    match end {
        Some(e) => {
            if base.time_after_minute(e) {
                if base.day < MAX_DAY {
                    return Ok(Timestamp::at_minute(base.day + 1, opening));
                } else {
                    return Err(invalid("无法计算下一次触发时间"));
                }
            }
        },
        None => {},
    }
    let stepped = match base.checked_add_minutes(minutes) {
        Some(t) => t,
        None => {
            return Err(invalid("无法计算下一次触发时间"));
        },
    };
    match end {
        Some(e) => {
            if stepped.time_after_minute(e) {
                if base.day < MAX_DAY {
                    return Ok(Timestamp::at_minute(base.day + 1, opening));
                } else {
                    return Err(invalid("无法计算下一次触发时间"));
                }
            }
        },
        None => {},
    }
    match start {
        Some(s) => {
            if stepped.time_before_minute(s) {
                return Ok(Timestamp::at_minute(stepped.day, s));
            }
        },
        None => {},
    }
    Ok(stepped)
}

/// The next firing of a daily rule after a base time.
pub fn compute_daily_next(time: u32, base: &Timestamp) -> (r: Result<Timestamp, AppError>)
    requires
        base@.wf(),
        time < 1440,
    ensures
        agrees(r, daily_next(time as int, base@)),
        r matches Ok(t) ==> t@.wf() && t@.key() > base@.key(),
{
    let today = Timestamp::at_minute(base.day, time);
    if today.is_after(base) {
        Ok(today)
    } else if base.day < MAX_DAY {
        Ok(Timestamp::at_minute(base.day + 1, time))
    } else {
        Err(invalid("无法计算下一次触发时间"))
    }
}

/// The next firing of a weekly rule after a base time.
pub fn compute_weekly_next(time: u32, weekday: u32, base: &Timestamp) -> (r: Result<
    Timestamp,
    AppError,
>)
    requires
        base@.wf(),
        time < 1440,
        1 <= weekday <= 7,
    ensures
        agrees(r, weekly_next(time as int, weekday as int, base@)),
        r matches Ok(t) ==> t@.wf() && t@.key() > base@.key(),
{
    let ahead: u32 = (weekday + 7 - base.weekday()) % 7;
    let near: i64 = base.day as i64 + ahead as i64;
    let day: i64 = if near <= MAX_DAY as i64 && Timestamp::at_minute(near as i32, time).is_after(
        base,
    ) {
        near
    } else {
        near + 7
    };
    if day <= MAX_DAY as i64 {
        Ok(Timestamp::at_minute(day as i32, time))
    } else {
        Err(invalid("无法计算下一次触发时间"))
    }
}

/// The month after a month of a year.
pub fn next_month(year: i32, month: u32) -> (r: (i32, u32))
    requires
        year < i32::MAX,
        month < u32::MAX,
    ensures
        (r.0 as int, r.1 as int) == month_after(year as int, month as int),
{
    if month == 12 {
        (year + 1, 1)
    } else {
        (year, month + 1)
    }
}

/// The number of the last day of a month.
pub fn last_day_of_month(year: i32, month: u32) -> (r: Result<u32, AppError>)
    requires
        year < i32::MAX,
        month < u32::MAX,
    ensures
        match month_length(year as int, month as int) {
            Some(n) => r matches Ok(d) && d == n && 1 <= d <= 31,
            None => r matches Err(e) && e@ == fault_error(Fault::MonthUnknown),
        },
{
    let after = next_month(year, month);
    match day_of_civil(after.0, after.1, 1) {
        Some(first) => {
            if first > MIN_DAY {
                Ok(civil_of_day(first - 1).2)
            } else {
                Err(invalid("无法解析月份"))
            }
        },
        None => Err(invalid("无法解析月份")),
    }
}

/// The day of a month on which a monthly rule fires: the day asked for, or
/// the month's last day where the month is shorter.
pub fn clamp_day(day: u32, last: u32) -> (r: u32)
    ensures
        r == smaller(day as int, last as int),
{
    if day <= last {
        day
    } else {
        last
    }
}

/// The firing of a monthly rule in a given month.
pub fn month_datetime(year: i32, month: u32, day: u32, time: u32) -> (r: Result<
    Timestamp,
    AppError,
>)
    requires
        year < i32::MAX,
        month < u32::MAX,
        time < 1440,
    ensures
        agrees(r, month_moment(year as int, month as int, day as int, time as int)),
        r matches Ok(t) ==> t@.wf(),
{
    let last = match last_day_of_month(year, month) {
        Ok(d) => d,
        Err(e) => {
            return Err(e);
        },
    };
    match day_of_civil(year, month, clamp_day(day, last)) {
        Some(d) => Ok(Timestamp::at_minute(d, time)),
        None => Err(invalid("无法生成每月触发日期")),
    }
}

/// The next firing of a monthly rule after a base time.
pub fn compute_monthly_next(time: u32, day: u32, base: &Timestamp) -> (r: Result<
    Timestamp,
    AppError,
>)
    requires
        base@.wf(),
        time < 1440,
    ensures
        agrees(r, monthly_next(time as int, day as int, base@)),
        r matches Ok(t) ==> t@.wf() && t@.key() > base@.key(),
{
    let civil = civil_of_day(base.day);
    let first = match month_datetime(civil.0, civil.1, day, time) {
        Ok(t) => t,
        Err(e) => {
            return Err(e);
        },
    };
    if first.is_after(base) {
        return Ok(first);
    }
    let after = next_month(civil.0, civil.1);
    let second = match month_datetime(after.0, after.1, day, time) {
        Ok(t) => t,
        Err(e) => {
            return Err(e);
        },
    };
    if second.is_after(base) {
        Ok(second)
    } else {
        Err(invalid("无法计算下一次触发时间"))
    }
}

/// `Schedule::after` of the `cron` crate on the instant that a naive time in
/// UTC names in the machine's time zone, then the first item and its
/// `naive_local`: the first local time of the schedule that the crate finds
/// after the instant, or nothing where it finds none. The result depends on
/// the machine's time zone, so only its ranges are known. The search begins
/// one second after the instant, so the last representable day is left
/// out: there that second may not exist.
#[verifier::external_body]
pub(crate) fn schedule_after(schedule: &cron::Schedule, utc: &Timestamp) -> (r: Option<Timestamp>)
    requires
        utc@.wf(),
        utc.nano < 1_000_000_000,
        utc.day < MAX_DAY,
    ensures
        r matches Some(t) ==> t@.wf(),
{
    let date = chrono::NaiveDate::from_num_days_from_ce_opt(utc.day).unwrap();
    let time = chrono::NaiveTime::from_num_seconds_from_midnight_opt(utc.sec, utc.nano).unwrap();
    let start = chrono::TimeZone::from_utc_datetime(&chrono::Local, &date.and_time(time));
    let next = schedule.after(&start).next()?.naive_local();
    Some(
        Timestamp {
            day: next.date().num_days_from_ce(),
            sec: next.time().num_seconds_from_midnight(),
            nano: next.time().nanosecond(),
        },
    )
}

/// What the search of a cron schedule comes to: the time found where it
/// lies after the base time, and a fault where nothing was found or what
/// was found does not lie after the base time.
pub open spec fn cron_outcome(base: Moment, found: Option<Moment>) -> Result<Moment, Fault> {
    match found {
        None => Err(Fault::CronExhausted),
        Some(m) => if m.key() > base.key() {
            Ok(m)
        } else {
            Err(Fault::NoLaterTime)
        },
    }
}

/// Judges what the search of a cron schedule found.
pub fn cron_candidate(base: &Timestamp, found: Option<Timestamp>) -> (r: Result<
    Timestamp,
    AppError,
>)
    requires
        base@.wf(),
        found matches Some(t) ==> t@.wf(),
    ensures
        agrees(r, cron_outcome(base@, moment_of(found))),
{
    match found {
        None => Err(invalid("Cron 表达式没有未来触发时间")),
        Some(t) => if t.is_after(base) {
            Ok(t)
        } else {
            Err(invalid("无法计算下一次触发时间"))
        },
    }
}

/// Whether an error is one of those that the search of a valid cron
/// schedule can end in: the base time has no local reading, the schedule has
/// no time left, or what was found does not lie after the base time.
pub open spec fn cron_search_failure(e: AppErrorView) -> bool {
    ||| e == fault_error(Fault::LocalTimeUnknown)
    ||| e == fault_error(Fault::CronExhausted)
    ||| e == fault_error(Fault::NoLaterTime)
}

/// Whether an error is one that the computation of a cron rule's next
/// firing can report for an expression: the fault of the expression where
/// it has one, and otherwise a failure of the search.
pub open spec fn cron_failure(expression: Seq<char>, e: AppErrorView) -> bool {
    match schedule_expression(expression) {
        None => e == fault_error(Fault::CronFieldCount),
        Some(x) => match cron_parse_fault(x) {
            Some(m) => e == fault_error(Fault::CronRejected(m)),
            None => cron_search_failure(e),
        },
    }
}

/// Where the search of a cron schedule begins: at the instant that the base
/// time names, a fault where it names none, and a fault where the instant
/// is on the last representable day, which may lack the second after it.
pub open spec fn cron_start(instant: Option<Moment>) -> Result<Moment, Fault> {
    match instant {
        None => Err(Fault::LocalTimeUnknown),
        Some(m) => if m.day >= MAX_DAY {
            Err(Fault::NoLaterTime)
        } else {
            Ok(m)
        },
    }
}

/// Judges the instant that the machine's time zone gave for a base time.
pub fn cron_search_start(instant: Option<Timestamp>) -> (r: Result<Timestamp, AppError>)
    ensures
        agrees(r, cron_start(moment_of(instant))),
        r matches Ok(t) ==> instant == Some(t),
{
    match instant {
        None => Err(invalid("无法解析本地时间")),
        Some(t) => if t.day >= MAX_DAY {
            Err(invalid("无法计算下一次触发时间"))
        } else {
            Ok(t)
        },
    }
}

/// Whether a base time is on the first or the last representable day. Such
/// a base time has no local reading: the offset of a time zone could carry
/// it out of range.
pub open spec fn at_the_edge(base: Moment) -> bool {
    base.day <= MIN_DAY || base.day >= MAX_DAY
}

/// The next firing of a cron rule after a base time, both read in the
/// machine's local time. The expression is completed and parsed as
/// [`sanitize_cron_expression`] does, and an expression with a fault is
/// always rejected. A base time on the first or the last representable day
/// is always refused for a valid expression, as one without a local
/// reading. What the time zone and the search return depends on the
/// machine; [`cron_search_start`] and [`cron_candidate`] say what is made
/// of it.
pub fn compute_cron_next(expression: &str, base: &Timestamp) -> (r: Result<Timestamp, AppError>)
    requires
        base@.wf(),
    ensures
        match r {
            Ok(t) => {
                &&& t@.wf()
                &&& t@.key() > base@.key()
                &&& schedule_expression(expression@) matches Some(x) && cron_parse_fault(x) is None
                &&& !at_the_edge(base@)
            },
            Err(e) => cron_failure(expression@, e@),
        },
        (schedule_expression(expression@) matches Some(x) && cron_parse_fault(x) is None
            && at_the_edge(base@)) ==> (r matches Err(e) && e@ == fault_error(
            Fault::LocalTimeUnknown,
        )),
{
    let completed = match cron_schedule_expr(expression) {
        Ok(x) => x,
        Err(e) => {
            return Err(e);
        },
    };
    let schedule = match parse_schedule(completed.as_str()) {
        Ok(s) => s,
        Err(m) => {
            let mut message = String::from_str("Cron 表达式无效: ");
            message.append(m.as_str());
            return Err(AppError::Invalid(message));
        },
    };
    if base.day <= MIN_DAY || base.day >= MAX_DAY {
        return Err(invalid("无法解析本地时间"));
    }
    // The search reads the base time to the second, so a leap second is
    // searched from as the second that it extends.
    let utc = match cron_search_start(local_to_utc(&base.without_leap())) {
        Ok(t) => t,
        Err(e) => {
            return Err(e);
        },
    };
    let found = schedule_after(&schedule, &utc);
    cron_candidate(base, found)
}

/// The next firing of a rule after a base time. Where [`next_moment`] names
/// a result, that is the result: for every rule but a cron rule, and for a
/// cron rule with a base time on the first or the last representable day,
/// which is refused. For any other cron rule see [`compute_cron_next`].
/// Whatever the rule, a time that is returned lies after the base time.
pub fn next_occurrence(rule: &RecurrenceRule, base: &Timestamp) -> (r: Result<
    Timestamp,
    AppError,
>)
    requires
        base@.wf(),
        rule@.wf(),
    ensures
        next_moment(rule@, base@) matches Some(m) ==> agrees(r, m),
        rule@ is Cron ==> (r matches Err(e) ==> cron_search_failure(e@)),
        r matches Ok(t) ==> t@.wf() && t@.key() > base@.key(),
{
    match rule {
        RecurrenceRule::IntervalRange { minutes, start, end } => compute_interval_next(
            *minutes,
            *start,
            *end,
            base,
        ),
        RecurrenceRule::Daily { time } => compute_daily_next(*time, base),
        RecurrenceRule::Weekly { time, weekday } => compute_weekly_next(*time, *weekday, base),
        RecurrenceRule::Monthly { time, day } => compute_monthly_next(*time, *day, base),
        RecurrenceRule::Cron { expression } => compute_cron_next(expression.as_str(), base),
    }
}

/// The pattern in which a trigger time is written.
pub open spec fn trigger_pattern() -> Seq<char> {
    "%Y-%m-%dT%H:%M:%S"@
}

/// A moment as a trigger time: written to the second, as
/// [`timestamp_text`] says, where its year has four digits.
pub open spec fn trigger_text(m: Moment) -> Seq<char> {
    datetime_formatted(m, trigger_pattern())
}

/// Writes a timestamp as a trigger time.
pub fn format_trigger(t: &Timestamp) -> (r: String)
    requires
        t@.wf(),
    ensures
        r@ == trigger_text(t@),
{
    format_naive_datetime(t, "%Y-%m-%dT%H:%M:%S")
}

/// The time of a task's next firing after a base time, written as a trigger
/// time. The task is validated first, and a fault in it is reported. For a
/// cron rule the time depends on the machine's time zone; see
/// [`compute_cron_next`]. A cron rule with a base time on the first or the
/// last representable day is always refused.
pub fn compute_next_trigger(task: &RecurringTask, base: Timestamp) -> (r: Result<
    String,
    AppError,
>)
    requires
        base@.wf(),
    ensures
        match rule_of(task@.recurrence) {
            Err(f) => r matches Err(e) && e@ == fault_error(f),
            Ok(rule) => {
                &&& match next_moment(rule, base@) {
                    Some(Ok(m)) => r matches Ok(s) && s@ == trigger_text(m),
                    Some(Err(f)) => r matches Err(e) && e@ == fault_error(f),
                    None => true,
                }
                &&& r matches Ok(s) ==> exists|m: Moment|
                    m.wf() && m.key() > base@.key() && s@ == #[trigger] trigger_text(m)
                &&& rule is Cron ==> (r matches Err(e) ==> cron_search_failure(e@))
            },
        },
{
    let rule = match recurrence_rule(task) {
        Ok(rule) => rule,
        Err(e) => {
            return Err(e);
        },
    };
    match next_occurrence(&rule, &base) {
        Ok(next) => Ok(format_trigger(&next)),
        Err(e) => Err(e),
    }
}

/// Whether a rule lets a task fire at a given time: an interval rule only
/// within its window, every other rule always.
pub open spec fn fires_at(rule: Rule, now: Moment) -> bool {
    match rule {
        Rule::IntervalRange { minutes, start, end } => {
            &&& !(start is Some && now.time_key() < minute_key(start->0))
            &&& !(end is Some && now.time_key() > minute_key(end->0))
        },
        _ => true,
    }
}

/// Whether a validated rule lets a task fire at a given time.
pub fn rule_fires_at(rule: &RecurrenceRule, now: &Timestamp) -> (r: bool)
    requires
        now@.wf(),
        rule@.wf(),
    ensures
        r == fires_at(rule@, now@),
{
    match rule {
        RecurrenceRule::IntervalRange { minutes, start, end } => {
            let early = match start {
                Some(s) => now.time_before_minute(*s),
                None => false,
            };
            let late = match end {
                Some(e) => now.time_after_minute(*e),
                None => false,
            };
            !early && !late
        },
        _ => true,
    }
}

/// Whether a task may fire at a given time. The task is validated first,
/// and a fault in it is reported.
pub fn should_trigger_now(task: &RecurringTask, now: Timestamp) -> (r: Result<bool, AppError>)
    requires
        now@.wf(),
    ensures
        match rule_of(task@.recurrence) {
            Ok(rule) => r == Ok::<bool, AppError>(fires_at(rule, now@)),
            Err(f) => r matches Err(e) && e@ == fault_error(f),
        },
{
    match recurrence_rule(task) {
        Ok(rule) => Ok(rule_fires_at(&rule, &now)),
        Err(e) => Err(e),
    }
}

/// The canonical text of a minute of the day is canonical, names that
/// minute, and has no whitespace around it.
pub proof fn lemma_clock_text_canonical(m: int)
    requires
        0 <= m < 1440,
    ensures
        is_clock_text(clock_text(m)),
        clock_text_minutes(clock_text(m)) == m,
        trimmed(clock_text(m)) == clock_text(m),
        time_field(Some(clock_text(m))) == Ok::<Option<int>, ()>(Some(m)),
{
    let s = clock_text(m);
    let h = m / 60;
    let n = m % 60;
    assert(digit_value(digit_char(h / 10)) == h / 10 && is_digit(digit_char(h / 10)));
    assert(digit_value(digit_char(h % 10)) == h % 10 && is_digit(digit_char(h % 10)));
    assert(digit_value(digit_char(n / 10)) == n / 10 && is_digit(digit_char(n / 10)));
    assert(digit_value(digit_char(n % 10)) == n % 10 && is_digit(digit_char(n % 10)));
    assert(is_ascii_graphic(s[0]) && is_ascii_graphic(s[4]));
    assert(s.last() == s[4]);
    lemma_trimmed_of_tight(s);
}

/// A text of printable ASCII characters without lowercase letters is its
/// own trimmed uppercase form.
proof fn lemma_plain_name_fixed(name: Seq<char>)
    requires
        forall|i: int|
            0 <= i < name.len() ==> is_ascii_graphic(#[trigger] name[i])
                && is_ascii_without_lowercase(name[i]),
    ensures
        upper_text(trimmed(name)) == name,
{
    if name.len() > 0 {
        assert(is_ascii_graphic(name[0]));
        assert(is_ascii_graphic(name.last()));
    }
    lemma_trimmed_of_tight(name);
}

/// The canonical name of a mode stands for that mode.
pub proof fn lemma_mode_of_name(mode: RepeatMode)
    ensures
        mode_of(mode_name(mode)) == mode,
{
    reveal_strlit("INTERVAL_RANGE");
    reveal_strlit("DAILY");
    reveal_strlit("WEEKLY");
    reveal_strlit("MONTHLY");
    reveal_strlit("CRON");
    lemma_plain_name_fixed(mode_name(mode));
}

/// The fields of a validated rule describe that rule again.
pub proof fn lemma_rule_of_fields(rule: Rule, interval_minutes: int)
    requires
        rule.wf(),
        interval_minutes >= 1,
        rule matches Rule::IntervalRange { minutes, .. } ==> minutes == interval_minutes,
    ensures
        rule_of(fields_of(rule, interval_minutes)) == Ok::<Rule, Fault>(rule),
{
    let f = fields_of(rule, interval_minutes);
    match rule {
        Rule::IntervalRange { minutes, start, end } => {
            lemma_mode_of_name(RepeatMode::IntervalRange);
            if start is Some {
                lemma_clock_text_canonical(start->0);
            }
            if end is Some {
                lemma_clock_text_canonical(end->0);
            }
        },
        Rule::Daily { time } => {
            lemma_mode_of_name(RepeatMode::Daily);
            lemma_clock_text_canonical(time);
        },
        Rule::Weekly { time, weekday } => {
            lemma_mode_of_name(RepeatMode::Weekly);
            lemma_clock_text_canonical(time);
        },
        Rule::Monthly { time, day } => {
            lemma_mode_of_name(RepeatMode::Monthly);
            lemma_clock_text_canonical(time);
        },
        Rule::Cron { expression } => {
            lemma_mode_of_name(RepeatMode::Cron);
        },
    }
}

/// A rule that is read off the fields of a recurrence is valid, and an
/// interval rule has the recurrence's interval, raised to one minute where
/// it is less.
pub proof fn lemma_rule_of_valid(r: RecurrenceView)
    ensures
        rule_of(r) matches Ok(rule) ==> rule.wf() && (rule matches Rule::IntervalRange {
            minutes,
            ..
        } ==> minutes == at_least_one(r.interval_minutes)),
{
    if rule_of(r) is Ok {
        let rule = rule_of(r)->Ok_0;
        if rule is Cron {
            lemma_trimmed_idempotent(r.cron_expression->0);
            lemma_cron_fault_of_trimmed(r.cron_expression->0);
        }
    }
}

/// Validation is idempotent: a task in normal form is its own normal form.
pub proof fn lemma_sanitize_idempotent(v: RecurringTaskView)
    ensures
        sanitized(v) matches Ok(n) ==> sanitized(n) == Ok::<RecurringTaskView, Fault>(n),
{
    if sanitized(v) is Ok {
        let n = sanitized(v)->Ok_0;
        let rule = rule_of(v.recurrence)->Ok_0;
        let interval = at_least_one(v.recurrence.interval_minutes);
        lemma_rule_of_valid(v.recurrence);
        lemma_rule_of_fields(rule, interval);
        lemma_trimmed_idempotent(v.description);
        assert(n.recurrence == fields_of(rule, interval));
        assert(at_least_one(n.recurrence.interval_minutes) == interval);
        assert(sanitized(n)->Ok_0.recurrence == n.recurrence);
    }
}

/// An interval rule with a window fires next after the base time, at a
/// time of day within the window.
pub proof fn lemma_interval_next_in_window(minutes: int, start: int, end: int, base: Moment)
    requires
        base.wf(),
        minutes >= 1,
        0 <= start <= end < 1440,
    ensures
        interval_next(minutes, Some(start), Some(end), base) matches Ok(next) ==> {
            &&& next.wf()
            &&& next.key() > base.key()
            &&& minute_key(start) <= next.time_key() <= minute_key(end)
        },
{
    if base.plus_seconds(minutes * 60) is Some {
        lemma_plus_seconds_later(base, minutes * 60);
    }
}

/// A weekly rule fires next on its weekday, after the base time and no
/// later than the base time's time of day a week on. Measured from a base
/// time that is no leap second, the firing is more than nothing and at most
/// seven days away.
pub proof fn lemma_weekly_next_within_week(time: int, weekday: int, base: Moment)
    requires
        base.wf(),
        0 <= time < 1440,
        1 <= weekday <= 7,
    ensures
        weekly_next(time, weekday, base) matches Ok(next) ==> {
            &&& next.weekday() == weekday
            &&& next.key() > base.key()
            &&& next.key() <= base.on_day(base.day + 7).key()
            &&& base.nano < 1_000_000_000 ==> 0 < next.nanos_since(base)
                <= 604_800_000_000_000
        },
{
}

/// A daily rule fires next after the base time and within a day of it.
pub proof fn lemma_daily_next_within_day(time: int, base: Moment)
    requires
        base.wf(),
        0 <= time < 1440,
    ensures
        daily_next(time, base) matches Ok(next) ==> {
            &&& next.time_key() == minute_key(time)
            &&& next.key() > base.key()
            &&& next.key() <= base.on_day(base.day + 1).key()
        },
{
}

} // verus!
