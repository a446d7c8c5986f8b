use chrono::{Datelike, NaiveDate};
use task_reminder::datemath::{Timestamp, MAX_DAY, MIN_DAY};
use task_reminder::errors::AppError;
use task_reminder::models::RecurringTask;
use task_reminder::recurrence::{
    clamp_day, compute_cron_next, compute_daily_next, compute_interval_next, compute_monthly_next,
    cron_search_start,
    compute_next_trigger, compute_weekly_next, cron_candidate, cron_schedule_expr, format_clock,
    format_trigger, last_day_of_month, month_datetime, next_month, next_occurrence,
    normalize_repeat_mode, normalize_text, normalize_time_field, normalize_time_minutes,
    recurrence_rule, repeat_mode_name, repeat_mode_of, repeat_mode_of_upper, rule_fires_at,
    rule_from_fields,
    sanitize_cron_expression, sanitize_recurring_task, should_trigger_now, RecurrenceRule,
    RepeatMode, REPEAT_MODE_CRON, REPEAT_MODE_DAILY, REPEAT_MODE_INTERVAL_RANGE,
    REPEAT_MODE_MONTHLY, REPEAT_MODE_WEEKLY,
};

fn rc_at(y: i32, m: u32, d: u32, h: u32, mi: u32, s: u32) -> Timestamp {
    Timestamp {
        day: NaiveDate::from_ymd_opt(y, m, d).unwrap().num_days_from_ce(),
        sec: h * 3600 + mi * 60 + s,
        nano: 0,
    }
}

fn rc_task(mode: &str) -> RecurringTask {
    RecurringTask {
        id: "r-1".to_string(),
        description: "  drink water  ".to_string(),
        task_type: "RECURRING".to_string(),
        status: "PENDING".to_string(),
        created_at: "2024-01-01T00:00:00".to_string(),
        completed_at: None,
        reminder_time: None,
        updated_at: None,
        deleted_at: None,
        interval_minutes: 30,
        last_triggered: None,
        next_trigger: String::new(),
        is_paused: false,
        start_time: None,
        end_time: None,
        repeat_mode: mode.to_string(),
        schedule_time: None,
        schedule_weekday: None,
        schedule_day: None,
        cron_expression: None,
    }
}

fn rc_invalid(r: Result<(), AppError>) -> String {
    match r {
        Err(AppError::Invalid(m)) => m,
        other => panic!("expected a validation error, got {:?}", other),
    }
}

#[test]
fn mode_names_are_the_five_constants() {
    assert_eq!(REPEAT_MODE_INTERVAL_RANGE, "INTERVAL_RANGE");
    assert_eq!(REPEAT_MODE_DAILY, "DAILY");
    assert_eq!(REPEAT_MODE_WEEKLY, "WEEKLY");
    assert_eq!(REPEAT_MODE_MONTHLY, "MONTHLY");
    assert_eq!(REPEAT_MODE_CRON, "CRON");
    assert_eq!(repeat_mode_name(RepeatMode::IntervalRange), REPEAT_MODE_INTERVAL_RANGE);
    assert_eq!(repeat_mode_name(RepeatMode::Daily), REPEAT_MODE_DAILY);
    assert_eq!(repeat_mode_name(RepeatMode::Weekly), REPEAT_MODE_WEEKLY);
    assert_eq!(repeat_mode_name(RepeatMode::Monthly), REPEAT_MODE_MONTHLY);
    assert_eq!(repeat_mode_name(RepeatMode::Cron), REPEAT_MODE_CRON);
}

#[test]
fn normalize_repeat_mode_is_case_insensitive() {
    assert_eq!(normalize_repeat_mode(" daily "), "DAILY");
    assert_eq!(normalize_repeat_mode("Weekly"), "WEEKLY");
    assert_eq!(normalize_repeat_mode("monthly"), "MONTHLY");
    assert_eq!(normalize_repeat_mode("cron"), "CRON");
    assert_eq!(normalize_repeat_mode("interval"), "INTERVAL_RANGE");
    assert_eq!(normalize_repeat_mode("INTERVAL-RANGE"), "INTERVAL_RANGE");
    assert_eq!(normalize_repeat_mode("interval_range"), "INTERVAL_RANGE");
}

#[test]
fn unknown_modes_become_the_interval_mode() {
    assert_eq!(normalize_repeat_mode("whatever"), "INTERVAL_RANGE");
    assert_eq!(normalize_repeat_mode(""), "INTERVAL_RANGE");
    assert_eq!(normalize_repeat_mode("DAI LY"), "INTERVAL_RANGE");
}

#[test]
fn uppercase_follows_unicode() {
    // The dotless i has the plain capital I as its uppercase form.
    assert_eq!(repeat_mode_of("da\u{131}ly"), RepeatMode::Daily);
    assert_eq!(repeat_mode_of_upper("daily"), RepeatMode::IntervalRange);
    assert_eq!(repeat_mode_of_upper("DAILY"), RepeatMode::Daily);
}

#[test]
fn normalize_repeat_mode_is_idempotent() {
    for m in ["daily", " Weekly", "MONTHLY ", "cron", "x", "interval"] {
        let once = normalize_repeat_mode(m);
        assert_eq!(normalize_repeat_mode(&once), once);
    }
}

#[test]
fn texts_are_trimmed_and_blank_ones_dropped() {
    assert_eq!(normalize_text(None), None);
    assert_eq!(normalize_text(Some("")), None);
    assert_eq!(normalize_text(Some("  \t")), None);
    assert_eq!(normalize_text(Some(" */5 * * * * ")), Some("*/5 * * * *".to_string()));
}

#[test]
fn clock_times_are_written_with_two_digits() {
    assert_eq!(format_clock(0), "00:00");
    assert_eq!(format_clock(9 * 60 + 5), "09:05");
    assert_eq!(format_clock(1439), "23:59");
}

#[test]
fn time_fields_are_normalised() {
    assert_eq!(normalize_time_field(None, "开始时间").unwrap(), None);
    assert_eq!(normalize_time_field(Some("   "), "开始时间").unwrap(), None);
    assert_eq!(normalize_time_field(Some("08:30"), "开始时间").unwrap(), Some("08:30".to_string()));
    assert_eq!(normalize_time_field(Some(" 8:5 "), "开始时间").unwrap(), Some("08:05".to_string()));
    assert_eq!(normalize_time_field(Some("23:59"), "开始时间").unwrap(), Some("23:59".to_string()));
    assert_eq!(normalize_time_minutes(Some("08:30"), "开始时间").unwrap(), Some(510));
}

#[test]
fn bad_time_fields_name_the_field() {
    for bad in ["24:00", "12:60", "noon", "12", "12:30:00", "12-30"] {
        match normalize_time_field(Some(bad), "结束时间") {
            Err(AppError::Invalid(m)) => {
                assert_eq!(m, "结束时间格式错误，应为 HH:mm，例如 08:30")
            }
            other => panic!("{} was accepted: {:?}", bad, other),
        }
    }
}

#[test]
fn cron_expressions_get_a_seconds_field() {
    assert_eq!(cron_schedule_expr("*/5 * * * *").unwrap(), "0 */5 * * * *");
    assert_eq!(cron_schedule_expr("0 */5 * * * *").unwrap(), "0 */5 * * * *");
    assert_eq!(cron_schedule_expr("0 0 12 * * Mon 2030").unwrap(), "0 0 12 * * Mon 2030");
}

#[test]
fn cron_expressions_need_five_to_seven_fields() {
    for bad in ["", "* * * *", "* * * * * * * *"] {
        match cron_schedule_expr(bad) {
            Err(AppError::Invalid(m)) => assert_eq!(m, "Cron 表达式需为 5、6 或 7 段"),
            other => panic!("{:?} was accepted: {:?}", bad, other),
        }
    }
}

#[test]
fn cron_expressions_are_trimmed_and_checked() {
    assert_eq!(sanitize_cron_expression("  */5 * * * * ").unwrap(), "*/5 * * * *");
    match sanitize_cron_expression("   ") {
        Err(AppError::Invalid(m)) => assert_eq!(m, "Cron 表达式不能为空"),
        other => panic!("accepted: {:?}", other),
    }
    match sanitize_cron_expression("* * *") {
        Err(AppError::Invalid(m)) => assert_eq!(m, "Cron 表达式需为 5、6 或 7 段"),
        other => panic!("accepted: {:?}", other),
    }
    match sanitize_cron_expression("99 * * * *") {
        Err(AppError::Invalid(m)) => assert!(m.starts_with("Cron 表达式无效: ") && m.len() > "Cron 表达式无效: ".len()),
        other => panic!("accepted: {:?}", other),
    }
}

#[test]
fn sanitize_interval_task() {
    let mut t = rc_task(" interval ");
    t.interval_minutes = 0;
    t.start_time = Some(" 9:00".to_string());
    t.end_time = Some("17:30 ".to_string());
    t.schedule_time = Some("08:00".to_string());
    t.schedule_weekday = Some(3);
    t.schedule_day = Some(12);
    t.cron_expression = Some("* * * * *".to_string());
    sanitize_recurring_task(&mut t).unwrap();
    assert_eq!(t.description, "drink water");
    assert_eq!(t.repeat_mode, "INTERVAL_RANGE");
    assert_eq!(t.interval_minutes, 1);
    assert_eq!(t.start_time, Some("09:00".to_string()));
    assert_eq!(t.end_time, Some("17:30".to_string()));
    assert_eq!(t.schedule_time, None);
    assert_eq!(t.schedule_weekday, None);
    assert_eq!(t.schedule_day, None);
    assert_eq!(t.cron_expression, None);
    assert_eq!(t.id, "r-1");
    assert_eq!(t.created_at, "2024-01-01T00:00:00");
}

#[test]
fn sanitize_daily_weekly_monthly_cron() {
    let mut d = rc_task("daily");
    d.schedule_time = Some("9:00".to_string());
    d.start_time = Some("08:00".to_string());
    d.schedule_weekday = Some(2);
    sanitize_recurring_task(&mut d).unwrap();
    assert_eq!(d.repeat_mode, "DAILY");
    assert_eq!(d.schedule_time, Some("09:00".to_string()));
    assert_eq!((d.start_time.clone(), d.end_time.clone()), (None, None));
    assert_eq!((d.schedule_weekday, d.schedule_day, d.cron_expression.clone()), (None, None, None));

    let mut w = rc_task("weekly");
    w.schedule_time = Some("09:00".to_string());
    w.schedule_weekday = Some(7);
    w.schedule_day = Some(3);
    sanitize_recurring_task(&mut w).unwrap();
    assert_eq!(w.repeat_mode, "WEEKLY");
    assert_eq!(w.schedule_weekday, Some(7));
    assert_eq!(w.schedule_day, None);

    let mut m = rc_task("monthly");
    m.schedule_time = Some("09:00".to_string());
    m.schedule_day = Some(31);
    m.schedule_weekday = Some(3);
    sanitize_recurring_task(&mut m).unwrap();
    assert_eq!(m.repeat_mode, "MONTHLY");
    assert_eq!(m.schedule_day, Some(31));
    assert_eq!(m.schedule_weekday, None);

    let mut c = rc_task("cron");
    c.cron_expression = Some("  0 9 * * *  ".to_string());
    c.schedule_time = Some("09:00".to_string());
    sanitize_recurring_task(&mut c).unwrap();
    assert_eq!(c.repeat_mode, "CRON");
    assert_eq!(c.cron_expression, Some("0 9 * * *".to_string()));
    assert_eq!(c.schedule_time, None);
}

#[test]
fn sanitize_is_idempotent() {
    let mut samples = Vec::new();
    let mut a = rc_task(" interval ");
    a.start_time = Some("9:0".to_string());
    a.end_time = Some(" 17:05".to_string());
    a.interval_minutes = -4;
    samples.push(a);
    let mut b = rc_task("Daily");
    b.schedule_time = Some("7:30".to_string());
    samples.push(b);
    let mut c = rc_task("weekly");
    c.schedule_time = Some("07:30".to_string());
    c.schedule_weekday = Some(1);
    samples.push(c);
    let mut d = rc_task("MONTHLY");
    d.schedule_time = Some("23:59".to_string());
    d.schedule_day = Some(31);
    samples.push(d);
    let mut e = rc_task("cron");
    e.cron_expression = Some("  */10 * * * *\t".to_string());
    samples.push(e);
    for mut t in samples {
        sanitize_recurring_task(&mut t).unwrap();
        let once = t.clone();
        sanitize_recurring_task(&mut t).unwrap();
        assert_eq!(t, once);
    }
}

#[test]
fn sanitize_rejects_each_fault() {
    let mut t = rc_task("interval");
    t.start_time = Some("later".to_string());
    assert_eq!(rc_invalid(sanitize_recurring_task(&mut t)), "开始时间格式错误，应为 HH:mm，例如 08:30");

    let mut t = rc_task("interval");
    t.end_time = Some("24:01".to_string());
    assert_eq!(rc_invalid(sanitize_recurring_task(&mut t)), "结束时间格式错误，应为 HH:mm，例如 08:30");

    let mut t = rc_task("daily");
    t.schedule_time = Some("9h".to_string());
    assert_eq!(rc_invalid(sanitize_recurring_task(&mut t)), "触发时间格式错误，应为 HH:mm，例如 08:30");

    let mut t = rc_task("interval");
    t.start_time = Some("18:00".to_string());
    t.end_time = Some("09:00".to_string());
    assert_eq!(rc_invalid(sanitize_recurring_task(&mut t)), "间隔模式中开始时间不能晚于结束时间");

    let mut t = rc_task("daily");
    assert_eq!(rc_invalid(sanitize_recurring_task(&mut t)), "每日模式需要设置触发时间");

    let mut t = rc_task("weekly");
    assert_eq!(rc_invalid(sanitize_recurring_task(&mut t)), "每周模式需要设置触发时间");
    t.schedule_time = Some("09:00".to_string());
    assert_eq!(rc_invalid(sanitize_recurring_task(&mut t)), "每周模式需要设置周几");
    t.schedule_weekday = Some(0);
    assert_eq!(rc_invalid(sanitize_recurring_task(&mut t)), "每周模式中的周几必须在 1 到 7 之间");
    t.schedule_weekday = Some(8);
    assert_eq!(rc_invalid(sanitize_recurring_task(&mut t)), "每周模式中的周几必须在 1 到 7 之间");

    let mut t = rc_task("monthly");
    assert_eq!(rc_invalid(sanitize_recurring_task(&mut t)), "每月模式需要设置触发时间");
    t.schedule_time = Some("09:00".to_string());
    assert_eq!(rc_invalid(sanitize_recurring_task(&mut t)), "每月模式需要设置几号");
    t.schedule_day = Some(0);
    assert_eq!(rc_invalid(sanitize_recurring_task(&mut t)), "每月模式中的几号必须在 1 到 31 之间");
    t.schedule_day = Some(32);
    assert_eq!(rc_invalid(sanitize_recurring_task(&mut t)), "每月模式中的几号必须在 1 到 31 之间");

    let mut t = rc_task("cron");
    assert_eq!(rc_invalid(sanitize_recurring_task(&mut t)), "Cron 模式需要表达式");
    t.cron_expression = Some("   ".to_string());
    assert_eq!(rc_invalid(sanitize_recurring_task(&mut t)), "Cron 模式需要表达式");
    t.cron_expression = Some("* * *".to_string());
    assert_eq!(rc_invalid(sanitize_recurring_task(&mut t)), "Cron 表达式需为 5、6 或 7 段");
    t.cron_expression = Some("61 * * * *".to_string());
    assert!(rc_invalid(sanitize_recurring_task(&mut t)).starts_with("Cron 表达式无效: "));
}

#[test]
fn a_rejected_task_is_left_as_it_was() {
    let mut t = rc_task(" weekly ");
    t.schedule_time = Some(" 9:00 ".to_string());
    t.schedule_weekday = Some(9);
    let before = t.clone();
    assert!(sanitize_recurring_task(&mut t).is_err());
    assert_eq!(t, before);
}

#[test]
fn start_after_end_is_rejected_in_every_mode() {
    let mut t = rc_task("daily");
    t.schedule_time = Some("09:00".to_string());
    t.start_time = Some("18:00".to_string());
    t.end_time = Some("09:00".to_string());
    assert_eq!(rc_invalid(sanitize_recurring_task(&mut t)), "间隔模式中开始时间不能晚于结束时间");
}

#[test]
fn rules_are_read_off_the_fields() {
    let mut t = rc_task("interval");
    t.interval_minutes = 0;
    t.start_time = Some("09:00".to_string());
    assert_eq!(
        recurrence_rule(&t).unwrap(),
        RecurrenceRule::IntervalRange { minutes: 1, start: Some(540), end: None }
    );
    let mut t = rc_task("weekly");
    t.schedule_time = Some("09:30".to_string());
    t.schedule_weekday = Some(3);
    assert_eq!(recurrence_rule(&t).unwrap(), RecurrenceRule::Weekly { time: 570, weekday: 3 });
    let mut t = rc_task("cron");
    t.cron_expression = Some(" 0 9 * * * ".to_string());
    assert_eq!(
        recurrence_rule(&t).unwrap(),
        RecurrenceRule::Cron { expression: "0 9 * * *".to_string() }
    );
}

#[test]
fn daily_scenario() {
    let mut t = rc_task("DAILY");
    t.schedule_time = Some("09:00".to_string());
    assert_eq!(
        compute_next_trigger(&t, rc_at(2024, 1, 1, 10, 0, 0)).unwrap(),
        "2024-01-02T09:00:00"
    );
    assert_eq!(
        compute_next_trigger(&t, rc_at(2024, 1, 1, 8, 0, 0)).unwrap(),
        "2024-01-01T09:00:00"
    );
    assert_eq!(
        compute_next_trigger(&t, rc_at(2024, 1, 1, 9, 0, 0)).unwrap(),
        "2024-01-02T09:00:00"
    );
}

#[test]
fn daily_next_has_no_day_after_the_last() {
    let last = Timestamp { day: MAX_DAY, sec: 36_000, nano: 0 };
    assert_eq!(
        compute_daily_next(660, &last).unwrap(),
        Timestamp { day: MAX_DAY, sec: 39_600, nano: 0 }
    );
    match compute_daily_next(540, &last) {
        Err(AppError::Invalid(m)) => assert_eq!(m, "无法计算下一次触发时间"),
        other => panic!("{:?}", other),
    }
}

#[test]
fn interval_snaps_to_the_window() {
    let start = Some(9 * 60);
    let end = Some(17 * 60);
    // Before the window: its start on the same day.
    assert_eq!(
        compute_interval_next(30, start, end, &rc_at(2024, 1, 1, 8, 0, 0)).unwrap(),
        rc_at(2024, 1, 1, 9, 0, 0)
    );
    // After the window: its start on the next day.
    assert_eq!(
        compute_interval_next(30, start, end, &rc_at(2024, 1, 1, 18, 0, 0)).unwrap(),
        rc_at(2024, 1, 2, 9, 0, 0)
    );
    // Within the window: the base time plus the interval.
    assert_eq!(
        compute_interval_next(30, start, end, &rc_at(2024, 1, 1, 10, 0, 7)).unwrap(),
        rc_at(2024, 1, 1, 10, 30, 7)
    );
    // The interval leads behind the end: the start on the next day.
    assert_eq!(
        compute_interval_next(30, start, end, &rc_at(2024, 1, 1, 16, 45, 0)).unwrap(),
        rc_at(2024, 1, 2, 9, 0, 0)
    );
    // The end itself is within the window.
    assert_eq!(
        compute_interval_next(30, start, end, &rc_at(2024, 1, 1, 16, 30, 0)).unwrap(),
        rc_at(2024, 1, 1, 17, 0, 0)
    );
    // An interval of days that lands before the start is moved to the start.
    assert_eq!(
        compute_interval_next(3 * 1440 - 120, start, end, &rc_at(2024, 1, 1, 10, 0, 0)).unwrap(),
        rc_at(2024, 1, 4, 9, 0, 0)
    );
}

#[test]
fn interval_without_a_window_just_adds() {
    assert_eq!(
        compute_interval_next(45, None, None, &rc_at(2024, 12, 31, 23, 30, 0)).unwrap(),
        rc_at(2025, 1, 1, 0, 15, 0)
    );
    // Without a start the window opens at midnight.
    assert_eq!(
        compute_interval_next(45, None, Some(12 * 60), &rc_at(2024, 1, 1, 13, 0, 0)).unwrap(),
        rc_at(2024, 1, 2, 0, 0, 0)
    );
}

#[test]
fn interval_results_lie_after_the_base_and_within_the_window() {
    let start = 8 * 60 + 15;
    let end = 20 * 60 + 40;
    for minutes in [1i64, 7, 60, 725, 1440, 5000] {
        for sec in (0..86_400u32).step_by(1237) {
            let base = Timestamp { day: 738_900, sec, nano: 5 };
            let next = compute_interval_next(minutes, Some(start), Some(end), &base).unwrap();
            assert!(next.is_after(&base));
            assert!(!next.time_before_minute(start) && !next.time_after_minute(end));
        }
    }
}

#[test]
fn interval_overflow_is_an_error() {
    let last = Timestamp { day: MAX_DAY, sec: 86_000, nano: 0 };
    match compute_interval_next(60, None, None, &last) {
        Err(AppError::Invalid(m)) => assert_eq!(m, "无法计算下一次触发时间"),
        other => panic!("{:?}", other),
    }
    match compute_interval_next(i64::MAX, None, None, &rc_at(2024, 1, 1, 0, 0, 0)) {
        Err(AppError::Invalid(m)) => assert_eq!(m, "无法计算下一次触发时间"),
        other => panic!("{:?}", other),
    }
}

#[test]
fn weekly_picks_the_weekday() {
    // 1 January 2024 is a Monday.
    let base = rc_at(2024, 1, 1, 10, 0, 0);
    assert_eq!(compute_weekly_next(540, 3, &base).unwrap(), rc_at(2024, 1, 3, 9, 0, 0));
    assert_eq!(compute_weekly_next(540, 1, &base).unwrap(), rc_at(2024, 1, 8, 9, 0, 0));
    assert_eq!(compute_weekly_next(660, 1, &base).unwrap(), rc_at(2024, 1, 1, 11, 0, 0));
    assert_eq!(compute_weekly_next(600, 1, &base).unwrap(), rc_at(2024, 1, 8, 10, 0, 0));
    assert_eq!(compute_weekly_next(540, 7, &base).unwrap(), rc_at(2024, 1, 7, 9, 0, 0));
}

#[test]
fn weekly_results_fall_on_the_weekday_within_a_week() {
    for weekday in 1..=7u32 {
        for day in 738_880..738_900 {
            for sec in [0u32, 32_399, 32_400, 32_401, 86_399] {
                let base = Timestamp { day, sec, nano: 0 };
                let next = compute_weekly_next(540, weekday, &base).unwrap();
                assert_eq!(next.weekday(), weekday);
                assert!(next.is_after(&base));
                let (secs, nanos) = next.duration_since(&base).unwrap();
                assert!(secs > 0 || nanos > 0);
                assert!(secs < 604_800 || (secs == 604_800 && nanos == 0));
            }
        }
    }
}

#[test]
fn months_follow_each_other() {
    assert_eq!(next_month(2024, 1), (2024, 2));
    assert_eq!(next_month(2024, 12), (2025, 1));
    assert_eq!(last_day_of_month(2024, 2).unwrap(), 29);
    assert_eq!(last_day_of_month(2023, 2).unwrap(), 28);
    assert_eq!(last_day_of_month(1900, 2).unwrap(), 28);
    assert_eq!(last_day_of_month(2000, 2).unwrap(), 29);
    assert_eq!(last_day_of_month(2024, 4).unwrap(), 30);
    assert_eq!(last_day_of_month(2024, 12).unwrap(), 31);
    match last_day_of_month(2024, 13) {
        Err(AppError::Invalid(m)) => assert_eq!(m, "无法解析月份"),
        other => panic!("{:?}", other),
    }
    assert_eq!(month_datetime(2024, 2, 31, 540).unwrap(), rc_at(2024, 2, 29, 9, 0, 0));
    assert_eq!(month_datetime(2024, 3, 31, 540).unwrap(), rc_at(2024, 3, 31, 9, 0, 0));
    match month_datetime(2024, 2, 0, 540) {
        Err(AppError::Invalid(m)) => assert_eq!(m, "无法生成每月触发日期"),
        other => panic!("{:?}", other),
    }
}

#[test]
fn monthly_day_31_in_february_is_the_last_day() {
    let mut t = rc_task("monthly");
    t.schedule_time = Some("09:00".to_string());
    t.schedule_day = Some(31);
    assert_eq!(
        compute_next_trigger(&t, rc_at(2024, 2, 10, 10, 0, 0)).unwrap(),
        "2024-02-29T09:00:00"
    );
    assert_eq!(
        compute_next_trigger(&t, rc_at(2023, 2, 10, 10, 0, 0)).unwrap(),
        "2023-02-28T09:00:00"
    );
    assert_eq!(
        compute_next_trigger(&t, rc_at(2024, 1, 31, 10, 0, 0)).unwrap(),
        "2024-02-29T09:00:00"
    );
    assert_eq!(
        compute_next_trigger(&t, rc_at(2024, 2, 29, 9, 0, 0)).unwrap(),
        "2024-03-31T09:00:00"
    );
    assert_eq!(
        compute_monthly_next(540, 15, &rc_at(2024, 12, 20, 0, 0, 0)).unwrap(),
        rc_at(2025, 1, 15, 9, 0, 0)
    );
}

#[test]
fn cron_finds_the_next_match() {
    let base = rc_at(2024, 1, 1, 10, 0, 3);
    let next = compute_cron_next("*/5 * * * *", &base).unwrap();
    assert_eq!(next, rc_at(2024, 1, 1, 10, 5, 0));
    let next = compute_cron_next("30 15 9 * * *", &base).unwrap();
    assert_eq!(next, rc_at(2024, 1, 2, 9, 15, 30));
    let mut t = rc_task("cron");
    t.cron_expression = Some(" 0 12 * * * ".to_string());
    assert_eq!(compute_next_trigger(&t, base).unwrap(), "2024-01-01T12:00:00");
}

#[test]
fn cron_faults_are_reported() {
    let base = rc_at(2024, 1, 1, 10, 0, 0);
    match compute_cron_next("* *", &base) {
        Err(AppError::Invalid(m)) => assert_eq!(m, "Cron 表达式需为 5、6 或 7 段"),
        other => panic!("{:?}", other),
    }
    match compute_cron_next("a b c d e", &base) {
        Err(AppError::Invalid(m)) => assert!(m.starts_with("Cron 表达式无效: ")),
        other => panic!("{:?}", other),
    }
    // A schedule whose years are all past has no time left.
    match compute_cron_next("0 0 0 1 1 * 1999", &base) {
        Err(AppError::Invalid(m)) => assert_eq!(m, "Cron 表达式没有未来触发时间"),
        other => panic!("{:?}", other),
    }
    match compute_cron_next("* * * * *", &Timestamp { day: MAX_DAY, sec: 0, nano: 0 }) {
        Err(AppError::Invalid(m)) => assert_eq!(m, "无法解析本地时间"),
        other => panic!("{:?}", other),
    }
}

#[test]
fn what_the_cron_search_found_must_lie_after_the_base() {
    let base = rc_at(2024, 1, 1, 10, 0, 0);
    let later = rc_at(2024, 1, 1, 10, 0, 1);
    assert_eq!(cron_candidate(&base, Some(later)).unwrap(), later);
    match cron_candidate(&base, None) {
        Err(AppError::Invalid(m)) => assert_eq!(m, "Cron 表达式没有未来触发时间"),
        other => panic!("{:?}", other),
    }
    match cron_candidate(&base, Some(base)) {
        Err(AppError::Invalid(m)) => assert_eq!(m, "无法计算下一次触发时间"),
        other => panic!("{:?}", other),
    }
}

#[test]
fn next_occurrence_follows_the_rule() {
    let base = rc_at(2024, 1, 1, 10, 0, 0);
    assert_eq!(
        next_occurrence(&RecurrenceRule::Daily { time: 540 }, &base).unwrap(),
        rc_at(2024, 1, 2, 9, 0, 0)
    );
    assert_eq!(
        next_occurrence(&RecurrenceRule::Monthly { time: 540, day: 1 }, &base).unwrap(),
        rc_at(2024, 2, 1, 9, 0, 0)
    );
    assert_eq!(
        next_occurrence(
            &RecurrenceRule::IntervalRange { minutes: 10, start: None, end: None },
            &base
        )
        .unwrap(),
        rc_at(2024, 1, 1, 10, 10, 0)
    );
}

#[test]
fn trigger_times_are_written_to_the_second() {
    assert_eq!(format_trigger(&rc_at(2024, 3, 9, 7, 5, 1)), "2024-03-09T07:05:01");
    assert_eq!(format_trigger(&rc_at(1, 1, 1, 0, 0, 0)), "0001-01-01T00:00:00");
    assert_eq!(format_trigger(&rc_at(0, 12, 31, 23, 59, 59)), "0000-12-31T23:59:59");
    assert_eq!(format_trigger(&rc_at(987, 6, 5, 4, 3, 2)), "0987-06-05T04:03:02");
    assert_eq!(format_trigger(&rc_at(9999, 12, 31, 23, 59, 59)), "9999-12-31T23:59:59");
    assert_eq!(
        format_trigger(&Timestamp { nano: 1_250_000_000, ..rc_at(2016, 12, 31, 23, 59, 59) }),
        "2016-12-31T23:59:60"
    );
    assert_eq!(
        format_trigger(&Timestamp { day: 738_886, sec: 3_661, nano: 987_654_321 }),
        "2024-01-01T01:01:01"
    );
}

#[test]
fn a_faulty_task_has_no_next_trigger() {
    let t = rc_task("daily");
    match compute_next_trigger(&t, rc_at(2024, 1, 1, 10, 0, 0)) {
        Err(AppError::Invalid(m)) => assert_eq!(m, "每日模式需要设置触发时间"),
        other => panic!("{:?}", other),
    }
}

#[test]
fn interval_tasks_fire_only_within_their_window() {
    let mut t = rc_task("interval");
    t.start_time = Some("09:00".to_string());
    t.end_time = Some("17:00".to_string());
    assert_eq!(should_trigger_now(&t, rc_at(2024, 1, 1, 8, 59, 59)).unwrap(), false);
    assert_eq!(should_trigger_now(&t, rc_at(2024, 1, 1, 9, 0, 0)).unwrap(), true);
    assert_eq!(should_trigger_now(&t, rc_at(2024, 1, 1, 17, 0, 0)).unwrap(), true);
    assert_eq!(should_trigger_now(&t, rc_at(2024, 1, 1, 17, 0, 1)).unwrap(), false);
    let after = Timestamp { nano: 1, ..rc_at(2024, 1, 1, 17, 0, 0) };
    assert_eq!(should_trigger_now(&t, after).unwrap(), false);
    let open = rc_task("interval");
    assert_eq!(should_trigger_now(&open, rc_at(2024, 1, 1, 3, 0, 0)).unwrap(), true);
}

#[test]
fn other_tasks_fire_at_any_time() {
    let mut t = rc_task("daily");
    t.schedule_time = Some("09:00".to_string());
    t.start_time = Some("10:00".to_string());
    t.end_time = Some("11:00".to_string());
    assert_eq!(should_trigger_now(&t, rc_at(2024, 1, 1, 3, 0, 0)).unwrap(), true);
    assert!(rule_fires_at(&RecurrenceRule::Weekly { time: 0, weekday: 1 }, &rc_at(2024, 1, 1, 3, 0, 0)));
    let bad = rc_task("weekly");
    assert!(should_trigger_now(&bad, rc_at(2024, 1, 1, 3, 0, 0)).is_err());
}

#[test]
fn the_day_of_the_month_is_clamped_to_the_last() {
    assert_eq!(clamp_day(31, 28), 28);
    assert_eq!(clamp_day(31, 29), 29);
    assert_eq!(clamp_day(30, 31), 30);
    assert_eq!(clamp_day(28, 28), 28);
    assert_eq!(clamp_day(1, 31), 1);
    assert_eq!(clamp_day(0, 31), 0);
}

fn rc_rule_error(r: Result<RecurrenceRule, AppError>) -> String {
    match r {
        Err(AppError::Invalid(m)) => m,
        other => panic!("expected a validation error, got {:?}", other),
    }
}

#[test]
fn rules_follow_from_the_mode_and_the_fields() {
    let checked = || Some(Ok("0 9 * * *".to_string()));
    assert_eq!(
        rule_from_fields(RepeatMode::IntervalRange, 0, Some(540), Some(1020), Some(1), Some(9), Some(99), checked()),
        Ok(RecurrenceRule::IntervalRange { minutes: 1, start: Some(540), end: Some(1020) })
    );
    assert_eq!(
        rule_from_fields(RepeatMode::IntervalRange, 45, None, Some(5), None, None, None, None),
        Ok(RecurrenceRule::IntervalRange { minutes: 45, start: None, end: Some(5) })
    );
    assert_eq!(
        rule_from_fields(RepeatMode::Daily, 5, None, None, Some(570), None, None, None),
        Ok(RecurrenceRule::Daily { time: 570 })
    );
    assert_eq!(
        rule_from_fields(RepeatMode::Weekly, 5, Some(1), Some(1), Some(570), Some(7), None, None),
        Ok(RecurrenceRule::Weekly { time: 570, weekday: 7 })
    );
    assert_eq!(
        rule_from_fields(RepeatMode::Monthly, 5, None, None, Some(0), None, Some(31), None),
        Ok(RecurrenceRule::Monthly { time: 0, day: 31 })
    );
    assert_eq!(
        rule_from_fields(RepeatMode::Cron, 5, None, None, None, None, None, checked()),
        Ok(RecurrenceRule::Cron { expression: "0 9 * * *".to_string() })
    );
}

#[test]
fn rules_ask_for_their_fields_in_order() {
    let e = |r| rc_rule_error(r);
    // Start and end are compared first, whatever the mode.
    assert_eq!(
        e(rule_from_fields(RepeatMode::Daily, 5, Some(600), Some(599), None, None, None, None)),
        "间隔模式中开始时间不能晚于结束时间"
    );
    assert_eq!(
        e(rule_from_fields(RepeatMode::Daily, 5, None, None, None, Some(1), Some(1), None)),
        "每日模式需要设置触发时间"
    );
    assert_eq!(
        e(rule_from_fields(RepeatMode::Weekly, 5, None, None, None, None, None, None)),
        "每周模式需要设置触发时间"
    );
    assert_eq!(
        e(rule_from_fields(RepeatMode::Weekly, 5, None, None, Some(1), None, Some(1), None)),
        "每周模式需要设置周几"
    );
    for bad in [0i64, 8, -1, i64::MAX] {
        assert_eq!(
            e(rule_from_fields(RepeatMode::Weekly, 5, None, None, Some(1), Some(bad), None, None)),
            "每周模式中的周几必须在 1 到 7 之间"
        );
    }
    assert_eq!(
        e(rule_from_fields(RepeatMode::Monthly, 5, None, None, None, None, Some(1), None)),
        "每月模式需要设置触发时间"
    );
    assert_eq!(
        e(rule_from_fields(RepeatMode::Monthly, 5, None, None, Some(1), Some(1), None, None)),
        "每月模式需要设置几号"
    );
    for bad in [0i64, 32, i64::MIN] {
        assert_eq!(
            e(rule_from_fields(RepeatMode::Monthly, 5, None, None, Some(1), None, Some(bad), None)),
            "每月模式中的几号必须在 1 到 31 之间"
        );
    }
    assert_eq!(
        e(rule_from_fields(RepeatMode::Cron, 5, None, None, Some(1), Some(1), Some(1), None)),
        "Cron 模式需要表达式"
    );
    // What the check of the expression came to is handed on.
    assert_eq!(
        rule_from_fields(
            RepeatMode::Cron,
            5,
            None,
            None,
            None,
            None,
            None,
            Some(Err(AppError::Invalid("Cron 表达式需为 5、6 或 7 段".to_string())))
        ),
        Err(AppError::Invalid("Cron 表达式需为 5、6 或 7 段".to_string()))
    );
}

#[test]
fn the_last_day_has_no_day_after_for_an_interval() {
    let start = Some(9 * 60);
    let end = Some(11 * 60);
    let no_later = Err(AppError::Invalid("无法计算下一次触发时间".to_string()));
    // Past the window's end.
    let late = Timestamp { day: MAX_DAY, sec: 12 * 3600, nano: 0 };
    assert_eq!(compute_interval_next(30, start, end, &late), no_later);
    // Within the window, but the interval steps past its end.
    let inside = Timestamp { day: MAX_DAY, sec: 10 * 3600, nano: 0 };
    assert_eq!(compute_interval_next(120, start, end, &inside), no_later);
    // Within the window, and the interval stays within it.
    assert_eq!(
        compute_interval_next(30, start, end, &inside),
        Ok(Timestamp { day: MAX_DAY, sec: 10 * 3600 + 1800, nano: 0 })
    );
    // Before the window.
    let early = Timestamp { day: MAX_DAY, sec: 3600, nano: 0 };
    assert_eq!(
        compute_interval_next(30, start, end, &early),
        Ok(Timestamp { day: MAX_DAY, sec: 9 * 3600, nano: 0 })
    );
}

#[test]
fn cron_refuses_a_base_on_the_first_or_last_day() {
    let unknown = Err(AppError::Invalid("无法解析本地时间".to_string()));
    for day in [MIN_DAY, MAX_DAY] {
        for sec in [0u32, 43_200, 86_399] {
            let base = Timestamp { day, sec, nano: 0 };
            assert_eq!(compute_cron_next("* * * * *", &base), unknown);
            assert_eq!(
                next_occurrence(&RecurrenceRule::Cron { expression: "* * * * *".to_string() }, &base),
                unknown
            );
            // A fault of the expression comes first.
            assert_eq!(
                compute_cron_next("* *", &base),
                Err(AppError::Invalid("Cron 表达式需为 5、6 或 7 段".to_string()))
            );
        }
    }
    let mut t = rc_task("cron");
    t.cron_expression = Some("0 12 * * *".to_string());
    assert_eq!(
        compute_next_trigger(&t, Timestamp { day: MAX_DAY, sec: 0, nano: 0 }),
        Err(AppError::Invalid("无法解析本地时间".to_string()))
    );
}

#[test]
fn the_cron_search_starts_from_an_instant_before_the_last_day() {
    let t = rc_at(2024, 1, 1, 10, 0, 0);
    assert_eq!(cron_search_start(Some(t)), Ok(t));
    assert_eq!(
        cron_search_start(Some(Timestamp { day: MAX_DAY - 1, sec: 86_399, nano: 0 })),
        Ok(Timestamp { day: MAX_DAY - 1, sec: 86_399, nano: 0 })
    );
    assert_eq!(cron_search_start(None), Err(AppError::Invalid("无法解析本地时间".to_string())));
    assert_eq!(
        cron_search_start(Some(Timestamp { day: MAX_DAY, sec: 0, nano: 0 })),
        Err(AppError::Invalid("无法计算下一次触发时间".to_string()))
    );
}
