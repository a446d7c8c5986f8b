use chrono::{Datelike, Duration, NaiveDate, NaiveDateTime, NaiveTime, Timelike};
use task_reminder::datemath::Timestamp;
use task_reminder::recurrence::{
    compute_daily_next, compute_interval_next, compute_monthly_next, compute_weekly_next,
    rule_fires_at, RecurrenceRule,
};

fn cl_stamp(n: NaiveDateTime) -> Timestamp {
    Timestamp {
        day: n.date().num_days_from_ce(),
        sec: n.time().num_seconds_from_midnight(),
        nano: n.time().nanosecond(),
    }
}

fn cl_clock(minute_of_day: u32) -> NaiveTime {
    NaiveTime::from_hms_opt(minute_of_day / 60, minute_of_day % 60, 0).unwrap()
}

fn cl_bases() -> Vec<NaiveDateTime> {
    let mut bases = Vec::new();
    for (y, m, d) in [(2023, 12, 31), (2024, 1, 1), (2024, 2, 28), (2024, 2, 29), (2024, 3, 31), (2025, 2, 28), (1999, 12, 31), (2100, 2, 28)] {
        let date = NaiveDate::from_ymd_opt(y, m, d).unwrap();
        for (h, mi, s, nano) in [(0, 0, 0, 0), (8, 59, 59, 999_999_999), (9, 0, 0, 0), (9, 0, 0, 1), (12, 34, 56, 0), (16, 59, 0, 0), (17, 0, 0, 0), (17, 0, 0, 5), (23, 59, 59, 0), (23, 59, 59, 1_400_000_000)] {
            bases.push(date.and_time(NaiveTime::from_hms_nano_opt(h, mi, s, nano).unwrap()));
        }
    }
    bases
}

// The interval rule in the arithmetic of the calendar library.
fn cl_interval(minutes: i64, start: Option<u32>, end: Option<u32>, base: NaiveDateTime) -> NaiveDateTime {
    let opening = start.map(cl_clock).unwrap_or(NaiveTime::MIN);
    if let Some(s) = start {
        if base.time() < cl_clock(s) {
            return NaiveDateTime::new(base.date(), cl_clock(s));
        }
    }
    if let Some(e) = end {
        if base.time() > cl_clock(e) {
            return NaiveDateTime::new(base.date().succ_opt().unwrap(), opening);
        }
    }
    let mut next = base + Duration::minutes(minutes);
    if let Some(e) = end {
        if next.time() > cl_clock(e) {
            next = NaiveDateTime::new(base.date().succ_opt().unwrap(), opening);
        }
    }
    if let Some(s) = start {
        if next.time() < cl_clock(s) {
            next = NaiveDateTime::new(next.date(), cl_clock(s));
        }
    }
    if next <= base {
        next = base + Duration::minutes(minutes);
    }
    next
}

#[test]
fn interval_agrees_with_the_calendar() {
    let windows = [
        (None, None),
        (Some(540), None),
        (None, Some(1020)),
        (Some(540), Some(1020)),
        (Some(0), Some(1439)),
        (Some(600), Some(600)),
    ];
    for base in cl_bases() {
        for (start, end) in windows {
            for minutes in [1i64, 30, 59, 480, 1440, 1441, 10_000] {
                let got = compute_interval_next(minutes, start, end, &cl_stamp(base)).unwrap();
                assert_eq!(got, cl_stamp(cl_interval(minutes, start, end, base)), "{base} {start:?} {end:?} {minutes}");
                assert!(got.is_after(&cl_stamp(base)));
            }
        }
    }
}

#[test]
fn daily_agrees_with_the_calendar() {
    for base in cl_bases() {
        for time in [0u32, 539, 540, 541, 1020, 1439] {
            let mut expected = NaiveDateTime::new(base.date(), cl_clock(time));
            if expected <= base {
                expected = NaiveDateTime::new(base.date().succ_opt().unwrap(), cl_clock(time));
            }
            assert_eq!(compute_daily_next(time, &cl_stamp(base)).unwrap(), cl_stamp(expected));
        }
    }
}

#[test]
fn weekly_agrees_with_the_calendar() {
    for base in cl_bases() {
        for weekday in 1..=7i64 {
            for time in [0u32, 540, 1439] {
                let current = base.weekday().number_from_monday() as i64;
                let mut ahead = (weekday - current + 7) % 7;
                let mut expected = NaiveDateTime::new(base.date() + Duration::days(ahead), cl_clock(time));
                if expected <= base {
                    ahead += 7;
                    expected = NaiveDateTime::new(base.date() + Duration::days(ahead), cl_clock(time));
                }
                assert_eq!(
                    compute_weekly_next(time, weekday as u32, &cl_stamp(base)).unwrap(),
                    cl_stamp(expected)
                );
            }
        }
    }
}

fn cl_month(year: i32, month: u32, day: u32, time: NaiveTime) -> NaiveDateTime {
    let (next_year, next_month) = if month == 12 { (year + 1, 1) } else { (year, month + 1) };
    let last = (NaiveDate::from_ymd_opt(next_year, next_month, 1).unwrap() - Duration::days(1)).day();
    NaiveDateTime::new(NaiveDate::from_ymd_opt(year, month, day.min(last)).unwrap(), time)
}

#[test]
fn monthly_agrees_with_the_calendar() {
    for base in cl_bases() {
        for day in [1u32, 15, 28, 29, 30, 31] {
            for time in [0u32, 540, 1439] {
                let mut expected = cl_month(base.year(), base.month(), day, cl_clock(time));
                if expected <= base {
                    let (y, m) = if base.month() == 12 { (base.year() + 1, 1) } else { (base.year(), base.month() + 1) };
                    expected = cl_month(y, m, day, cl_clock(time));
                }
                assert_eq!(
                    compute_monthly_next(time, day, &cl_stamp(base)).unwrap(),
                    cl_stamp(expected)
                );
            }
        }
    }
}

#[test]
fn the_window_agrees_with_the_calendar() {
    for base in cl_bases() {
        for (start, end) in [(None, None), (Some(540u32), None), (None, Some(1020u32)), (Some(540), Some(1020))] {
            let early = start.map(|s| base.time() < cl_clock(s)).unwrap_or(false);
            let late = end.map(|e| base.time() > cl_clock(e)).unwrap_or(false);
            let rule = RecurrenceRule::IntervalRange { minutes: 5, start, end };
            assert_eq!(rule_fires_at(&rule, &cl_stamp(base)), !early && !late);
        }
    }
}
