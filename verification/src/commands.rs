//! What the user's commands compute before anything is stored: the fields
//! of a new recurring task, the trigger time of an edited or resumed one,
//! the time to which a reminder is snoozed, and the times before which the
//! store is cleaned up.

use crate::datemath::{Moment, Timestamp};
use crate::errors::{AppError, AppErrorView};
use crate::models::{int_of, text_of, RecurrenceView, RecurringTask, RecurringTaskView, Task, TaskView};
use crate::recurrence::{
    cron_search_failure, fault_error, format_trigger, next_moment, next_occurrence,
    recurrence_rule, rule_of, sanitize_recurring_task, sanitized, trigger_text, Fault,
};
use crate::text::{trim, trimmed};
use vstd::prelude::*;

verus! {

/// What the user enters for a new recurring task.
#[derive(Debug, PartialEq, Eq)]
pub struct CreateRecurringPayload {
    pub description: String,
    pub interval_minutes: i64,
    pub start_time: Option<String>,
    pub end_time: Option<String>,
    pub repeat_mode: Option<String>,
    pub schedule_time: Option<String>,
    pub schedule_weekday: Option<i64>,
    pub schedule_day: Option<i64>,
    pub cron_expression: Option<String>,
}

/// The task that a user's entry describes before it is validated: no
/// identifier or times yet, type and status of a new recurring task, the
/// interval mode where no mode was entered.
pub open spec fn draft_of(p: CreateRecurringPayload) -> RecurringTaskView {
    RecurringTaskView {
        id: Seq::empty(),
        description: trimmed(p.description@),
        task_type: "RECURRING"@,
        status: "PENDING"@,
        created_at: Seq::empty(),
        completed_at: None,
        reminder_time: None,
        updated_at: None,
        deleted_at: None,
        last_triggered: None,
        next_trigger: Seq::empty(),
        is_paused: false,
        recurrence: RecurrenceView {
            repeat_mode: match p.repeat_mode {
                Some(m) => m@,
                None => "INTERVAL_RANGE"@,
            },
            interval_minutes: if p.interval_minutes < 1 {
                1
            } else {
                p.interval_minutes as int
            },
            start_time: text_of(p.start_time),
            end_time: text_of(p.end_time),
            schedule_time: text_of(p.schedule_time),
            schedule_weekday: int_of(p.schedule_weekday),
            schedule_day: int_of(p.schedule_day),
            cron_expression: text_of(p.cron_expression),
        },
    }
}

/// What becomes of a task whose recurrence is validated and whose next
/// trigger time is computed from a base time: the task in normal form with
/// that trigger time, or the error that rejects it. Of a cron rule only this
/// is said: what comes back is in normal form, and its trigger time is the
/// text of a time after the base time.
pub open spec fn refreshed(
    before: RecurringTaskView,
    now: Moment,
    r: Result<RecurringTaskView, AppErrorView>,
) -> bool {
    match sanitized(before) {
        Err(f) => r == Err::<RecurringTaskView, AppErrorView>(fault_error(f)),
        Ok(normal) => {
            let rule = rule_of(before.recurrence)->Ok_0;
            match r {
                Ok(after) => exists|next: Moment|
                    {
                        &&& next.wf()
                        &&& next.key() > now.key()
                        &&& next_moment(rule, now) matches Some(m) ==> m == Ok::<Moment, Fault>(next)
                        &&& after == (RecurringTaskView {
                            next_trigger: #[trigger] trigger_text(next),
                            ..normal
                        })
                    },
                Err(e) => match next_moment(rule, now) {
                    Some(m) => m matches Err(f) && e == fault_error(f),
                    None => cron_search_failure(e),
                },
            }
        },
    }
}

/// Validates an edited task and computes its next trigger time from a base
/// time. A task that is rejected is left as it was.
pub fn refresh_recurring_task(task: &mut RecurringTask, now: &Timestamp) -> (r: Result<
    (),
    AppError,
>)
    requires
        now@.wf(),
    ensures
        refreshed(
            old(task)@,
            now@,
            match r {
                Ok(_) => Ok(final(task)@),
                Err(e) => Err(e@),
            },
        ),
        r is Err ==> *final(task) == *old(task),
{
    let rule = match recurrence_rule(task) {
        Ok(rule) => rule,
        Err(e) => {
            return Err(e);
        },
    };
    let next = match next_occurrence(&rule, now) {
        Ok(t) => t,
        Err(e) => {
            return Err(e);
        },
    };
    match sanitize_recurring_task(task) {
        Ok(_) => {},
        Err(e) => {
            return Err(e);
        },
    }
    task.next_trigger = format_trigger(&next);
    assert(trigger_text(next@) == task.next_trigger@);
    Ok(())
}

/// Builds the task that a user's entry describes, validates it and
/// computes its first trigger time from a base time.
pub fn draft_recurring_task(payload: CreateRecurringPayload, now: &Timestamp) -> (r: Result<
    RecurringTask,
    AppError,
>)
    requires
        now@.wf(),
    ensures
        refreshed(
            draft_of(payload),
            now@,
            match r {
                Ok(t) => Ok(t@),
                Err(e) => Err(e@),
            },
        ),
{
    let mut draft = RecurringTask {
        id: String::new(),
        description: String::from_str(trim(payload.description.as_str())),
        task_type: String::from_str("RECURRING"),
        status: String::from_str("PENDING"),
        created_at: String::new(),
        completed_at: None,
        reminder_time: None,
        updated_at: None,
        deleted_at: None,
        interval_minutes: if payload.interval_minutes < 1 {
            1
        } else {
            payload.interval_minutes
        },
        last_triggered: None,
        next_trigger: String::new(),
        is_paused: false,
        start_time: payload.start_time,
        end_time: payload.end_time,
        repeat_mode: match payload.repeat_mode {
            Some(m) => m,
            None => String::from_str("INTERVAL_RANGE"),
        },
        schedule_time: payload.schedule_time,
        schedule_weekday: payload.schedule_weekday,
        schedule_day: payload.schedule_day,
        cron_expression: payload.cron_expression,
    };
    assert(draft@ == draft_of(payload));
    match refresh_recurring_task(&mut draft, now) {
        Ok(_) => Ok(draft),
        Err(e) => Err(e),
    }
}

/// Resumes a paused task: it is no longer paused, and it is validated and
/// gets its next trigger time as an edited task does. A task that is
/// rejected is left as it was.
pub fn resume_recurring_task(task: &mut RecurringTask, now: &Timestamp) -> (r: Result<
    (),
    AppError,
>)
    requires
        now@.wf(),
    ensures
        refreshed(
            RecurringTaskView { is_paused: false, ..old(task)@ },
            now@,
            match r {
                Ok(_) => Ok(final(task)@),
                Err(e) => Err(e@),
            },
        ),
        r is Err ==> *final(task) == *old(task),
{
    let was_paused = task.is_paused;
    task.is_paused = false;
    match refresh_recurring_task(task, now) {
        Ok(_) => Ok(()),
        Err(e) => {
            task.is_paused = was_paused;
            Err(e)
        },
    }
}

/// The time a number of minutes after a base time, at least one minute,
/// written as a trigger time, or nothing where that time cannot be
/// represented.
pub open spec fn snoozed_until(minutes: int, now: Moment) -> Option<Seq<char>> {
    match now.plus_seconds(
        (if minutes < 1 {
            1
        } else {
            minutes
        }) * 60,
    ) {
        Some(m) => Some(trigger_text(m)),
        None => None,
    }
}

/// The time to which a reminder is snoozed.
pub fn add_minutes(minutes: i64, now: &Timestamp) -> (r: Option<String>)
    requires
        now@.wf(),
    ensures
        text_of(r) == snoozed_until(minutes as int, now@),
{
    let minutes: i64 = if minutes < 1 {
        1
    } else {
        minutes
    };
    match now.checked_add_minutes(minutes) {
        Some(t) => Some(format_trigger(&t)),
        None => None,
    }
}

/// Snoozes a recurring task: its next trigger time is the snooze time,
/// and it is no longer paused. Nothing changes where the snooze time cannot
/// be represented.
pub fn snooze_recurring_task(task: &mut RecurringTask, minutes: i64, now: &Timestamp) -> (r: bool)
    requires
        now@.wf(),
    ensures
        match snoozed_until(minutes as int, now@) {
            Some(text) => r && final(task)@ == (RecurringTaskView {
                next_trigger: text,
                is_paused: false,
                ..old(task)@
            }),
            None => !r && *final(task) == *old(task),
        },
{
    match add_minutes(minutes, now) {
        Some(text) => {
            task.next_trigger = text;
            task.is_paused = false;
            true
        },
        None => false,
    }
}

/// Snoozes a one-time task: its reminder time is the snooze time. Nothing
/// changes where the snooze time cannot be represented.
pub fn snooze_task(task: &mut Task, minutes: i64, now: &Timestamp) -> (r: bool)
    requires
        now@.wf(),
    ensures
        match snoozed_until(minutes as int, now@) {
            Some(text) => r && final(task)@ == (TaskView {
                reminder_time: Some(text),
                ..old(task)@
            }),
            None => !r && *final(task) == *old(task),
        },
{
    match add_minutes(minutes, now) {
        Some(text) => {
            task.reminder_time = Some(text);
            true
        },
        None => false,
    }
}

/// Days for which a completed task is kept.
pub const COMPLETED_RETENTION_DAYS: i64 = 30;

/// Days for which a deleted row is kept.
pub const DELETED_RETENTION_DAYS: i64 = 7;

/// The time a number of days before a time, written as a trigger time, or
/// nothing where that time cannot be represented.
pub open spec fn days_before(now: Moment, days: int) -> Option<Seq<char>> {
    match now.plus_seconds(-(days * 86_400)) {
        Some(m) => Some(trigger_text(m)),
        None => None,
    }
}

/// The times before which the store is cleaned up: completed tasks that
/// were completed before the first, and deleted rows that were deleted
/// before the second, are purged.
pub fn cleanup_cutoffs(now: &Timestamp) -> (r: Option<(String, String)>)
    requires
        now@.wf(),
    ensures
        match (
            days_before(now@, COMPLETED_RETENTION_DAYS as int),
            days_before(now@, DELETED_RETENTION_DAYS as int),
        ) {
            (Some(completed), Some(deleted)) => r matches Some(c) && c.0@ == completed && c.1@
                == deleted,
            _ => r is None,
        },
{
    let completed = match now.checked_add_seconds(-(COMPLETED_RETENTION_DAYS * 86_400)) {
        Some(t) => t,
        None => {
            return None;
        },
    };
    let deleted = match now.checked_add_seconds(-(DELETED_RETENTION_DAYS * 86_400)) {
        Some(t) => t,
        None => {
            return None;
        },
    };
    Some((format_trigger(&completed), format_trigger(&deleted)))
}

} // verus!
