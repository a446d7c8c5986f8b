//! The records of the application and their mathematical views.

use vstd::prelude::*;

verus! {

/// The view of an optional text.
pub open spec fn text_of(t: Option<String>) -> Option<Seq<char>> {
    match t {
        Some(s) => Some(s@),
        None => None,
    }
}

/// The view of an optional integer.
pub open spec fn int_of(t: Option<i64>) -> Option<int> {
    match t {
        Some(n) => Some(n as int),
        None => None,
    }
}

/// A copy of an optional text.
pub fn clone_text(t: &Option<String>) -> (r: Option<String>)
    ensures
        r == *t,
{
    match t {
        Some(s) => Some(s.clone()),
        None => None,
    }
}

/// A one-time reminder.
#[derive(Debug, PartialEq, Eq)]
pub struct Task {
    pub id: String,
    pub description: String,
    pub task_type: String,
    pub status: String,
    pub created_at: String,
    pub completed_at: Option<String>,
    pub reminder_time: Option<String>,
    pub updated_at: Option<String>,
    pub deleted_at: Option<String>,
}

/// The mathematical value of a [`Task`].
pub struct TaskView {
    pub id: Seq<char>,
    pub description: Seq<char>,
    pub task_type: Seq<char>,
    pub status: Seq<char>,
    pub created_at: Seq<char>,
    pub completed_at: Option<Seq<char>>,
    pub reminder_time: Option<Seq<char>>,
    pub updated_at: Option<Seq<char>>,
    pub deleted_at: Option<Seq<char>>,
}

impl View for Task {
    type V = TaskView;

    open spec fn view(&self) -> TaskView {
        TaskView {
            id: self.id@,
            description: self.description@,
            task_type: self.task_type@,
            status: self.status@,
            created_at: self.created_at@,
            completed_at: text_of(self.completed_at),
            reminder_time: text_of(self.reminder_time),
            updated_at: text_of(self.updated_at),
            deleted_at: text_of(self.deleted_at),
        }
    }
}

impl Clone for Task {
    fn clone(&self) -> (r: Task)
        ensures
            r == *self,
    {
        Task {
            id: self.id.clone(),
            description: self.description.clone(),
            task_type: self.task_type.clone(),
            status: self.status.clone(),
            created_at: self.created_at.clone(),
            completed_at: clone_text(&self.completed_at),
            reminder_time: clone_text(&self.reminder_time),
            updated_at: clone_text(&self.updated_at),
            deleted_at: clone_text(&self.deleted_at),
        }
    }
}

/// A reminder that repeats.
#[derive(Debug, PartialEq, Eq)]
pub struct RecurringTask {
    pub id: String,
    pub description: String,
    pub task_type: String,
    pub status: String,
    pub created_at: String,
    pub completed_at: Option<String>,
    pub reminder_time: Option<String>,
    pub updated_at: Option<String>,
    pub deleted_at: Option<String>,
    pub interval_minutes: i64,
    pub last_triggered: Option<String>,
    pub next_trigger: String,
    pub is_paused: bool,
    pub start_time: Option<String>,
    pub end_time: Option<String>,
    pub repeat_mode: String,
    pub schedule_time: Option<String>,
    pub schedule_weekday: Option<i64>,
    pub schedule_day: Option<i64>,
    pub cron_expression: Option<String>,
}

/// The fields of a recurring task that say how it repeats.
pub struct RecurrenceView {
    pub repeat_mode: Seq<char>,
    pub interval_minutes: int,
    pub start_time: Option<Seq<char>>,
    pub end_time: Option<Seq<char>>,
    pub schedule_time: Option<Seq<char>>,
    pub schedule_weekday: Option<int>,
    pub schedule_day: Option<int>,
    pub cron_expression: Option<Seq<char>>,
}

/// The mathematical value of a [`RecurringTask`].
pub struct RecurringTaskView {
    pub id: Seq<char>,
    pub description: Seq<char>,
    pub task_type: Seq<char>,
    pub status: Seq<char>,
    pub created_at: Seq<char>,
    pub completed_at: Option<Seq<char>>,
    pub reminder_time: Option<Seq<char>>,
    pub updated_at: Option<Seq<char>>,
    pub deleted_at: Option<Seq<char>>,
    pub last_triggered: Option<Seq<char>>,
    pub next_trigger: Seq<char>,
    pub is_paused: bool,
    pub recurrence: RecurrenceView,
}

impl View for RecurringTask {
    type V = RecurringTaskView;

    open spec fn view(&self) -> RecurringTaskView {
        RecurringTaskView {
            id: self.id@,
            description: self.description@,
            task_type: self.task_type@,
            status: self.status@,
            created_at: self.created_at@,
            completed_at: text_of(self.completed_at),
            reminder_time: text_of(self.reminder_time),
            updated_at: text_of(self.updated_at),
            deleted_at: text_of(self.deleted_at),
            last_triggered: text_of(self.last_triggered),
            next_trigger: self.next_trigger@,
            is_paused: self.is_paused,
            recurrence: RecurrenceView {
                repeat_mode: self.repeat_mode@,
                interval_minutes: self.interval_minutes as int,
                start_time: text_of(self.start_time),
                end_time: text_of(self.end_time),
                schedule_time: text_of(self.schedule_time),
                schedule_weekday: int_of(self.schedule_weekday),
                schedule_day: int_of(self.schedule_day),
                cron_expression: text_of(self.cron_expression),
            },
        }
    }
}

impl Clone for RecurringTask {
    fn clone(&self) -> (r: RecurringTask)
        ensures
            r == *self,
    {
        RecurringTask {
            id: self.id.clone(),
            description: self.description.clone(),
            task_type: self.task_type.clone(),
            status: self.status.clone(),
            created_at: self.created_at.clone(),
            completed_at: clone_text(&self.completed_at),
            reminder_time: clone_text(&self.reminder_time),
            updated_at: clone_text(&self.updated_at),
            deleted_at: clone_text(&self.deleted_at),
            interval_minutes: self.interval_minutes,
            last_triggered: clone_text(&self.last_triggered),
            next_trigger: self.next_trigger.clone(),
            is_paused: self.is_paused,
            start_time: clone_text(&self.start_time),
            end_time: clone_text(&self.end_time),
            repeat_mode: self.repeat_mode.clone(),
            schedule_time: clone_text(&self.schedule_time),
            schedule_weekday: self.schedule_weekday,
            schedule_day: self.schedule_day,
            cron_expression: clone_text(&self.cron_expression),
        }
    }
}

/// One firing of a reminder, as the store records it.
#[derive(Debug, PartialEq, Eq)]
pub struct ReminderRecord {
    pub id: String,
    pub reminder_id: String,
    pub description: String,
    pub reminder_type: String,
    pub trigger_time: String,
    pub close_time: Option<String>,
    pub action: String,
    pub updated_at: Option<String>,
    pub deleted_at: Option<String>,
}

/// The mathematical value of a [`ReminderRecord`].
pub struct ReminderRecordView {
    pub id: Seq<char>,
    pub reminder_id: Seq<char>,
    pub description: Seq<char>,
    pub reminder_type: Seq<char>,
    pub trigger_time: Seq<char>,
    pub close_time: Option<Seq<char>>,
    pub action: Seq<char>,
    pub updated_at: Option<Seq<char>>,
    pub deleted_at: Option<Seq<char>>,
}

impl View for ReminderRecord {
    type V = ReminderRecordView;

    open spec fn view(&self) -> ReminderRecordView {
        ReminderRecordView {
            id: self.id@,
            reminder_id: self.reminder_id@,
            description: self.description@,
            reminder_type: self.reminder_type@,
            trigger_time: self.trigger_time@,
            close_time: text_of(self.close_time),
            action: self.action@,
            updated_at: text_of(self.updated_at),
            deleted_at: text_of(self.deleted_at),
        }
    }
}

impl Clone for ReminderRecord {
    fn clone(&self) -> (r: ReminderRecord)
        ensures
            r == *self,
    {
        ReminderRecord {
            id: self.id.clone(),
            reminder_id: self.reminder_id.clone(),
            description: self.description.clone(),
            reminder_type: self.reminder_type.clone(),
            trigger_time: self.trigger_time.clone(),
            close_time: clone_text(&self.close_time),
            action: self.action.clone(),
            updated_at: clone_text(&self.updated_at),
            deleted_at: clone_text(&self.deleted_at),
        }
    }
}

/// What the presentation layer is told when a reminder fires.
#[derive(Debug, PartialEq, Eq)]
pub struct NotificationPayload {
    pub record_id: String,
    pub reminder_id: String,
    pub reminder_type: String,
    pub description: String,
    pub snooze_minutes: i64,
}

/// The mathematical value of a [`NotificationPayload`].
pub struct NotificationPayloadView {
    pub record_id: Seq<char>,
    pub reminder_id: Seq<char>,
    pub reminder_type: Seq<char>,
    pub description: Seq<char>,
    pub snooze_minutes: int,
}

impl View for NotificationPayload {
    type V = NotificationPayloadView;

    open spec fn view(&self) -> NotificationPayloadView {
        NotificationPayloadView {
            record_id: self.record_id@,
            reminder_id: self.reminder_id@,
            reminder_type: self.reminder_type@,
            description: self.description@,
            snooze_minutes: self.snooze_minutes as int,
        }
    }
}

impl Clone for NotificationPayload {
    fn clone(&self) -> (r: NotificationPayload)
        ensures
            r == *self,
    {
        NotificationPayload {
            record_id: self.record_id.clone(),
            reminder_id: self.reminder_id.clone(),
            reminder_type: self.reminder_type.clone(),
            description: self.description.clone(),
            snooze_minutes: self.snooze_minutes,
        }
    }
}

/// The outcome of the last sync attempt, as a caller may query it.
#[derive(Debug, PartialEq, Eq)]
pub struct SyncStatus {
    pub status: String,
    pub error: Option<String>,
    pub time: Option<String>,
}

/// The mathematical value of a [`SyncStatus`].
pub struct SyncStatusView {
    pub status: Seq<char>,
    pub error: Option<Seq<char>>,
    pub time: Option<Seq<char>>,
}

impl View for SyncStatus {
    type V = SyncStatusView;

    open spec fn view(&self) -> SyncStatusView {
        SyncStatusView {
            status: self.status@,
            error: text_of(self.error),
            time: text_of(self.time),
        }
    }
}

impl Clone for SyncStatus {
    fn clone(&self) -> (r: SyncStatus)
        ensures
            r == *self,
    {
        SyncStatus {
            status: self.status.clone(),
            error: clone_text(&self.error),
            time: clone_text(&self.time),
        }
    }
}

} // verus!
