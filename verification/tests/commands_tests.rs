use chrono::{Datelike, NaiveDate};
use task_reminder::commands::{
    add_minutes, cleanup_cutoffs, draft_recurring_task, refresh_recurring_task,
    resume_recurring_task, snooze_recurring_task, snooze_task, CreateRecurringPayload,
    COMPLETED_RETENTION_DAYS, DELETED_RETENTION_DAYS,
};
use task_reminder::datemath::MIN_DAY;
use task_reminder::datemath::{Timestamp, MAX_DAY};
use task_reminder::errors::AppError;
use task_reminder::models::{clone_text, ReminderRecord, SyncStatus, Task};
use task_reminder::sync::{CloudSyncService, SyncSettings};

fn cm_at(h: u32, mi: u32, s: u32) -> Timestamp {
    Timestamp {
        day: NaiveDate::from_ymd_opt(2024, 1, 1).unwrap().num_days_from_ce(),
        sec: h * 3600 + mi * 60 + s,
        nano: 0,
    }
}

fn cm_payload() -> CreateRecurringPayload {
    CreateRecurringPayload {
        description: "  water the plants ".to_string(),
        interval_minutes: 0,
        start_time: None,
        end_time: None,
        repeat_mode: None,
        schedule_time: None,
        schedule_weekday: None,
        schedule_day: None,
        cron_expression: None,
    }
}

#[test]
fn a_draft_is_validated_and_gets_its_first_trigger() {
    let task = draft_recurring_task(cm_payload(), &cm_at(10, 0, 0)).unwrap();
    assert_eq!(task.id, "");
    assert_eq!(task.description, "water the plants");
    assert_eq!(task.task_type, "RECURRING");
    assert_eq!(task.status, "PENDING");
    assert_eq!(task.repeat_mode, "INTERVAL_RANGE");
    assert_eq!(task.interval_minutes, 1);
    assert_eq!(task.next_trigger, "2024-01-01T10:01:00");
    assert!(!task.is_paused);

    let mut weekly = cm_payload();
    weekly.repeat_mode = Some("weekly".to_string());
    weekly.schedule_time = Some("9:30".to_string());
    weekly.schedule_weekday = Some(5);
    let task = draft_recurring_task(weekly, &cm_at(10, 0, 0)).unwrap();
    assert_eq!(task.schedule_time, Some("09:30".to_string()));
    assert_eq!(task.next_trigger, "2024-01-05T09:30:00");
}

#[test]
fn a_faulty_draft_is_rejected() {
    let mut p = cm_payload();
    p.repeat_mode = Some("monthly".to_string());
    p.schedule_time = Some("09:00".to_string());
    assert_eq!(
        draft_recurring_task(p, &cm_at(10, 0, 0)),
        Err(AppError::Invalid("每月模式需要设置几号".to_string()))
    );
}

#[test]
fn an_edit_is_all_or_nothing() {
    let mut task = draft_recurring_task(cm_payload(), &cm_at(10, 0, 0)).unwrap();
    task.repeat_mode = "daily".to_string();
    task.schedule_time = Some(" 7:15".to_string());
    refresh_recurring_task(&mut task, &cm_at(10, 0, 0)).unwrap();
    assert_eq!(task.repeat_mode, "DAILY");
    assert_eq!(task.schedule_time, Some("07:15".to_string()));
    assert_eq!(task.next_trigger, "2024-01-02T07:15:00");

    task.schedule_time = Some("7 o'clock".to_string());
    let before = task.clone();
    assert!(refresh_recurring_task(&mut task, &cm_at(10, 0, 0)).is_err());
    assert_eq!(task, before);

    let mut last = before.clone();
    last.schedule_time = Some("07:15".to_string());
    let keep = last.clone();
    assert_eq!(
        refresh_recurring_task(&mut last, &Timestamp { day: MAX_DAY, sec: 80_000, nano: 0 }),
        Err(AppError::Invalid("无法计算下一次触发时间".to_string()))
    );
    assert_eq!(last, keep);
}

#[test]
fn resuming_clears_the_pause() {
    let mut task = draft_recurring_task(cm_payload(), &cm_at(10, 0, 0)).unwrap();
    task.is_paused = true;
    resume_recurring_task(&mut task, &cm_at(12, 0, 0)).unwrap();
    assert!(!task.is_paused);
    assert_eq!(task.next_trigger, "2024-01-01T12:01:00");

    task.is_paused = true;
    task.start_time = Some("bad".to_string());
    let before = task.clone();
    assert!(resume_recurring_task(&mut task, &cm_at(12, 0, 0)).is_err());
    assert_eq!(task, before);
}

#[test]
fn snoozing_adds_at_least_a_minute() {
    assert_eq!(add_minutes(5, &cm_at(10, 0, 0)), Some("2024-01-01T10:05:00".to_string()));
    assert_eq!(add_minutes(0, &cm_at(10, 0, 0)), Some("2024-01-01T10:01:00".to_string()));
    assert_eq!(add_minutes(-7, &cm_at(23, 59, 30)), Some("2024-01-02T00:00:30".to_string()));
    assert_eq!(add_minutes(i64::MAX, &cm_at(10, 0, 0)), None);
}

#[test]
fn snoozing_moves_the_trigger() {
    let mut task = draft_recurring_task(cm_payload(), &cm_at(10, 0, 0)).unwrap();
    task.is_paused = true;
    assert!(snooze_recurring_task(&mut task, 10, &cm_at(10, 0, 0)));
    assert_eq!(task.next_trigger, "2024-01-01T10:10:00");
    assert!(!task.is_paused);
    let before = task.clone();
    assert!(!snooze_recurring_task(&mut task, i64::MAX, &cm_at(10, 0, 0)));
    assert_eq!(task, before);

    let mut one = Task {
        id: "t".to_string(),
        description: "d".to_string(),
        task_type: "ONE_TIME".to_string(),
        status: "PENDING".to_string(),
        created_at: "c".to_string(),
        completed_at: None,
        reminder_time: None,
        updated_at: None,
        deleted_at: None,
    };
    assert!(snooze_task(&mut one, 3, &cm_at(10, 0, 0)));
    assert_eq!(one.reminder_time, Some("2024-01-01T10:03:00".to_string()));
    let before = one.clone();
    assert!(!snooze_task(&mut one, i64::MAX, &cm_at(10, 0, 0)));
    assert_eq!(one, before);
}

#[test]
fn the_status_defaults_to_never_synced() {
    let mut s = SyncSettings {
        webdav_enabled: true,
        webdav_url: "u".to_string(),
        webdav_sync_interval_minutes: 60,
        webdav_last_sync_time: None,
        webdav_last_local_change_time: None,
        webdav_last_sync_status: None,
        webdav_last_sync_error: None,
    };
    let service = CloudSyncService::new();
    assert_eq!(service.get_status(&s), SyncStatus { status: "未同步".to_string(), error: None, time: None });
    s.webdav_last_sync_status = Some("同步失败".to_string());
    s.webdav_last_sync_error = Some("同步错误: x".to_string());
    s.webdav_last_sync_time = Some("2024-01-01T10:00:00".to_string());
    let status = service.get_status(&s);
    assert_eq!(
        status,
        SyncStatus {
            status: "同步失败".to_string(),
            error: Some("同步错误: x".to_string()),
            time: Some("2024-01-01T10:00:00".to_string()),
        }
    );
    assert_eq!(status.clone(), status);
}

#[test]
fn records_are_copied_whole() {
    let record = ReminderRecord {
        id: "rec".to_string(),
        reminder_id: "r".to_string(),
        description: "d".to_string(),
        reminder_type: "TASK".to_string(),
        trigger_time: "2024-01-01T10:00:00".to_string(),
        close_time: Some("2024-01-01T10:01:00".to_string()),
        action: "PENDING".to_string(),
        updated_at: None,
        deleted_at: None,
    };
    assert_eq!(record.clone(), record);
    assert_eq!(clone_text(&Some("x".to_string())), Some("x".to_string()));
    assert_eq!(clone_text(&None), None);
}

#[test]
fn cleanup_looks_back_thirty_and_seven_days() {
    assert_eq!((COMPLETED_RETENTION_DAYS, DELETED_RETENTION_DAYS), (30, 7));
    assert_eq!(
        cleanup_cutoffs(&cm_at(10, 0, 0)),
        Some(("2023-12-02T10:00:00".to_string(), "2023-12-25T10:00:00".to_string()))
    );
    assert_eq!(cleanup_cutoffs(&Timestamp { day: MIN_DAY + 10, sec: 0, nano: 0 }), None);
}
