use chrono::{Datelike, NaiveDate};
use task_reminder::datemath::Timestamp;
use task_reminder::sync::{
    compute_dirty_from_settings, is_success_status, next_allowed_auto_sync_time, SyncAction,
    CloudSyncService, SyncOutcome, SyncReason, SyncSettings, INTERVAL_YIELD_SECONDS,
    LOCAL_CHANGE_DEBOUNCE_SECONDS, MIN_AUTOMATIC_SYNC_INTERVAL_SECONDS,
    STARTUP_SYNC_DELAY_SECONDS,
};

fn sy_at(h: u32, mi: u32, s: u32) -> Timestamp {
    Timestamp {
        day: NaiveDate::from_ymd_opt(2024, 1, 1).unwrap().num_days_from_ce(),
        sec: h * 3600 + mi * 60 + s,
        nano: 0,
    }
}

fn sy_settings() -> SyncSettings {
    SyncSettings {
        webdav_enabled: true,
        webdav_url: "https://dav.example.com".to_string(),
        webdav_sync_interval_minutes: 60,
        webdav_last_sync_time: None,
        webdav_last_local_change_time: None,
        webdav_last_sync_status: None,
        webdav_last_sync_error: None,
    }
}

fn sy_arm(due: Timestamp, delay_seconds: u64, reason: SyncReason) -> SyncAction {
    SyncAction::Arm { due, delay_seconds, delay_nanos: 0, reason }
}

#[test]
fn policy_constants() {
    assert_eq!(LOCAL_CHANGE_DEBOUNCE_SECONDS, 5 * 60);
    assert_eq!(MIN_AUTOMATIC_SYNC_INTERVAL_SECONDS, 15 * 60);
    assert_eq!(STARTUP_SYNC_DELAY_SECONDS, 15);
    assert_eq!(INTERVAL_YIELD_SECONDS, 30);
}

#[test]
fn sync_needs_a_switch_and_an_address() {
    let mut s = sy_settings();
    assert!(s.is_configured());
    assert_eq!(s.interval_seconds(), Some(3600));
    s.webdav_sync_interval_minutes = 0;
    assert_eq!(s.interval_seconds(), Some(60));
    s.webdav_sync_interval_minutes = i64::MAX;
    assert_eq!(s.interval_seconds(), Some(u64::MAX));
    s.webdav_url = "   ".to_string();
    assert!(!s.is_configured());
    assert_eq!(s.interval_seconds(), None);
    s.webdav_url = "https://x".to_string();
    s.webdav_enabled = false;
    assert!(!s.is_configured());
}

#[test]
fn two_statuses_mean_success() {
    assert!(is_success_status(&Some("同步成功".to_string())));
    assert!(is_success_status(&Some("首次同步完成".to_string())));
    assert!(!is_success_status(&Some("同步失败".to_string())));
    assert!(!is_success_status(&Some("同步中".to_string())));
    assert!(!is_success_status(&None));
}

#[test]
fn dirty_is_read_off_the_settings() {
    let mut s = sy_settings();
    assert!(!compute_dirty_from_settings(&s));
    s.webdav_last_local_change_time = Some("2024-01-01T10:00:00".to_string());
    assert!(compute_dirty_from_settings(&s));
    s.webdav_last_sync_status = Some("同步失败".to_string());
    s.webdav_last_sync_time = Some("2024-01-01T11:00:00".to_string());
    assert!(compute_dirty_from_settings(&s));
    s.webdav_last_sync_status = Some("同步成功".to_string());
    assert!(!compute_dirty_from_settings(&s));
    s.webdav_last_sync_time = Some("2024-01-01T10:00:00".to_string());
    assert!(!compute_dirty_from_settings(&s));
    s.webdav_last_sync_time = Some("2024-01-01T09:59:59".to_string());
    assert!(compute_dirty_from_settings(&s));
    s.webdav_last_sync_time = Some("garbled".to_string());
    assert!(compute_dirty_from_settings(&s));
    s.webdav_last_sync_time = None;
    assert!(compute_dirty_from_settings(&s));
}

#[test]
fn throttle_ends_a_quarter_of_an_hour_after_the_last_sync() {
    let mut s = sy_settings();
    assert_eq!(next_allowed_auto_sync_time(&s, &sy_at(10, 0, 0)), None);
    s.webdav_last_sync_time = Some("2024-01-01T09:50:00".to_string());
    assert_eq!(next_allowed_auto_sync_time(&s, &sy_at(10, 0, 0)), Some(sy_at(10, 5, 0)));
    assert_eq!(next_allowed_auto_sync_time(&s, &sy_at(10, 5, 0)), None);
    assert_eq!(next_allowed_auto_sync_time(&s, &sy_at(10, 4, 59)), Some(sy_at(10, 5, 0)));
    s.webdav_last_sync_time = Some("garbled".to_string());
    assert_eq!(next_allowed_auto_sync_time(&s, &sy_at(10, 0, 0)), None);
}

#[test]
fn a_burst_of_changes_leaves_one_attempt_after_the_last() {
    let s = sy_settings();
    let mut c = CloudSyncService::new();
    assert_eq!(
        c.notify_local_change(&s, &sy_at(10, 0, 0)),
        sy_arm(sy_at(10, 5, 0), 300, SyncReason::Debounce)
    );
    assert_eq!(
        c.notify_local_change(&s, &sy_at(10, 1, 0)),
        sy_arm(sy_at(10, 6, 0), 300, SyncReason::Debounce)
    );
    assert_eq!(
        c.notify_local_change(&s, &sy_at(10, 2, 0)),
        sy_arm(sy_at(10, 7, 0), 300, SyncReason::Debounce)
    );
    // Each schedule replaces the pending timer, so one attempt is armed:
    // seven minutes after the first change.
    assert_eq!(c.next_auto_sync_due, Some(sy_at(10, 7, 0)));
    assert_eq!(c.local_change_seq, 3);
    assert!(c.dirty);
    assert!(!c.sync_in_progress);
}

#[test]
fn a_later_attempt_is_never_moved_forward() {
    let s = sy_settings();
    let mut c = CloudSyncService::new();
    c.next_auto_sync_due = Some(sy_at(11, 0, 0));
    assert_eq!(c.notify_local_change(&s, &sy_at(10, 0, 0)), SyncAction::Nothing);
    assert_eq!(c.next_auto_sync_due, Some(sy_at(11, 0, 0)));
    assert!(c.dirty);
    c.next_auto_sync_due = Some(sy_at(10, 5, 0));
    assert_eq!(c.notify_local_change(&s, &sy_at(10, 0, 0)), SyncAction::Nothing);
    assert_eq!(c.next_auto_sync_due, Some(sy_at(10, 5, 0)));
}

#[test]
fn the_minimum_distance_pushes_the_attempt_out() {
    let mut s = sy_settings();
    s.webdav_last_sync_time = Some("2024-01-01T09:58:00".to_string());
    let mut c = CloudSyncService::new();
    assert_eq!(
        c.notify_local_change(&s, &sy_at(10, 0, 0)),
        sy_arm(sy_at(10, 13, 0), 780, SyncReason::Debounce)
    );
    s.webdav_last_sync_time = Some("2024-01-01T09:40:00".to_string());
    let mut c = CloudSyncService::new();
    assert_eq!(
        c.notify_local_change(&s, &sy_at(10, 0, 0)),
        sy_arm(sy_at(10, 5, 0), 300, SyncReason::Debounce)
    );
}

#[test]
fn nothing_is_scheduled_without_a_configured_sync() {
    let mut s = sy_settings();
    s.webdav_enabled = false;
    let mut c = CloudSyncService::new();
    assert_eq!(c.notify_local_change(&s, &sy_at(10, 0, 0)), SyncAction::Nothing);
    assert_eq!(c.next_auto_sync_due, None);
    assert!(c.dirty);
    assert_eq!(c.local_change_seq, 1);
    assert_eq!(c.request_sync(&s, SyncReason::Manual), SyncAction::Nothing);
    assert_eq!(c.request_sync_if_needed(&s, &sy_at(10, 0, 0), SyncReason::Interval), SyncAction::Nothing);
}

#[test]
fn the_sequence_counts_around() {
    let s = sy_settings();
    let mut c = CloudSyncService::new();
    c.local_change_seq = u64::MAX;
    c.notify_local_change(&s, &sy_at(10, 0, 0));
    assert_eq!(c.local_change_seq, 0);
}

#[test]
fn only_one_attempt_runs_at_a_time() {
    let s = sy_settings();
    let mut c = CloudSyncService::new();
    c.local_change_seq = 4;
    assert_eq!(
        c.request_sync(&s, SyncReason::Manual),
        SyncAction::Start { reason: SyncReason::Manual, seq: 4 }
    );
    assert!(c.sync_in_progress);
    assert_eq!(c.request_sync(&s, SyncReason::Manual), SyncAction::Nothing);
    c.dirty = true;
    assert_eq!(c.request_sync_if_needed(&s, &sy_at(10, 0, 0), SyncReason::Interval), SyncAction::Nothing);
    assert_eq!(c.on_timer(&s, &sy_at(10, 0, 0), SyncReason::Debounce), SyncAction::Nothing);
}

#[test]
fn the_timer_starts_an_attempt_when_changes_wait() {
    let s = sy_settings();
    let mut c = CloudSyncService::new();
    c.notify_local_change(&s, &sy_at(10, 0, 0));
    assert_eq!(
        c.on_timer(&s, &sy_at(10, 5, 0), SyncReason::Debounce),
        SyncAction::Start { reason: SyncReason::Debounce, seq: 1 }
    );
    assert_eq!(c.next_auto_sync_due, None);
    assert!(c.sync_in_progress);

    let mut clean = CloudSyncService::new();
    clean.next_auto_sync_due = Some(sy_at(10, 5, 0));
    assert_eq!(clean.on_timer(&s, &sy_at(10, 5, 0), SyncReason::Debounce), SyncAction::Nothing);
    assert_eq!(clean.next_auto_sync_due, None);
}

#[test]
fn a_throttled_request_is_scheduled_instead() {
    let mut s = sy_settings();
    s.webdav_last_sync_time = Some("2024-01-01T09:50:00".to_string());
    let mut c = CloudSyncService::new();
    c.dirty = true;
    assert_eq!(
        c.request_sync_if_needed(&s, &sy_at(10, 0, 0), SyncReason::Interval),
        sy_arm(sy_at(10, 5, 0), 300, SyncReason::Throttle)
    );
    assert!(!c.sync_in_progress);
    assert_eq!(c.next_auto_sync_due, Some(sy_at(10, 5, 0)));
}

#[test]
fn a_due_schedule_requests_at_once() {
    let s = sy_settings();
    let mut c = CloudSyncService::new();
    c.dirty = true;
    assert_eq!(
        c.schedule_auto_sync_at(&s, sy_at(10, 0, 0), &sy_at(10, 0, 0), SyncReason::Startup),
        SyncAction::Start { reason: SyncReason::Startup, seq: 0 }
    );
    let mut c = CloudSyncService::new();
    c.dirty = true;
    let now = Timestamp { nano: 250_000_000, ..sy_at(10, 0, 0) };
    assert_eq!(
        c.schedule_auto_sync_at(&s, sy_at(10, 0, 1), &now, SyncReason::Startup),
        SyncAction::Arm { due: sy_at(10, 0, 1), delay_seconds: 0, delay_nanos: 750_000_000, reason: SyncReason::Startup }
    );
}

#[test]
fn the_interval_timer_yields_to_a_near_attempt() {
    let s = sy_settings();
    let mut c = CloudSyncService::new();
    c.dirty = true;
    c.next_auto_sync_due = Some(sy_at(10, 0, 30));
    assert_eq!(c.request_sync_on_interval(&s, &sy_at(10, 0, 0)), SyncAction::Nothing);
    assert_eq!(c.request_sync_on_interval(&s, &sy_at(10, 0, 29)), SyncAction::Nothing);
    assert!(!c.sync_in_progress);
    // Further away than 30 seconds, the interval timer acts as a backstop.
    let mut far = c;
    assert_eq!(
        far.request_sync_on_interval(&s, &sy_at(9, 59, 59)),
        SyncAction::Start { reason: SyncReason::Interval, seq: 0 }
    );
    // So it does when the attempt is due or overdue.
    let mut due = c;
    assert_eq!(
        due.request_sync_on_interval(&s, &sy_at(10, 0, 30)),
        SyncAction::Start { reason: SyncReason::Interval, seq: 0 }
    );
    let mut clean = CloudSyncService::new();
    assert_eq!(clean.request_sync_on_interval(&s, &sy_at(10, 0, 0)), SyncAction::Nothing);
}

#[test]
fn success_clears_dirty_only_without_new_changes() {
    let s = sy_settings();
    let mut c = CloudSyncService::new();
    c.notify_local_change(&s, &sy_at(10, 0, 0));
    let started = match c.on_timer(&s, &sy_at(10, 5, 0), SyncReason::Debounce) {
        SyncAction::Start { seq, .. } => seq,
        other => panic!("{:?}", other),
    };
    assert_eq!(c.on_sync_finished(SyncOutcome::Success, started, &s, &sy_at(10, 5, 9)), SyncAction::Nothing);
    assert!(!c.dirty);
    assert!(!c.sync_in_progress);

    let mut c = CloudSyncService::new();
    c.notify_local_change(&s, &sy_at(10, 0, 0));
    let started = match c.on_timer(&s, &sy_at(10, 5, 0), SyncReason::Debounce) {
        SyncAction::Start { seq, .. } => seq,
        other => panic!("{:?}", other),
    };
    // A change comes in while the attempt runs.
    c.notify_local_change(&s, &sy_at(10, 5, 3));
    assert_eq!(c.next_auto_sync_due, Some(sy_at(10, 10, 3)));
    // The end of the attempt schedules a further one, a quiet period on.
    assert_eq!(
        c.on_sync_finished(SyncOutcome::Success, started, &s, &sy_at(10, 5, 9)),
        sy_arm(sy_at(10, 10, 9), 300, SyncReason::Debounce)
    );
    assert!(c.dirty);
    assert!(!c.sync_in_progress);
    assert_eq!(c.next_auto_sync_due, Some(sy_at(10, 10, 9)));
}

#[test]
fn failure_and_skip_keep_dirty() {
    let s = sy_settings();
    for outcome in [SyncOutcome::Failed, SyncOutcome::Skipped] {
        let mut c = CloudSyncService::new();
        c.dirty = true;
        c.sync_in_progress = true;
        assert_eq!(c.on_sync_finished(outcome, 0, &s, &sy_at(10, 0, 0)), SyncAction::Nothing);
        assert!(c.dirty);
        assert!(!c.sync_in_progress);
    }
}

#[test]
fn startup_schedules_shortly_when_changes_wait() {
    let mut s = sy_settings();
    s.webdav_last_local_change_time = Some("2024-01-01T08:00:00".to_string());
    let mut c = CloudSyncService::new();
    assert_eq!(
        c.start(&s, &sy_at(10, 0, 0)),
        (Some(3600), sy_arm(sy_at(10, 0, 15), 15, SyncReason::Startup))
    );
    assert!(c.dirty);

    s.webdav_last_sync_status = Some("同步成功".to_string());
    s.webdav_last_sync_time = Some("2024-01-01T09:00:00".to_string());
    let mut c = CloudSyncService::new();
    c.dirty = true;
    assert_eq!(c.update_settings(&s, &sy_at(10, 0, 0)), (Some(3600), SyncAction::Nothing));
    assert!(!c.dirty);

    // Without a configured sync there is no interval timer and no attempt.
    s.webdav_enabled = false;
    s.webdav_last_sync_status = None;
    let mut c = CloudSyncService::new();
    assert_eq!(c.start(&s, &sy_at(10, 0, 0)), (None, SyncAction::Nothing));
    assert!(c.dirty);
}

#[test]
fn stop_forgets_the_schedule() {
    let s = sy_settings();
    let mut c = CloudSyncService::new();
    c.notify_local_change(&s, &sy_at(10, 0, 0));
    c.stop();
    assert_eq!(c.next_auto_sync_due, None);
    assert!(c.dirty);
    c.refresh_dirty_from_settings(&s);
    assert!(!c.dirty);
    c.dirty = true;
    assert_eq!(
        c.schedule_startup_sync_if_needed(&s, &sy_at(10, 0, 0)),
        sy_arm(sy_at(10, 0, 15), 15, SyncReason::Startup)
    );
    let mut d = CloudSyncService::new();
    assert_eq!(
        d.schedule_debounced_sync(&s, &sy_at(10, 0, 0)),
        sy_arm(sy_at(10, 5, 0), 300, SyncReason::Debounce)
    );
}
