use task_reminder::attempt::{AttemptCommand, AttemptEnd, AttemptPhase, AttemptReport, SyncAttempt};
use task_reminder::errors::AppError;
use task_reminder::sync::SyncOutcome;

fn at_end(c: AttemptCommand) -> AttemptEnd {
    match c {
        AttemptCommand::Finish(end) => end,
        other => panic!("not the end: {:?}", other),
    }
}

fn at_failure() -> AppError {
    AppError::Sync("connection reset".to_string())
}

#[test]
fn first_sync_uploads_the_local_snapshot() {
    let mut a = SyncAttempt::new();
    assert_eq!(a.advance(AttemptReport::Begin), AttemptCommand::TakeLock { status: "同步中".to_string() });
    assert_eq!(a.advance(AttemptReport::Lock(Ok(true))), AttemptCommand::ProbeRemote);
    assert_eq!(a.advance(AttemptReport::Remote(Ok(false))), AttemptCommand::ExportSnapshot);
    assert_eq!(a.advance(AttemptReport::Step(Ok(()))), AttemptCommand::UploadSnapshot);
    let end = at_end(a.advance(AttemptReport::Step(Ok(()))));
    assert_eq!(
        end,
        AttemptEnd {
            outcome: SyncOutcome::Success,
            status: "首次同步完成".to_string(),
            error: None,
            release_lock: true,
            remove_snapshot: true,
            remove_download: false,
            data_updated: false,
        }
    );
    assert_eq!(a.phase, AttemptPhase::Done);
}

#[test]
fn later_syncs_download_merge_and_upload() {
    let mut a = SyncAttempt::new();
    a.advance(AttemptReport::Begin);
    a.advance(AttemptReport::Lock(Ok(true)));
    assert_eq!(a.advance(AttemptReport::Remote(Ok(true))), AttemptCommand::DownloadRemote);
    assert_eq!(a.advance(AttemptReport::Step(Ok(()))), AttemptCommand::MergeRemote);
    assert_eq!(a.advance(AttemptReport::Step(Ok(()))), AttemptCommand::ExportSnapshot);
    assert_eq!(a.advance(AttemptReport::Step(Ok(()))), AttemptCommand::UploadSnapshot);
    let end = at_end(a.advance(AttemptReport::Step(Ok(()))));
    assert_eq!(
        end,
        AttemptEnd {
            outcome: SyncOutcome::Success,
            status: "同步成功".to_string(),
            error: None,
            release_lock: true,
            remove_snapshot: true,
            remove_download: true,
            data_updated: true,
        }
    );
}

#[test]
fn a_held_lock_skips_the_attempt() {
    let mut a = SyncAttempt::new();
    a.advance(AttemptReport::Begin);
    let end = at_end(a.advance(AttemptReport::Lock(Ok(false))));
    assert_eq!(
        end,
        AttemptEnd {
            outcome: SyncOutcome::Skipped,
            status: "锁被占用，稍后重试".to_string(),
            error: None,
            release_lock: false,
            remove_snapshot: false,
            remove_download: false,
            data_updated: false,
        }
    );
}

#[test]
fn a_failure_ends_the_attempt_before_any_upload() {
    // The download fails: nothing was uploaded, the lock is released, and
    // what may be left of the download is removed.
    let mut a = SyncAttempt::new();
    a.advance(AttemptReport::Begin);
    a.advance(AttemptReport::Lock(Ok(true)));
    a.advance(AttemptReport::Remote(Ok(true)));
    let end = at_end(a.advance(AttemptReport::Step(Err(at_failure()))));
    assert_eq!(
        end,
        AttemptEnd {
            outcome: SyncOutcome::Failed,
            status: "同步失败".to_string(),
            error: Some("同步错误: connection reset".to_string()),
            release_lock: true,
            remove_snapshot: false,
            remove_download: true,
            data_updated: false,
        }
    );
    assert_eq!(a, SyncAttempt { phase: AttemptPhase::Done, lock_held: false, snapshot_made: false, download_made: false });
}

#[test]
fn failures_at_every_step_end_as_failed() {
    for failing in 0..7usize {
        let mut a = SyncAttempt::new();
        let reports: Vec<AttemptReport> = vec![
            AttemptReport::Begin,
            AttemptReport::Lock(if failing == 0 { Err(at_failure()) } else { Ok(true) }),
            AttemptReport::Remote(if failing == 1 { Err(at_failure()) } else { Ok(true) }),
            AttemptReport::Step(if failing == 2 { Err(at_failure()) } else { Ok(()) }),
            AttemptReport::Step(if failing == 3 { Err(at_failure()) } else { Ok(()) }),
            AttemptReport::Step(if failing == 4 { Err(at_failure()) } else { Ok(()) }),
            AttemptReport::Step(if failing == 5 { Err(at_failure()) } else { Ok(()) }),
        ];
        let mut uploads = 0;
        let mut last = None;
        for r in reports {
            let c = a.advance(r);
            if c == AttemptCommand::UploadSnapshot {
                uploads += 1;
            }
            if let AttemptCommand::Finish(end) = c {
                last = Some(end);
                break;
            }
        }
        let end = last.unwrap();
        if failing == 6 {
            assert_eq!(end.outcome, SyncOutcome::Success);
            assert_eq!(uploads, 1);
        } else {
            assert_eq!(end.outcome, SyncOutcome::Failed);
            assert_eq!(end.status, "同步失败");
            assert_eq!(end.error, Some("同步错误: connection reset".to_string()));
            assert_eq!(end.release_lock, failing >= 1);
            assert_eq!(end.remove_download, failing >= 2);
            assert_eq!(end.remove_snapshot, failing >= 4);
            assert_eq!(uploads, if failing == 5 { 1 } else { 0 });
        }
    }
}

#[test]
fn a_report_out_of_turn_ends_the_attempt() {
    let mut a = SyncAttempt::new();
    let end = at_end(a.advance(AttemptReport::Step(Ok(()))));
    assert_eq!(end.outcome, SyncOutcome::Failed);
    assert_eq!(end.error, Some("系统错误: 同步步骤顺序错误".to_string()));
    assert!(!end.release_lock);
    let mut b = SyncAttempt::new();
    b.advance(AttemptReport::Begin);
    b.advance(AttemptReport::Lock(Ok(true)));
    let end = at_end(b.advance(AttemptReport::Begin));
    assert_eq!(end.outcome, SyncOutcome::Failed);
    assert!(end.release_lock);
}
