//! One attempt to sync, step by step. The attempt takes the remote lock,
//! looks for the remote snapshot, uploads the local one where there is none
//! yet, and else downloads, merges and uploads. The caller does the work of
//! each step and reports how it went; the attempt says what comes next and
//! how everything ends.

use crate::errors::{AppError, AppErrorView};
use crate::sync::SyncOutcome;
use vstd::prelude::*;

verus! {

/// Where an attempt stands: the step whose report it waits for.
#[derive(Clone, Copy, Debug, PartialEq, Eq, Structural)]
pub enum AttemptPhase {
    Idle,
    Locking,
    Probing,
    ExportingFirst,
    UploadingFirst,
    Downloading,
    Merging,
    Exporting,
    Uploading,
    Done,
}

/// The state of an attempt.
#[derive(Clone, Copy, Debug, PartialEq, Eq, Structural)]
pub struct SyncAttempt {
    pub phase: AttemptPhase,
    /// Whether this attempt has taken the remote lock.
    pub lock_held: bool,
    /// Whether a snapshot of the local store may lie among the temporary
    /// files.
    pub snapshot_made: bool,
    /// Whether a downloaded snapshot may lie among the temporary files.
    pub download_made: bool,
}

/// What the caller reports to an attempt.
#[derive(Debug, PartialEq, Eq)]
pub enum AttemptReport {
    /// The attempt is to begin.
    Begin,
    /// How taking the lock went; `Ok(false)` says that another device
    /// holds it.
    Lock(Result<bool, AppError>),
    /// How the look for the remote snapshot went; `Ok(true)` says that
    /// there is one.
    Remote(Result<bool, AppError>),
    /// How an export, upload, download or merge went.
    Step(Result<(), AppError>),
}

/// The mathematical value of an [`AttemptReport`].
pub enum ReportView {
    Begin,
    Lock(Result<bool, AppErrorView>),
    Remote(Result<bool, AppErrorView>),
    Step(Result<(), AppErrorView>),
}

impl View for AttemptReport {
    type V = ReportView;

    open spec fn view(&self) -> ReportView {
        match self {
            AttemptReport::Begin => ReportView::Begin,
            AttemptReport::Lock(r) => ReportView::Lock(
                match r {
                    Ok(b) => Ok(*b),
                    Err(e) => Err(e@),
                },
            ),
            AttemptReport::Remote(r) => ReportView::Remote(
                match r {
                    Ok(b) => Ok(*b),
                    Err(e) => Err(e@),
                },
            ),
            AttemptReport::Step(r) => ReportView::Step(
                match r {
                    Ok(_) => Ok(()),
                    Err(e) => Err(e@),
                },
            ),
        }
    }
}

/// How an attempt ends and what is left to do.
#[derive(Debug, PartialEq, Eq)]
pub struct AttemptEnd {
    pub outcome: SyncOutcome,
    /// The status to record.
    pub status: String,
    /// The error to record with the status.
    pub error: Option<String>,
    /// Whether the remote lock is to be released.
    pub release_lock: bool,
    /// Whether the snapshot of the local store is to be removed.
    pub remove_snapshot: bool,
    /// Whether the downloaded snapshot is to be removed.
    pub remove_download: bool,
    /// Whether the presentation layer is to be told that the data changed.
    pub data_updated: bool,
}

/// The mathematical value of an [`AttemptEnd`].
pub struct EndView {
    pub outcome: SyncOutcome,
    pub status: Seq<char>,
    pub error: Option<Seq<char>>,
    pub release_lock: bool,
    pub remove_snapshot: bool,
    pub remove_download: bool,
    pub data_updated: bool,
}

impl View for AttemptEnd {
    type V = EndView;

    open spec fn view(&self) -> EndView {
        EndView {
            outcome: self.outcome,
            status: self.status@,
            error: match self.error {
                Some(e) => Some(e@),
                None => None,
            },
            release_lock: self.release_lock,
            remove_snapshot: self.remove_snapshot,
            remove_download: self.remove_download,
            data_updated: self.data_updated,
        }
    }
}

/// What the caller has to do next.
#[derive(Debug, PartialEq, Eq)]
pub enum AttemptCommand {
    /// Record the given status, then try to take the remote lock.
    TakeLock { status: String },
    /// Look whether the remote snapshot exists.
    ProbeRemote,
    /// Write a snapshot of the local store into a temporary file.
    ExportSnapshot,
    /// Upload the snapshot of the local store in place of the remote one.
    UploadSnapshot,
    /// Download the remote snapshot into a temporary file.
    DownloadRemote,
    /// Merge the downloaded snapshot into the local store.
    MergeRemote,
    /// End the attempt.
    Finish(AttemptEnd),
}

/// The mathematical value of an [`AttemptCommand`].
pub enum CommandView {
    TakeLock { status: Seq<char> },
    ProbeRemote,
    ExportSnapshot,
    UploadSnapshot,
    DownloadRemote,
    MergeRemote,
    Finish(EndView),
}

impl View for AttemptCommand {
    type V = CommandView;

    open spec fn view(&self) -> CommandView {
        match self {
            AttemptCommand::TakeLock { status } => CommandView::TakeLock { status: status@ },
            AttemptCommand::ProbeRemote => CommandView::ProbeRemote,
            AttemptCommand::ExportSnapshot => CommandView::ExportSnapshot,
            AttemptCommand::UploadSnapshot => CommandView::UploadSnapshot,
            AttemptCommand::DownloadRemote => CommandView::DownloadRemote,
            AttemptCommand::MergeRemote => CommandView::MergeRemote,
            AttemptCommand::Finish(end) => CommandView::Finish(end@),
        }
    }
}

/// The error that answers a report which the attempt did not wait for.
pub open spec fn out_of_turn() -> AppErrorView {
    AppErrorView::System("同步步骤顺序错误"@)
}

impl SyncAttempt {
    /// What holds of an attempt at every step: from the look for the
    /// remote snapshot on it holds the lock, and it knows of every
    /// temporary file that a step may have written.
    pub open spec fn wf(self) -> bool {
        match self.phase {
            AttemptPhase::Idle | AttemptPhase::Done | AttemptPhase::Locking => !self.lock_held
                && !self.snapshot_made && !self.download_made,
            AttemptPhase::Probing => self.lock_held && !self.snapshot_made && !self.download_made,
            AttemptPhase::ExportingFirst | AttemptPhase::UploadingFirst => self.lock_held
                && self.snapshot_made && !self.download_made,
            AttemptPhase::Downloading | AttemptPhase::Merging => self.lock_held
                && !self.snapshot_made && self.download_made,
            AttemptPhase::Exporting | AttemptPhase::Uploading => self.lock_held
                && self.snapshot_made && self.download_made,
        }
    }

    /// The attempt at rest after its end.
    pub open spec fn ended() -> SyncAttempt {
        SyncAttempt {
            phase: AttemptPhase::Done,
            lock_held: false,
            snapshot_made: false,
            download_made: false,
        }
    }

    /// The end of an attempt: the lock is released where it is held, and
    /// every temporary file that may exist is removed.
    pub open spec fn end(
        self,
        outcome: SyncOutcome,
        status: Seq<char>,
        error: Option<Seq<char>>,
        data_updated: bool,
    ) -> (SyncAttempt, CommandView) {
        (
            Self::ended(),
            CommandView::Finish(
                EndView {
                    outcome,
                    status,
                    error,
                    release_lock: self.lock_held,
                    remove_snapshot: self.snapshot_made,
                    remove_download: self.download_made,
                    data_updated,
                },
            ),
        )
    }

    /// The end of an attempt that failed with an error.
    pub open spec fn fail(self, e: AppErrorView) -> (SyncAttempt, CommandView) {
        self.end(SyncOutcome::Failed, "同步失败"@, Some(e.text()), false)
    }

    /// The attempt in another phase.
    pub open spec fn at(self, phase: AttemptPhase) -> SyncAttempt {
        SyncAttempt { phase, ..self }
    }

    /// What follows a report. A step that went well leads to the next
    /// step; the first error ends the attempt as failed, and nothing is
    /// uploaded after it. A lock in another device's hands ends the attempt
    /// as skipped. A report that the attempt did not wait for ends it as
    /// failed.
    pub open spec fn step(self, report: ReportView) -> (SyncAttempt, CommandView) {
        match (self.phase, report) {
            (AttemptPhase::Idle, ReportView::Begin) => (
                self.at(AttemptPhase::Locking),
                CommandView::TakeLock { status: "同步中"@ },
            ),
            (AttemptPhase::Locking, ReportView::Lock(Ok(true))) => (
                SyncAttempt { phase: AttemptPhase::Probing, lock_held: true, ..self },
                CommandView::ProbeRemote,
            ),
            (AttemptPhase::Locking, ReportView::Lock(Ok(false))) => self.end(
                SyncOutcome::Skipped,
                "锁被占用，稍后重试"@,
                None,
                false,
            ),
            (AttemptPhase::Locking, ReportView::Lock(Err(e))) => self.fail(e),
            (AttemptPhase::Probing, ReportView::Remote(Ok(false))) => (
                SyncAttempt { phase: AttemptPhase::ExportingFirst, snapshot_made: true, ..self },
                CommandView::ExportSnapshot,
            ),
            (AttemptPhase::Probing, ReportView::Remote(Ok(true))) => (
                SyncAttempt { phase: AttemptPhase::Downloading, download_made: true, ..self },
                CommandView::DownloadRemote,
            ),
            (AttemptPhase::Probing, ReportView::Remote(Err(e))) => self.fail(e),
            (AttemptPhase::ExportingFirst, ReportView::Step(Ok(_))) => (
                self.at(AttemptPhase::UploadingFirst),
                CommandView::UploadSnapshot,
            ),
            (AttemptPhase::UploadingFirst, ReportView::Step(Ok(_))) => self.end(
                SyncOutcome::Success,
                "首次同步完成"@,
                None,
                false,
            ),
            (AttemptPhase::Downloading, ReportView::Step(Ok(_))) => (
                self.at(AttemptPhase::Merging),
                CommandView::MergeRemote,
            ),
            (AttemptPhase::Merging, ReportView::Step(Ok(_))) => (
                SyncAttempt { phase: AttemptPhase::Exporting, snapshot_made: true, ..self },
                CommandView::ExportSnapshot,
            ),
            (AttemptPhase::Exporting, ReportView::Step(Ok(_))) => (
                self.at(AttemptPhase::Uploading),
                CommandView::UploadSnapshot,
            ),
            (AttemptPhase::Uploading, ReportView::Step(Ok(_))) => self.end(
                SyncOutcome::Success,
                "同步成功"@,
                None,
                true,
            ),
            (
                AttemptPhase::ExportingFirst
                | AttemptPhase::UploadingFirst
                | AttemptPhase::Downloading
                | AttemptPhase::Merging
                | AttemptPhase::Exporting
                | AttemptPhase::Uploading,
                ReportView::Step(Err(e)),
            ) => self.fail(e),
            _ => self.fail(out_of_turn()),
        }
    }

    /// An attempt that has not begun.
    pub fn new() -> (r: SyncAttempt)
        ensures
            r == (SyncAttempt {
                phase: AttemptPhase::Idle,
                lock_held: false,
                snapshot_made: false,
                download_made: false,
            }),
            r.wf(),
    {
        SyncAttempt {
            phase: AttemptPhase::Idle,
            lock_held: false,
            snapshot_made: false,
            download_made: false,
        }
    }

    /// Ends the attempt.
    fn finish(&mut self, outcome: SyncOutcome, status: &str, error: Option<String>, data_updated: bool) -> (r:
        AttemptCommand)
        ensures
            (*final(self), r@) == old(self).end(
                outcome,
                status@,
                match error {
                    Some(e) => Some(e@),
                    None => None,
                },
                data_updated,
            ),
    {
        let end = AttemptEnd {
            outcome,
            status: String::from_str(status),
            error,
            release_lock: self.lock_held,
            remove_snapshot: self.snapshot_made,
            remove_download: self.download_made,
            data_updated,
        };
        self.phase = AttemptPhase::Done;
        self.lock_held = false;
        self.snapshot_made = false;
        self.download_made = false;
        AttemptCommand::Finish(end)
    }

    /// Ends the attempt as failed with an error.
    fn finish_failed(&mut self, e: &AppError) -> (r: AttemptCommand)
        ensures
            (*final(self), r@) == old(self).fail(e@),
    {
        self.finish(SyncOutcome::Failed, "同步失败", Some(e.to_text()), false)
    }

    /// Takes a report and says what comes next.
    pub fn advance(&mut self, report: AttemptReport) -> (r: AttemptCommand)
        requires
            old(self).wf(),
        ensures
            (*final(self), r@) == old(self).step(report@),
            final(self).wf(),
    {
        match (self.phase, report) {
            (AttemptPhase::Idle, AttemptReport::Begin) => {
                self.phase = AttemptPhase::Locking;
                AttemptCommand::TakeLock { status: String::from_str("同步中") }
            },
            (AttemptPhase::Locking, AttemptReport::Lock(Ok(true))) => {
                self.phase = AttemptPhase::Probing;
                self.lock_held = true;
                AttemptCommand::ProbeRemote
            },
            (AttemptPhase::Locking, AttemptReport::Lock(Ok(false))) => self.finish(
                SyncOutcome::Skipped,
                "锁被占用，稍后重试",
                None,
                false,
            ),
            (AttemptPhase::Locking, AttemptReport::Lock(Err(e))) => self.finish_failed(&e),
            (AttemptPhase::Probing, AttemptReport::Remote(Ok(false))) => {
                self.phase = AttemptPhase::ExportingFirst;
                self.snapshot_made = true;
                AttemptCommand::ExportSnapshot
            },
            (AttemptPhase::Probing, AttemptReport::Remote(Ok(true))) => {
                self.phase = AttemptPhase::Downloading;
                self.download_made = true;
                AttemptCommand::DownloadRemote
            },
            (AttemptPhase::Probing, AttemptReport::Remote(Err(e))) => self.finish_failed(&e),
            (AttemptPhase::ExportingFirst, AttemptReport::Step(Ok(_))) => {
                self.phase = AttemptPhase::UploadingFirst;
                AttemptCommand::UploadSnapshot
            },
            (AttemptPhase::UploadingFirst, AttemptReport::Step(Ok(_))) => self.finish(
                SyncOutcome::Success,
                "首次同步完成",
                None,
                false,
            ),
            (AttemptPhase::Downloading, AttemptReport::Step(Ok(_))) => {
                self.phase = AttemptPhase::Merging;
                AttemptCommand::MergeRemote
            },
            (AttemptPhase::Merging, AttemptReport::Step(Ok(_))) => {
                self.phase = AttemptPhase::Exporting;
                self.snapshot_made = true;
                AttemptCommand::ExportSnapshot
            },
            (AttemptPhase::Exporting, AttemptReport::Step(Ok(_))) => {
                self.phase = AttemptPhase::Uploading;
                AttemptCommand::UploadSnapshot
            },
            (AttemptPhase::Uploading, AttemptReport::Step(Ok(_))) => self.finish(
                SyncOutcome::Success,
                "同步成功",
                None,
                true,
            ),
            (AttemptPhase::ExportingFirst, AttemptReport::Step(Err(e))) => self.finish_failed(&e),
            (AttemptPhase::UploadingFirst, AttemptReport::Step(Err(e))) => self.finish_failed(&e),
            (AttemptPhase::Downloading, AttemptReport::Step(Err(e))) => self.finish_failed(&e),
            (AttemptPhase::Merging, AttemptReport::Step(Err(e))) => self.finish_failed(&e),
            (AttemptPhase::Exporting, AttemptReport::Step(Err(e))) => self.finish_failed(&e),
            (AttemptPhase::Uploading, AttemptReport::Step(Err(e))) => self.finish_failed(&e),
            _ => {
                let e = AppError::System(String::from_str("同步步骤顺序错误"));
                self.finish_failed(&e)
            },
        }
    }
}

/// Whether a report tells of an error.
pub open spec fn reports_error(report: ReportView) -> bool {
    match report {
        ReportView::Begin => false,
        ReportView::Lock(r) => r is Err,
        ReportView::Remote(r) => r is Err,
        ReportView::Step(r) => r is Err,
    }
}

/// The first error ends an attempt as failed: nothing is uploaded after
/// it, and the attempt is over.
pub proof fn lemma_error_aborts(a: SyncAttempt, report: ReportView)
    requires
        reports_error(report),
    ensures
        a.step(report).1 matches CommandView::Finish(end) && end.outcome == SyncOutcome::Failed
            && end.status == "同步失败"@ && end.error is Some,
        a.step(report).0 == SyncAttempt::ended(),
{
}

/// An upload is asked for only by an attempt that holds the lock and has
/// just been told that the snapshot was written.
pub proof fn lemma_upload_needs_lock(a: SyncAttempt, report: ReportView)
    requires
        a.wf(),
        a.step(report).1 is UploadSnapshot,
    ensures
        a.lock_held,
        a.snapshot_made,
        report matches ReportView::Step(r) && r is Ok,
        a.phase == AttemptPhase::ExportingFirst || a.phase == AttemptPhase::Exporting,
{
}

/// However an attempt ends, the lock is released exactly if the attempt
/// holds it, and every temporary file that may exist is removed.
pub proof fn lemma_end_cleans_up(a: SyncAttempt, report: ReportView)
    requires
        a.wf(),
    ensures
        a.step(report).1 matches CommandView::Finish(end) ==> end.release_lock == a.lock_held
            && end.remove_snapshot == a.snapshot_made && end.remove_download == a.download_made,
        a.step(report).0.wf(),
{
}

/// An attempt ends as a success only after an upload that went well.
pub proof fn lemma_success_after_upload(a: SyncAttempt, report: ReportView)
    requires
        a.wf(),
        a.step(report).1 matches CommandView::Finish(end) && end.outcome == SyncOutcome::Success,
    ensures
        a.phase == AttemptPhase::UploadingFirst || a.phase == AttemptPhase::Uploading,
        report matches ReportView::Step(r) && r is Ok,
{
}

} // verus!
