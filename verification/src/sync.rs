//! The sync coordinator: when an attempt to sync may run. Local changes
//! are collected for a quiet period before an attempt, attempts keep a
//! minimum distance from the last sync, and only one attempt runs at a time.
//!
//! The coordinator holds the state and decides; the caller owns the timers
//! and the network, carries out what is returned, and reports back.

use crate::datemath::{
    lemma_key_injective, lemma_plus_seconds_later, moment_of, parse_datetime_any,
    timestamp_parsed, Moment, Timestamp,
};
use crate::models::{clone_text, text_of, SyncStatus, SyncStatusView};
use crate::text::{str_eq, trim, trimmed};
use vstd::prelude::*;

verus! {

/// Seconds of quiet after a local change before an attempt.
pub const LOCAL_CHANGE_DEBOUNCE_SECONDS: i64 = 300;

/// Least distance in seconds between the last sync and an automatic attempt.
pub const MIN_AUTOMATIC_SYNC_INTERVAL_SECONDS: i64 = 900;

/// Seconds from the start of the application to an attempt, where changes
/// are waiting.
pub const STARTUP_SYNC_DELAY_SECONDS: i64 = 15;

/// Seconds before a scheduled attempt within which the interval timer
/// leaves the attempt to the schedule.
pub const INTERVAL_YIELD_SECONDS: i64 = 30;

/// The settings of the sync and the record of the last attempt, as the
/// store holds them.
#[derive(Debug, PartialEq, Eq)]
pub struct SyncSettings {
    pub webdav_enabled: bool,
    pub webdav_url: String,
    pub webdav_sync_interval_minutes: i64,
    pub webdav_last_sync_time: Option<String>,
    pub webdav_last_local_change_time: Option<String>,
    pub webdav_last_sync_status: Option<String>,
    pub webdav_last_sync_error: Option<String>,
}

/// The mathematical value of [`SyncSettings`].
pub struct SettingsView {
    pub enabled: bool,
    pub url: Seq<char>,
    pub interval_minutes: int,
    pub last_sync_time: Option<Seq<char>>,
    pub last_local_change_time: Option<Seq<char>>,
    pub last_sync_status: Option<Seq<char>>,
    pub last_sync_error: Option<Seq<char>>,
}

impl View for SyncSettings {
    type V = SettingsView;

    open spec fn view(&self) -> SettingsView {
        SettingsView {
            enabled: self.webdav_enabled,
            url: self.webdav_url@,
            interval_minutes: self.webdav_sync_interval_minutes as int,
            last_sync_time: text_of(self.webdav_last_sync_time),
            last_local_change_time: text_of(self.webdav_last_local_change_time),
            last_sync_status: text_of(self.webdav_last_sync_status),
            last_sync_error: text_of(self.webdav_last_sync_error),
        }
    }
}

impl SettingsView {
    /// Whether the sync is switched on and has an address.
    pub open spec fn configured(self) -> bool {
        self.enabled && trimmed(self.url).len() > 0
    }

    /// Whether the last attempt is recorded as a success.
    pub open spec fn last_sync_succeeded(self) -> bool {
        self.last_sync_status == Some("同步成功"@) || self.last_sync_status == Some(
            "首次同步完成"@,
        )
    }

    /// Whether local changes wait for a sync: there is a local change, and
    /// the last attempt did not succeed, or its time is missing or cannot
    /// be compared, or the change is later than it.
    pub open spec fn dirty(self) -> bool {
        match self.last_local_change_time {
            None => false,
            Some(change) => if !self.last_sync_succeeded() {
                true
            } else {
                match self.last_sync_time {
                    None => true,
                    Some(sync) => match (timestamp_parsed(change), timestamp_parsed(sync)) {
                        (Some(c), Some(s)) => c.key() > s.key(),
                        _ => true,
                    },
                }
            },
        }
    }

    /// The time before which no automatic attempt may run: the time of the
    /// last sync plus the minimum distance, where that is still ahead.
    pub open spec fn throttled_until(self, now: Moment) -> Option<Moment> {
        match self.last_sync_time {
            None => None,
            Some(text) => match timestamp_parsed(text) {
                None => None,
                Some(last) => match last.plus_seconds(MIN_AUTOMATIC_SYNC_INTERVAL_SECONDS as int) {
                    None => None,
                    Some(allowed) => if allowed.key() > now.key() {
                        Some(allowed)
                    } else {
                        None
                    },
                },
            },
        }
    }

    /// Seconds between two ticks of the interval timer: the configured
    /// minutes, at least one, as far as an unsigned 64-bit integer holds
    /// them, and nothing where the sync is not configured.
    pub open spec fn interval_seconds(self) -> Option<int> {
        if self.configured() {
            Some(
                if self.interval_minutes < 1 {
                    60
                } else if self.interval_minutes * 60 > u64::MAX {
                    u64::MAX as int
                } else {
                    self.interval_minutes * 60
                },
            )
        } else {
            None
        }
    }
}

impl SyncSettings {
    /// Whether the sync is switched on and has an address.
    pub fn is_configured(&self) -> (r: bool)
        ensures
            r == self@.configured(),
    {
        self.webdav_enabled && trim(self.webdav_url.as_str()).unicode_len() > 0
    }

    /// Seconds between two ticks of the interval timer.
    pub fn interval_seconds(&self) -> (r: Option<u64>)
        ensures
            match r {
                Some(n) => self@.interval_seconds() == Some(n as int),
                None => self@.interval_seconds() is None,
            },
    {
        if !self.is_configured() {
            return None;
        }
        if self.webdav_sync_interval_minutes < 1 {
            Some(60)
        } else if self.webdav_sync_interval_minutes as u64 > u64::MAX / 60 {
            Some(u64::MAX)
        } else {
            Some(self.webdav_sync_interval_minutes as u64 * 60)
        }
    }
}

/// Whether a recorded status is one of the two that mean success.
pub fn is_success_status(status: &Option<String>) -> (r: bool)
    ensures
        r == (text_of(*status) == Some("同步成功"@) || text_of(*status) == Some("首次同步完成"@)),
{
    match status {
        Some(s) => str_eq(s.as_str(), "同步成功") || str_eq(s.as_str(), "首次同步完成"),
        None => false,
    }
}

/// Whether local changes wait for a sync, by what the store records.
pub fn compute_dirty_from_settings(settings: &SyncSettings) -> (r: bool)
    ensures
        r == settings@.dirty(),
{
    let change = match &settings.webdav_last_local_change_time {
        Some(c) => c,
        None => {
            return false;
        },
    };
    if !is_success_status(&settings.webdav_last_sync_status) {
        return true;
    }
    let sync = match &settings.webdav_last_sync_time {
        Some(s) => s,
        None => {
            return true;
        },
    };
    match (parse_datetime_any(change.as_str()), parse_datetime_any(sync.as_str())) {
        (Some(c), Some(s)) => c.is_after(&s),
        _ => true,
    }
}

/// The time before which no automatic attempt may run, where there is one.
pub fn next_allowed_auto_sync_time(settings: &SyncSettings, now: &Timestamp) -> (r: Option<
    Timestamp,
>)
    requires
        now@.wf(),
    ensures
        moment_of(r) == settings@.throttled_until(now@),
        r matches Some(t) ==> t@.wf() && t@.key() > now@.key(),
{
    let text = match &settings.webdav_last_sync_time {
        Some(t) => t,
        None => {
            return None;
        },
    };
    let last = match parse_datetime_any(text.as_str()) {
        Some(t) => t,
        None => {
            return None;
        },
    };
    match last.checked_add_seconds(MIN_AUTOMATIC_SYNC_INTERVAL_SECONDS) {
        Some(allowed) => {
            if allowed.is_after(now) {
                Some(allowed)
            } else {
                None
            }
        },
        None => None,
    }
}

/// Why an attempt is scheduled or started.
#[derive(Clone, Copy, Debug, PartialEq, Eq, Structural)]
pub enum SyncReason {
    Startup,
    Debounce,
    Throttle,
    Interval,
    Manual,
}

/// How an attempt ended.
#[derive(Clone, Copy, Debug, PartialEq, Eq, Structural)]
pub enum SyncOutcome {
    Success,
    Skipped,
    Failed,
}

/// What the caller has to do after a decision of the coordinator.
#[derive(Clone, Copy, Debug, PartialEq, Eq)]
pub enum SyncAction {
    /// Nothing.
    Nothing,
    /// Drop the pending one-shot timer, if there is one, and set one that
    /// fires at `due`, that is after the given seconds and nanoseconds.
    Arm { due: Timestamp, delay_seconds: u64, delay_nanos: u32, reason: SyncReason },
    /// Run an attempt now and report its end with the sequence number
    /// given here.
    Start { reason: SyncReason, seq: u64 },
}

/// The mathematical value of a [`SyncAction`].
pub enum ActionView {
    Nothing,
    Arm { due: Moment, delay_seconds: int, delay_nanos: int, reason: SyncReason },
    Start { reason: SyncReason, seq: int },
}

impl View for SyncAction {
    type V = ActionView;

    open spec fn view(&self) -> ActionView {
        match self {
            SyncAction::Nothing => ActionView::Nothing,
            SyncAction::Arm { due, delay_seconds, delay_nanos, reason } => ActionView::Arm {
                due: due@,
                delay_seconds: *delay_seconds as int,
                delay_nanos: *delay_nanos as int,
                reason: *reason,
            },
            SyncAction::Start { reason, seq } => ActionView::Start {
                reason: *reason,
                seq: *seq as int,
            },
        }
    }
}

/// The sync coordinator: its state, and with its methods its decisions.
#[derive(Clone, Copy, Debug, PartialEq, Eq)]
pub struct CloudSyncService {
    /// Whether local changes wait for a sync.
    pub dirty: bool,
    /// Number of local changes seen, counted around at the end of the
    /// 64-bit integers.
    pub local_change_seq: u64,
    /// The time of the scheduled attempt, if one is scheduled.
    pub next_auto_sync_due: Option<Timestamp>,
    /// Whether an attempt is running.
    pub sync_in_progress: bool,
}

/// The mathematical value of a [`CloudSyncService`].
pub struct CoordinatorView {
    pub dirty: bool,
    pub seq: int,
    pub next_due: Option<Moment>,
    pub in_flight: bool,
}

impl View for CloudSyncService {
    type V = CoordinatorView;

    open spec fn view(&self) -> CoordinatorView {
        CoordinatorView {
            dirty: self.dirty,
            seq: self.local_change_seq as int,
            next_due: moment_of(self.next_auto_sync_due),
            in_flight: self.sync_in_progress,
        }
    }
}

/// The later of two moments.
pub open spec fn later(a: Moment, b: Option<Moment>) -> Moment {
    match b {
        Some(b) => if b.key() > a.key() {
            b
        } else {
            a
        },
        None => a,
    }
}

/// A delay in nanoseconds: the time from one moment to another, and zero
/// where that is negative.
pub open spec fn delay_between(now: Moment, due: Moment) -> int {
    if due.nanos_since(now) > 0 {
        due.nanos_since(now)
    } else {
        0
    }
}

impl CoordinatorView {
    /// The ranges of the state.
    pub open spec fn wf(self) -> bool {
        &&& 0 <= self.seq <= u64::MAX
        &&& self.next_due matches Some(m) ==> m.wf()
    }

    /// A request to sync now: an attempt starts unless the sync is not
    /// configured or an attempt is running.
    pub open spec fn request(self, s: SettingsView, reason: SyncReason) -> (
        CoordinatorView,
        ActionView,
    ) {
        if !s.configured() || self.in_flight {
            (self, ActionView::Nothing)
        } else {
            (
                CoordinatorView { in_flight: true, ..self },
                ActionView::Start { reason, seq: self.seq },
            )
        }
    }

    /// A schedule for an attempt at a time ahead: it replaces the scheduled
    /// attempt unless that one is as late or later.
    pub open spec fn arm(self, due: Moment, now: Moment, reason: SyncReason) -> (
        CoordinatorView,
        ActionView,
    ) {
        if self.next_due is Some && self.next_due->0.key() >= due.key() {
            (self, ActionView::Nothing)
        } else {
            (
                CoordinatorView { next_due: Some(due), ..self },
                ActionView::Arm {
                    due,
                    delay_seconds: delay_between(now, due) / 1_000_000_000,
                    delay_nanos: delay_between(now, due) % 1_000_000_000,
                    reason,
                },
            )
        }
    }

    /// An automatic request: nothing without waiting changes or without a
    /// configured sync; a schedule at the end of the minimum distance where
    /// the last sync is too near; else a request to sync now.
    pub open spec fn request_if_needed(self, s: SettingsView, now: Moment, reason: SyncReason) -> (
        CoordinatorView,
        ActionView,
    ) {
        if !self.dirty || !s.configured() {
            (self, ActionView::Nothing)
        } else {
            match s.throttled_until(now) {
                Some(allowed) => self.arm(allowed, now, SyncReason::Throttle),
                None => self.request(s, reason),
            }
        }
    }

    /// A schedule for an attempt at a time: an automatic request at once
    /// where the time has come, else a schedule ahead.
    pub open spec fn schedule_at(self, s: SettingsView, due: Moment, now: Moment, reason: SyncReason) -> (
        CoordinatorView,
        ActionView,
    ) {
        if due.key() <= now.key() {
            self.request_if_needed(s, now, reason)
        } else {
            self.arm(due, now, reason)
        }
    }

    /// A schedule for an attempt a number of seconds from now, or at the
    /// end of the minimum distance where that is later. Nothing happens
    /// without a configured sync.
    pub open spec fn schedule_after(
        self,
        s: SettingsView,
        now: Moment,
        seconds: int,
        reason: SyncReason,
    ) -> (CoordinatorView, ActionView) {
        if !s.configured() {
            (self, ActionView::Nothing)
        } else {
            match now.plus_seconds(seconds) {
                None => (self, ActionView::Nothing),
                Some(due) => self.schedule_at(s, later(due, s.throttled_until(now)), now, reason),
            }
        }
    }

    /// A local change: it is counted, changes are waiting from now on, and
    /// an attempt is scheduled at the end of the quiet period.
    pub open spec fn notify(self, s: SettingsView, now: Moment) -> (CoordinatorView, ActionView) {
        let counted = CoordinatorView {
            dirty: true,
            seq: if self.seq == u64::MAX {
                0
            } else {
                self.seq + 1
            },
            ..self
        };
        counted.schedule_after(s, now, LOCAL_CHANGE_DEBOUNCE_SECONDS as int, SyncReason::Debounce)
    }

    /// The start of the application, or a change of the settings: whether
    /// changes are waiting is read off the settings, and where they are, an
    /// attempt is scheduled shortly.
    pub open spec fn start(self, s: SettingsView, now: Moment) -> (CoordinatorView, ActionView) {
        let read = CoordinatorView { dirty: s.dirty(), ..self };
        if !read.dirty {
            (read, ActionView::Nothing)
        } else {
            read.schedule_after(s, now, STARTUP_SYNC_DELAY_SECONDS as int, SyncReason::Startup)
        }
    }

    /// The one-shot timer has fired: no attempt is scheduled any more, and
    /// an automatic request is made.
    pub open spec fn timer_fired(self, s: SettingsView, now: Moment, reason: SyncReason) -> (
        CoordinatorView,
        ActionView,
    ) {
        (CoordinatorView { next_due: None, ..self }).request_if_needed(s, now, reason)
    }

    /// Whether a scheduled attempt is so near that the interval timer
    /// leaves the attempt to it: more than no and at most 30 whole seconds
    /// away.
    pub open spec fn attempt_is_near(self, now: Moment) -> bool {
        self.next_due is Some && 0 < self.next_due->0.seconds_since(now)
            <= INTERVAL_YIELD_SECONDS
    }

    /// A tick of the interval timer: an automatic request, unless a
    /// scheduled attempt is near.
    pub open spec fn interval_tick(self, s: SettingsView, now: Moment) -> (
        CoordinatorView,
        ActionView,
    ) {
        if self.attempt_is_near(now) {
            (self, ActionView::Nothing)
        } else {
            self.request_if_needed(s, now, SyncReason::Interval)
        }
    }

    /// The end of an attempt that started at a sequence number. After a
    /// success no changes are waiting if none came in since the start;
    /// where some did, an attempt is scheduled at the end of the quiet
    /// period. No attempt is running any more.
    pub open spec fn finished(
        self,
        outcome: SyncOutcome,
        started_at: int,
        s: SettingsView,
        now: Moment,
    ) -> (CoordinatorView, ActionView) {
        let (settled, action) = if outcome == SyncOutcome::Success {
            if self.seq == started_at {
                (CoordinatorView { dirty: false, ..self }, ActionView::Nothing)
            } else {
                self.schedule_after(
                    s,
                    now,
                    LOCAL_CHANGE_DEBOUNCE_SECONDS as int,
                    SyncReason::Debounce,
                )
            }
        } else {
            (self, ActionView::Nothing)
        };
        (CoordinatorView { in_flight: false, ..settled }, action)
    }
}

impl CloudSyncService {
    /// A coordinator at rest: no changes waiting, nothing scheduled, no
    /// attempt running.
    pub fn new() -> (r: CloudSyncService)
        ensures
            r@ == (CoordinatorView { dirty: false, seq: 0, next_due: None, in_flight: false }),
            r@.wf(),
    {
        CloudSyncService {
            dirty: false,
            local_change_seq: 0,
            next_auto_sync_due: None,
            sync_in_progress: false,
        }
    }

    /// Asks for an attempt now. Concurrent requests are dropped: while an
    /// attempt runs, nothing happens.
    pub fn request_sync(&mut self, settings: &SyncSettings, reason: SyncReason) -> (r: SyncAction)
        requires
            old(self)@.wf(),
        ensures
            (final(self)@, r@) == old(self)@.request(settings@, reason),
            final(self)@.wf(),
    {
        if !settings.is_configured() || self.sync_in_progress {
            return SyncAction::Nothing;
        }
        self.sync_in_progress = true;
        SyncAction::Start { reason, seq: self.local_change_seq }
    }

    /// Schedules an attempt at a time ahead, unless one is scheduled as
    /// late or later.
    fn arm(&mut self, due: Timestamp, now: &Timestamp, reason: SyncReason) -> (r: SyncAction)
        requires
            old(self)@.wf(),
            due@.wf(),
            now@.wf(),
        ensures
            (final(self)@, r@) == old(self)@.arm(due@, now@, reason),
            final(self)@.wf(),
    {
        match self.next_auto_sync_due {
            Some(existing) => {
                if !existing.is_before(&due) {
                    return SyncAction::Nothing;
                }
            },
            None => {},
        }
        self.next_auto_sync_due = Some(due);
        let (delay_seconds, delay_nanos) = match due.duration_since(now) {
            Some(d) => d,
            None => (0, 0),
        };
        SyncAction::Arm { due, delay_seconds, delay_nanos, reason }
    }

    /// Makes an automatic request.
    pub fn request_sync_if_needed(
        &mut self,
        settings: &SyncSettings,
        now: &Timestamp,
        reason: SyncReason,
    ) -> (r: SyncAction)
        requires
            old(self)@.wf(),
            now@.wf(),
        ensures
            (final(self)@, r@) == old(self)@.request_if_needed(settings@, now@, reason),
            final(self)@.wf(),
    {
        if !self.dirty || !settings.is_configured() {
            return SyncAction::Nothing;
        }
        match next_allowed_auto_sync_time(settings, now) {
            Some(allowed) => self.arm(allowed, now, SyncReason::Throttle),
            None => self.request_sync(settings, reason),
        }
    }

    /// Schedules an attempt at a time, or makes an automatic request at
    /// once where the time has come.
    pub fn schedule_auto_sync_at(
        &mut self,
        settings: &SyncSettings,
        due: Timestamp,
        now: &Timestamp,
        reason: SyncReason,
    ) -> (r: SyncAction)
        requires
            old(self)@.wf(),
            due@.wf(),
            now@.wf(),
        ensures
            (final(self)@, r@) == old(self)@.schedule_at(settings@, due@, now@, reason),
            final(self)@.wf(),
    {
        if !due.is_after(now) {
            self.request_sync_if_needed(settings, now, reason)
        } else {
            self.arm(due, now, reason)
        }
    }

    /// Schedules an attempt a number of seconds from now, or at the end of
    /// the minimum distance where that is later.
    fn schedule_after(
        &mut self,
        settings: &SyncSettings,
        now: &Timestamp,
        seconds: i64,
        reason: SyncReason,
    ) -> (r: SyncAction)
        requires
            old(self)@.wf(),
            now@.wf(),
        ensures
            (final(self)@, r@) == old(self)@.schedule_after(settings@, now@, seconds as int, reason),
            final(self)@.wf(),
    {
        if !settings.is_configured() {
            return SyncAction::Nothing;
        }
        let mut due = match now.checked_add_seconds(seconds) {
            Some(t) => t,
            None => {
                return SyncAction::Nothing;
            },
        };
        match next_allowed_auto_sync_time(settings, now) {
            Some(allowed) => {
                if allowed.is_after(&due) {
                    due = allowed;
                }
            },
            None => {},
        }
        self.schedule_auto_sync_at(settings, due, now, reason)
    }

    /// Schedules an attempt at the end of the quiet period after a local
    /// change.
    pub fn schedule_debounced_sync(&mut self, settings: &SyncSettings, now: &Timestamp) -> (r:
        SyncAction)
        requires
            old(self)@.wf(),
            now@.wf(),
        ensures
            (final(self)@, r@) == old(self)@.schedule_after(
                settings@,
                now@,
                LOCAL_CHANGE_DEBOUNCE_SECONDS as int,
                SyncReason::Debounce,
            ),
            final(self)@.wf(),
    {
        self.schedule_after(settings, now, LOCAL_CHANGE_DEBOUNCE_SECONDS, SyncReason::Debounce)
    }

    /// Schedules an attempt shortly after the start, where changes are
    /// waiting.
    pub fn schedule_startup_sync_if_needed(&mut self, settings: &SyncSettings, now: &Timestamp) -> (r:
        SyncAction)
        requires
            old(self)@.wf(),
            now@.wf(),
        ensures
            (final(self)@, r@) == if old(self)@.dirty {
                old(self)@.schedule_after(
                    settings@,
                    now@,
                    STARTUP_SYNC_DELAY_SECONDS as int,
                    SyncReason::Startup,
                )
            } else {
                (old(self)@, ActionView::Nothing)
            },
            final(self)@.wf(),
    {
        if !self.dirty {
            return SyncAction::Nothing;
        }
        self.schedule_after(settings, now, STARTUP_SYNC_DELAY_SECONDS, SyncReason::Startup)
    }

    /// Reads off the settings whether changes are waiting.
    pub fn refresh_dirty_from_settings(&mut self, settings: &SyncSettings)
        requires
            old(self)@.wf(),
        ensures
            final(self)@ == (CoordinatorView { dirty: settings@.dirty(), ..old(self)@ }),
            final(self)@.wf(),
    {
        self.dirty = compute_dirty_from_settings(settings);
    }

    /// Starts the coordinator, at the start of the application and after a
    /// change of the settings. The caller drops the interval timer and sets
    /// a new one that ticks every so many seconds as come back first, or
    /// none where none come back. With the seconds comes what is to be done
    /// about the changes that wait.
    pub fn start(&mut self, settings: &SyncSettings, now: &Timestamp) -> (r: (
        Option<u64>,
        SyncAction,
    ))
        requires
            old(self)@.wf(),
            now@.wf(),
        ensures
            (final(self)@, r.1@) == old(self)@.start(settings@, now@),
            match r.0 {
                Some(n) => settings@.interval_seconds() == Some(n as int),
                None => settings@.interval_seconds() is None,
            },
            final(self)@.wf(),
    {
        self.refresh_dirty_from_settings(settings);
        let interval = settings.interval_seconds();
        (interval, self.schedule_startup_sync_if_needed(settings, now))
    }

    /// Takes changed settings up: as [`CloudSyncService::start`] does.
    pub fn update_settings(&mut self, settings: &SyncSettings, now: &Timestamp) -> (r: (
        Option<u64>,
        SyncAction,
    ))
        requires
            old(self)@.wf(),
            now@.wf(),
        ensures
            (final(self)@, r.1@) == old(self)@.start(settings@, now@),
            match r.0 {
                Some(n) => settings@.interval_seconds() == Some(n as int),
                None => settings@.interval_seconds() is None,
            },
            final(self)@.wf(),
    {
        self.start(settings, now)
    }

    /// Stops the coordinator: nothing is scheduled any more. The caller
    /// drops both timers.
    pub fn stop(&mut self)
        requires
            old(self)@.wf(),
        ensures
            final(self)@ == (CoordinatorView { next_due: None, ..old(self)@ }),
            final(self)@.wf(),
    {
        self.next_auto_sync_due = None;
    }

    /// Records a local change and schedules an attempt at the end of the
    /// quiet period. A scheduled attempt is never moved to an earlier time.
    pub fn notify_local_change(&mut self, settings: &SyncSettings, now: &Timestamp) -> (r:
        SyncAction)
        requires
            old(self)@.wf(),
            now@.wf(),
        ensures
            (final(self)@, r@) == old(self)@.notify(settings@, now@),
            final(self)@.wf(),
    {
        self.local_change_seq = if self.local_change_seq == u64::MAX {
            0
        } else {
            self.local_change_seq + 1
        };
        self.dirty = true;
        self.schedule_debounced_sync(settings, now)
    }

    /// The one-shot timer has fired.
    pub fn on_timer(&mut self, settings: &SyncSettings, now: &Timestamp, reason: SyncReason) -> (r:
        SyncAction)
        requires
            old(self)@.wf(),
            now@.wf(),
        ensures
            (final(self)@, r@) == old(self)@.timer_fired(settings@, now@, reason),
            final(self)@.wf(),
    {
        self.next_auto_sync_due = None;
        self.request_sync_if_needed(settings, now, reason)
    }

    /// The interval timer has ticked.
    pub fn request_sync_on_interval(&mut self, settings: &SyncSettings, now: &Timestamp) -> (r:
        SyncAction)
        requires
            old(self)@.wf(),
            now@.wf(),
        ensures
            (final(self)@, r@) == old(self)@.interval_tick(settings@, now@),
            final(self)@.wf(),
    {
        match self.next_auto_sync_due {
            Some(due) => {
                let remaining = due.seconds_until_from(now);
                if remaining > 0 && remaining <= INTERVAL_YIELD_SECONDS as u64 {
                    return SyncAction::Nothing;
                }
            },
            None => {},
        }
        self.request_sync_if_needed(settings, now, SyncReason::Interval)
    }

    /// An attempt has ended.
    pub fn on_sync_finished(
        &mut self,
        outcome: SyncOutcome,
        started_at: u64,
        settings: &SyncSettings,
        now: &Timestamp,
    ) -> (r: SyncAction)
        requires
            old(self)@.wf(),
            now@.wf(),
        ensures
            (final(self)@, r@) == old(self)@.finished(outcome, started_at as int, settings@, now@),
            final(self)@.wf(),
    {
        let action = if outcome == SyncOutcome::Success {
            if self.local_change_seq == started_at {
                self.dirty = false;
                SyncAction::Nothing
            } else {
                self.schedule_debounced_sync(settings, now)
            }
        } else {
            SyncAction::Nothing
        };
        self.sync_in_progress = false;
        action
    }

    /// The status of the sync as it is shown: the recorded status, or the
    /// words for "never synced" where none is recorded, with the recorded
    /// error and time.
    pub fn get_status(&self, settings: &SyncSettings) -> (r: SyncStatus)
        ensures
            r@ == (SyncStatusView {
                status: match settings@.last_sync_status {
                    Some(s) => s,
                    None => "未同步"@,
                },
                error: settings@.last_sync_error,
                time: settings@.last_sync_time,
            }),
    {
        SyncStatus {
            status: match &settings.webdav_last_sync_status {
                Some(s) => s.clone(),
                None => String::from_str("未同步"),
            },
            error: clone_text(&settings.webdav_last_sync_error),
            time: clone_text(&settings.webdav_last_sync_time),
        }
    }
}

/// No decision moves a scheduled attempt to an earlier time: after a
/// schedule, what is scheduled is as late as what was scheduled before.
pub proof fn lemma_schedule_only_extends(
    c: CoordinatorView,
    s: SettingsView,
    due: Moment,
    now: Moment,
    reason: SyncReason,
)
    requires
        c.next_due is Some,
    ensures
        c.schedule_at(s, due, now, reason).0.next_due is Some,
        c.schedule_at(s, due, now, reason).0.next_due->0.key() >= c.next_due->0.key(),
        c.notify(s, now).0.next_due is Some,
        c.notify(s, now).0.next_due->0.key() >= c.next_due->0.key(),
{
}

/// A local change with a configured sync that is not held back by the
/// minimum distance leaves exactly one attempt scheduled: at the end of the
/// quiet period after this change, or at the time that was scheduled
/// before where that is later.
pub proof fn lemma_notify_coalesces(c: CoordinatorView, s: SettingsView, now: Moment)
    requires
        c.wf(),
        now.wf(),
        s.configured(),
        s.throttled_until(now) is None,
        now.plus_seconds(LOCAL_CHANGE_DEBOUNCE_SECONDS as int) is Some,
    ensures
        c.notify(s, now).0.next_due == Some(
            later(now.plus_seconds(LOCAL_CHANGE_DEBOUNCE_SECONDS as int)->0, c.next_due),
        ),
        c.notify(s, now).0.dirty,
        !(c.notify(s, now).1 is Start),
{
    let due = now.plus_seconds(LOCAL_CHANGE_DEBOUNCE_SECONDS as int)->0;
    lemma_plus_seconds_later(now, LOCAL_CHANGE_DEBOUNCE_SECONDS as int);
    if c.next_due is Some && c.next_due->0.key() == due.key() {
        lemma_key_injective(c.next_due->0, due);
    }
}

/// While an attempt runs, no decision starts another.
pub proof fn lemma_single_flight(c: CoordinatorView, s: SettingsView, now: Moment, due: Moment, reason: SyncReason)
    requires
        c.in_flight,
    ensures
        !(c.request(s, reason).1 is Start),
        !(c.request_if_needed(s, now, reason).1 is Start),
        !(c.schedule_at(s, due, now, reason).1 is Start),
        !(c.notify(s, now).1 is Start),
        !(c.timer_fired(s, now, reason).1 is Start),
        !(c.interval_tick(s, now).1 is Start),
        !(c.start(s, now).1 is Start),
{
}

/// After a successful attempt, changes are waiting exactly if they were
/// waiting and some came in while the attempt ran. After any other end,
/// what was waiting still is.
pub proof fn lemma_finished_keeps_changes(
    c: CoordinatorView,
    outcome: SyncOutcome,
    started_at: int,
    s: SettingsView,
    now: Moment,
)
    ensures
        !c.finished(outcome, started_at, s, now).0.in_flight,
        outcome == SyncOutcome::Success ==> c.finished(outcome, started_at, s, now).0.dirty == (
        c.dirty && c.seq != started_at),
        outcome != SyncOutcome::Success ==> c.finished(outcome, started_at, s, now).0.dirty
            == c.dirty,
{
}

} // verus!
