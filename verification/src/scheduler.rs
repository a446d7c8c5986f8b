//! The reminder scheduler: which timers are armed, for how long, and what
//! happens when one fires.
//!
//! The scheduler keeps one timer per task. The caller owns the timers
//! themselves: it hands a handle in when it has armed one, and gets the
//! handle back when the timer is to be dropped.

use crate::datemath::{
    parse_datetime_any, timestamp_parsed, Moment, Timestamp,
};
use crate::errors::{AppError, AppErrorView};
use crate::models::{
    NotificationPayload, NotificationPayloadView, RecurringTask, RecurringTaskView, Task, TaskView,
};
use crate::recurrence::{
    cron_search_failure, fault_error, fires_at, format_trigger, next_moment, next_occurrence,
    recurrence_rule, rule_fires_at, rule_of, sanitize_recurring_task, sanitized, trigger_text,
    Fault,
};
use crate::text::str_eq;
use vstd::prelude::*;

verus! {

/// Whether no identifier stands twice in a list of pairs.
pub open spec fn ids_distinct<H>(p: Seq<(Seq<char>, H)>) -> bool {
    forall|i: int, j: int| 0 <= i < j < p.len() ==> p[i].0 != p[j].0
}

/// Whether a list of pairs has a pair under an identifier.
pub open spec fn has_pair<H>(p: Seq<(Seq<char>, H)>, id: Seq<char>) -> bool {
    exists|i: int| 0 <= i < p.len() && p[i].0 == id
}

/// The place of the pair under an identifier.
pub open spec fn pair_place<H>(p: Seq<(Seq<char>, H)>, id: Seq<char>) -> int {
    choose|i: int| 0 <= i < p.len() && p[i].0 == id
}

/// The map from identifiers to handles that a list of pairs stands for.
pub open spec fn pairs_map<H>(p: Seq<(Seq<char>, H)>) -> Map<Seq<char>, H> {
    Map::new(|id: Seq<char>| has_pair(p, id), |id: Seq<char>| p[pair_place(p, id)].1)
}

/// In a list without repeated identifiers, a pair stands for itself in
/// the map.
proof fn lemma_pair_at<H>(p: Seq<(Seq<char>, H)>, i: int)
    requires
        ids_distinct(p),
        0 <= i < p.len(),
    ensures
        has_pair(p, p[i].0),
        pair_place(p, p[i].0) == i,
        pairs_map(p).contains_key(p[i].0),
        pairs_map(p)[p[i].0] == p[i].1,
{
    let k = pair_place(p, p[i].0);
    if k < i {
        assert(p[k].0 != p[i].0);
    } else if i < k {
        assert(p[i].0 != p[k].0);
    }
}

/// A pair with a new identifier at the end of a list adds its entry to
/// the map.
proof fn lemma_pairs_push<H>(p: Seq<(Seq<char>, H)>, id: Seq<char>, h: H)
    requires
        ids_distinct(p),
        !has_pair(p, id),
    ensures
        ids_distinct(p.push((id, h))),
        pairs_map(p.push((id, h))) == pairs_map(p).insert(id, h),
{
    let q = p.push((id, h));
    assert forall|i: int, j: int| 0 <= i < j < q.len() implies q[i].0 != q[j].0 by {
        if j == p.len() {
            assert(p[i].0 != id);
        }
    }
    assert forall|x: Seq<char>| has_pair(q, x) <==> (x == id || has_pair(p, x)) by {
        if has_pair(q, x) {
            let k = pair_place(q, x);
            if k < p.len() {
                assert(p[k].0 == x);
            }
        }
        if x == id {
            assert(q[p.len() as int].0 == x);
        }
        if has_pair(p, x) {
            let k = pair_place(p, x);
            assert(q[k].0 == x);
        }
    }
    assert forall|x: Seq<char>| has_pair(q, x) implies #[trigger] pairs_map(q)[x] == pairs_map(
        p,
    ).insert(id, h)[x] by {
        if x == id {
            lemma_pair_at(q, p.len() as int);
        } else {
            let k = pair_place(p, x);
            lemma_pair_at(p, k);
            assert(q[k] == p[k]);
            lemma_pair_at(q, k);
        }
    }
    assert(pairs_map(q) =~= pairs_map(p).insert(id, h));
}

/// A pair taken out of a list takes its entry out of the map.
proof fn lemma_pairs_remove<H>(p: Seq<(Seq<char>, H)>, i: int)
    requires
        ids_distinct(p),
        0 <= i < p.len(),
    ensures
        ids_distinct(p.remove(i)),
        pairs_map(p.remove(i)) == pairs_map(p).remove(p[i].0),
{
    let id = p[i].0;
    let q = p.remove(i);
    assert forall|a: int, b: int| 0 <= a < b < q.len() implies q[a].0 != q[b].0 by {
        let a0 = if a < i {
            a
        } else {
            a + 1
        };
        let b0 = if b < i {
            b
        } else {
            b + 1
        };
        assert(q[a] == p[a0]);
        assert(q[b] == p[b0]);
    }
    assert forall|x: Seq<char>| has_pair(q, x) <==> (x != id && has_pair(p, x)) by {
        if has_pair(q, x) {
            let k = pair_place(q, x);
            let k0 = if k < i {
                k
            } else {
                k + 1
            };
            assert(q[k] == p[k0]);
            assert(p[k0].0 == x);
            if x == id {
                lemma_pair_at(p, i);
                lemma_pair_at(p, k0);
            }
        }
        if x != id && has_pair(p, x) {
            let k = pair_place(p, x);
            let k1 = if k < i {
                k
            } else {
                k - 1
            };
            assert(q[k1] == p[k]);
        }
    }
    assert forall|x: Seq<char>| has_pair(q, x) implies #[trigger] pairs_map(q)[x] == pairs_map(
        p,
    ).remove(id)[x] by {
        let k = pair_place(q, x);
        let k0 = if k < i {
            k
        } else {
            k + 1
        };
        assert(q[k] == p[k0]);
        lemma_pair_at(q, k);
        lemma_pair_at(p, k0);
    }
    assert(pairs_map(q) =~= pairs_map(p).remove(id));
}

/// The timer of one task.
pub struct TimerEntry<H> {
    pub id: String,
    pub handle: H,
}

/// The armed timers, one per task at most, each with the handle that the
/// caller gave for it.
pub struct TimerTable<H> {
    pub entries: Vec<TimerEntry<H>>,
}

impl<H> TimerTable<H> {
    /// The timers as pairs of identifier and handle.
    pub open spec fn pairs(&self) -> Seq<(Seq<char>, H)> {
        Seq::new(self.entries@.len(), |i: int| (self.entries@[i].id@, self.entries@[i].handle))
    }

    /// The invariant of the table: no task has two timers.
    pub open spec fn wf(&self) -> bool {
        ids_distinct(self.pairs())
    }

    /// The armed timers: a map from the identifiers of tasks to handles.
    pub open spec fn view(&self) -> Map<Seq<char>, H> {
        pairs_map(self.pairs())
    }

    /// A table without timers.
    pub fn new() -> (r: TimerTable<H>)
        ensures
            r.wf(),
            r@ == Map::<Seq<char>, H>::empty(),
    {
        let r = TimerTable { entries: Vec::new() };
        assert(r@ =~= Map::<Seq<char>, H>::empty());
        r
    }

    /// Number of armed timers.
    pub fn len(&self) -> (n: usize)
        ensures
            n == self.pairs().len(),
    {
        self.entries.len()
    }

    /// The place of a task's timer.
    fn find(&self, id: &str) -> (r: Option<usize>)
        requires
            self.wf(),
        ensures
            match r {
                Some(i) => i < self.entries.len() && self.pairs()[i as int].0 == id@,
                None => !has_pair(self.pairs(), id@),
            },
    {
        let mut i: usize = 0;
        while i < self.entries.len()
            invariant
                i <= self.entries.len(),
                forall|j: int| 0 <= j < i ==> self.pairs()[j].0 != id@,
            decreases self.entries.len() - i,
        {
            if str_eq(self.entries[i].id.as_str(), id) {
                return Some(i);
            }
            i += 1;
        }
        None
    }

    /// Whether a task has an armed timer.
    pub fn is_armed(&self, id: &str) -> (r: bool)
        requires
            self.wf(),
        ensures
            r == self@.contains_key(id@),
    {
        match self.find(id) {
            Some(i) => {
                proof {
                    lemma_pair_at(self.pairs(), i as int);
                }
                true
            },
            None => false,
        }
    }

    /// Drops the timer of a task and hands its handle back, so that the
    /// caller can stop it. A task without a timer is left alone.
    pub fn remove(&mut self, id: &str) -> (r: Option<H>)
        requires
            old(self).wf(),
        ensures
            final(self).wf(),
            final(self)@ == old(self)@.remove(id@),
            r == if old(self)@.contains_key(id@) {
                Some(old(self)@[id@])
            } else {
                None
            },
    {
        match self.find(id) {
            Some(i) => {
                let ghost before = self.pairs();
                proof {
                    lemma_pair_at(before, i as int);
                    lemma_pairs_remove(before, i as int);
                }
                let entry = self.entries.remove(i);
                assert(self.pairs() =~= before.remove(i as int));
                Some(entry.handle)
            },
            None => {
                assert(self@ =~= self@.remove(id@));
                None
            },
        }
    }

    /// Records the timer that the caller armed for a task. The handle of a
    /// timer that the task had before is handed back, so that the caller
    /// can stop it.
    pub fn insert(&mut self, id: String, handle: H) -> (r: Option<H>)
        requires
            old(self).wf(),
        ensures
            final(self).wf(),
            final(self)@ == old(self)@.insert(id@, handle),
            r == if old(self)@.contains_key(id@) {
                Some(old(self)@[id@])
            } else {
                None
            },
    {
        let ghost before = self.pairs();
        match self.find(id.as_str()) {
            Some(i) => {
                proof {
                    lemma_pair_at(before, i as int);
                    lemma_pairs_remove(before, i as int);
                }
                let ghost key = id@;
                let old_entry = self.entries.remove(i);
                assert(self.pairs() =~= before.remove(i as int));
                let ghost middle = self.pairs();
                proof {
                    lemma_pairs_push(middle, key, handle);
                }
                self.entries.push(TimerEntry { id, handle });
                assert(self.pairs() =~= middle.push((key, handle)));
                assert(self@ =~= pairs_map(before).insert(key, handle));
                Some(old_entry.handle)
            },
            None => {
                let ghost key = id@;
                proof {
                    lemma_pairs_push(before, key, handle);
                }
                self.entries.push(TimerEntry { id, handle });
                assert(self.pairs() =~= before.push((key, handle)));
                None
            },
        }
    }
}

/// The error that reports a text which is no timestamp.
pub open spec fn unreadable_time(value: Seq<char>) -> AppErrorView {
    AppErrorView::Invalid("无法解析时间: "@ + value)
}

/// Reads a timestamp, and reports a text that is none.
pub fn parse_datetime(value: &str) -> (r: Result<Timestamp, AppError>)
    ensures
        match timestamp_parsed(value@) {
            Some(m) => r matches Ok(t) && t@ == m && m.wf(),
            None => r matches Err(e) && e@ == unreadable_time(value@),
        },
{
    match parse_datetime_any(value) {
        Some(t) => Ok(t),
        None => {
            let mut message = String::from_str("无法解析时间: ");
            message.append(value);
            Err(AppError::Invalid(message))
        },
    }
}

/// Whole seconds from a time to the time that a text names, and zero where
/// that time is not ahead.
pub open spec fn seconds_ahead(target: Moment, now: Moment) -> int {
    if target.seconds_since(now) > 0 {
        target.seconds_since(now)
    } else {
        0
    }
}

/// The delay after which a timer for a time fires: the whole seconds until
/// then, and none where the time has come.
pub fn seconds_until(value: &str, now: &Timestamp) -> (r: Result<u64, AppError>)
    requires
        now@.wf(),
    ensures
        match timestamp_parsed(value@) {
            Some(m) => r matches Ok(d) && d == seconds_ahead(m, now@),
            None => r matches Err(e) && e@ == unreadable_time(value@),
        },
{
    match parse_datetime(value) {
        Ok(target) => Ok(target.seconds_until_from(now)),
        Err(e) => Err(e),
    }
}

/// Whether the time that a text names lies after a time.
pub fn is_future(value: &str, now: &Timestamp) -> (r: Result<bool, AppError>)
    requires
        now@.wf(),
    ensures
        match timestamp_parsed(value@) {
            Some(m) => r matches Ok(b) && b == (m.key() > now@.key()),
            None => r matches Err(e) && e@ == unreadable_time(value@),
        },
{
    match parse_datetime(value) {
        Ok(target) => Ok(target.is_after(now)),
        Err(e) => Err(e),
    }
}

/// What is to be done about a task's timer.
#[derive(Clone, Copy, Debug, PartialEq, Eq, Structural)]
pub enum ArmPlan {
    /// The task gets no timer.
    Skip,
    /// The task gets a timer that fires after the given seconds.
    Arm { delay_seconds: u64 },
}

/// The plan for the timer of a recurring task: none for a paused task, else
/// one that fires at the task's next trigger time.
pub open spec fn recurring_plan(task: RecurringTaskView, now: Moment) -> Result<
    ArmPlan,
    AppErrorView,
> {
    if task.is_paused {
        Ok(ArmPlan::Skip)
    } else {
        match timestamp_parsed(task.next_trigger) {
            Some(m) => Ok(ArmPlan::Arm { delay_seconds: seconds_ahead(m, now) as u64 }),
            None => Err(unreadable_time(task.next_trigger)),
        }
    }
}

/// Plans the timer of a recurring task.
pub fn plan_recurring(task: &RecurringTask, now: &Timestamp) -> (r: Result<ArmPlan, AppError>)
    requires
        now@.wf(),
    ensures
        match recurring_plan(task@, now@) {
            Ok(p) => r matches Ok(x) && x == p,
            Err(e) => r matches Err(x) && x@ == e,
        },
{
    if task.is_paused {
        return Ok(ArmPlan::Skip);
    }
    match seconds_until(task.next_trigger.as_str(), now) {
        Ok(delay_seconds) => Ok(ArmPlan::Arm { delay_seconds }),
        Err(e) => Err(e),
    }
}

/// The plan for the timer of a one-time task: none for a task without a
/// reminder time, else one that fires at the reminder time.
pub open spec fn task_plan(reminder_time: Option<Seq<char>>, now: Moment) -> Result<
    ArmPlan,
    AppErrorView,
> {
    match reminder_time {
        None => Ok(ArmPlan::Skip),
        Some(text) => match timestamp_parsed(text) {
            Some(m) => Ok(ArmPlan::Arm { delay_seconds: seconds_ahead(m, now) as u64 }),
            None => Err(unreadable_time(text)),
        },
    }
}

/// Plans the timer of a one-time task.
pub fn plan_task(task: &Task, now: &Timestamp) -> (r: Result<ArmPlan, AppError>)
    requires
        now@.wf(),
    ensures
        match task_plan(task@.reminder_time, now@) {
            Ok(p) => r matches Ok(x) && x == p,
            Err(e) => r matches Err(x) && x@ == e,
        },
{
    match &task.reminder_time {
        None => Ok(ArmPlan::Skip),
        Some(text) => match seconds_until(text.as_str(), now) {
            Ok(delay_seconds) => Ok(ArmPlan::Arm { delay_seconds }),
            Err(e) => Err(e),
        },
    }
}

/// The timers of the recurring and of the one-time tasks.
pub struct ReminderScheduler<H> {
    pub recurring_jobs: TimerTable<H>,
    pub task_jobs: TimerTable<H>,
}

impl<H> ReminderScheduler<H> {
    /// The invariant of the scheduler: no task has two timers.
    pub open spec fn wf(&self) -> bool {
        self.recurring_jobs.wf() && self.task_jobs.wf()
    }

    /// A scheduler without timers.
    pub fn new() -> (r: ReminderScheduler<H>)
        ensures
            r.wf(),
            r.recurring_jobs@ == Map::<Seq<char>, H>::empty(),
            r.task_jobs@ == Map::<Seq<char>, H>::empty(),
    {
        ReminderScheduler { recurring_jobs: TimerTable::new(), task_jobs: TimerTable::new() }
    }

    /// Plans the timers of the start: first those of the recurring tasks,
    /// then those of the one-time tasks, each list in its order. The first
    /// time that cannot be read is an error, and the recurring tasks are
    /// looked at first. No timer is dropped or recorded by this.
    pub fn schedule_existing(
        &self,
        recurring: &Vec<RecurringTask>,
        tasks: &Vec<Task>,
        now: &Timestamp,
    ) -> (r: Result<(Vec<ArmPlan>, Vec<ArmPlan>), AppError>)
        requires
            now@.wf(),
        ensures
            match recurring_plans(recurring_views(recurring@), now@) {
                Err(e) => r matches Err(x) && x@ == e,
                Ok(first) => match task_plans(task_views(tasks@), now@) {
                    Err(e) => r matches Err(x) && x@ == e,
                    Ok(second) => r matches Ok(p) && p.0@ == first && p.1@ == second,
                },
            },
    {
        let first = match plan_existing_recurring(recurring, now) {
            Ok(p) => p,
            Err(e) => {
                return Err(e);
            },
        };
        match plan_existing_tasks(tasks, now) {
            Ok(second) => Ok((first, second)),
            Err(e) => Err(e),
        }
    }

    /// Drops the timer of a recurring task; the caller stops the timer
    /// whose handle comes back. Nothing happens for a task without a timer.
    pub fn cancel_recurring(&mut self, task_id: &str) -> (r: Option<H>)
        requires
            old(self).wf(),
        ensures
            final(self).wf(),
            final(self).recurring_jobs@ == old(self).recurring_jobs@.remove(task_id@),
            final(self).task_jobs@ == old(self).task_jobs@,
            r == if old(self).recurring_jobs@.contains_key(task_id@) {
                Some(old(self).recurring_jobs@[task_id@])
            } else {
                None
            },
    {
        self.recurring_jobs.remove(task_id)
    }

    /// Drops the timer of a one-time task; the caller stops the timer
    /// whose handle comes back. Nothing happens for a task without a timer.
    pub fn cancel_task(&mut self, task_id: &str) -> (r: Option<H>)
        requires
            old(self).wf(),
        ensures
            final(self).wf(),
            final(self).task_jobs@ == old(self).task_jobs@.remove(task_id@),
            final(self).recurring_jobs@ == old(self).recurring_jobs@,
            r == if old(self).task_jobs@.contains_key(task_id@) {
                Some(old(self).task_jobs@[task_id@])
            } else {
                None
            },
    {
        self.task_jobs.remove(task_id)
    }

    /// Begins to schedule a recurring task: the timer that the task has is
    /// dropped first, whatever follows, and its handle comes back for the
    /// caller to stop it. With it comes the plan for the new timer.
    pub fn schedule_recurring(&mut self, task: &RecurringTask, now: &Timestamp) -> (r: (
        Option<H>,
        Result<ArmPlan, AppError>,
    ))
        requires
            old(self).wf(),
            now@.wf(),
        ensures
            final(self).wf(),
            final(self).recurring_jobs@ == old(self).recurring_jobs@.remove(task@.id),
            final(self).task_jobs@ == old(self).task_jobs@,
            r.0 == if old(self).recurring_jobs@.contains_key(task@.id) {
                Some(old(self).recurring_jobs@[task@.id])
            } else {
                None
            },
            match recurring_plan(task@, now@) {
                Ok(p) => r.1 matches Ok(x) && x == p,
                Err(e) => r.1 matches Err(x) && x@ == e,
            },
    {
        let dropped = self.cancel_recurring(task.id.as_str());
        (dropped, plan_recurring(task, now))
    }

    /// Begins to schedule a one-time task: the timer that the task has is
    /// dropped first, whatever follows, and its handle comes back for the
    /// caller to stop it. With it comes the plan for the new timer.
    pub fn schedule_task(&mut self, task: &Task, now: &Timestamp) -> (r: (
        Option<H>,
        Result<ArmPlan, AppError>,
    ))
        requires
            old(self).wf(),
            now@.wf(),
        ensures
            final(self).wf(),
            final(self).task_jobs@ == old(self).task_jobs@.remove(task@.id),
            final(self).recurring_jobs@ == old(self).recurring_jobs@,
            r.0 == if old(self).task_jobs@.contains_key(task@.id) {
                Some(old(self).task_jobs@[task@.id])
            } else {
                None
            },
            match task_plan(task@.reminder_time, now@) {
                Ok(p) => r.1 matches Ok(x) && x == p,
                Err(e) => r.1 matches Err(x) && x@ == e,
            },
    {
        let dropped = self.cancel_task(task.id.as_str());
        (dropped, plan_task(task, now))
    }

    /// Records the timer that the caller armed for a recurring task. A
    /// timer that the task still had is dropped, and its handle comes back
    /// for the caller to stop it.
    pub fn armed_recurring(&mut self, task_id: String, handle: H) -> (r: Option<H>)
        requires
            old(self).wf(),
        ensures
            final(self).wf(),
            final(self).recurring_jobs@ == old(self).recurring_jobs@.insert(task_id@, handle),
            final(self).task_jobs@ == old(self).task_jobs@,
            r == if old(self).recurring_jobs@.contains_key(task_id@) {
                Some(old(self).recurring_jobs@[task_id@])
            } else {
                None
            },
    {
        self.recurring_jobs.insert(task_id, handle)
    }

    /// Records the timer that the caller armed for a one-time task. A
    /// timer that the task still had is dropped, and its handle comes back
    /// for the caller to stop it.
    pub fn armed_task(&mut self, task_id: String, handle: H) -> (r: Option<H>)
        requires
            old(self).wf(),
        ensures
            final(self).wf(),
            final(self).task_jobs@ == old(self).task_jobs@.insert(task_id@, handle),
            final(self).recurring_jobs@ == old(self).recurring_jobs@,
            r == if old(self).task_jobs@.contains_key(task_id@) {
                Some(old(self).task_jobs@[task_id@])
            } else {
                None
            },
    {
        self.task_jobs.insert(task_id, handle)
    }
}

/// Whether a recurring task gets a timer at the start: it is neither
/// deleted nor paused.
pub open spec fn recurring_is_live(task: RecurringTaskView) -> bool {
    task.deleted_at is None && !task.is_paused
}

/// The timers that the recurring tasks of a list get at the start, as
/// plans in the order of the list; a task that gets none has the plan to
/// skip it. The first trigger time that cannot be read is an error.
pub open spec fn recurring_plans(tasks: Seq<RecurringTaskView>, now: Moment) -> Result<
    Seq<ArmPlan>,
    AppErrorView,
>
    decreases tasks.len(),
{
    if tasks.len() == 0 {
        Ok(Seq::empty())
    } else {
        match recurring_plans(tasks.drop_last(), now) {
            Err(e) => Err(e),
            Ok(plans) => if !recurring_is_live(tasks.last()) {
                Ok(plans.push(ArmPlan::Skip))
            } else {
                match recurring_plan(tasks.last(), now) {
                    Ok(p) => Ok(plans.push(p)),
                    Err(e) => Err(e),
                }
            },
        }
    }
}

/// The views of a list of recurring tasks.
pub open spec fn recurring_views(tasks: Seq<RecurringTask>) -> Seq<RecurringTaskView> {
    Seq::new(tasks.len(), |i: int| tasks[i]@)
}

/// Plans the timers of the recurring tasks at the start: one for every
/// task that is neither deleted nor paused.
pub fn plan_existing_recurring(tasks: &Vec<RecurringTask>, now: &Timestamp) -> (r: Result<
    Vec<ArmPlan>,
    AppError,
>)
    requires
        now@.wf(),
    ensures
        match recurring_plans(recurring_views(tasks@), now@) {
            Ok(plans) => r matches Ok(v) && v@ == plans && v.len() == tasks.len(),
            Err(e) => r matches Err(x) && x@ == e,
        },
{
    let ghost all = recurring_views(tasks@);
    let mut plans: Vec<ArmPlan> = Vec::new();
    let mut i: usize = 0;
    assert(all.take(0) =~= Seq::<RecurringTaskView>::empty());
    while i < tasks.len()
        invariant
            i <= tasks.len(),
            now@.wf(),
            all == recurring_views(tasks@),
            plans.len() == i,
            recurring_plans(all.take(i as int), now@) == Ok::<Seq<ArmPlan>, AppErrorView>(plans@),
        decreases tasks.len() - i,
    {
        let task = &tasks[i];
        proof {
            let upto = all.take(i + 1);
            assert(upto.drop_last() =~= all.take(i as int));
            assert(upto.last() == task@);
            if recurring_plans(upto, now@) is Err {
                lemma_recurring_plans_fail(all, now@, i + 1);
            }
        }
        if task.deleted_at.is_some() || task.is_paused {
            plans.push(ArmPlan::Skip);
        } else {
            match plan_recurring(task, now) {
                Ok(p) => {
                    plans.push(p);
                },
                Err(e) => {
                    return Err(e);
                },
            }
        }
        i += 1;
    }
    assert(all.take(tasks.len() as int) =~= all);
    Ok(plans)
}

/// An error among the first tasks of a list is the error of the whole list.
proof fn lemma_recurring_plans_fail(tasks: Seq<RecurringTaskView>, now: Moment, n: int)
    requires
        0 <= n <= tasks.len(),
        recurring_plans(tasks.take(n), now) is Err,
    ensures
        recurring_plans(tasks, now) == recurring_plans(tasks.take(n), now),
    decreases tasks.len() - n,
{
    if n < tasks.len() {
        let next = tasks.take(n + 1);
        assert(next.drop_last() =~= tasks.take(n));
        lemma_recurring_plans_fail(tasks, now, n + 1);
    } else {
        assert(tasks.take(n) =~= tasks);
    }
}

/// Whether a one-time task gets a timer at the start: it is neither
/// deleted nor completed and has a reminder time.
pub open spec fn task_is_live(task: TaskView) -> bool {
    task.deleted_at is None && task.status != "COMPLETED"@ && task.reminder_time is Some
}

/// The plan for the timer of a one-time task at the start: a timer for a
/// task that is neither deleted nor completed and whose reminder time is
/// ahead, and none for any other.
pub open spec fn startup_task_plan(task: TaskView, now: Moment) -> Result<
    ArmPlan,
    AppErrorView,
> {
    if !task_is_live(task) {
        Ok(ArmPlan::Skip)
    } else {
        match timestamp_parsed(task.reminder_time->0) {
            None => Err(unreadable_time(task.reminder_time->0)),
            Some(m) => if m.key() > now.key() {
                Ok(ArmPlan::Arm { delay_seconds: seconds_ahead(m, now) as u64 })
            } else {
                Ok(ArmPlan::Skip)
            },
        }
    }
}

/// Plans the timer of a one-time task at the start.
pub fn plan_existing_task(task: &Task, now: &Timestamp) -> (r: Result<ArmPlan, AppError>)
    requires
        now@.wf(),
    ensures
        match startup_task_plan(task@, now@) {
            Ok(p) => r matches Ok(x) && x == p,
            Err(e) => r matches Err(x) && x@ == e,
        },
{
    if task.deleted_at.is_some() || str_eq(task.status.as_str(), "COMPLETED") {
        return Ok(ArmPlan::Skip);
    }
    match &task.reminder_time {
        None => Ok(ArmPlan::Skip),
        Some(text) => match is_future(text.as_str(), now) {
            Err(e) => Err(e),
            Ok(false) => Ok(ArmPlan::Skip),
            Ok(true) => plan_task(task, now),
        },
    }
}

/// The views of a list of one-time tasks.
pub open spec fn task_views(tasks: Seq<Task>) -> Seq<TaskView> {
    Seq::new(tasks.len(), |i: int| tasks[i]@)
}

/// The timers that the one-time tasks of a list get at the start, as plans
/// in the order of the list. The first reminder time that cannot be read is
/// an error.
pub open spec fn task_plans(tasks: Seq<TaskView>, now: Moment) -> Result<Seq<ArmPlan>, AppErrorView>
    decreases tasks.len(),
{
    if tasks.len() == 0 {
        Ok(Seq::empty())
    } else {
        match task_plans(tasks.drop_last(), now) {
            Err(e) => Err(e),
            Ok(plans) => match startup_task_plan(tasks.last(), now) {
                Ok(p) => Ok(plans.push(p)),
                Err(e) => Err(e),
            },
        }
    }
}

/// An error among the first tasks of a list is the error of the whole list.
proof fn lemma_task_plans_fail(tasks: Seq<TaskView>, now: Moment, n: int)
    requires
        0 <= n <= tasks.len(),
        task_plans(tasks.take(n), now) is Err,
    ensures
        task_plans(tasks, now) == task_plans(tasks.take(n), now),
    decreases tasks.len() - n,
{
    if n < tasks.len() {
        let next = tasks.take(n + 1);
        assert(next.drop_last() =~= tasks.take(n));
        lemma_task_plans_fail(tasks, now, n + 1);
    } else {
        assert(tasks.take(n) =~= tasks);
    }
}

/// Plans the timers of the one-time tasks at the start: one for every task
/// that is neither deleted nor completed and whose reminder time is ahead.
pub fn plan_existing_tasks(tasks: &Vec<Task>, now: &Timestamp) -> (r: Result<Vec<ArmPlan>, AppError>)
    requires
        now@.wf(),
    ensures
        match task_plans(task_views(tasks@), now@) {
            Ok(plans) => r matches Ok(v) && v@ == plans && v.len() == tasks.len(),
            Err(e) => r matches Err(x) && x@ == e,
        },
{
    let ghost all = task_views(tasks@);
    let mut plans: Vec<ArmPlan> = Vec::new();
    let mut i: usize = 0;
    assert(all.take(0) =~= Seq::<TaskView>::empty());
    while i < tasks.len()
        invariant
            i <= tasks.len(),
            now@.wf(),
            all == task_views(tasks@),
            plans.len() == i,
            task_plans(all.take(i as int), now@) == Ok::<Seq<ArmPlan>, AppErrorView>(plans@),
        decreases tasks.len() - i,
    {
        let task = &tasks[i];
        proof {
            let upto = all.take(i + 1);
            assert(upto.drop_last() =~= all.take(i as int));
            assert(upto.last() == task@);
            if task_plans(upto, now@) is Err {
                lemma_task_plans_fail(all, now@, i + 1);
            }
        }
        match plan_existing_task(task, now) {
            Ok(p) => {
                plans.push(p);
            },
            Err(e) => {
                return Err(e);
            },
        }
        i += 1;
    }
    assert(all.take(tasks.len() as int) =~= all);
    Ok(plans)
}

/// What is to be done when the timer of a recurring task has fired.
#[derive(Debug, PartialEq, Eq)]
pub enum RecurringFire {
    /// Nothing: the task is gone, deleted or paused.
    Drop,
    /// The task is outside its window: store it with its new trigger
    /// time and arm its timer again, without a notification.
    Rearm { task: RecurringTask, next: Timestamp },
    /// The task fires: store it, record the firing, publish the
    /// notification and arm its timer again.
    Fire { task: RecurringTask, next: Timestamp },
}

/// Whether the timer of a recurring task fires for nothing: the task is
/// gone, deleted or paused.
pub open spec fn recurring_is_dropped(task: Option<RecurringTaskView>) -> bool {
    match task {
        None => true,
        Some(t) => t.deleted_at is Some || t.is_paused,
    }
}

/// Decides what happens when the timer of a recurring task has fired, on
/// the task as the store holds it now. A task that is gone, deleted or
/// paused is dropped. A task outside its window keeps its fields and gets
/// its next trigger time. Any other task fires: it is brought into normal
/// form, and gets the time of this firing and its next trigger time. A
/// fault in the task is reported, and nothing is to be done then.
pub fn handle_recurring(task: Option<RecurringTask>, now: &Timestamp) -> (r: Result<
    RecurringFire,
    AppError,
>)
    requires
        now@.wf(),
    ensures
        recurring_is_dropped(recurring_view(task)) ==> r matches Ok(RecurringFire::Drop),
        !recurring_is_dropped(recurring_view(task)) ==> match rule_of(task->0@.recurrence) {
            Err(f) => r matches Err(e) && e@ == fault_error(f),
            Ok(rule) => match r {
                Ok(RecurringFire::Drop) => false,
                Ok(RecurringFire::Rearm { task: stored, next }) => {
                    &&& !fires_at(rule, now@)
                    &&& next@.wf() && next@.key() > now@.key()
                    &&& next_moment(rule, now@) matches Some(m) ==> m == Ok::<Moment, Fault>(next@)
                    &&& stored@ == (RecurringTaskView {
                        next_trigger: trigger_text(next@),
                        ..task->0@
                    })
                },
                Ok(RecurringFire::Fire { task: stored, next }) => {
                    &&& fires_at(rule, now@)
                    &&& next@.wf() && next@.key() > now@.key()
                    &&& next_moment(rule, now@) matches Some(m) ==> m == Ok::<Moment, Fault>(next@)
                    &&& sanitized(task->0@) matches Ok(normal) && stored@ == (RecurringTaskView {
                        last_triggered: Some(trigger_text(now@)),
                        next_trigger: trigger_text(next@),
                        ..normal
                    })
                },
                Err(e) => match next_moment(rule, now@) {
                    Some(m) => m matches Err(f) && e@ == fault_error(f),
                    None => cron_search_failure(e@),
                },
            },
        },
{
    let mut task = match task {
        Some(t) => t,
        None => {
            return Ok(RecurringFire::Drop);
        },
    };
    if task.deleted_at.is_some() || task.is_paused {
        return Ok(RecurringFire::Drop);
    }
    let rule = match recurrence_rule(&task) {
        Ok(rule) => rule,
        Err(e) => {
            return Err(e);
        },
    };
    let fires = rule_fires_at(&rule, now);
    let next = match next_occurrence(&rule, now) {
        Ok(t) => t,
        Err(e) => {
            return Err(e);
        },
    };
    if !fires {
        task.next_trigger = format_trigger(&next);
        return Ok(RecurringFire::Rearm { task, next });
    }
    match sanitize_recurring_task(&mut task) {
        Ok(_) => {},
        Err(e) => {
            return Err(e);
        },
    }
    task.last_triggered = Some(format_trigger(now));
    task.next_trigger = format_trigger(&next);
    Ok(RecurringFire::Fire { task, next })
}

/// The view of an optional recurring task.
pub open spec fn recurring_view(task: Option<RecurringTask>) -> Option<RecurringTaskView> {
    match task {
        Some(t) => Some(t@),
        None => None,
    }
}

/// Whether the timer of a one-time task fires for something: the task is
/// there, neither deleted nor completed, and its reminder time, where it
/// has one, is still ahead.
pub open spec fn task_fires(task: Option<TaskView>, now: Moment) -> Result<
    bool,
    AppErrorView,
> {
    match task {
        None => Ok(false),
        Some(t) => if t.deleted_at is Some || t.status == "COMPLETED"@ {
            Ok(false)
        } else {
            match t.reminder_time {
                None => Ok(true),
                Some(text) => match timestamp_parsed(text) {
                    None => Err(unreadable_time(text)),
                    Some(m) => Ok(m.key() > now.key()),
                },
            }
        },
    }
}

/// Decides whether a one-time task fires when its timer has, on the task
/// as the store holds it now. The timer of a one-time task is never armed
/// again.
pub fn handle_task(task: &Option<Task>, now: &Timestamp) -> (r: Result<bool, AppError>)
    requires
        now@.wf(),
    ensures
        match task_fires(
            match task {
                Some(t) => Some(t@),
                None => None,
            },
            now@,
        ) {
            Ok(b) => r matches Ok(x) && x == b,
            Err(e) => r matches Err(x) && x@ == e,
        },
{
    let task = match task {
        Some(t) => t,
        None => {
            return Ok(false);
        },
    };
    if task.deleted_at.is_some() || str_eq(task.status.as_str(), "COMPLETED") {
        return Ok(false);
    }
    match &task.reminder_time {
        None => Ok(true),
        Some(text) => is_future(text.as_str(), now),
    }
}

/// What the presentation layer is told about a firing.
pub fn notification_for(
    record_id: &str,
    reminder_id: &str,
    reminder_type: &str,
    description: &str,
    snooze_minutes: i64,
) -> (r: NotificationPayload)
    ensures
        r@ == (NotificationPayloadView {
            record_id: record_id@,
            reminder_id: reminder_id@,
            reminder_type: reminder_type@,
            description: description@,
            snooze_minutes: snooze_minutes as int,
        }),
{
    NotificationPayload {
        record_id: String::from_str(record_id),
        reminder_id: String::from_str(reminder_id),
        reminder_type: String::from_str(reminder_type),
        description: String::from_str(description),
        snooze_minutes,
    }
}

/// After a timer was dropped and a new one recorded for a task, the task
/// has exactly the new one; every other task has what it had.
pub proof fn lemma_cancel_before_arm<H>(timers: Map<Seq<char>, H>, id: Seq<char>, handle: H)
    ensures
        timers.remove(id).insert(id, handle) == timers.insert(id, handle),
        timers.remove(id).insert(id, handle)[id] == handle,
        forall|other: Seq<char>|
            other != id ==> (#[trigger] timers.remove(id).insert(id, handle).contains_key(other)
                == timers.contains_key(other)),
        !timers.remove(id).contains_key(id),
{
    assert(timers.remove(id).insert(id, handle) =~= timers.insert(id, handle));
}

} // verus!
