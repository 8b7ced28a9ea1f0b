//! The concurrent batch runner's state machine.  One task per entry moves
//! `Pending -> Active(pipeline states) -> Done`; a task holds one concurrency
//! slot exactly while it is active, and the number of active tasks never
//! exceeds the ceiling the runner was built with.  The surrounding program
//! performs the remote calls and feeds their outcomes back through the
//! `step_*` methods; every entry ends in exactly one terminal outcome, and
//! one entry's failure leaves every other entry's task untouched.

use vstd::pervasive::arbitrary;
use vstd::pervasive::unreached;
use vstd::prelude::*;

use crate::config::entries_view;
use crate::config::PluginEntry;
use crate::config::PluginEntryV;
use crate::pipeline::apply_hash;
use crate::pipeline::apply_render;
use crate::pipeline::apply_resolution;
use crate::pipeline::hash_spec;
use crate::pipeline::render_spec;
use crate::pipeline::resolve_spec;
use crate::pipeline::start_entry;
use crate::pipeline::start_spec;
use crate::pipeline::EntryOutcome;
use crate::pipeline::EntryOutcomeV;
use crate::pipeline::EntryState;
use crate::pipeline::EntryStateV;
use crate::pipeline::StepResult;
use crate::pipeline::StepResultV;
use crate::resolve::FetchReply;

verus! {

/// One entry's task: not yet admitted, admitted and holding a concurrency
/// slot, or finished.
pub enum TaskState {
    Pending,
    Active(EntryState),
    Done(EntryOutcome),
}

/// The mathematical value of a [`TaskState`].
pub enum TaskStateV {
    Pending,
    Active(EntryStateV),
    Done(EntryOutcomeV),
}

impl View for TaskState {
    type V = TaskStateV;

    open spec fn view(&self) -> TaskStateV {
        match self {
            TaskState::Pending => TaskStateV::Pending,
            TaskState::Active(s) => TaskStateV::Active(s@),
            TaskState::Done(o) => TaskStateV::Done(o@),
        }
    }
}

/// The terminal record for one entry: the entry itself, paired with how its
/// pipeline ended.
pub struct EntryResult {
    pub entry: PluginEntry,
    pub outcome: EntryOutcome,
}

/// The mathematical value of an [`EntryResult`].
pub struct EntryResultV {
    pub entry: PluginEntryV,
    pub outcome: EntryOutcomeV,
}

impl View for EntryResult {
    type V = EntryResultV;

    open spec fn view(&self) -> EntryResultV {
        EntryResultV { entry: self.entry@, outcome: self.outcome@ }
    }
}

/// The view of a result list.
pub open spec fn results_view(rs: Seq<EntryResult>) -> Seq<EntryResultV> {
    rs.map_values(|r: EntryResult| r@)
}

/// The view of a task list.
pub open spec fn tasks_view(ts: Seq<TaskState>) -> Seq<TaskStateV> {
    ts.map_values(|t: TaskState| t@)
}

/// Whether a task currently holds a concurrency slot.
pub open spec fn is_active(t: TaskStateV) -> bool {
    t is Active
}

/// How many tasks currently hold a concurrency slot.
pub open spec fn count_active(ts: Seq<TaskStateV>) -> nat
    decreases ts.len(),
{
    if ts.len() == 0 {
        0
    } else {
        count_active(ts.drop_last()) + if is_active(ts.last()) {
            1nat
        } else {
            0
        }
    }
}

/// A task's position along the pipeline.  Every transition strictly
/// increases it: no task ever re-enters an earlier state.
pub open spec fn stage_rank(t: TaskStateV) -> int {
    match t {
        TaskStateV::Pending => 0,
        TaskStateV::Active(EntryStateV::Resolving) => 1,
        TaskStateV::Active(EntryStateV::Hashing(_)) => 2,
        TaskStateV::Active(EntryStateV::Rendering(_, _)) => 3,
        TaskStateV::Done(_) => 4,
    }
}

/// A step result folded back into a task: a transient state keeps the task
/// active, a terminal outcome finishes it.
pub open spec fn lift_step(s: StepResultV) -> TaskStateV {
    match s {
        StepResultV::Continue(st) => TaskStateV::Active(st),
        StepResultV::Finished(o) => TaskStateV::Done(o),
    }
}

/// The outcome a finished task recorded.
pub open spec fn task_outcome(t: TaskStateV) -> EntryOutcomeV {
    match t {
        TaskStateV::Done(o) => o,
        _ => arbitrary(),
    }
}

/// Every task has reached a terminal state.
pub open spec fn all_done(ts: Seq<TaskStateV>) -> bool {
    forall|j: int| 0 <= j < ts.len() ==> ts[j] is Done
}

/// The batch outcome a finished task list determines: exactly one record per
/// entry, in entry order, pairing the entry with its own task's outcome.
pub open spec fn results_spec(entries: Seq<PluginEntryV>, tasks: Seq<TaskStateV>) -> Seq<
    EntryResultV,
> {
    Seq::new(entries.len(), |i: int| EntryResultV { entry: entries[i], outcome: task_outcome(tasks[i]) })
}

/// The mathematical state of a [`BatchRunner`].
pub struct BatchV {
    pub entries: Seq<PluginEntryV>,
    pub tasks: Seq<TaskStateV>,
    pub limit: nat,
    pub active: nat,
}

/// The runner's invariant: one task per entry, a positive ceiling, an active
/// counter that counts exactly the tasks holding a slot, and never more of
/// them than the ceiling allows.
pub open spec fn batch_wf(b: BatchV) -> bool {
    &&& b.limit >= 1
    &&& b.tasks.len() == b.entries.len()
    &&& b.active == count_active(b.tasks)
    &&& b.active <= b.limit
}

/// Updating one task changes the active count by the difference the two
/// tasks make.
proof fn lemma_count_active_update(ts: Seq<TaskStateV>, i: int, v: TaskStateV)
    requires
        0 <= i < ts.len(),
    ensures
        count_active(ts.update(i, v)) == count_active(ts) as int - (if is_active(ts[i]) {
            1int
        } else {
            0
        }) + (if is_active(v) {
            1int
        } else {
            0
        }),
    decreases ts.len(),
{
    let ts2 = ts.update(i, v);
    if i == ts.len() - 1 {
        assert(ts2.drop_last() =~= ts.drop_last());
        assert(ts2.last() == v);
    } else {
        assert(ts2.drop_last() =~= ts.drop_last().update(i, v));
        assert(ts2.last() == ts.last());
        lemma_count_active_update(ts.drop_last(), i, v);
    }
}

/// A task list with no active task holds no slot.
proof fn lemma_count_active_none(ts: Seq<TaskStateV>)
    requires
        forall|j: int| 0 <= j < ts.len() ==> !is_active(ts[j]),
    ensures
        count_active(ts) == 0,
    decreases ts.len(),
{
    if ts.len() > 0 {
        lemma_count_active_none(ts.drop_last());
    }
}

/// A list with an active task holds at least one slot.
proof fn lemma_count_active_pos(ts: Seq<TaskStateV>, i: int)
    requires
        0 <= i < ts.len(),
        is_active(ts[i]),
    ensures
        count_active(ts) >= 1,
    decreases ts.len(),
{
    if i == ts.len() - 1 {
    } else {
        lemma_count_active_pos(ts.drop_last(), i);
    }
}

/// The batch runner: the entry list, one task per entry, and the admission
/// state under a fixed concurrency ceiling.
pub struct BatchRunner {
    entries: Vec<PluginEntry>,
    tasks: Vec<TaskState>,
    limit: usize,
    active: usize,
}

impl View for BatchRunner {
    type V = BatchV;

    closed spec fn view(&self) -> BatchV {
        BatchV {
            entries: entries_view(self.entries@),
            tasks: tasks_view(self.tasks@),
            limit: self.limit as nat,
            active: self.active as nat,
        }
    }
}

impl BatchRunner {
    /// The runner's invariant; every method preserves it.
    pub open spec fn wf(&self) -> bool {
        batch_wf(self@)
    }

    /// Set up a batch: every task pending, no slot held.
    pub fn new(entries: Vec<PluginEntry>, limit: usize) -> (r: BatchRunner)
        requires
            limit >= 1,
        ensures
            r.wf(),
            r@.entries == entries_view(entries@),
            r@.limit == limit as nat,
            r@.active == 0,
            r@.tasks.len() == entries@.len(),
            forall|j: int| 0 <= j < entries@.len() ==> r@.tasks[j] is Pending,
    {
        let n = entries.len();
        let mut tasks: Vec<TaskState> = Vec::new();
        while tasks.len() < n
            invariant
                tasks@.len() <= n,
                forall|j: int| 0 <= j < tasks@.len() ==> tasks@[j] is Pending,
            decreases n - tasks@.len(),
        {
            tasks.push(TaskState::Pending);
        }
        proof {
            assert(forall|j: int|
                0 <= j < tasks@.len() ==> !is_active(#[trigger] tasks_view(tasks@)[j]));
            lemma_count_active_none(tasks_view(tasks@));
        }
        BatchRunner { entries, tasks, limit, active: 0 }
    }

    /// The concurrency ceiling.
    pub fn limit(&self) -> (r: usize)
        ensures
            r as nat == self@.limit,
    {
        self.limit
    }

    /// How many tasks there are (one per entry).
    pub fn task_count(&self) -> (r: usize)
        ensures
            r as nat == self@.tasks.len(),
    {
        self.tasks.len()
    }

    /// How many tasks currently hold a slot.
    pub fn active_count(&self) -> (r: usize)
        ensures
            r as nat == self@.active,
    {
        self.active
    }

    /// Look at one task.
    pub fn task(&self, i: usize) -> (r: &TaskState)
        requires
            i < self@.tasks.len(),
        ensures
            r@ == self@.tasks[i as int],
    {
        &self.tasks[i]
    }

    /// Look at one entry.
    pub fn entry(&self, i: usize) -> (r: &PluginEntry)
        requires
            i < self@.entries.len(),
        ensures
            r@ == self@.entries[i as int],
    {
        &self.entries[i]
    }

    /// Admit the first pending task, if a slot is free.  The admitted task
    /// starts its pipeline at once: pinned entries resolve on the spot and
    /// enter the hashing stage, unpinned ones wait for the remote lookup.
    /// Returns nothing when the ceiling is reached or no task is pending.
    pub fn try_admit(&mut self) -> (r: Option<usize>)
        requires
            old(self).wf(),
        ensures
            final(self).wf(),
            final(self)@.entries == old(self)@.entries,
            final(self)@.limit == old(self)@.limit,
            match r {
                Some(i) => {
                    &&& (i as int) < old(self)@.tasks.len()
                    &&& old(self)@.tasks[i as int] is Pending
                    &&& forall|j: int| 0 <= j < i as int ==> !(old(self)@.tasks[j] is Pending)
                    &&& old(self)@.active < old(self)@.limit
                    &&& final(self)@.tasks == old(self)@.tasks.update(
                        i as int,
                        TaskStateV::Active(start_spec(old(self)@.entries[i as int].plugin)),
                    )
                    &&& final(self)@.active == old(self)@.active + 1
                    &&& stage_rank(final(self)@.tasks[i as int]) > stage_rank(
                        old(self)@.tasks[i as int],
                    )
                },
                None => {
                    &&& final(self)@ == old(self)@
                    &&& (old(self)@.active == old(self)@.limit || forall|j: int|
                        0 <= j < old(self)@.tasks.len() ==> !(old(self)@.tasks[j] is Pending))
                },
            },
    {
        if self.active >= self.limit {
            return None;
        }
        let n = self.tasks.len();
        let mut i: usize = 0;
        while i < n
            invariant
                i <= n,
                n == self.tasks@.len(),
                *self == *old(self),
                old(self).wf(),
                old(self)@.active < old(self)@.limit,
                forall|j: int| 0 <= j < i as int ==> !(tasks_view(self.tasks@)[j] is Pending),
            decreases n - i,
        {
            let pending = matches!(&self.tasks[i], TaskState::Pending);
            if pending {
                let ghost pre = *self;
                let st = start_entry(&self.entries[i].plugin);
                self.tasks[i] = TaskState::Active(st);
                self.active = self.active + 1;
                proof {
                    assert(tasks_view(self.tasks@) =~= tasks_view(pre.tasks@).update(
                        i as int,
                        TaskStateV::Active(start_spec(pre@.entries[i as int].plugin)),
                    ));
                    lemma_count_active_update(
                        tasks_view(pre.tasks@),
                        i as int,
                        TaskStateV::Active(start_spec(pre@.entries[i as int].plugin)),
                    );
                }
                return Some(i);
            }
            i = i + 1;
        }
        None
    }

    /// Feed the remote metadata reply to a resolving task.
    pub fn step_resolved(&mut self, i: usize, reply: FetchReply) -> (r: &TaskState)
        requires
            old(self).wf(),
            (i as int) < old(self)@.tasks.len(),
            old(self)@.tasks[i as int] == TaskStateV::Active(EntryStateV::Resolving),
            reply.wf(),
        ensures
            final(self).wf(),
            final(self)@.entries == old(self)@.entries,
            final(self)@.limit == old(self)@.limit,
            final(self)@.tasks == old(self)@.tasks.update(
                i as int,
                lift_step(resolve_spec(old(self)@.entries[i as int].plugin, reply@)),
            ),
            stage_rank(final(self)@.tasks[i as int]) > stage_rank(old(self)@.tasks[i as int]),
            r@ == final(self)@.tasks[i as int],
    {
        let ghost pre = *self;
        let step = apply_resolution(&self.entries[i].plugin, reply);
        let next = match step {
            StepResult::Continue(st) => TaskState::Active(st),
            StepResult::Finished(o) => {
                proof {
                    lemma_count_active_pos(tasks_view(self.tasks@), i as int);
                }
                self.active = self.active - 1;
                TaskState::Done(o)
            },
        };
        self.tasks[i] = next;
        proof {
            assert(tasks_view(self.tasks@) =~= tasks_view(pre.tasks@).update(
                i as int,
                lift_step(resolve_spec(pre@.entries[i as int].plugin, reply@)),
            ));
            lemma_count_active_update(
                tasks_view(pre.tasks@),
                i as int,
                lift_step(resolve_spec(pre@.entries[i as int].plugin, reply@)),
            );
        }
        &self.tasks[i]
    }

    /// Feed the hasher's outcome to a hashing task.
    pub fn step_hashed(&mut self, i: usize, hash_res: Result<String, String>) -> (r: &TaskState)
        requires
            old(self).wf(),
            (i as int) < old(self)@.tasks.len(),
            old(self)@.tasks[i as int] matches TaskStateV::Active(EntryStateV::Hashing(_)),
        ensures
            final(self).wf(),
            final(self)@.entries == old(self)@.entries,
            final(self)@.limit == old(self)@.limit,
            old(self)@.tasks[i as int] matches TaskStateV::Active(EntryStateV::Hashing(c))
                ==> final(self)@.tasks == old(self)@.tasks.update(
                i as int,
                lift_step(
                    hash_spec(
                        old(self)@.entries[i as int].plugin,
                        c,
                        match hash_res {
                            Ok(ref h) => Ok::<Seq<char>, Seq<char>>(h@),
                            Err(ref e) => Err::<Seq<char>, Seq<char>>(e@),
                        },
                    ),
                ),
            ),
            stage_rank(final(self)@.tasks[i as int]) > stage_rank(old(self)@.tasks[i as int]),
            r@ == final(self)@.tasks[i as int],
    {
        let ghost pre = *self;
        let ghost res_v = match hash_res {
            Ok(ref h) => Ok::<Seq<char>, Seq<char>>(h@),
            Err(ref e) => Err::<Seq<char>, Seq<char>>(e@),
        };
        let c = match &self.tasks[i] {
            TaskState::Active(EntryState::Hashing(c)) => c.duplicate(),
            _ => unreached(),
        };
        let step = apply_hash(&self.entries[i].plugin, c, hash_res);
        let next = match step {
            StepResult::Continue(st) => TaskState::Active(st),
            StepResult::Finished(o) => {
                proof {
                    lemma_count_active_pos(tasks_view(self.tasks@), i as int);
                }
                self.active = self.active - 1;
                TaskState::Done(o)
            },
        };
        self.tasks[i] = next;
        proof {
            let cv = pre@.tasks[i as int]->Active_0->Hashing_0;
            assert(tasks_view(self.tasks@) =~= tasks_view(pre.tasks@).update(
                i as int,
                lift_step(hash_spec(pre@.entries[i as int].plugin, cv, res_v)),
            ));
            lemma_count_active_update(
                tasks_view(pre.tasks@),
                i as int,
                lift_step(hash_spec(pre@.entries[i as int].plugin, cv, res_v)),
            );
        }
        &self.tasks[i]
    }

    /// Render a rendering task's stanza and finish the task.  Rendering is
    /// pure and always succeeds; the slot is released here, as on every
    /// other exit path, before the outcome is recorded.
    pub fn step_rendered(&mut self, i: usize)
        requires
            old(self).wf(),
            (i as int) < old(self)@.tasks.len(),
            old(self)@.tasks[i as int] matches TaskStateV::Active(EntryStateV::Rendering(_, _)),
        ensures
            final(self).wf(),
            final(self)@.entries == old(self)@.entries,
            final(self)@.limit == old(self)@.limit,
            old(self)@.tasks[i as int] matches TaskStateV::Active(
                EntryStateV::Rendering(c, sha),
            ) ==> final(self)@.tasks == old(self)@.tasks.update(
                i as int,
                TaskStateV::Done(
                    render_spec(
                        old(self)@.entries[i as int].name,
                        old(self)@.entries[i as int].plugin,
                        c,
                        sha,
                    ),
                ),
            ),
            stage_rank(final(self)@.tasks[i as int]) > stage_rank(old(self)@.tasks[i as int]),
    {
        let ghost pre = *self;
        let (c, sha) = match &self.tasks[i] {
            TaskState::Active(EntryState::Rendering(c, sha)) => (c.duplicate(), sha.clone()),
            _ => unreached(),
        };
        let outcome = apply_render(
            self.entries[i].name.as_str(),
            &self.entries[i].plugin,
            c,
            sha,
        );
        proof {
            lemma_count_active_pos(tasks_view(self.tasks@), i as int);
        }
        self.tasks[i] = TaskState::Done(outcome);
        self.active = self.active - 1;
        proof {
            let cv = pre@.tasks[i as int]->Active_0->Rendering_0;
            let shav = pre@.tasks[i as int]->Active_0->Rendering_1;
            assert(tasks_view(self.tasks@) =~= tasks_view(pre.tasks@).update(
                i as int,
                TaskStateV::Done(
                    render_spec(pre@.entries[i as int].name, pre@.entries[i as int].plugin, cv, shav),
                ),
            ));
            lemma_count_active_update(
                tasks_view(pre.tasks@),
                i as int,
                TaskStateV::Done(
                    render_spec(pre@.entries[i as int].name, pre@.entries[i as int].plugin, cv, shav),
                ),
            );
        }
    }

    /// Whether every task has reached a terminal state.  The batch is over
    /// only when this holds: no early exit on a failure.
    pub fn is_finished(&self) -> (r: bool)
        ensures
            r == all_done(self@.tasks),
    {
        let n = self.tasks.len();
        let mut i: usize = 0;
        while i < n
            invariant
                i <= n,
                n == self.tasks@.len(),
                forall|j: int| 0 <= j < i as int ==> tasks_view(self.tasks@)[j] is Done,
            decreases n - i,
        {
            let done = matches!(&self.tasks[i], TaskState::Done(_));
            if !done {
                proof {
                    assert(self@.tasks[i as int] == self.tasks@[i as int]@);
                    assert(!(self.tasks@[i as int]@ is Done));
                }
                return false;
            }
            i = i + 1;
        }
        true
    }

    /// Hand the batch outcome out: exactly one record per entry, in entry
    /// order, each pairing an entry with its own task's outcome.
    pub fn into_results(self) -> (r: Vec<EntryResult>)
        requires
            self.wf(),
            all_done(self@.tasks),
        ensures
            results_view(r@) == results_spec(self@.entries, self@.tasks),
    {
        let ghost ev = self@.entries;
        let ghost tv = self@.tasks;
        let BatchRunner { mut entries, mut tasks, limit: _, active: _ } = self;
        let ghost n = ev.len();
        let mut out: Vec<EntryResult> = Vec::new();
        while entries.len() > 0
            invariant
                tasks@.len() == entries@.len(),
                out@.len() + entries@.len() == n,
                entries_view(entries@) =~= ev.subrange(out@.len() as int, n as int),
                tasks_view(tasks@) =~= tv.subrange(out@.len() as int, n as int),
                ev.len() == tv.len() == n,
                all_done(tv),
                forall|k: int|
                    0 <= k < out@.len() ==> results_view(out@)[k] == (EntryResultV {
                        entry: ev[k],
                        outcome: task_outcome(tv[k]),
                    }),
            decreases entries@.len(),
        {
            let ghost k = out@.len() as int;
            let ghost pre_entries = entries@;
            let ghost pre_tasks = tasks@;
            let e = entries.remove(0);
            let t = tasks.remove(0);
            proof {
                assert(entries@ =~= pre_entries.subrange(1, pre_entries.len() as int));
                assert(tasks@ =~= pre_tasks.subrange(1, pre_tasks.len() as int));
                assert(e@ == entries_view(pre_entries)[0]);
                assert(t@ == tasks_view(pre_tasks)[0]);
                assert forall|j: int| 0 <= j < entries@.len() implies entries_view(entries@)[j]
                    == ev[k + 1 + j] by {
                    assert(entries@[j] == pre_entries[j + 1]);
                    assert(entries_view(pre_entries)[j + 1] == ev.subrange(k, n as int)[j + 1]);
                }
                assert forall|j: int| 0 <= j < tasks@.len() implies tasks_view(tasks@)[j] == tv[k
                    + 1 + j] by {
                    assert(tasks@[j] == pre_tasks[j + 1]);
                    assert(tasks_view(pre_tasks)[j + 1] == tv.subrange(k, n as int)[j + 1]);
                }
                assert(entries_view(entries@) =~= ev.subrange(k + 1, n as int));
                assert(tasks_view(tasks@) =~= tv.subrange(k + 1, n as int));
                assert(e@ == ev[k]);
                assert(t@ == tv[k]);
            }
            let ghost tval = t@;
            let o = match t {
                TaskState::Done(o) => {
                    proof {
                        assert(tval == TaskStateV::Done(o@));
                    }
                    o
                },
                _ => unreached(),
            };
            let ghost eview = e@;
            let ghost oview = o@;
            let ghost pre_out = out@;
            out.push(EntryResult { entry: e, outcome: o });
            proof {
                assert(oview == task_outcome(tv[k]));
                assert forall|j: int| 0 <= j < out@.len() implies results_view(out@)[j]
                    == (EntryResultV { entry: ev[j], outcome: task_outcome(tv[j]) }) by {
                    if j < k {
                        assert(out@[j] == pre_out[j]);
                        assert(results_view(pre_out)[j] == (EntryResultV {
                            entry: ev[j],
                            outcome: task_outcome(tv[j]),
                        }));
                    } else {
                        assert(out@[j]@ == (EntryResultV { entry: eview, outcome: oview }));
                    }
                }
            }
        }
        proof {
            assert(results_view(out@) =~= results_spec(ev, tv));
        }
        out
    }
}

/// The concurrency ceiling is an invariant: in every well-formed runner
/// state — and every method keeps the state well-formed — the number of
/// tasks holding a resolution or hashing slot is at most the ceiling.
pub proof fn lemma_concurrency_ceiling(b: BatchV)
    requires
        batch_wf(b),
    ensures
        count_active(b.tasks) <= b.limit,
{
}

/// Failure isolation: however one entry's task ends, every other entry's
/// record in the batch outcome is untouched.  Two task lists that differ
/// only at entry `i` determine the same result for every other entry.
pub proof fn lemma_failure_isolation(
    entries: Seq<PluginEntryV>,
    t1: Seq<TaskStateV>,
    t2: Seq<TaskStateV>,
    i: int,
)
    requires
        t1.len() == entries.len(),
        t2.len() == entries.len(),
        forall|j: int| 0 <= j < entries.len() && j != i ==> t1[j] == t2[j],
    ensures
        forall|j: int|
            0 <= j < entries.len() && j != i ==> results_spec(entries, t1)[j] == results_spec(
                entries,
                t2,
            )[j],
{
}

} // verus!
