//! The bounded concurrent dispatch engine.
//!
//! The engine tracks, for a finite batch of job descriptors and a fixed
//! concurrency budget, where every job stands in its lifecycle
//! (`Queued -> PermitAcquired -> ProcessSpawned -> ProcessExited ->
//! Reported`) and the outcomes reported so far.  Its well-formedness
//! invariant carries the two guarantees the batch runner lives on: no more
//! jobs ever hold a permit than the budget allows, and every job produces
//! exactly one outcome.
//!
//! The engine is a state machine over plain values: the caller performs the
//! actual process spawning and waiting, and records each observed event
//! through one of the transition methods here.

use vstd::prelude::*;

use crate::error::Error;
use crate::outcome::DispatchOutcome;
use crate::packets::Packet;
use vstd::pervasive::VecAdditionalExecFns;

verus! {

/// Where one job stands in its lifecycle.
#[derive(Clone, Copy, Debug, PartialEq, Eq, Structural)]
pub enum JobPhase {
    /// Accepted, waiting for a free permit.
    Queued,
    /// Holding one unit of the concurrency budget.
    PermitAcquired,
    /// The external process is running; the permit is still held.
    ProcessSpawned,
    /// The process has terminated with the recorded result; the permit is
    /// released only together with the outcome report.
    ProcessExited { success: bool },
    /// The outcome has been handed over and the permit released.  Terminal.
    Reported,
}

/// Whether a phase holds one permit of the concurrency budget: from
/// acquisition until the outcome is reported, exit included.  Releasing
/// before exit would let the budget be exceeded while processes still run.
pub open spec fn holds_permit(p: JobPhase) -> bool {
    p is PermitAcquired || p is ProcessSpawned || p is ProcessExited
}

/// How many phases of `s` satisfy `f`.
pub open spec fn count_if(s: Seq<JobPhase>, f: spec_fn(JobPhase) -> bool) -> nat
    decreases s.len(),
{
    if s.len() == 0 {
        0
    } else {
        count_if(s.drop_last(), f) + (if f(s.last()) {
            1nat
        } else {
            0nat
        })
    }
}

/// How many jobs currently hold a permit.
pub open spec fn count_holding(s: Seq<JobPhase>) -> nat {
    count_if(s, |p: JobPhase| holds_permit(p))
}

/// How many external processes are currently running.
pub open spec fn count_spawned(s: Seq<JobPhase>) -> nat {
    count_if(s, |p: JobPhase| p is ProcessSpawned)
}

/// How many jobs have reported their outcome.
pub open spec fn count_reported(s: Seq<JobPhase>) -> nat {
    count_if(s, |p: JobPhase| p is Reported)
}

/// Whether the whole batch has reported.
pub open spec fn all_reported(s: Seq<JobPhase>) -> bool {
    forall|i: int| 0 <= i < s.len() ==> s[i] is Reported
}

/// The result recorded in an exited phase.
pub open spec fn exit_success(p: JobPhase) -> bool
    recommends
        p is ProcessExited,
{
    match p {
        JobPhase::ProcessExited { success } => success,
        _ => false,
    }
}

/// A count never exceeds the length counted over.
proof fn lemma_count_if_bound(s: Seq<JobPhase>, f: spec_fn(JobPhase) -> bool)
    ensures
        count_if(s, f) <= s.len(),
    decreases s.len(),
{
    if s.len() > 0 {
        lemma_count_if_bound(s.drop_last(), f);
    }
}

/// Appending one phase raises the count by its own contribution.
proof fn lemma_count_if_push(s: Seq<JobPhase>, f: spec_fn(JobPhase) -> bool, v: JobPhase)
    ensures
        count_if(s.push(v), f) == count_if(s, f) + (if f(v) {
            1nat
        } else {
            0nat
        }),
{
    assert(s.push(v).drop_last() =~= s);
    assert(s.push(v).last() == v);
}

/// Replacing one phase adjusts the count by the difference of the two
/// contributions.
proof fn lemma_count_if_update(s: Seq<JobPhase>, f: spec_fn(JobPhase) -> bool, i: int, v: JobPhase)
    requires
        0 <= i < s.len(),
    ensures
        count_if(s.update(i, v), f) + (if f(s[i]) {
            1nat
        } else {
            0nat
        }) == count_if(s, f) + (if f(v) {
            1nat
        } else {
            0nat
        }),
    decreases s.len(),
{
    if i == s.len() - 1 {
        assert(s.update(i, v).drop_last() =~= s.drop_last());
        assert(s.update(i, v).last() == v);
    } else {
        assert(s.update(i, v).drop_last() =~= s.drop_last().update(i, v));
        assert(s.update(i, v).last() == s.last());
        lemma_count_if_update(s.drop_last(), f, i, v);
        assert(s.drop_last()[i] == s[i]);
    }
}

/// A weaker predicate never counts more phases than a stronger one.
proof fn lemma_count_if_mono(
    s: Seq<JobPhase>,
    f: spec_fn(JobPhase) -> bool,
    g: spec_fn(JobPhase) -> bool,
)
    requires
        forall|p: JobPhase| #[trigger] f(p) ==> g(p),
    ensures
        count_if(s, f) <= count_if(s, g),
    decreases s.len(),
{
    if s.len() > 0 {
        lemma_count_if_mono(s.drop_last(), f, g);
    }
}

/// A count reaches the length exactly when every phase satisfies the
/// predicate.
proof fn lemma_count_if_full(s: Seq<JobPhase>, f: spec_fn(JobPhase) -> bool)
    ensures
        count_if(s, f) == s.len() <==> (forall|i: int| 0 <= i < s.len() ==> f(s[i])),
    decreases s.len(),
{
    if s.len() > 0 {
        lemma_count_if_full(s.drop_last(), f);
        lemma_count_if_bound(s.drop_last(), f);
        assert(forall|i: int| 0 <= i < s.len() - 1 ==> s.drop_last()[i] == s[i]);
        if count_if(s, f) == s.len() {
            assert(forall|i: int| 0 <= i < s.len() - 1 ==> f(s.drop_last()[i]));
        }
        if forall|i: int| 0 <= i < s.len() ==> f(s[i]) {
            assert(forall|i: int| 0 <= i < s.drop_last().len() ==> f(s.drop_last()[i]));
        }
    }
}

/// The dispatch engine's whole state: one phase per job descriptor, the
/// outcomes reported so far (in arrival order, each tagged with its job
/// index), and the concurrency budget.
#[derive(Debug)]
pub struct DispatchEngine {
    pub jobs: Vec<Packet>,
    pub phases: Vec<JobPhase>,
    pub outcomes: Vec<(usize, DispatchOutcome)>,
    pub budget: usize,
}

impl DispatchEngine {
    /// The engine's invariant, preserved by every transition:
    /// - one phase per job and a positive budget;
    /// - at most `budget` jobs hold a permit at once;
    /// - one outcome has arrived per reported job, each tagged with a
    ///   distinct job index, carrying that job's worker name, and reported
    ///   jobs only.
    pub open spec fn wf(self) -> bool {
        &&& self.phases@.len() == self.jobs@.len()
        &&& self.budget >= 1
        &&& count_holding(self.phases@) <= self.budget
        &&& self.outcomes@.len() == count_reported(self.phases@)
        &&& forall|k: int|
            0 <= k < self.outcomes@.len() ==> {
                &&& (#[trigger] self.outcomes@[k]).0 < self.jobs@.len()
                &&& self.phases@[self.outcomes@[k].0 as int] is Reported
                &&& self.outcomes@[k].1.worker_name@ == self.jobs@[self.outcomes@[k].0 as int].bot.name@
            }
        &&& forall|k1: int, k2: int|
            #![trigger self.outcomes@[k1], self.outcomes@[k2]]
            0 <= k1 < k2 < self.outcomes@.len() ==> self.outcomes@[k1].0 != self.outcomes@[k2].0
        &&& forall|i: int|
            0 <= i < self.phases@.len() && (#[trigger] self.phases@[i]) is Reported ==> exists|
                k: int,
            | 0 <= k < self.outcomes@.len() && (#[trigger] self.outcomes@[k]).0 as int == i
    }

    /// Replacing the phase of one not-yet-reported job by another
    /// non-terminal phase leaves every outcome invariant intact.
    proof fn lemma_wf_after_nonreport_update(self, pre: DispatchEngine, i: int)
        requires
            pre.wf(),
            0 <= i < pre.phases@.len(),
            !(pre.phases@[i] is Reported),
            self.jobs@ == pre.jobs@,
            self.budget == pre.budget,
            self.outcomes@ == pre.outcomes@,
            self.phases@.len() == pre.phases@.len(),
            !(self.phases@[i] is Reported),
            forall|j: int|
                0 <= j < pre.phases@.len() && j != i ==> self.phases@[j] == pre.phases@[j],
            count_holding(self.phases@) <= self.budget,
            count_reported(self.phases@) == count_reported(pre.phases@),
        ensures
            self.wf(),
    {
        assert forall|k: int| 0 <= k < self.outcomes@.len() implies {
            &&& (#[trigger] self.outcomes@[k]).0 < self.jobs@.len()
            &&& self.phases@[self.outcomes@[k].0 as int] is Reported
            &&& self.outcomes@[k].1.worker_name@ == self.jobs@[self.outcomes@[k].0 as int].bot.name@
        } by {
            assert(pre.phases@[pre.outcomes@[k].0 as int] is Reported);
            assert(pre.outcomes@[k].0 as int != i);
        }
        assert forall|j: int|
            0 <= j < self.phases@.len() && (#[trigger] self.phases@[j]) is Reported implies exists|
            k: int,
        | 0 <= k < self.outcomes@.len() && (#[trigger] self.outcomes@[k]).0 as int == j by {
            assert(pre.phases@[j] is Reported);
        }
    }

    /// Accepts a batch: every job starts `Queued`, nothing has been reported
    /// and no permit is held.
    pub fn new(jobs: Vec<Packet>, budget: usize) -> (r: DispatchEngine)
        requires
            budget >= 1,
        ensures
            r.wf(),
            r.jobs@ == jobs@,
            r.budget == budget,
            r.phases@.len() == jobs@.len(),
            forall|i: int| 0 <= i < jobs@.len() ==> r.phases@[i] is Queued,
            r.outcomes@.len() == 0,
            count_holding(r.phases@) == 0,
            count_spawned(r.phases@) == 0,
    {
        let n = jobs.len();
        let mut phases: Vec<JobPhase> = Vec::new();
        let mut i: usize = 0;
        while i < n
            invariant
                i <= n,
                phases@.len() == i,
                forall|j: int| 0 <= j < i ==> phases@[j] is Queued,
                count_holding(phases@) == 0,
                count_spawned(phases@) == 0,
                count_reported(phases@) == 0,
            decreases n - i,
        {
            proof {
                lemma_count_if_push(phases@, |p: JobPhase| holds_permit(p), JobPhase::Queued);
                lemma_count_if_push(phases@, |p: JobPhase| p is ProcessSpawned, JobPhase::Queued);
                lemma_count_if_push(phases@, |p: JobPhase| p is Reported, JobPhase::Queued);
            }
            phases.push(JobPhase::Queued);
            i = i + 1;
        }
        DispatchEngine { jobs, phases, outcomes: Vec::new(), budget }
    }

    /// The pre-flight gate for a whole batch: when the external executable is
    /// missing, the batch is refused outright and no job descriptor ever
    /// reaches `PermitAcquired`; otherwise a fresh engine is handed back with
    /// every job still queued.
    pub fn start_batch(exe_exists: bool, jobs: Vec<Packet>, budget: usize) -> (r: Result<
        DispatchEngine,
        Error,
    >)
        requires
            budget >= 1,
        ensures
            r is Ok <==> exe_exists,
            !exe_exists ==> r == Err::<DispatchEngine, Error>(Error::AutomateCNotFound),
            r is Ok ==> {
                &&& (r->Ok_0).wf()
                &&& (r->Ok_0).jobs@ == jobs@
                &&& (r->Ok_0).budget == budget
                &&& forall|i: int| 0 <= i < jobs@.len() ==> (r->Ok_0).phases@[i] is Queued
                &&& (r->Ok_0).outcomes@.len() == 0
                &&& count_holding((r->Ok_0).phases@) == 0
                &&& count_spawned((r->Ok_0).phases@) == 0
            },
    {
        if !exe_exists {
            Err(Error::AutomateCNotFound)
        } else {
            Ok(DispatchEngine::new(jobs, budget))
        }
    }

    /// How many jobs currently hold a permit.
    pub fn permits_in_use(&self) -> (n: usize)
        requires
            self.wf(),
        ensures
            n == count_holding(self.phases@),
    {
        let len = self.phases.len();
        let mut n: usize = 0;
        let mut i: usize = 0;
        while i < len
            invariant
                len == self.phases@.len(),
                i <= len,
                n == count_holding(self.phases@.subrange(0, i as int)),
                n <= i,
            decreases len - i,
        {
            proof {
                assert(self.phases@.subrange(0, (i + 1) as int) =~= self.phases@.subrange(
                    0,
                    i as int,
                ).push(self.phases@[i as int]));
                lemma_count_if_push(
                    self.phases@.subrange(0, i as int),
                    |p: JobPhase| holds_permit(p),
                    self.phases@[i as int],
                );
            }
            let p = self.phases[i];
            match p {
                JobPhase::PermitAcquired | JobPhase::ProcessSpawned | JobPhase::ProcessExited {
                    ..
                } => {
                    n = n + 1;
                },
                _ => {},
            }
            i = i + 1;
        }
        proof {
            assert(self.phases@.subrange(0, len as int) =~= self.phases@);
        }
        n
    }

    /// How many external processes are running right now.
    pub fn running(&self) -> (n: usize)
        requires
            self.wf(),
        ensures
            n == count_spawned(self.phases@),
    {
        let len = self.phases.len();
        let mut n: usize = 0;
        let mut i: usize = 0;
        while i < len
            invariant
                len == self.phases@.len(),
                i <= len,
                n == count_spawned(self.phases@.subrange(0, i as int)),
                n <= i,
            decreases len - i,
        {
            proof {
                assert(self.phases@.subrange(0, (i + 1) as int) =~= self.phases@.subrange(
                    0,
                    i as int,
                ).push(self.phases@[i as int]));
                lemma_count_if_push(
                    self.phases@.subrange(0, i as int),
                    |p: JobPhase| p is ProcessSpawned,
                    self.phases@[i as int],
                );
            }
            let p = self.phases[i];
            match p {
                JobPhase::ProcessSpawned => {
                    n = n + 1;
                },
                _ => {},
            }
            i = i + 1;
        }
        proof {
            assert(self.phases@.subrange(0, len as int) =~= self.phases@);
        }
        n
    }

    /// Tries to admit job `i` against the budget: the job is admitted (its
    /// permit acquired) exactly when it is still queued and fewer than
    /// `budget` permits are held; nothing else ever changes.
    pub fn try_admit(&mut self, i: usize) -> (admitted: bool)
        requires
            old(self).wf(),
            i < old(self).phases@.len(),
        ensures
            final(self).wf(),
            final(self).jobs@ == old(self).jobs@,
            final(self).budget == old(self).budget,
            final(self).outcomes@ == old(self).outcomes@,
            admitted == (old(self).phases@[i as int] is Queued && count_holding(old(self).phases@)
                < old(self).budget),
            admitted ==> final(self).phases@ == old(self).phases@.update(
                i as int,
                JobPhase::PermitAcquired,
            ),
            !admitted ==> final(self).phases@ == old(self).phases@,
            admitted ==> count_holding(final(self).phases@) == count_holding(old(self).phases@)
                + 1,
            !admitted ==> count_holding(final(self).phases@) == count_holding(old(self).phases@),
            count_spawned(final(self).phases@) == count_spawned(old(self).phases@),
    {
        let held = self.permits_in_use();
        let p = self.phases[i];
        let is_queued = match p {
            JobPhase::Queued => true,
            _ => false,
        };
        if is_queued && held < self.budget {
            proof {
                lemma_count_if_update(
                    self.phases@,
                    |q: JobPhase| holds_permit(q),
                    i as int,
                    JobPhase::PermitAcquired,
                );
                lemma_count_if_update(
                    self.phases@,
                    |q: JobPhase| q is ProcessSpawned,
                    i as int,
                    JobPhase::PermitAcquired,
                );
                lemma_count_if_update(
                    self.phases@,
                    |q: JobPhase| q is Reported,
                    i as int,
                    JobPhase::PermitAcquired,
                );
            }
            self.phases.set(i, JobPhase::PermitAcquired);
            proof {
                self.lemma_wf_after_nonreport_update(*old(self), i as int);
            }
            true
        } else {
            false
        }
    }

    /// Records that job `i`'s external process has been spawned; the job must
    /// hold a permit, and keeps holding it.
    pub fn mark_spawned(&mut self, i: usize)
        requires
            old(self).wf(),
            i < old(self).phases@.len(),
            old(self).phases@[i as int] is PermitAcquired,
        ensures
            final(self).wf(),
            final(self).jobs@ == old(self).jobs@,
            final(self).budget == old(self).budget,
            final(self).outcomes@ == old(self).outcomes@,
            final(self).phases@ == old(self).phases@.update(i as int, JobPhase::ProcessSpawned),
            count_holding(final(self).phases@) == count_holding(old(self).phases@),
            count_spawned(final(self).phases@) == count_spawned(old(self).phases@) + 1,
    {
        proof {
            lemma_count_if_update(
                self.phases@,
                |q: JobPhase| holds_permit(q),
                i as int,
                JobPhase::ProcessSpawned,
            );
            lemma_count_if_update(
                self.phases@,
                |q: JobPhase| q is ProcessSpawned,
                i as int,
                JobPhase::ProcessSpawned,
            );
            lemma_count_if_update(
                self.phases@,
                |q: JobPhase| q is Reported,
                i as int,
                JobPhase::ProcessSpawned,
            );
        }
        self.phases.set(i, JobPhase::ProcessSpawned);
        proof {
            self.lemma_wf_after_nonreport_update(*old(self), i as int);
        }
    }

    /// Records that job `i`'s process has terminated with the given result;
    /// the permit is still held until the outcome is reported.
    pub fn mark_exited(&mut self, i: usize, exit_zero: bool)
        requires
            old(self).wf(),
            i < old(self).phases@.len(),
            old(self).phases@[i as int] is ProcessSpawned,
        ensures
            final(self).wf(),
            final(self).jobs@ == old(self).jobs@,
            final(self).budget == old(self).budget,
            final(self).outcomes@ == old(self).outcomes@,
            final(self).phases@ == old(self).phases@.update(
                i as int,
                (JobPhase::ProcessExited { success: exit_zero }),
            ),
            count_holding(final(self).phases@) == count_holding(old(self).phases@),
            count_spawned(final(self).phases@) + 1 == count_spawned(old(self).phases@),
    {
        proof {
            lemma_count_if_update(
                self.phases@,
                |q: JobPhase| holds_permit(q),
                i as int,
                (JobPhase::ProcessExited { success: exit_zero }),
            );
            lemma_count_if_update(
                self.phases@,
                |q: JobPhase| q is ProcessSpawned,
                i as int,
                (JobPhase::ProcessExited { success: exit_zero }),
            );
            lemma_count_if_update(
                self.phases@,
                |q: JobPhase| q is Reported,
                i as int,
                (JobPhase::ProcessExited { success: exit_zero }),
            );
        }
        self.phases.set(i, JobPhase::ProcessExited { success: exit_zero });
        proof {
            self.lemma_wf_after_nonreport_update(*old(self), i as int);
        }
    }

    /// Reports the outcome of job `i` after its process exited, releasing
    /// the permit.  Earlier outcomes are untouched: one job's failure never
    /// changes another job's record.
    pub fn report(&mut self, i: usize, diagnostic: Vec<u8>)
        requires
            old(self).wf(),
            i < old(self).phases@.len(),
            old(self).phases@[i as int] is ProcessExited,
        ensures
            final(self).wf(),
            final(self).jobs@ == old(self).jobs@,
            final(self).budget == old(self).budget,
            final(self).phases@ == old(self).phases@.update(i as int, JobPhase::Reported),
            count_holding(final(self).phases@) + 1 == count_holding(old(self).phases@),
            count_spawned(final(self).phases@) == count_spawned(old(self).phases@),
            final(self).outcomes@.len() == old(self).outcomes@.len() + 1,
            final(self).outcomes@.subrange(0, old(self).outcomes@.len() as int) == old(self).outcomes@,
            final(self).outcomes@.last().0 == i,
            final(self).outcomes@.last().1.success == exit_success(old(self).phases@[i as int]),
            final(self).outcomes@.last().1.worker_name@ == old(self).jobs@[i as int].bot.name@,
            final(self).outcomes@.last().1.diagnostic@ == diagnostic@,
    {
        let p = self.phases[i];
        let success = match p {
            JobPhase::ProcessExited { success } => success,
            _ => false,
        };
        let worker_name = self.jobs[i].bot.name.clone();
        let outcome = DispatchOutcome { worker_name, success, diagnostic };
        self.push_outcome(i, outcome)
    }

    /// Reports a spawn failure for job `i`: the permit it holds is released
    /// all the same, and a failed outcome carrying `diagnostic` is recorded.
    /// No sibling job is touched.
    pub fn record_spawn_failure(&mut self, i: usize, diagnostic: Vec<u8>)
        requires
            old(self).wf(),
            i < old(self).phases@.len(),
            old(self).phases@[i as int] is PermitAcquired,
        ensures
            final(self).wf(),
            final(self).jobs@ == old(self).jobs@,
            final(self).budget == old(self).budget,
            final(self).phases@ == old(self).phases@.update(i as int, JobPhase::Reported),
            count_holding(final(self).phases@) + 1 == count_holding(old(self).phases@),
            count_spawned(final(self).phases@) == count_spawned(old(self).phases@),
            final(self).outcomes@.len() == old(self).outcomes@.len() + 1,
            final(self).outcomes@.subrange(0, old(self).outcomes@.len() as int) == old(self).outcomes@,
            final(self).outcomes@.last().0 == i,
            !final(self).outcomes@.last().1.success,
            final(self).outcomes@.last().1.worker_name@ == old(self).jobs@[i as int].bot.name@,
            final(self).outcomes@.last().1.diagnostic@ == diagnostic@,
    {
        let worker_name = self.jobs[i].bot.name.clone();
        let outcome = DispatchOutcome { worker_name, success: false, diagnostic };
        self.push_outcome(i, outcome)
    }

    /// Moves job `i` (which holds a permit and is not yet reported) to
    /// `Reported` and appends its outcome.
    fn push_outcome(&mut self, i: usize, outcome: DispatchOutcome)
        requires
            old(self).wf(),
            i < old(self).phases@.len(),
            old(self).phases@[i as int] is PermitAcquired || old(self).phases@[i as int]
                is ProcessExited,
            outcome.worker_name@ == old(self).jobs@[i as int].bot.name@,
        ensures
            final(self).wf(),
            final(self).jobs@ == old(self).jobs@,
            final(self).budget == old(self).budget,
            final(self).phases@ == old(self).phases@.update(i as int, JobPhase::Reported),
            count_holding(final(self).phases@) + 1 == count_holding(old(self).phases@),
            count_spawned(final(self).phases@) == count_spawned(old(self).phases@),
            final(self).outcomes@.len() == old(self).outcomes@.len() + 1,
            final(self).outcomes@.subrange(0, old(self).outcomes@.len() as int) == old(self).outcomes@,
            final(self).outcomes@.last() == (i, outcome),
    {
        proof {
            lemma_count_if_update(
                self.phases@,
                |q: JobPhase| holds_permit(q),
                i as int,
                JobPhase::Reported,
            );
            lemma_count_if_update(
                self.phases@,
                |q: JobPhase| q is ProcessSpawned,
                i as int,
                JobPhase::Reported,
            );
            lemma_count_if_update(
                self.phases@,
                |q: JobPhase| q is Reported,
                i as int,
                JobPhase::Reported,
            );
        }
        self.phases.set(i, JobPhase::Reported);
        let ghost snap = outcome;
        self.outcomes.push((i, outcome));
        proof {
            let pre = *old(self);
            assert(self.outcomes@.subrange(0, pre.outcomes@.len() as int) =~= pre.outcomes@);
            // No earlier outcome names job `i`: before the call, `i` held a
            // permit, so it was not yet reported.
            assert forall|k: int| 0 <= k < pre.outcomes@.len() implies (#[trigger] self.outcomes@[k]).0
                != i by {
                assert(pre.outcomes@[k] == self.outcomes@[k]);
                assert(pre.phases@[pre.outcomes@[k].0 as int] is Reported);
            }
            assert forall|k: int| 0 <= k < self.outcomes@.len() implies {
                &&& (#[trigger] self.outcomes@[k]).0 < self.jobs@.len()
                &&& self.phases@[self.outcomes@[k].0 as int] is Reported
                &&& self.outcomes@[k].1.worker_name@
                    == self.jobs@[self.outcomes@[k].0 as int].bot.name@
            } by {
                if k < pre.outcomes@.len() {
                    assert(pre.outcomes@[k] == self.outcomes@[k]);
                    assert(pre.phases@[pre.outcomes@[k].0 as int] is Reported);
                } else {
                    assert(self.outcomes@[k] == (i, snap));
                }
            }
            assert forall|k1: int, k2: int|
                #![trigger self.outcomes@[k1], self.outcomes@[k2]]
                0 <= k1 < k2 < self.outcomes@.len() implies self.outcomes@[k1].0
                != self.outcomes@[k2].0 by {
                if k2 < pre.outcomes@.len() {
                    assert(pre.outcomes@[k1] == self.outcomes@[k1]);
                    assert(pre.outcomes@[k2] == self.outcomes@[k2]);
                } else {
                    assert(self.outcomes@[k2] == (i, snap));
                }
            }
            assert forall|j: int|
                0 <= j < self.phases@.len() && (#[trigger] self.phases@[j]) is Reported implies exists|
                k: int,
            | 0 <= k < self.outcomes@.len() && (#[trigger] self.outcomes@[k]).0 as int == j by {
                if j == i as int {
                    assert(self.outcomes@[pre.outcomes@.len() as int].0 as int == j);
                } else {
                    assert(pre.phases@[j] is Reported);
                    let k0 = choose|k: int|
                        0 <= k < pre.outcomes@.len() && (#[trigger] pre.outcomes@[k]).0 as int == j;
                    assert(self.outcomes@[k0].0 as int == j);
                }
            }
        }
    }

    /// Whether every job of the batch has reported its outcome.  An empty
    /// batch is complete from the start.
    pub fn is_complete(&self) -> (b: bool)
        requires
            self.wf(),
        ensures
            b == all_reported(self.phases@),
    {
        let len = self.phases.len();
        let mut i: usize = 0;
        while i < len
            invariant
                len == self.phases@.len(),
                i <= len,
                forall|j: int| 0 <= j < i ==> self.phases@[j] is Reported,
            decreases len - i,
        {
            let p = self.phases[i];
            match p {
                JobPhase::Reported => {},
                _ => {
                    return false;
                },
            }
            i = i + 1;
        }
        true
    }

    /// How many outcomes so far record success.
    pub fn successes(&self) -> (n: usize)
        ensures
            n == count_successes(self.outcomes@),
    {
        let len = self.outcomes.len();
        let mut n: usize = 0;
        let mut i: usize = 0;
        while i < len
            invariant
                len == self.outcomes@.len(),
                i <= len,
                n == count_successes(self.outcomes@.subrange(0, i as int)),
                n <= i,
            decreases len - i,
        {
            proof {
                assert(self.outcomes@.subrange(0, (i + 1) as int).drop_last() =~= self.outcomes@.subrange(
                    0,
                    i as int,
                ));
            }
            if self.outcomes[i].1.success {
                n = n + 1;
            }
            i = i + 1;
        }
        proof {
            assert(self.outcomes@.subrange(0, len as int) =~= self.outcomes@);
        }
        n
    }

    /// How many outcomes so far record failure.
    pub fn failures(&self) -> (n: usize)
        ensures
            n == count_failures(self.outcomes@),
    {
        let len = self.outcomes.len();
        let mut n: usize = 0;
        let mut i: usize = 0;
        while i < len
            invariant
                len == self.outcomes@.len(),
                i <= len,
                n == count_failures(self.outcomes@.subrange(0, i as int)),
                n <= i,
            decreases len - i,
        {
            proof {
                assert(self.outcomes@.subrange(0, (i + 1) as int).drop_last() =~= self.outcomes@.subrange(
                    0,
                    i as int,
                ));
            }
            if !self.outcomes[i].1.success {
                n = n + 1;
            }
            i = i + 1;
        }
        proof {
            assert(self.outcomes@.subrange(0, len as int) =~= self.outcomes@);
        }
        n
    }

    /// The diagnostic payloads of every outcome so far, concatenated in
    /// arrival order for operator review.
    pub fn diagnostics(&self) -> (r: Vec<u8>)
        ensures
            r@ == concat_diagnostics(self.outcomes@),
    {
        let len = self.outcomes.len();
        let mut r: Vec<u8> = Vec::new();
        let mut i: usize = 0;
        while i < len
            invariant
                len == self.outcomes@.len(),
                i <= len,
                r@ == concat_diagnostics(self.outcomes@.subrange(0, i as int)),
            decreases len - i,
        {
            let d = &self.outcomes[i].1.diagnostic;
            let m = d.len();
            let mut j: usize = 0;
            while j < m
                invariant
                    len == self.outcomes@.len(),
                    i < len,
                    m == d@.len(),
                    d@ == self.outcomes@[i as int].1.diagnostic@,
                    j <= m,
                    r@ == concat_diagnostics(self.outcomes@.subrange(0, i as int)) + d@.subrange(
                        0,
                        j as int,
                    ),
                decreases m - j,
            {
                r.push(d[j]);
                proof {
                    assert(d@.subrange(0, (j + 1) as int) =~= d@.subrange(0, j as int).push(
                        d@[j as int],
                    ));
                    assert(concat_diagnostics(self.outcomes@.subrange(0, i as int)) + d@.subrange(
                        0,
                        (j + 1) as int,
                    ) =~= (concat_diagnostics(self.outcomes@.subrange(0, i as int)) + d@.subrange(
                        0,
                        j as int,
                    )).push(d@[j as int]));
                }
                j = j + 1;
            }
            proof {
                assert(d@.subrange(0, m as int) =~= d@);
                assert(self.outcomes@.subrange(0, (i + 1) as int).drop_last() =~= self.outcomes@.subrange(
                    0,
                    i as int,
                ));
                assert(self.outcomes@.subrange(0, (i + 1) as int).last() == self.outcomes@[i as int]);
            }
            i = i + 1;
        }
        proof {
            assert(self.outcomes@.subrange(0, len as int) =~= self.outcomes@);
        }
        r
    }
}

/// How many of the collected outcomes record success.
pub open spec fn count_successes(s: Seq<(usize, DispatchOutcome)>) -> nat
    decreases s.len(),
{
    if s.len() == 0 {
        0
    } else {
        count_successes(s.drop_last()) + (if s.last().1.success {
            1nat
        } else {
            0nat
        })
    }
}

/// How many of the collected outcomes record failure.
pub open spec fn count_failures(s: Seq<(usize, DispatchOutcome)>) -> nat
    decreases s.len(),
{
    if s.len() == 0 {
        0
    } else {
        count_failures(s.drop_last()) + (if s.last().1.success {
            0nat
        } else {
            1nat
        })
    }
}

/// The diagnostic payloads of the collected outcomes, in arrival order.
pub open spec fn concat_diagnostics(s: Seq<(usize, DispatchOutcome)>) -> Seq<u8>
    decreases s.len(),
{
    if s.len() == 0 {
        Seq::empty()
    } else {
        concat_diagnostics(s.drop_last()) + s.last().1.diagnostic@
    }
}

/// Whether some collected outcome belongs to job `i`.
pub open spec fn has_outcome_for(e: DispatchEngine, i: int) -> bool {
    exists|k: int| 0 <= k < e.outcomes@.len() && (#[trigger] e.outcomes@[k]).0 as int == i
}

/// Law: at no instant does a well-formed engine have more external processes
/// in `ProcessSpawned` than the concurrency budget allows.
pub proof fn lemma_budget_bounds_running(e: DispatchEngine)
    requires
        e.wf(),
    ensures
        count_spawned(e.phases@) <= e.budget,
{
    lemma_count_if_mono(
        e.phases@,
        |p: JobPhase| p is ProcessSpawned,
        |p: JobPhase| holds_permit(p),
    );
}

/// Law: once every job of a batch has reported, the engine holds exactly one
/// outcome per job descriptor — no duplicates and no drops.
pub proof fn lemma_outcomes_exactly_once(e: DispatchEngine)
    requires
        e.wf(),
        all_reported(e.phases@),
    ensures
        e.outcomes@.len() == e.jobs@.len(),
        forall|i: int| 0 <= i < e.jobs@.len() ==> #[trigger] has_outcome_for(e, i),
        forall|k1: int, k2: int|
            #![trigger e.outcomes@[k1], e.outcomes@[k2]]
            0 <= k1 < k2 < e.outcomes@.len() ==> e.outcomes@[k1].0 != e.outcomes@[k2].0,
{
    lemma_count_if_full(e.phases@, |p: JobPhase| p is Reported);
    assert(count_reported(e.phases@) == e.phases@.len());
    assert forall|i: int| 0 <= i < e.jobs@.len() implies #[trigger] has_outcome_for(e, i) by {
        assert(e.phases@[i] is Reported);
    }
}

/// Law: successes and failures partition the outcomes collected so far.
pub proof fn lemma_outcome_counts_partition(s: Seq<(usize, DispatchOutcome)>)
    ensures
        count_successes(s) + count_failures(s) == s.len(),
    decreases s.len(),
{
    if s.len() > 0 {
        lemma_outcome_counts_partition(s.drop_last());
    }
}

/// Law: an engine over an empty batch is complete from the start, with an
/// empty aggregate and no permit held.
pub proof fn lemma_empty_batch_complete(e: DispatchEngine)
    requires
        e.wf(),
        e.jobs@.len() == 0,
    ensures
        all_reported(e.phases@),
        e.outcomes@.len() == 0,
        count_holding(e.phases@) == 0,
{
    assert(e.phases@ =~= Seq::<JobPhase>::empty());
}

} // verus!
