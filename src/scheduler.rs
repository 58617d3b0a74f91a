//! The scheduler of a run: it starts one processor per repository, keeps at
//! most `limit` of them running at once, records the outcome of each, and ends
//! only when every repository has been processed. A failing repository frees
//! its slot as a succeeding one does and never holds up the others; the run
//! as a whole fails if any repository failed.

use vstd::prelude::*;
use crate::checks::CheckError;

verus! {

/// What the scheduler asks for next.
#[derive(Debug, Clone, Copy, PartialEq, Eq, Structural)]
pub enum SchedulerStep {
    /// Start a processor for the repository at this index.
    Spawn(usize),
    /// Wait for a running processor to finish, then report its outcome.
    Wait,
    /// Every repository has been processed.
    Done,
}

/// The outcome of each repository, `None` while it is pending or running.
pub type Outcomes = Seq<Option<Result<(), CheckError>>>;

/// How many repositories have finished.
pub open spec fn finished_count(s: Outcomes) -> nat
    decreases s.len(),
{
    if s.len() == 0 {
        0
    } else {
        finished_count(s.drop_last()) + if s.last() is Some { 1nat } else { 0nat }
    }
}

/// The repositories that failed, in index order, with their errors.
pub open spec fn failures_of(s: Outcomes) -> Seq<(usize, CheckError)>
    decreases s.len(),
{
    if s.len() == 0 {
        seq![]
    } else {
        let rest = failures_of(s.drop_last());
        match s.last() {
            Some(Err(e)) => rest.push(((s.len() - 1) as usize, e)),
            _ => rest,
        }
    }
}

/// A repository that was processed and passed every check.
pub open spec fn is_success(o: Option<Result<(), CheckError>>) -> bool {
    o is Some && o->Some_0 is Ok
}

/// Processors for a whole run.
pub struct Scheduler {
    /// The most processors that may run at once.
    pub limit: usize,
    /// How many processors have been started; they were started in index
    /// order, so these are the repositories `0 .. spawned`.
    pub spawned: usize,
    /// How many started processors have not finished.
    pub in_flight: usize,
    /// One entry per repository.
    pub outcomes: Vec<Option<Result<(), CheckError>>>,
}

/// The scheduler's state after it is asked what to do next, and its answer.
pub open spec fn spec_next_step(s: Scheduler) -> (Scheduler, SchedulerStep) {
    if s.spawned < s.outcomes@.len() && s.in_flight < s.limit {
        (
            Scheduler {
                spawned: (s.spawned + 1) as usize,
                in_flight: (s.in_flight + 1) as usize,
                ..s
            },
            SchedulerStep::Spawn(s.spawned),
        )
    } else if s.in_flight > 0 {
        (s, SchedulerStep::Wait)
    } else {
        (s, SchedulerStep::Done)
    }
}

/// `t` is the scheduler `s` after the processor of repository `i` reported
/// `outcome`.
pub open spec fn completed(s: Scheduler, t: Scheduler, i: usize, outcome: Result<(), CheckError>) -> bool {
    &&& t.limit == s.limit
    &&& t.spawned == s.spawned
    &&& t.in_flight == s.in_flight - 1
    &&& t.outcomes@ == s.outcomes@.update(i as int, Some(outcome))
}

impl Scheduler {
    pub open spec fn wf(&self) -> bool {
        &&& self.limit > 0
        &&& self.spawned <= self.outcomes@.len()
        &&& self.in_flight <= self.limit
        &&& forall|i: int| self.spawned <= i < self.outcomes@.len() ==> #[trigger] self.outcomes@[i] is None
        &&& self.in_flight + finished_count(self.outcomes@) == self.spawned
    }

    /// A scheduler for `repositories` repositories, at most `limit` at once.
    pub fn new(repositories: usize, limit: usize) -> (r: Scheduler)
        requires
            limit > 0,
        ensures
            r.wf(),
            r.limit == limit,
            r.spawned == 0,
            r.in_flight == 0,
            r.outcomes@ == Seq::new(repositories as nat, |i: int| None::<Result<(), CheckError>>),
    {
        let mut outcomes: Vec<Option<Result<(), CheckError>>> = Vec::new();
        let mut i: usize = 0;
        while i < repositories
            invariant
                i <= repositories,
                outcomes@ == Seq::new(i as nat, |k: int| None::<Result<(), CheckError>>),
            decreases repositories - i,
        {
            outcomes.push(None);
            i = i + 1;
        }
        proof {
            lemma_none_count(outcomes@);
        }
        Scheduler { limit, spawned: 0, in_flight: 0, outcomes }
    }

    /// What to do next: start the next repository's processor when a slot is
    /// free, else wait for a running one, else end.
    pub fn next_step(&mut self) -> (r: SchedulerStep)
        requires
            old(self).wf(),
        ensures
            (*final(self), r) == spec_next_step(*old(self)),
            final(self).wf(),
    {
        proof {
            lemma_finished_bound(self.outcomes@);
        }
        if self.spawned < self.outcomes.len() && self.in_flight < self.limit {
            let i = self.spawned;
            self.spawned = self.spawned + 1;
            self.in_flight = self.in_flight + 1;
            SchedulerStep::Spawn(i)
        } else if self.in_flight > 0 {
            SchedulerStep::Wait
        } else {
            SchedulerStep::Done
        }
    }

    /// Records the outcome of the processor of repository `i`, which was
    /// started and has not reported before.
    pub fn complete(&mut self, i: usize, outcome: Result<(), CheckError>)
        requires
            old(self).wf(),
            i < old(self).spawned,
            old(self).outcomes@[i as int] is None,
        ensures
            completed(*old(self), *final(self), i, outcome),
            final(self).wf(),
    {
        proof {
            lemma_finished_set(self.outcomes@, i as int, outcome);
            lemma_finished_prefix(self.outcomes@, self.spawned as int);
            lemma_finished_set(self.outcomes@.take(self.spawned as int), i as int, outcome);
            lemma_finished_bound(self.outcomes@.take(self.spawned as int).update(i as int, Some(outcome)));
        }
        self.outcomes.set(i, Some(outcome));
        self.in_flight = self.in_flight - 1;
    }

    /// The repositories that failed, in index order, with their errors.
    pub fn failures(&self) -> (r: Vec<(usize, CheckError)>)
        ensures
            r@ == failures_of(self.outcomes@),
    {
        let mut r: Vec<(usize, CheckError)> = Vec::new();
        let mut i: usize = 0;
        while i < self.outcomes.len()
            invariant
                i <= self.outcomes@.len(),
                r@ == failures_of(self.outcomes@.take(i as int)),
            decreases self.outcomes@.len() - i,
        {
            assert(self.outcomes@.take(i + 1).drop_last() =~= self.outcomes@.take(i as int));
            match self.outcomes[i] {
                Some(Err(e)) => r.push((i, e)),
                _ => {},
            }
            i = i + 1;
        }
        assert(self.outcomes@.take(i as int) =~= self.outcomes@);
        r
    }

    /// Whether the run succeeded: every repository was processed, and none
    /// failed.
    pub fn succeeded(&self) -> (r: bool)
        ensures
            r == forall|i: int| 0 <= i < self.outcomes@.len() ==> #[trigger] is_success(self.outcomes@[i]),
    {
        let mut i: usize = 0;
        while i < self.outcomes.len()
            invariant
                i <= self.outcomes@.len(),
                forall|k: int| 0 <= k < i ==> #[trigger] is_success(self.outcomes@[k]),
            decreases self.outcomes@.len() - i,
        {
            let o = self.outcomes[i];
            match o {
                Some(Ok(_)) => {},
                _ => {
                    assert(!is_success(self.outcomes@[i as int]));
                    return false;
                },
            }
            i = i + 1;
        }
        true
    }
}

proof fn lemma_none_count(s: Outcomes)
    requires
        forall|i: int| 0 <= i < s.len() ==> #[trigger] s[i] is None,
    ensures
        finished_count(s) == 0,
    decreases s.len(),
{
    if s.len() > 0 {
        lemma_none_count(s.drop_last());
    }
}

proof fn lemma_finished_bound(s: Outcomes)
    ensures
        finished_count(s) <= s.len(),
        finished_count(s) == s.len() ==> forall|i: int| 0 <= i < s.len() ==> #[trigger] s[i] is Some,
    decreases s.len(),
{
    if s.len() > 0 {
        lemma_finished_bound(s.drop_last());
        if finished_count(s) == s.len() {
            assert forall|i: int| 0 <= i < s.len() implies #[trigger] s[i] is Some by {
                if i < s.len() - 1 {
                    assert(s.drop_last()[i] == s[i]);
                }
            }
        }
    }
}

proof fn lemma_finished_prefix(s: Outcomes, n: int)
    requires
        0 <= n <= s.len(),
        forall|i: int| n <= i < s.len() ==> #[trigger] s[i] is None,
    ensures
        finished_count(s) == finished_count(s.take(n)),
    decreases s.len(),
{
    if s.len() > n {
        assert(s.drop_last().take(n) =~= s.take(n));
        lemma_finished_prefix(s.drop_last(), n);
    } else {
        assert(s.take(n) =~= s);
    }
}

proof fn lemma_finished_set(s: Outcomes, i: int, o: Result<(), CheckError>)
    requires
        0 <= i < s.len(),
        s[i] is None,
    ensures
        finished_count(s.update(i, Some(o))) == finished_count(s) + 1,
    decreases s.len(),
{
    let t = s.update(i, Some(o));
    if i < s.len() - 1 {
        assert(t.drop_last() =~= s.drop_last().update(i, Some(o)));
        lemma_finished_set(s.drop_last(), i, o);
    } else {
        assert(t.drop_last() =~= s.drop_last());
    }
}

/// A run ends only once every repository has been started, exactly once and
/// in index order, and every one of them has reported.
pub proof fn lemma_done_means_all_processed(s: Scheduler)
    requires
        s.wf(),
        spec_next_step(s).1 == SchedulerStep::Done,
    ensures
        s.spawned == s.outcomes@.len(),
        forall|i: int| 0 <= i < s.outcomes@.len() ==> #[trigger] s.outcomes@[i] is Some,
{
    lemma_finished_bound(s.outcomes@);
}

/// Each step starts at most one repository, the next one in order, so no
/// repository is started twice.
pub proof fn lemma_spawn_in_order(s: Scheduler)
    requires
        s.wf(),
    ensures
        spec_next_step(s).1 matches SchedulerStep::Spawn(i) ==> i == s.spawned && spec_next_step(s).0.spawned == i + 1,
        !(spec_next_step(s).1 is Spawn) ==> spec_next_step(s).0.spawned == s.spawned,
{
    assert(s.outcomes.len() == s.outcomes@.len());
}

/// A failing repository does not hold up the others: its outcome is recorded
/// for it alone, and what the scheduler does next is the same as if it had
/// succeeded.
pub proof fn lemma_failure_independent(s: Scheduler, failed: Scheduler, passed: Scheduler, i: usize, e: CheckError)
    requires
        s.wf(),
        i < s.spawned,
        s.outcomes@[i as int] is None,
        completed(s, failed, i, Err(e)),
        completed(s, passed, i, Ok(())),
    ensures
        forall|j: int| 0 <= j < s.outcomes@.len() && j != i ==> #[trigger] failed.outcomes@[j] == s.outcomes@[j],
        spec_next_step(failed).1 == spec_next_step(passed).1,
        spec_next_step(failed).0.spawned == spec_next_step(passed).0.spawned,
        spec_next_step(failed).0.in_flight == spec_next_step(passed).0.in_flight,
{
}

} // verus!
