//! The processor of one repository: it runs the configured checks strictly in
//! order, each awaited before the next starts, and stops at the first failure,
//! which becomes the repository's outcome. The caller runs each check it is
//! asked to run and reports how it went.

use vstd::prelude::*;
use crate::checks::{CheckError, Checks};

verus! {

/// Where the processing of a repository stands.
#[derive(Debug, Clone, Copy, PartialEq, Eq, Structural)]
pub enum ProcessorStatus {
    Running,
    /// Every configured check completed.
    Succeeded,
    /// The check at `index` failed with `error`; none after it was run.
    Failed { index: usize, error: CheckError },
}

/// What the processor asks for next.
#[derive(Debug, Clone, Copy)]
pub enum ProcessorStep {
    /// Run this check, then report its outcome.
    Run(Checks),
    /// Processing of the repository has ended with this outcome.
    Finished(Result<(), CheckError>),
}

/// The sequential processing of the configured checks against one repository.
pub struct Processor {
    /// The checks to run, in order.
    pub checks: Vec<Checks>,
    /// How many checks have been started.
    pub started: usize,
    /// Whether the last started check has yet to report.
    pub awaiting: bool,
    pub status: ProcessorStatus,
}

/// The processor's state after it is asked what to do next.
pub open spec fn spec_start(p: Processor) -> Processor {
    if p.started < p.checks@.len() {
        Processor { started: (p.started + 1) as usize, awaiting: true, ..p }
    } else {
        Processor { status: ProcessorStatus::Succeeded, ..p }
    }
}

/// The processor's state after the running check reports `outcome`.
pub open spec fn spec_complete(p: Processor, outcome: Result<(), CheckError>) -> Processor {
    match outcome {
        Ok(()) => Processor { awaiting: false, ..p },
        Err(e) => Processor {
            awaiting: false,
            status: ProcessorStatus::Failed { index: (p.started - 1) as usize, error: e },
            ..p
        },
    }
}

/// The processor after it is driven until it ends or the outcomes run out:
/// the i-th check it runs reports `outcomes[i]`.
pub open spec fn drive(p: Processor, outcomes: Seq<Result<(), CheckError>>) -> Processor
    decreases outcomes.len(),
{
    if p.status != ProcessorStatus::Running {
        p
    } else {
        let q = spec_start(p);
        if q.status != ProcessorStatus::Running || outcomes.len() == 0 {
            q
        } else {
            drive(spec_complete(q, outcomes[0]), outcomes.drop_first())
        }
    }
}

/// The checks a processor has invoked so far, in order.
pub open spec fn invoked(p: Processor) -> Seq<Checks> {
    p.checks@.take(p.started as int)
}

impl Processor {
    pub open spec fn wf(&self) -> bool {
        &&& self.started <= self.checks@.len()
        &&& self.awaiting ==> self.started > 0 && self.status == ProcessorStatus::Running
        &&& self.status matches ProcessorStatus::Failed { index, .. } ==> index + 1 == self.started
        &&& self.status == ProcessorStatus::Succeeded ==> self.started == self.checks@.len()
    }

    /// A processor that has run nothing yet.
    pub fn new(checks: Vec<Checks>) -> (r: Processor)
        ensures
            r.checks == checks,
            r.started == 0,
            !r.awaiting,
            r.status == ProcessorStatus::Running,
            r.wf(),
    {
        Processor { checks, started: 0, awaiting: false, status: ProcessorStatus::Running }
    }

    /// What to do next: run the next check, or end with the outcome.
    pub fn next_step(&mut self) -> (r: ProcessorStep)
        requires
            old(self).wf(),
            !old(self).awaiting,
        ensures
            final(self).wf(),
            old(self).status == ProcessorStatus::Running ==> *final(self) == spec_start(*old(self)),
            old(self).status != ProcessorStatus::Running ==> *final(self) == *old(self),
            r == match final(self).status {
                ProcessorStatus::Running => ProcessorStep::Run(final(self).checks@[final(self).started - 1]),
                ProcessorStatus::Succeeded => ProcessorStep::Finished(Ok(())),
                ProcessorStatus::Failed { error, .. } => ProcessorStep::Finished(Err(error)),
            },
    {
        match self.status {
            ProcessorStatus::Running => {
                if self.started < self.checks.len() {
                    let c = self.checks[self.started];
                    self.started = self.started + 1;
                    self.awaiting = true;
                    ProcessorStep::Run(c)
                } else {
                    self.status = ProcessorStatus::Succeeded;
                    ProcessorStep::Finished(Ok(()))
                }
            },
            ProcessorStatus::Succeeded => ProcessorStep::Finished(Ok(())),
            ProcessorStatus::Failed { error, .. } => ProcessorStep::Finished(Err(error)),
        }
    }

    /// Reports the outcome of the check that is running.
    pub fn complete(&mut self, outcome: Result<(), CheckError>)
        requires
            old(self).wf(),
            old(self).awaiting,
        ensures
            *final(self) == spec_complete(*old(self), outcome),
            final(self).wf(),
    {
        self.awaiting = false;
        match outcome {
            Ok(()) => {},
            Err(e) => {
                self.status = ProcessorStatus::Failed { index: self.started - 1, error: e };
            },
        }
    }
}

/// Fail fast: when the check at position `j + m` is the first to fail, the
/// processor has invoked exactly the checks up to it and stops there; the
/// checks after it are never invoked.
proof fn lemma_drive_fails_at(p: Processor, outcomes: Seq<Result<(), CheckError>>, m: int)
    requires
        p.wf(),
        !p.awaiting,
        p.status == ProcessorStatus::Running,
        0 <= m < outcomes.len(),
        p.started + m < p.checks@.len(),
        outcomes[m] is Err,
        forall|i: int| 0 <= i < m ==> outcomes[i] is Ok,
    ensures
        drive(p, outcomes).started == p.started + m + 1,
        drive(p, outcomes).status == (ProcessorStatus::Failed {
            index: (p.started + m) as usize,
            error: outcomes[m]->Err_0,
        }),
        drive(p, outcomes).checks == p.checks,
    decreases m,
{
    let q = spec_complete(spec_start(p), outcomes[0]);
    let rest = outcomes.drop_first();
    assert(p.checks.len() == p.checks@.len());
    assert(q.started == p.started + 1 && q.checks == p.checks && !q.awaiting);
    assert(drive(p, outcomes) == drive(q, rest));
    if m > 0 {
        assert(outcomes[0] is Ok);
        assert forall|i: int| 0 <= i < m - 1 implies rest[i] is Ok by {
            assert(rest[i] == outcomes[i + 1]);
        }
        lemma_drive_fails_at(q, rest, m - 1);
    }
}

/// Fail fast: if the k-th configured check fails, and every check before it
/// succeeded, the processor fails with that check's error, and the checks it
/// has invoked are exactly the first k + 1: none after the failing one runs.
pub proof fn lemma_fail_fast(checks: Vec<Checks>, outcomes: Seq<Result<(), CheckError>>, k: int)
    requires
        0 <= k < checks@.len(),
        k < outcomes.len(),
        outcomes[k] is Err,
        forall|i: int| 0 <= i < k ==> outcomes[i] is Ok,
    ensures
        ({
            let p = drive(Processor { checks, started: 0, awaiting: false, status: ProcessorStatus::Running }, outcomes);
            &&& invoked(p) == checks@.take(k + 1)
            &&& p.status == (ProcessorStatus::Failed { index: k as usize, error: outcomes[k]->Err_0 })
        }),
{
    let p0 = Processor { checks, started: 0, awaiting: false, status: ProcessorStatus::Running };
    lemma_drive_fails_at(p0, outcomes, k);
}

/// When every check succeeds, the processor invokes all of them, in order,
/// and succeeds.
pub proof fn lemma_all_pass(checks: Vec<Checks>, outcomes: Seq<Result<(), CheckError>>)
    requires
        outcomes.len() >= checks@.len(),
        forall|i: int| 0 <= i < checks@.len() ==> outcomes[i] is Ok,
    ensures
        ({
            let p = drive(Processor { checks, started: 0, awaiting: false, status: ProcessorStatus::Running }, outcomes);
            &&& invoked(p) == checks@
            &&& p.status == ProcessorStatus::Succeeded
        }),
{
    let p0 = Processor { checks, started: 0, awaiting: false, status: ProcessorStatus::Running };
    lemma_drive_passes(p0, outcomes);
    assert(checks@.take(checks@.len() as int) =~= checks@);
}

proof fn lemma_drive_passes(p: Processor, outcomes: Seq<Result<(), CheckError>>)
    requires
        p.wf(),
        !p.awaiting,
        p.status == ProcessorStatus::Running,
        outcomes.len() + p.started >= p.checks@.len(),
        forall|i: int| 0 <= i < p.checks@.len() - p.started ==> outcomes[i] is Ok,
    ensures
        drive(p, outcomes).started == p.checks@.len(),
        drive(p, outcomes).status == ProcessorStatus::Succeeded,
        drive(p, outcomes).checks == p.checks,
    decreases outcomes.len(),
{
    if p.started < p.checks@.len() {
        assert(outcomes[0] is Ok);
        let q = spec_complete(spec_start(p), outcomes[0]);
        let rest = outcomes.drop_first();
        assert(p.checks.len() == p.checks@.len());
        assert(q.started == p.started + 1 && q.checks == p.checks && !q.awaiting);
        assert(q.status == ProcessorStatus::Running);
        assert(drive(p, outcomes) == drive(q, rest));
        assert forall|i: int| 0 <= i < q.checks@.len() - q.started implies rest[i] is Ok by {
            assert(rest[i] == outcomes[i + 1]);
        }
        lemma_drive_passes(q, rest);
    }
}

} // verus!
