use ghsec::checks::{CheckError, Checks};
use ghsec::processor::{Processor, ProcessorStatus, ProcessorStep};
use ghsec::scheduler::{Scheduler, SchedulerStep};

fn run_processor(checks: Vec<Checks>, fail_at: Option<usize>) -> (Vec<Checks>, Result<(), CheckError>) {
    let mut p = Processor::new(checks);
    let mut invoked = Vec::new();
    loop {
        match p.next_step() {
            ProcessorStep::Run(c) => {
                let outcome = if fail_at == Some(invoked.len()) { Err(CheckError::Api) } else { Ok(()) };
                invoked.push(c);
                p.complete(outcome);
            },
            ProcessorStep::Finished(r) => return (invoked, r),
        }
    }
}

#[test]
fn processor_runs_checks_in_order() {
    let checks = vec![Checks::RepositorySecrets, Checks::DefaultWorkflowPermissions];
    let (invoked, r) = run_processor(checks.clone(), None);
    assert_eq!(invoked, checks);
    assert_eq!(r, Ok(()));
}

#[test]
fn processor_stops_at_first_failure() {
    let checks = vec![Checks::RepositorySecrets, Checks::DefaultWorkflowPermissions, Checks::RepositorySecrets];
    let (invoked, r) = run_processor(checks, Some(1));
    assert_eq!(invoked, vec![Checks::RepositorySecrets, Checks::DefaultWorkflowPermissions]);
    assert_eq!(r, Err(CheckError::Api));
}

#[test]
fn processor_failure_records_index() {
    let mut p = Processor::new(vec![Checks::RepositorySecrets, Checks::RepositorySecrets]);
    assert!(matches!(p.next_step(), ProcessorStep::Run(Checks::RepositorySecrets)));
    p.complete(Err(CheckError::MissingOwner));
    assert_eq!(p.status, ProcessorStatus::Failed { index: 0, error: CheckError::MissingOwner });
    assert!(matches!(p.next_step(), ProcessorStep::Finished(Err(CheckError::MissingOwner))));
    assert_eq!(p.started, 1);
}

#[test]
fn processor_with_no_checks_succeeds() {
    let (invoked, r) = run_processor(vec![], None);
    assert!(invoked.is_empty());
    assert_eq!(r, Ok(()));
}

#[test]
fn scheduler_processes_every_repository_once() {
    let mut s = Scheduler::new(3, 2);
    let mut started = Vec::new();
    let mut running = Vec::new();
    loop {
        match s.next_step() {
            SchedulerStep::Spawn(i) => {
                started.push(i);
                running.push(i);
                assert!(running.len() <= 2);
            },
            SchedulerStep::Wait => {
                let i = running.remove(0);
                let outcome = if i == 0 { Err(CheckError::Api) } else { Ok(()) };
                s.complete(i, outcome);
            },
            SchedulerStep::Done => break,
        }
    }
    assert_eq!(started, vec![0, 1, 2]);
    assert_eq!(s.failures(), vec![(0, CheckError::Api)]);
    assert!(!s.succeeded());
}

#[test]
fn scheduler_all_passing_run_succeeds() {
    let mut s = Scheduler::new(2, 5);
    assert_eq!(s.next_step(), SchedulerStep::Spawn(0));
    assert_eq!(s.next_step(), SchedulerStep::Spawn(1));
    assert_eq!(s.next_step(), SchedulerStep::Wait);
    s.complete(1, Ok(()));
    s.complete(0, Ok(()));
    assert_eq!(s.next_step(), SchedulerStep::Done);
    assert!(s.failures().is_empty());
    assert!(s.succeeded());
}

#[test]
fn scheduler_with_no_repositories_is_done() {
    let mut s = Scheduler::new(0, 1);
    assert_eq!(s.next_step(), SchedulerStep::Done);
    assert!(s.succeeded());
}
