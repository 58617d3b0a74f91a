//! The `default_workflow_permissions` check: it reads the default permission
//! that workflow tokens of a repository get and whether workflows may approve
//! pull requests, and compares both with the desired setting. A repository
//! that already complies gets nothing; one that drifts gets an informational
//! finding, or, in fix mode, one write of the desired setting, confirmed only
//! once that write has succeeded.
//!
//! The check is a session: the caller performs each requested exchange with the
//! platform and hands back what came of it.

use vstd::prelude::*;
use crate::checks::{repo_path, CheckError, Repository};

verus! {

/// The default permission level of a workflow's token.
#[derive(Debug, Clone, Copy, PartialEq, Eq, Structural)]
pub enum WorkflowPermission {
    Read,
    Write,
}

/// The name the platform gives a permission level.
pub open spec fn permission_name(p: WorkflowPermission) -> Seq<char> {
    match p {
        WorkflowPermission::Read => "read"@,
        WorkflowPermission::Write => "write"@,
    }
}

/// The permission level of a name, if the name is one.
pub open spec fn permission_of_name(s: Seq<char>) -> Option<WorkflowPermission> {
    if s == permission_name(WorkflowPermission::Read) {
        Some(WorkflowPermission::Read)
    } else if s == permission_name(WorkflowPermission::Write) {
        Some(WorkflowPermission::Write)
    } else {
        None
    }
}

impl WorkflowPermission {
    /// The name the platform gives this level.
    pub fn as_str(&self) -> (r: &'static str)
        ensures
            r@ == permission_name(*self),
    {
        match self {
            WorkflowPermission::Read => "read",
            WorkflowPermission::Write => "write",
        }
    }

    /// The level that the platform's name denotes.
    pub fn parse(s: &str) -> (r: Option<WorkflowPermission>)
        ensures
            r == permission_of_name(s@),
    {
        let given = String::from_str(s);
        if given == String::from_str("read") {
            Some(WorkflowPermission::Read)
        } else if given == String::from_str("write") {
            Some(WorkflowPermission::Write)
        } else {
            None
        }
    }
}

/// The workflow permission settings of a repository.
#[derive(Debug, Clone, Copy, PartialEq, Eq, Structural)]
pub struct PermissionSetting {
    pub default_workflow_permissions: WorkflowPermission,
    pub can_approve_pull_request_reviews: bool,
}

/// What the check reports.
#[derive(Debug, Clone, Copy, PartialEq, Eq, Structural)]
pub enum PermissionFinding {
    /// The settings differ from the desired ones and were left alone.
    Drift { current: PermissionSetting, desired: PermissionSetting },
    /// The desired settings were written, and the write succeeded.
    Fixed { desired: PermissionSetting },
}

/// Where a session stands.
#[derive(Debug, Clone, Copy, PartialEq, Eq, Structural)]
pub enum PermissionPhase {
    /// The current settings are to be read.
    AwaitingSettings,
    /// The desired settings are being written.
    AwaitingWrite,
    /// The check has finished, or failed.
    Done,
}

/// What came of the exchange that the session asked for.
#[derive(Debug, Clone, Copy, PartialEq, Eq, Structural)]
pub enum PermissionEvent {
    /// The current settings were read.
    Settings(PermissionSetting),
    /// The write of the desired settings succeeded.
    WriteSucceeded,
    /// The write of the desired settings failed.
    WriteFailed,
    /// A request failed before any answer could be used.
    RequestFailed,
}

/// What the session asks for next.
#[derive(Debug, Clone, Copy, PartialEq, Eq, Structural)]
pub enum PermissionAction {
    /// Write these settings, then report the outcome.
    Write(PermissionSetting),
    /// The check is complete; report the finding, if any.
    Finish(Option<PermissionFinding>),
    /// The check failed.
    Fail(CheckError),
}

/// One run of the check against one repository.
#[derive(Debug, Clone, Copy, PartialEq, Eq, Structural)]
pub struct PermissionSession {
    pub desired: PermissionSetting,
    pub fix: bool,
    pub phase: PermissionPhase,
    /// The settings read, once they have been.
    pub current: Option<PermissionSetting>,
    /// How many writes the session has asked for.
    pub write_calls: u32,
}

/// The `default_workflow_permissions` check. It holds no data.
#[derive(Debug, Clone, Copy, Default)]
pub struct DefaultWorkflowPermissions;

/// The path suffix of a repository's workflow permission settings.
pub open spec fn permissions_suffix() -> Seq<char> {
    "/actions/permissions/workflow"@
}

/// A session that has not read anything yet.
pub open spec fn fresh_session(desired: PermissionSetting, fix: bool) -> PermissionSession {
    PermissionSession {
        desired,
        fix,
        phase: PermissionPhase::AwaitingSettings,
        current: None,
        write_calls: 0,
    }
}

/// One step of a session: the next state and what to do.
pub open spec fn spec_step(s: PermissionSession, ev: PermissionEvent) -> (PermissionSession, PermissionAction) {
    let done = PermissionSession { phase: PermissionPhase::Done, ..s };
    match (s.phase, ev) {
        (PermissionPhase::AwaitingSettings, PermissionEvent::Settings(cur)) => {
            let read = PermissionSession { current: Some(cur), ..s };
            if cur == s.desired {
                (PermissionSession { phase: PermissionPhase::Done, ..read }, PermissionAction::Finish(None))
            } else if !s.fix {
                (
                    PermissionSession { phase: PermissionPhase::Done, ..read },
                    PermissionAction::Finish(Some(PermissionFinding::Drift { current: cur, desired: s.desired })),
                )
            } else {
                (
                    PermissionSession {
                        phase: PermissionPhase::AwaitingWrite,
                        write_calls: (s.write_calls + 1) as u32,
                        ..read
                    },
                    PermissionAction::Write(s.desired),
                )
            }
        },
        (PermissionPhase::AwaitingWrite, PermissionEvent::WriteSucceeded) => {
            (done, PermissionAction::Finish(Some(PermissionFinding::Fixed { desired: s.desired })))
        },
        (PermissionPhase::AwaitingWrite, PermissionEvent::WriteFailed) => {
            (done, PermissionAction::Fail(CheckError::WriteFailed))
        },
        _ => (done, PermissionAction::Fail(CheckError::Api)),
    }
}

/// The state after handing a session the events `evs` in turn; events that
/// come after it is done are not looked at.
pub open spec fn run_session(s: PermissionSession, evs: Seq<PermissionEvent>) -> PermissionSession
    decreases evs.len(),
{
    if evs.len() == 0 || s.phase == PermissionPhase::Done {
        s
    } else {
        run_session(spec_step(s, evs[0]).0, evs.drop_first())
    }
}

impl PermissionSession {
    /// A write is asked for at most once, only in fix mode, and only after
    /// settings that differ from the desired ones were read.
    pub open spec fn wf(&self) -> bool {
        &&& self.write_calls <= 1
        &&& self.phase == PermissionPhase::AwaitingSettings ==> self.write_calls == 0 && self.current is None
        &&& self.phase == PermissionPhase::AwaitingWrite ==> self.write_calls == 1
        &&& self.write_calls == 1 ==> self.fix && self.current is Some && self.current->Some_0 != self.desired
    }

    /// Starts a session for the desired settings; `fix` allows the write.
    pub fn new(desired: PermissionSetting, fix: bool) -> (r: PermissionSession)
        ensures
            r == fresh_session(desired, fix),
            r.wf(),
    {
        PermissionSession {
            desired,
            fix,
            phase: PermissionPhase::AwaitingSettings,
            current: None,
            write_calls: 0,
        }
    }

    /// Whether the session has finished.
    pub fn is_done(&self) -> (r: bool)
        ensures
            r == (self.phase == PermissionPhase::Done),
    {
        self.phase == PermissionPhase::Done
    }

    /// Hands the session what came of the last exchange and returns what to
    /// do next.
    pub fn step(&mut self, ev: PermissionEvent) -> (r: PermissionAction)
        requires
            old(self).wf(),
            old(self).phase != PermissionPhase::Done,
        ensures
            (*final(self), r) == spec_step(*old(self), ev),
            final(self).wf(),
    {
        match (self.phase, ev) {
            (PermissionPhase::AwaitingSettings, PermissionEvent::Settings(cur)) => {
                self.current = Some(cur);
                if cur == self.desired {
                    self.phase = PermissionPhase::Done;
                    PermissionAction::Finish(None)
                } else if !self.fix {
                    self.phase = PermissionPhase::Done;
                    PermissionAction::Finish(Some(PermissionFinding::Drift { current: cur, desired: self.desired }))
                } else {
                    self.phase = PermissionPhase::AwaitingWrite;
                    self.write_calls = self.write_calls + 1;
                    PermissionAction::Write(self.desired)
                }
            },
            (PermissionPhase::AwaitingWrite, PermissionEvent::WriteSucceeded) => {
                self.phase = PermissionPhase::Done;
                PermissionAction::Finish(Some(PermissionFinding::Fixed { desired: self.desired }))
            },
            (PermissionPhase::AwaitingWrite, PermissionEvent::WriteFailed) => {
                self.phase = PermissionPhase::Done;
                PermissionAction::Fail(CheckError::WriteFailed)
            },
            _ => {
                self.phase = PermissionPhase::Done;
                PermissionAction::Fail(CheckError::Api)
            },
        }
    }
}

impl DefaultWorkflowPermissions {
    /// The request path of the workflow permission settings of `repo`.
    pub fn request_path(&self, repo: &Repository) -> (r: Result<String, CheckError>)
        ensures
            match repo.owner {
                Some(o) => r is Ok && r->Ok_0@ == repo_path(o@, repo.name@, permissions_suffix()),
                None => r == Err::<String, CheckError>(CheckError::MissingOwner),
            },
    {
        repo.resource_path("/actions/permissions/workflow")
    }
}

/// Steps keep a session well formed, and once a session is past reading the
/// settings its count of writes no longer changes.
pub proof fn lemma_run_session_writes(s: PermissionSession, evs: Seq<PermissionEvent>)
    requires
        s.wf(),
    ensures
        run_session(s, evs).wf(),
        run_session(s, evs).fix == s.fix,
        run_session(s, evs).desired == s.desired,
        run_session(s, evs).write_calls >= s.write_calls,
        s.phase != PermissionPhase::AwaitingSettings ==> run_session(s, evs).write_calls == s.write_calls,
    decreases evs.len(),
{
    if evs.len() > 0 && s.phase != PermissionPhase::Done {
        lemma_run_session_writes(spec_step(s, evs[0]).0, evs.drop_first());
    }
}

/// Settings that already equal the desired ones draw no write, in fix mode or
/// not, whatever follows.
pub proof fn lemma_compliant_never_writes(
    desired: PermissionSetting,
    fix: bool,
    rest: Seq<PermissionEvent>,
)
    ensures
        run_session(fresh_session(desired, fix), seq![PermissionEvent::Settings(desired)] + rest).write_calls == 0,
{
    let evs = seq![PermissionEvent::Settings(desired)] + rest;
    assert(evs.drop_first() =~= rest);
    lemma_run_session_writes(spec_step(fresh_session(desired, fix), evs[0]).0, rest);
}

/// Outside fix mode a session never asks for a write, whatever it reads.
pub proof fn lemma_no_fix_never_writes(desired: PermissionSetting, evs: Seq<PermissionEvent>)
    ensures
        run_session(fresh_session(desired, false), evs).write_calls == 0,
{
    lemma_run_session_writes(fresh_session(desired, false), evs);
}

/// In fix mode, settings that differ from the desired ones draw exactly one
/// write, of the desired settings, whatever follows.
pub proof fn lemma_fix_writes_once(
    desired: PermissionSetting,
    current: PermissionSetting,
    rest: Seq<PermissionEvent>,
)
    requires
        current != desired,
    ensures
        spec_step(fresh_session(desired, true), PermissionEvent::Settings(current)).1
            == PermissionAction::Write(desired),
        run_session(fresh_session(desired, true), seq![PermissionEvent::Settings(current)] + rest).write_calls
            == 1,
{
    let evs = seq![PermissionEvent::Settings(current)] + rest;
    assert(evs.drop_first() =~= rest);
    lemma_run_session_writes(spec_step(fresh_session(desired, true), evs[0]).0, rest);
}

/// Whether an action reports that the desired settings were written.
pub open spec fn is_confirmation(a: PermissionAction) -> bool {
    a is Finish && a->Finish_0 is Some && a->Finish_0->Some_0 is Fixed
}

/// A confirmation is reported only by a session that asked for a write and was
/// told that the write succeeded; a failed write is reported as an error.
pub proof fn lemma_confirmation_follows_write(s: PermissionSession, ev: PermissionEvent)
    requires
        s.wf(),
    ensures
        is_confirmation(spec_step(s, ev).1) ==> s.phase == PermissionPhase::AwaitingWrite && s.write_calls == 1 && ev == PermissionEvent::WriteSucceeded,
        s.phase == PermissionPhase::AwaitingWrite && ev == PermissionEvent::WriteFailed ==> spec_step(s, ev).1
            == PermissionAction::Fail(CheckError::WriteFailed),
{
}

} // verus!
