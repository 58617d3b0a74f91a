use ghsec::checks::{CheckError, Repository};
use ghsec::permissions::{
    DefaultWorkflowPermissions, PermissionAction, PermissionEvent, PermissionFinding, PermissionSession,
    PermissionSetting, WorkflowPermission,
};

fn setting(p: WorkflowPermission) -> PermissionSetting {
    PermissionSetting { default_workflow_permissions: p, can_approve_pull_request_reviews: false }
}

#[test]
fn drift_without_fix_reports_and_never_writes() {
    let desired = setting(WorkflowPermission::Read);
    let current = setting(WorkflowPermission::Write);
    let mut s = PermissionSession::new(desired, false);
    let a = s.step(PermissionEvent::Settings(current));
    assert_eq!(a, PermissionAction::Finish(Some(PermissionFinding::Drift { current, desired })));
    assert_eq!(s.write_calls, 0);
    assert!(s.is_done());
}

#[test]
fn drift_with_fix_writes_once_then_confirms() {
    let desired = setting(WorkflowPermission::Read);
    let mut remote = setting(WorkflowPermission::Write);
    let mut s = PermissionSession::new(desired, true);
    let a = s.step(PermissionEvent::Settings(remote));
    assert_eq!(a, PermissionAction::Write(desired));
    assert_eq!(s.write_calls, 1);
    if let PermissionAction::Write(w) = a {
        remote = w;
    }
    let b = s.step(PermissionEvent::WriteSucceeded);
    assert_eq!(b, PermissionAction::Finish(Some(PermissionFinding::Fixed { desired })));
    assert_eq!(s.write_calls, 1);
    assert_eq!(remote.default_workflow_permissions.as_str(), "read");
}

#[test]
fn failed_write_is_an_error_without_confirmation() {
    let desired = setting(WorkflowPermission::Read);
    let mut s = PermissionSession::new(desired, true);
    s.step(PermissionEvent::Settings(setting(WorkflowPermission::Write)));
    assert_eq!(s.step(PermissionEvent::WriteFailed), PermissionAction::Fail(CheckError::WriteFailed));
    assert!(s.is_done());
}

#[test]
fn compliant_settings_never_write() {
    for fix in [false, true] {
        let desired = setting(WorkflowPermission::Read);
        let mut s = PermissionSession::new(desired, fix);
        assert_eq!(s.step(PermissionEvent::Settings(desired)), PermissionAction::Finish(None));
        assert_eq!(s.write_calls, 0);
    }
}

#[test]
fn approval_flag_alone_is_drift() {
    let desired = setting(WorkflowPermission::Read);
    let current = PermissionSetting { can_approve_pull_request_reviews: true, ..desired };
    let mut s = PermissionSession::new(desired, true);
    assert_eq!(s.step(PermissionEvent::Settings(current)), PermissionAction::Write(desired));
}

#[test]
fn failed_read_fails_the_check() {
    let mut s = PermissionSession::new(setting(WorkflowPermission::Read), true);
    assert_eq!(s.step(PermissionEvent::RequestFailed), PermissionAction::Fail(CheckError::Api));
    assert_eq!(s.write_calls, 0);
}

#[test]
fn permission_names() {
    assert_eq!(WorkflowPermission::parse("read"), Some(WorkflowPermission::Read));
    assert_eq!(WorkflowPermission::parse("write"), Some(WorkflowPermission::Write));
    assert_eq!(WorkflowPermission::parse("admin"), None);
    assert_eq!(WorkflowPermission::Write.as_str(), "write");
}

#[test]
fn permissions_request_path() {
    let r = Repository { owner: Some("octo".to_string()), name: "app".to_string() };
    assert_eq!(
        DefaultWorkflowPermissions.request_path(&r),
        Ok("/repos/octo/app/actions/permissions/workflow".to_string())
    );
}
