use ghsec::checks::{CheckError, Repository};
use ghsec::secrets::{RepositorySecrets, Secret, SecretFinding, SecretList, Severity, WarnPattern};

fn list(names: &[&str]) -> SecretList {
    SecretList {
        total_count: names.len() as i32,
        secrets: names
            .iter()
            .map(|n| Secret { name: n.to_string(), created_at: 1_700_000_000, updated_at: 1_700_000_100 })
            .collect(),
    }
}

fn pattern(p: &str) -> WarnPattern {
    WarnPattern::new(p).unwrap()
}

fn view(fs: &[SecretFinding]) -> Vec<(Severity, String)> {
    fs.iter().map(|f| (f.severity, f.secret_name.clone())).collect()
}

#[test]
fn deploy_key_matching_pattern_is_a_warning() {
    let fs = RepositorySecrets.findings(&list(&["DEPLOY_KEY"]), &pattern(".*KEY$"));
    assert_eq!(view(&fs), vec![(Severity::Warning, "DEPLOY_KEY".to_string())]);
}

#[test]
fn secret_not_matching_pattern_is_info() {
    let fs = RepositorySecrets.findings(&list(&["DB_PASSWORD", "API_KEY"]), &pattern(".*KEY$"));
    assert_eq!(
        view(&fs),
        vec![(Severity::Info, "DB_PASSWORD".to_string()), (Severity::Warning, "API_KEY".to_string())]
    );
}

#[test]
fn no_secrets_no_findings() {
    let fs = RepositorySecrets.findings(&list(&[]), &pattern(".*KEY$"));
    assert!(fs.is_empty());
}

#[test]
fn classification_independent_of_order() {
    let a = RepositorySecrets.findings(&list(&["A_KEY", "B", "C_TOKEN"]), &pattern("KEY|TOKEN"));
    let b = RepositorySecrets.findings(&list(&["C_TOKEN", "B", "A_KEY"]), &pattern("KEY|TOKEN"));
    let va = view(&a);
    let vb = view(&b);
    assert_eq!(va[0], vb[2]);
    assert_eq!(va[1], vb[1]);
    assert_eq!(va[2], vb[0]);
}

#[test]
fn rerun_gives_identical_findings() {
    let l = list(&["DEPLOY_KEY", "NPM_TOKEN", "OTHER"]);
    let first = RepositorySecrets.findings(&l, &pattern("TOKEN$"));
    let second = RepositorySecrets.findings(&l, &pattern("TOKEN$"));
    assert_eq!(view(&first), view(&second));
}

#[test]
fn invalid_pattern_is_rejected_up_front() {
    assert_eq!(WarnPattern::new("(").unwrap_err(), CheckError::InvalidPattern);
    assert_eq!(WarnPattern::new(".*KEY$").unwrap().as_str(), ".*KEY$");
}

#[test]
fn pattern_matches_anywhere_in_name() {
    let p = pattern("KEY");
    assert!(p.is_match("MY_KEY_2"));
    assert!(!p.is_match("my_key"));
}

#[test]
fn findings_of_concatenated_lists() {
    let p = pattern("KEY$");
    let a = RepositorySecrets.findings(&list(&["A_KEY", "B"]), &p);
    let b = RepositorySecrets.findings(&list(&["C", "D_KEY"]), &p);
    let ab = RepositorySecrets.findings(&list(&["A_KEY", "B", "C", "D_KEY"]), &p);
    let mut joined = view(&a);
    joined.extend(view(&b));
    assert_eq!(view(&ab), joined);
}

#[test]
fn report_uses_given_matches() {
    let fs = RepositorySecrets.report(&list(&["A", "B"]), &vec![true, false]);
    assert_eq!(view(&fs), vec![(Severity::Warning, "A".to_string()), (Severity::Info, "B".to_string())]);
}

#[test]
fn classify_by_match() {
    assert_eq!(RepositorySecrets::classify(true), Severity::Warning);
    assert_eq!(RepositorySecrets::classify(false), Severity::Info);
}

#[test]
fn secrets_request_path() {
    let r = Repository { owner: Some("octo".to_string()), name: "app".to_string() };
    assert_eq!(RepositorySecrets.request_path(&r), Ok("/repos/octo/app/actions/secrets".to_string()));
    let r = Repository { owner: None, name: "app".to_string() };
    assert_eq!(RepositorySecrets.request_path(&r), Err(CheckError::MissingOwner));
}

#[test]
fn fix_mode_notes_nothing_to_fix_only_with_secrets() {
    assert!(RepositorySecrets.nothing_to_fix(&list(&["A"]), true));
    assert!(!RepositorySecrets.nothing_to_fix(&list(&["A"]), false));
    assert!(!RepositorySecrets.nothing_to_fix(&list(&[]), true));
}
