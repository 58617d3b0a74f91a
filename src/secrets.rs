//! The `repository_secrets` check: it lists the names of the secrets defined
//! in a repository (the platform never exposes their values) and reports each
//! one, as a warning when its name matches the configured warn pattern and as
//! an information otherwise. There is no remediation: fix mode changes nothing
//! but a note that there is nothing to fix.

use vstd::prelude::*;
use crate::checks::{repo_path, CheckError, Repository};

verus! {

/// The error of `regex::Regex::new`, carried through opaquely.
#[verifier::external_type_specification]
#[verifier::external_body]
pub struct ExRegexError(regex::Error);

/// Whether `pattern` compiles as a regular expression of the `regex` crate.
pub uninterp spec fn regex_compiles(pattern: Seq<char>) -> bool;

/// Whether the regular expression `pattern` matches somewhere in `haystack`,
/// as the `regex` crate decides it.
pub uninterp spec fn regex_finds(pattern: Seq<char>, haystack: Seq<char>) -> bool;

/// Relies on `regex::Regex::new`, which compiles `pattern` or returns an error.
/// Its size limits are the builder's constants, so the outcome depends on the
/// pattern alone.
#[verifier::external_body]
fn compile_pattern(pattern: &str) -> (r: Result<(), regex::Error>)
    ensures
        r is Ok <==> regex_compiles(pattern@),
{
    match regex::Regex::new(pattern) {
        Ok(_) => Ok(()),
        Err(e) => Err(e),
    }
}

/// Relies on `regex::Regex::new`, as `compile_pattern` does, and on
/// `regex::Regex::is_match`, which is true if and only if the compiled
/// expression matches somewhere in `haystack`. The answer depends on the two
/// strings alone.
#[verifier::external_body]
fn pattern_is_match(pattern: &str, haystack: &str) -> (r: Result<bool, regex::Error>)
    ensures
        r is Ok <==> regex_compiles(pattern@),
        r is Ok ==> r->Ok_0 == regex_finds(pattern@, haystack@),
{
    match regex::Regex::new(pattern) {
        Ok(re) => Ok(re.is_match(haystack)),
        Err(e) => Err(e),
    }
}

/// A warn pattern that is known to compile. It is checked once, when the run
/// is configured, so that no check can fail on it later.
#[derive(Debug)]
pub struct WarnPattern {
    source: String,
}

impl View for WarnPattern {
    type V = Seq<char>;

    closed spec fn view(&self) -> Seq<char> {
        self.source@
    }
}

impl WarnPattern {
    #[verifier::type_invariant]
    spec fn inv(self) -> bool {
        regex_compiles(self.source@)
    }

    /// Accepts `pattern` exactly when it compiles.
    pub fn new(pattern: &str) -> (r: Result<WarnPattern, CheckError>)
        ensures
            r is Ok <==> regex_compiles(pattern@),
            r is Ok ==> r->Ok_0@ == pattern@,
            r is Err ==> r->Err_0 == CheckError::InvalidPattern,
    {
        match compile_pattern(pattern) {
            Ok(()) => Ok(WarnPattern { source: String::from_str(pattern) }),
            Err(_) => Err(CheckError::InvalidPattern),
        }
    }

    /// The pattern's text.
    pub fn as_str(&self) -> (r: &str)
        ensures
            r@ == self@,
    {
        self.source.as_str()
    }

    /// Whether the pattern matches somewhere in `haystack`.
    pub fn is_match(&self, haystack: &str) -> (r: bool)
        ensures
            r == regex_finds(self@, haystack@),
    {
        proof {
            use_type_invariant(self);
        }
        match pattern_is_match(self.source.as_str(), haystack) {
            Ok(b) => b,
            Err(_) => {
                proof {
                    assert(false);
                }
                false
            },
        }
    }
}

/// How loudly a finding is reported.
#[derive(Debug, Clone, Copy, PartialEq, Eq, Structural)]
pub enum Severity {
    Info,
    Warning,
}

/// One secret of a repository. Times are seconds since the Unix epoch, UTC.
#[derive(Debug)]
pub struct Secret {
    pub name: String,
    pub created_at: i64,
    pub updated_at: i64,
}

/// The platform's answer to a listing of repository secrets.
#[derive(Debug)]
pub struct SecretList {
    pub total_count: i32,
    pub secrets: Vec<Secret>,
}

/// A secret found in a repository, with the severity it is reported at.
#[derive(Debug)]
pub struct SecretFinding {
    pub severity: Severity,
    pub secret_name: String,
}

/// The `repository_secrets` check. It holds no data.
#[derive(Debug, Clone, Copy, Default)]
pub struct RepositorySecrets;

/// The path suffix of the repository secrets listing.
pub open spec fn secrets_suffix() -> Seq<char> {
    "/actions/secrets"@
}

/// A secret whose name matches the warn pattern is a warning, any other an
/// information.
pub open spec fn severity_of(matched: bool) -> Severity {
    if matched {
        Severity::Warning
    } else {
        Severity::Info
    }
}

/// The names of the listed secrets, in the platform's order.
pub open spec fn secret_names(l: SecretList) -> Seq<Seq<char>> {
    l.secrets@.map_values(|s: Secret| s.name@)
}

/// A finding as severity and secret name.
pub open spec fn finding_view(f: SecretFinding) -> (Severity, Seq<char>) {
    (f.severity, f.secret_name@)
}

pub open spec fn findings_view(fs: Seq<SecretFinding>) -> Seq<(Severity, Seq<char>)> {
    fs.map_values(|f: SecretFinding| finding_view(f))
}

/// The findings owed for the secrets `names` under the warn pattern `pattern`:
/// one per secret, in the listing's order.
pub open spec fn secret_findings(pattern: Seq<char>, names: Seq<Seq<char>>) -> Seq<(Severity, Seq<char>)> {
    names.map_values(|n: Seq<char>| (severity_of(regex_finds(pattern, n)), n))
}

impl RepositorySecrets {
    /// The request path that lists the secrets of `repo`.
    pub fn request_path(&self, repo: &Repository) -> (r: Result<String, CheckError>)
        ensures
            match repo.owner {
                Some(o) => r is Ok && r->Ok_0@ == repo_path(o@, repo.name@, secrets_suffix()),
                None => r == Err::<String, CheckError>(CheckError::MissingOwner),
            },
    {
        repo.resource_path("/actions/secrets")
    }

    /// The severity of a secret, given whether its name matched the pattern.
    pub fn classify(matched: bool) -> (r: Severity)
        ensures
            r == severity_of(matched),
    {
        if matched {
            Severity::Warning
        } else {
            Severity::Info
        }
    }

    /// The findings for `list`, given for each secret whether its name matched
    /// the warn pattern.
    pub fn report(&self, list: &SecretList, matched: &Vec<bool>) -> (r: Vec<SecretFinding>)
        requires
            matched@.len() == list.secrets@.len(),
        ensures
            r@.len() == list.secrets@.len(),
            forall|i: int|
                0 <= i < r@.len() ==> (#[trigger] r@[i]).severity == severity_of(matched@[i])
                    && r@[i].secret_name@ == list.secrets@[i].name@,
    {
        let mut r: Vec<SecretFinding> = Vec::new();
        let mut i: usize = 0;
        while i < list.secrets.len()
            invariant
                i <= list.secrets@.len(),
                matched@.len() == list.secrets@.len(),
                r@.len() == i,
                forall|k: int|
                    0 <= k < i ==> (#[trigger] r@[k]).severity == severity_of(matched@[k])
                        && r@[k].secret_name@ == list.secrets@[k].name@,
            decreases list.secrets@.len() - i,
        {
            let name = list.secrets[i].name.clone();
            r.push(SecretFinding { severity: Self::classify(matched[i]), secret_name: name });
            i = i + 1;
        }
        r
    }

    /// The findings for `list` under `warn_pattern`: one per secret, in order,
    /// a warning exactly when the pattern matches the secret's name.
    pub fn findings(&self, list: &SecretList, warn_pattern: &WarnPattern) -> (r: Vec<SecretFinding>)
        ensures
            findings_view(r@) == secret_findings(warn_pattern@, secret_names(*list)),
    {
        let mut matched: Vec<bool> = Vec::new();
        let mut i: usize = 0;
        while i < list.secrets.len()
            invariant
                i <= list.secrets@.len(),
                matched@.len() == i,
                forall|k: int| 0 <= k < i ==> #[trigger] matched@[k] == regex_finds(warn_pattern@, list.secrets@[k].name@),
            decreases list.secrets@.len() - i,
        {
            matched.push(warn_pattern.is_match(list.secrets[i].name.as_str()));
            i = i + 1;
        }
        let r = self.report(list, &matched);
        assert(findings_view(r@) =~= secret_findings(warn_pattern@, secret_names(*list))) by {
            assert forall|k: int| 0 <= k < r@.len() implies #[trigger] findings_view(r@)[k] == secret_findings(
                warn_pattern@,
                secret_names(*list),
            )[k] by {
                assert(matched@[k] == regex_finds(warn_pattern@, list.secrets@[k].name@));
                assert(r@[k].severity == severity_of(matched@[k]));
            }
        }
        r
    }

    /// Whether a run in fix mode notes that secrets have no remediation: only
    /// when there are secrets at all.
    pub fn nothing_to_fix(&self, list: &SecretList, fix: bool) -> (r: bool)
        ensures
            r == (fix && list.secrets@.len() > 0),
    {
        fix && list.secrets.len() > 0
    }
}

/// A secret's finding depends on its name and the pattern alone: wherever the
/// same name stands in two listings, in any order, it gets the same finding,
/// a warning exactly when the pattern matches it.
pub proof fn lemma_classification_is_pure(
    pattern: Seq<char>,
    a: Seq<Seq<char>>,
    b: Seq<Seq<char>>,
    i: int,
    j: int,
)
    requires
        0 <= i < a.len(),
        0 <= j < b.len(),
        a[i] == b[j],
    ensures
        secret_findings(pattern, a)[i] == secret_findings(pattern, b)[j],
        (secret_findings(pattern, a)[i].0 == Severity::Warning) == regex_finds(pattern, a[i]),
{
}

/// Each secret contributes one finding of its own: the findings of two
/// listings put together are the findings of each, put together.
pub proof fn lemma_findings_concat(pattern: Seq<char>, a: Seq<Seq<char>>, b: Seq<Seq<char>>)
    ensures
        secret_findings(pattern, a + b) == secret_findings(pattern, a) + secret_findings(pattern, b),
{
    assert(secret_findings(pattern, a + b) =~= secret_findings(pattern, a) + secret_findings(pattern, b));
}

/// Listing the same secrets twice under the same pattern gives the same
/// findings both times.
pub proof fn lemma_rerun_identical(pattern: Seq<char>, first: SecretList, second: SecretList)
    requires
        secret_names(first) == secret_names(second),
    ensures
        secret_findings(pattern, secret_names(first)) == secret_findings(pattern, secret_names(second)),
{
}

} // verus!
