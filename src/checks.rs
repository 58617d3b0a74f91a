//! The closed set of checks, their configuration names, and the repository
//! model that every check reads.

use vstd::prelude::*;

verus! {

/// A repository, as far as the checks read it.
pub struct Repository {
    /// Login of the owning account; the platform may leave it out.
    pub owner: Option<String>,
    /// Name of the repository within its owner's namespace.
    pub name: String,
}

/// Why a check, and with it the processing of one repository, failed.
#[derive(Debug, Clone, Copy, PartialEq, Eq, Structural)]
pub enum CheckError {
    /// The repository carries no owner, so no request path can be formed.
    MissingOwner,
    /// The configured warn pattern does not compile as a regular expression.
    InvalidPattern,
    /// A request to the platform failed (transport, authentication, status).
    Api,
    /// The remediation write was refused or failed.
    WriteFailed,
}

/// All the available checks. The variant set is closed: adding a check means
/// adding a variant here.
#[derive(Debug, Clone, Copy, PartialEq, Eq, Structural)]
pub enum Checks {
    DefaultWorkflowPermissions,
    RepositorySecrets,
}

/// The configuration name of a check (snake case of the variant).
pub open spec fn check_name(c: Checks) -> Seq<char> {
    match c {
        Checks::DefaultWorkflowPermissions => "default_workflow_permissions"@,
        Checks::RepositorySecrets => "repository_secrets"@,
    }
}

/// The check that a configuration name selects, if any.
pub open spec fn check_of_name(s: Seq<char>) -> Option<Checks> {
    if s == check_name(Checks::DefaultWorkflowPermissions) {
        Some(Checks::DefaultWorkflowPermissions)
    } else if s == check_name(Checks::RepositorySecrets) {
        Some(Checks::RepositorySecrets)
    } else {
        None
    }
}

/// The request path of a repository resource: `/repos/{owner}/{name}{suffix}`.
pub open spec fn repo_path(owner: Seq<char>, name: Seq<char>, suffix: Seq<char>) -> Seq<char> {
    "/repos/"@ + owner + "/"@ + name + suffix
}

impl Checks {
    /// The configuration name of this check.
    pub fn name(&self) -> (r: &'static str)
        ensures
            r@ == check_name(*self),
    {
        match self {
            Checks::DefaultWorkflowPermissions => "default_workflow_permissions",
            Checks::RepositorySecrets => "repository_secrets",
        }
    }

    /// Selects a check by its configuration name.
    pub fn from_name(s: &str) -> (r: Option<Checks>)
        ensures
            r == check_of_name(s@),
    {
        let given = String::from_str(s);
        if given == String::from_str("default_workflow_permissions") {
            Some(Checks::DefaultWorkflowPermissions)
        } else if given == String::from_str("repository_secrets") {
            Some(Checks::RepositorySecrets)
        } else {
            None
        }
    }

    /// Selects the checks named in `names`, in the given order. The index of
    /// the first name that selects no check is the error.
    pub fn from_names(names: &Vec<String>) -> (r: Result<Vec<Checks>, usize>)
        ensures
            match r {
                Ok(cs) => cs@.len() == names@.len() && forall|i: int|
                    0 <= i < names@.len() ==> check_of_name(#[trigger] names@[i]@) == Some(cs@[i]),
                Err(k) => k < names@.len() && check_of_name(names@[k as int]@) is None && forall|i: int|
                    0 <= i < k ==> #[trigger] check_of_name(names@[i]@) is Some,
            },
    {
        let mut cs: Vec<Checks> = Vec::new();
        let mut i: usize = 0;
        while i < names.len()
            invariant
                i <= names@.len(),
                cs@.len() == i,
                forall|k: int| 0 <= k < i ==> check_of_name(#[trigger] names@[k]@) == Some(cs@[k]),
            decreases names@.len() - i,
        {
            match Checks::from_name(names[i].as_str()) {
                Some(c) => cs.push(c),
                None => {
                    return Err(i);
                },
            }
            i = i + 1;
        }
        Ok(cs)
    }

    /// Every check, in declaration order.
    pub fn all() -> (r: Vec<Checks>)
        ensures
            r@ == seq![Checks::DefaultWorkflowPermissions, Checks::RepositorySecrets],
    {
        vec![Checks::DefaultWorkflowPermissions, Checks::RepositorySecrets]
    }
}

/// The name and the check agree in both directions.
pub proof fn lemma_name_round_trip(c: Checks)
    ensures
        check_of_name(check_name(c)) == Some(c),
{
    reveal_strlit("default_workflow_permissions");
    reveal_strlit("repository_secrets");
    assert(check_name(Checks::DefaultWorkflowPermissions)[0] != check_name(Checks::RepositorySecrets)[0]);
}

impl Repository {
    /// The request path of one of this repository's resources; fails when the
    /// repository carries no owner.
    pub fn resource_path(&self, suffix: &str) -> (r: Result<String, CheckError>)
        ensures
            match self.owner {
                Some(o) => r == Ok::<String, CheckError>(r->Ok_0) && r->Ok_0@ == repo_path(o@, self.name@, suffix@),
                None => r == Err::<String, CheckError>(CheckError::MissingOwner),
            },
    {
        match &self.owner {
            Some(o) => {
                let mut p = String::from_str("/repos/");
                p.append(o.as_str());
                p.append("/");
                p.append(self.name.as_str());
                p.append(suffix);
                Ok(p)
            },
            None => Err(CheckError::MissingOwner),
        }
    }
}

} // verus!
