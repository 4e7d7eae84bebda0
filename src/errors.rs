use vstd::prelude::*;
use crate::git::{failure_code, failure_message, FailureCode};
use vstd::string::StringExecFns;

verus! {

/// Why an operation on a repository failed.
#[derive(PartialEq, Eq, Debug)]
pub enum GitError {
    /// The path holds no repository.
    RepositoryNotFound(String),
    /// The named branch does not exist.
    ReferenceNotFound(String),
    /// The reference exists but points to no commit.
    InvalidReference,
    /// HEAD is detached or unborn where a branch was needed.
    NotOnABranch,
    /// Any other failure of the store.
    Store(String),
}

/// A failure of the store, as the library reads it.
pub struct StoreFailure {
    pub code: FailureCode,
    pub message: String,
}

impl GitError {
    /// A description of the failure for display.
    pub fn describe(&self) -> (r: String)
        ensures
            self matches GitError::RepositoryNotFound(m) ==> r@ == m@,
            self matches GitError::ReferenceNotFound(m) ==> r@ == m@,
            self matches GitError::InvalidReference ==> r@ == "Invalid reference"@,
            self matches GitError::NotOnABranch ==> r@ == "Not currently on a branch"@,
            self matches GitError::Store(m) ==> r@ == m@,
    {
        match self {
            GitError::RepositoryNotFound(m) => m.clone(),
            GitError::ReferenceNotFound(m) => m.clone(),
            GitError::InvalidReference => String::from_str("Invalid reference"),
            GitError::NotOnABranch => String::from_str("Not currently on a branch"),
            GitError::Store(m) => m.clone(),
        }
    }
}

/// Reads the kind and the text of a failure of the store.
pub(crate) fn read_failure(e: &git2::Error) -> StoreFailure {
    StoreFailure { code: failure_code(e), message: failure_message(e) }
}

/// A failure while reading or writing an open repository.
pub fn store_error(f: StoreFailure) -> (r: GitError)
    ensures
        r == GitError::Store(f.message),
{
    GitError::Store(f.message)
}

/// A failure while looking up a branch by name: a missing branch is told apart.
pub fn branch_error(f: StoreFailure) -> (r: GitError)
    ensures
        f.code == FailureCode::NotFound ==> r == GitError::ReferenceNotFound(f.message),
        f.code != FailureCode::NotFound ==> r == GitError::Store(f.message),
{
    match f.code {
        FailureCode::NotFound => GitError::ReferenceNotFound(f.message),
        _ => GitError::Store(f.message),
    }
}

/// A failure while opening a repository: a missing store is told apart.
pub fn open_error(f: StoreFailure) -> (r: GitError)
    ensures
        f.code == FailureCode::NotFound ==> r == GitError::RepositoryNotFound(f.message),
        f.code != FailureCode::NotFound ==> r == GitError::Store(f.message),
{
    match f.code {
        FailureCode::NotFound => GitError::RepositoryNotFound(f.message),
        _ => GitError::Store(f.message),
    }
}

} // verus!
