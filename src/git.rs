use vstd::prelude::*;
use git2::{BranchType, ErrorCode, Oid, Repository};

verus! {

#[verifier::external_type_specification]
#[verifier::external_body]
pub struct ExRepository(git2::Repository);

#[verifier::external_type_specification]
#[verifier::external_body]
pub struct ExError(git2::Error);

/// A branch as the repository lists it: its tip, if it has one, whether its name could be read,
/// its name, if it is valid UTF-8, and whether it is remote-tracking.
pub struct BranchEntry {
    pub tip: Option<String>,
    pub name_readable: bool,
    pub name: Option<String>,
    pub is_remote: bool,
}

/// What the repository stores of one commit.
pub struct CommitFields {
    pub summary: Option<String>,
    pub author: Option<String>,
    pub time: i64,
    pub parents: Vec<String>,
}

/// The kinds of store failure that the library tells apart.
#[derive(PartialEq, Eq, Structural, Clone, Copy, Debug)]
pub enum FailureCode {
    NotFound,
    UnbornBranch,
    Other,
}

/// Relies on git2::Repository::open to open the repository at `path`.
#[verifier::external_body]
pub(crate) fn open_repository(path: &str) -> (r: Result<Repository, git2::Error>) {
    Repository::open(path)
}

/// Relies on git2::Repository::init to create a repository at `path`.
#[verifier::external_body]
pub(crate) fn init_repository(path: &str) -> (r: Result<Repository, git2::Error>) {
    Repository::init(path)
}

/// Relies on git2::Repository::branches to list the local or the remote-tracking branches: its
/// filter lets through only branches of the scope asked for.
#[verifier::external_body]
pub(crate) fn branch_entries(repo: &Repository, remote: bool) -> (r: Result<Vec<BranchEntry>, git2::Error>)
    ensures
        r matches Ok(v) ==> forall|i: int| 0 <= i < v@.len() ==> (#[trigger] v@[i]).is_remote == remote,
{
    let kind = if remote { BranchType::Remote } else { BranchType::Local };
    let mut out = Vec::new();
    for item in repo.branches(Some(kind))? {
        let (branch, actual) = item?;
        let tip = branch.get().target().map(|oid| oid.to_string());
        let name = branch.name();
        out.push(BranchEntry {
            tip,
            name_readable: name.is_ok(),
            name: name.ok().flatten().map(|n| n.to_string()),
            is_remote: actual == BranchType::Remote,
        });
    }
    Ok(out)
}

/// Relies on git2::Repository::revwalk, seeded with each of `tips`, for the ids of the commits
/// reachable from them, drained from its iterator in the order it produces them.
#[verifier::external_body]
pub(crate) fn walk_ancestry(repo: &Repository, tips: &Vec<String>) -> (r: Result<Vec<String>, git2::Error>) {
    let mut walk = repo.revwalk()?;
    for tip in tips {
        walk.push(Oid::from_str(tip)?)?;
    }
    let mut out = Vec::new();
    for oid in walk {
        out.push(oid?.to_string());
    }
    Ok(out)
}

/// Relies on git2::Repository::find_commit to read the commit with the id `id`: its summary and
/// author name where they are valid UTF-8, the author's time in seconds, and its parents' ids.
#[verifier::external_body]
pub(crate) fn read_commit(repo: &Repository, id: &String) -> (r: Result<CommitFields, git2::Error>) {
    let commit = repo.find_commit(Oid::from_str(id)?)?;
    let author = commit.author();
    let fields = CommitFields {
        summary: commit.summary().ok().flatten().map(|s| s.to_string()),
        author: author.name().ok().map(|s| s.to_string()),
        time: author.when().seconds(),
        parents: commit.parent_ids().map(|p| p.to_string()).collect(),
    };
    Ok(fields)
}

/// Relies on git2::Repository::find_reference for the commit that the reference with the full
/// name `name` points to, if it points to one.
#[verifier::external_body]
pub(crate) fn find_reference_target(repo: &Repository, name: &str) -> (r: Result<Option<String>, git2::Error>) {
    Ok(repo.find_reference(name)?.target().map(|oid| oid.to_string()))
}

/// Relies on git2::Repository::head for the commit that HEAD points to, if it points to one.
#[verifier::external_body]
pub(crate) fn head_target(repo: &Repository) -> (r: Result<Option<String>, git2::Error>) {
    Ok(repo.head()?.target().map(|oid| oid.to_string()))
}

/// Relies on git2::Repository::head: whether HEAD is a branch, and its short name.
#[verifier::external_body]
pub(crate) fn head_branch(repo: &Repository) -> (r: Result<(bool, Option<String>), git2::Error>) {
    let head = repo.head()?;
    Ok((head.is_branch(), head.shorthand().ok().map(|s| s.to_string())))
}

/// Relies on git2::Repository::branch to create the local branch `name` at the commit of HEAD.
#[verifier::external_body]
pub(crate) fn branch_at_head(repo: &Repository, name: &str) -> (r: Result<(), git2::Error>) {
    let commit = repo.head()?.peel_to_commit()?;
    repo.branch(name, &commit, false)?;
    Ok(())
}

/// Relies on git2::Branch::delete to remove the local branch `name`.
#[verifier::external_body]
pub(crate) fn delete_local_branch(repo: &Repository, name: &str) -> (r: Result<(), git2::Error>) {
    repo.find_branch(name, BranchType::Local)?.delete()
}

/// Relies on git2::Repository::checkout_tree and git2::Repository::set_head to check out the
/// local branch `name` and move HEAD to it.
#[verifier::external_body]
pub(crate) fn checkout_local_branch(repo: &Repository, name: &str) -> (r: Result<(), git2::Error>) {
    let branch = repo.find_branch(name, BranchType::Local)?;
    let reference = branch.get();
    let commit = reference.peel_to_commit()?;
    repo.checkout_tree(commit.as_object(), None)?;
    repo.set_head(reference.name()?)
}

/// Relies on git2::Error::code to tell a missing object or an unborn branch from other failures.
#[verifier::external_body]
pub(crate) fn failure_code(e: &git2::Error) -> (r: FailureCode) {
    match e.code() {
        ErrorCode::NotFound => FailureCode::NotFound,
        ErrorCode::UnbornBranch => FailureCode::UnbornBranch,
        _ => FailureCode::Other,
    }
}

/// Relies on git2::Error::message for the text of a failure.
#[verifier::external_body]
pub(crate) fn failure_message(e: &git2::Error) -> (r: String) {
    e.message().to_string()
}

} // verus!
