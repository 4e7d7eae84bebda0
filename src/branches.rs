use vstd::prelude::*;
use git2::Repository;
use crate::errors::{branch_error, read_failure, store_error, GitError, StoreFailure};
use crate::git::{branch_at_head, checkout_local_branch, delete_local_branch, head_branch, BranchEntry, FailureCode};
use crate::repository::{all_branch_entries, locals_first, name_fails, some_name_fails, text_or_empty, unreadable_name_error};

verus! {

/// A branch by name, and whether it is remote-tracking.
pub struct BranchInfo {
    pub name: String,
    pub is_remote: bool,
}

/// Creates the local branch `branch_name` at the commit of HEAD.
pub fn create_branch(repo: &Repository, branch_name: &str) -> (r: Result<(), GitError>)
    ensures
        r matches Err(e) ==> e matches GitError::Store(_),
{
    match branch_at_head(repo, branch_name) {
        Ok(()) => Ok(()),
        Err(e) => Err(store_error(read_failure(&e))),
    }
}

/// Deletes the local branch `branch_name`.
pub fn delete_branch(repo: &Repository, branch_name: &str) -> (r: Result<(), GitError>)
    ensures
        r matches Err(e) ==> (e matches GitError::ReferenceNotFound(_) || e matches GitError::Store(_)),
{
    match delete_local_branch(repo, branch_name) {
        Ok(()) => Ok(()),
        Err(e) => Err(branch_error(read_failure(&e))),
    }
}

/// Checks out the local branch `branch_name` and moves HEAD to it.
pub fn checkout_branch(repo: &Repository, branch_name: &str) -> (r: Result<(), GitError>)
    ensures
        r matches Err(e) ==> (e matches GitError::ReferenceNotFound(_) || e matches GitError::Store(_)),
{
    match checkout_local_branch(repo, branch_name) {
        Ok(()) => Ok(()),
        Err(e) => Err(branch_error(read_failure(&e))),
    }
}

/// The name and the scope of each branch listed, in order; a name that cannot be read is empty.
pub fn branch_infos(entries: &Vec<BranchEntry>) -> (r: Vec<BranchInfo>)
    ensures
        r@.len() == entries@.len(),
        forall|i: int| 0 <= i < r@.len() ==> (#[trigger] r@[i]).name@ == text_or_empty(entries@[i].name)
            && r@[i].is_remote == entries@[i].is_remote,
{
    let mut r: Vec<BranchInfo> = Vec::new();
    let mut i: usize = 0;
    while i < entries.len()
        invariant
            i <= entries@.len(),
            r@.len() == i,
            forall|k: int| 0 <= k < i ==> (#[trigger] r@[k]).name@ == text_or_empty(entries@[k].name)
                && r@[k].is_remote == entries@[k].is_remote,
        decreases entries.len() - i,
    {
        let name = match &entries[i].name {
            Some(n) => n.clone(),
            None => String::new(),
        };
        r.push(BranchInfo { name, is_remote: entries[i].is_remote });
        i += 1;
    }
    r
}

/// `infos` describes, index by index, the branches `es`.
pub open spec fn describes(infos: Seq<BranchInfo>, es: Seq<BranchEntry>) -> bool {
    &&& infos.len() == es.len()
    &&& forall|i: int| 0 <= i < infos.len() ==> (#[trigger] infos[i]).name@ == text_or_empty(es[i].name)
        && infos[i].is_remote == es[i].is_remote
}

/// `infos` describes a listing of the branches, locals first, whose names could all be read.
pub open spec fn branch_listing(infos: Seq<BranchInfo>) -> bool {
    exists|es: Seq<BranchEntry>|
        locals_first(es) && (forall|j: int| 0 <= j < es.len() ==> !name_fails(#[trigger] es[j], false))
            && describes(infos, es)
}

/// All local branches, then all remote-tracking ones.
pub fn list_all_branches(repo: &Repository) -> (r: Result<Vec<BranchInfo>, GitError>)
    ensures
        r matches Ok(v) ==> branch_listing(v@),
        r matches Ok(v) ==> forall|i: int, j: int| 0 <= i < j < v@.len() && (#[trigger] v@[i]).is_remote
            ==> (#[trigger] v@[j]).is_remote,
        r matches Err(e) ==> e matches GitError::Store(_),
{
    match all_branch_entries(repo) {
        Ok(entries) => {
            if some_name_fails(&entries, false) {
                return Err(unreadable_name_error());
            }
            let infos = branch_infos(&entries);
            proof {
                assert(describes(infos@, entries@));
                assert(branch_listing(infos@));
                assert forall|i: int, j: int| 0 <= i < j < infos@.len() && (#[trigger] infos@[i]).is_remote
                    implies (#[trigger] infos@[j]).is_remote by {
                    assert(entries@[i].is_remote);
                    assert(locals_first(entries@));
                    assert(entries@[j].is_remote);
                }
            }
            Ok(infos)
        },
        Err(e) => Err(e),
    }
}

/// The current branch, given what reading HEAD gave: whether it is a branch and its short
/// name, or the failure.
pub fn current_branch_from(head: Result<(bool, Option<String>), StoreFailure>) -> (r: Result<String, GitError>)
    ensures
        head matches Ok((true, Some(n))) ==> r == Ok::<String, GitError>(n),
        head matches Ok((is_branch, name)) && !(is_branch && name is Some)
            ==> r == Err::<String, GitError>(GitError::NotOnABranch),
        head matches Err(f) ==> (
            if f.code == FailureCode::UnbornBranch {
                r == Err::<String, GitError>(GitError::NotOnABranch)
            } else {
                r == Err::<String, GitError>(GitError::Store(f.message))
            }
        ),
{
    match head {
        Ok((true, Some(n))) => Ok(n),
        Ok(_) => Err(GitError::NotOnABranch),
        Err(f) => {
            if f.code == FailureCode::UnbornBranch {
                Err(GitError::NotOnABranch)
            } else {
                Err(store_error(f))
            }
        },
    }
}

/// The short name of the branch that HEAD is on.
pub fn get_current_branch(repo: &Repository) -> (r: Result<String, GitError>)
    ensures
        r matches Err(e) ==> (e matches GitError::NotOnABranch || e matches GitError::Store(_)),
{
    let head = match head_branch(repo) {
        Ok(h) => Ok(h),
        Err(e) => Err(read_failure(&e)),
    };
    current_branch_from(head)
}

} // verus!
