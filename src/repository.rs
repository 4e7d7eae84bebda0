use vstd::prelude::*;
use git2::Repository;
use crate::errors::{open_error, read_failure, store_error, GitError, StoreFailure};
use crate::git::{
    branch_entries, find_reference_target, head_target, init_repository, open_repository, read_commit,
    walk_ancestry, BranchEntry, CommitFields, FailureCode,
};
use vstd::string::StringExecFns;
use crate::graph::{assemble_graph, ids_distinct, is_graph_of, newest_first};

verus! {

/// One commit as the history of a single branch shows it.
pub struct CommitInfo {
    pub id: String,
    pub message: String,
    pub author: String,
    pub time: i64,
    pub parents: Vec<String>,
}

/// A commit of the graph over all branches, with the names of the branches whose tip it is.
pub struct CommitGraphNode {
    pub id: String,
    pub message: String,
    pub author: String,
    pub time: i64,
    pub parents: Vec<String>,
    pub branches: Vec<String>,
}

/// The text of an optional field of a commit; a missing one reads as empty.
pub open spec fn text_or_empty(s: Option<String>) -> Seq<char> {
    match s {
        Some(t) => t@,
        None => Seq::empty(),
    }
}

/// The text of an optional field, or the empty string.
pub fn or_empty(s: Option<String>) -> (r: String)
    ensures
        r@ == text_or_empty(s),
{
    match s {
        Some(t) => t,
        None => String::new(),
    }
}

/// The record of the commit `id` from what the store holds of it.
pub fn commit_info_from(id: String, fields: CommitFields) -> (r: CommitInfo)
    ensures
        r.id == id,
        r.message@ == text_or_empty(fields.summary),
        r.author@ == text_or_empty(fields.author),
        r.time == fields.time,
        r.parents == fields.parents,
{
    CommitInfo {
        id,
        message: or_empty(fields.summary),
        author: or_empty(fields.author),
        time: fields.time,
        parents: fields.parents,
    }
}

/// Whether a repository can be opened at `path`.
pub fn is_git_repo(path: &str) -> (r: bool) {
    open_repository(path).is_ok()
}

/// Opens the repository at `path`.
pub fn open_repo(path: &str) -> (r: Result<Repository, GitError>)
    ensures
        r matches Err(e) ==> (e matches GitError::RepositoryNotFound(_) || e matches GitError::Store(_)),
{
    match open_repository(path) {
        Ok(repo) => Ok(repo),
        Err(e) => Err(open_error(read_failure(&e))),
    }
}

/// Creates a repository at `path`.
pub fn init_git_repo(path: &str) -> (r: Result<(), GitError>)
    ensures
        r matches Err(e) ==> e matches GitError::Store(_),
{
    match init_repository(path) {
        Ok(_) => Ok(()),
        Err(e) => Err(store_error(read_failure(&e))),
    }
}

/// The commit to walk from, given what looking up the reference gave: its target, or the
/// failure. `named` says whether a branch was named (else HEAD was looked up).
pub fn start_commit(named: bool, lookup: Result<Option<String>, StoreFailure>) -> (r: Result<String, GitError>)
    ensures
        lookup matches Ok(Some(id)) ==> r == Ok::<String, GitError>(id),
        lookup matches Ok(None) ==> r == Err::<String, GitError>(GitError::InvalidReference),
        lookup matches Err(f) ==> (
            if named && f.code == FailureCode::NotFound {
                r == Err::<String, GitError>(GitError::ReferenceNotFound(f.message))
            } else if !named && f.code != FailureCode::Other {
                r == Err::<String, GitError>(GitError::InvalidReference)
            } else {
                r == Err::<String, GitError>(GitError::Store(f.message))
            }
        ),
{
    match lookup {
        Ok(Some(id)) => Ok(id),
        Ok(None) => Err(GitError::InvalidReference),
        Err(f) => {
            if named && f.code == FailureCode::NotFound {
                Err(GitError::ReferenceNotFound(f.message))
            } else if !named && f.code != FailureCode::Other {
                Err(GitError::InvalidReference)
            } else {
                Err(GitError::Store(f.message))
            }
        },
    }
}

/// `c` is the record of commit `id` built from the stored fields `f`, as `commit_info_from` builds it.
pub open spec fn built_from(c: CommitInfo, id: String, f: CommitFields) -> bool {
    &&& c.id == id
    &&& c.message@ == text_or_empty(f.summary)
    &&& c.author@ == text_or_empty(f.author)
    &&& c.time == f.time
    &&& c.parents == f.parents
}

/// `cs` holds, index by index, the records of the commits `ids` built from the stored fields `fs`.
pub open spec fn read_from(cs: Seq<CommitInfo>, ids: Seq<String>, fs: Seq<CommitFields>) -> bool {
    &&& cs.len() == ids.len()
    &&& fs.len() == ids.len()
    &&& forall|i: int| 0 <= i < ids.len() ==> built_from(#[trigger] cs[i], ids[i], fs[i])
}

/// `cs` holds, index by index, the records of the commits `ids` as the store gave them.
pub open spec fn records_of(cs: Seq<CommitInfo>, ids: Seq<String>) -> bool {
    exists|fs: Seq<CommitFields>| read_from(cs, ids, fs)
}

/// Reads the commits `ids` from the store, in that order; the first failed read ends it.
fn read_records(repo: &Repository, ids: &Vec<String>) -> (r: Result<Vec<CommitInfo>, GitError>)
    ensures
        r matches Ok(cs) ==> records_of(cs@, ids@),
        r matches Err(e) ==> e matches GitError::Store(_),
{
    let mut out: Vec<CommitInfo> = Vec::new();
    let ghost mut fs: Seq<CommitFields> = Seq::empty();
    let mut i: usize = 0;
    while i < ids.len()
        invariant
            i <= ids@.len(),
            read_from(out@, ids@.subrange(0, i as int), fs),
        decreases ids.len() - i,
    {
        let id = ids[i].clone();
        match read_commit(repo, &id) {
            Ok(fields) => {
                let ghost f = fields;
                let ghost before = out@;
                out.push(commit_info_from(id, fields));
                proof {
                    fs = fs.push(f);
                    assert forall|j: int| 0 <= j < i + 1 implies built_from(
                        #[trigger] out@[j],
                        ids@.subrange(0, i + 1)[j],
                        fs[j],
                    ) by {
                        if j < i {
                            assert(out@[j] == before[j]);
                            assert(ids@.subrange(0, i + 1)[j] == ids@.subrange(0, i as int)[j]);
                            assert(built_from(before[j], ids@.subrange(0, i as int)[j], fs[j]));
                        }
                    }
                }
            },
            Err(e) => return Err(store_error(read_failure(&e))),
        }
        i += 1;
    }
    assert(ids@.subrange(0, ids@.len() as int) =~= ids@);
    Ok(out)
}

/// The full name of the local branch `name`.
pub fn local_ref_name(name: &str) -> (r: String)
    ensures
        r@ == "refs/heads/"@ + name@,
{
    String::from_str("refs/heads/").concat(name)
}

/// The commits reachable from the named local branch, or from HEAD when no branch is named,
/// in the order of the walk.
pub fn list_commits(repo: &Repository, branch: Option<&str>) -> (r: Result<Vec<CommitInfo>, GitError>)
    ensures
        r matches Ok(cs) ==> exists|ids: Seq<String>| records_of(cs@, ids),
        r matches Err(GitError::ReferenceNotFound(_)) ==> branch is Some,
        r matches Err(GitError::NotOnABranch) ==> false,
        r matches Err(GitError::RepositoryNotFound(_)) ==> false,
{
    let found = match branch {
        Some(name) => {
            let full = local_ref_name(name);
            find_reference_target(repo, full.as_str())
        },
        None => head_target(repo),
    };
    let lookup = match found {
        Ok(t) => Ok(t),
        Err(e) => Err(read_failure(&e)),
    };
    let start = match start_commit(branch.is_some(), lookup) {
        Ok(id) => id,
        Err(e) => return Err(e),
    };
    let tips = vec![start];
    match walk_ancestry(repo, &tips) {
        Ok(ids) => {
            let r = read_records(repo, &ids);
            assert(r matches Ok(cs) ==> records_of(cs@, ids@));
            r
        },
        Err(e) => Err(store_error(read_failure(&e))),
    }
}

/// `pair` is the tip and the name of branch `e`.
pub open spec fn entry_gives(e: BranchEntry, pair: (String, String)) -> bool {
    e.tip == Some(pair.0) && pair.1@ == text_or_empty(e.name)
}

/// Some branch among the first `n` of `entries` gives `pair`.
pub open spec fn given_by_some(entries: Seq<BranchEntry>, n: int, pair: (String, String)) -> bool {
    exists|j: int| 0 <= j < n && entry_gives(entries[j], pair)
}

/// Some pair of `pairs` is given by the branch `e`.
pub open spec fn listed(pairs: Seq<(String, String)>, e: BranchEntry) -> bool {
    exists|i: int| 0 <= i < pairs.len() && entry_gives(e, pairs[i])
}

/// The tip and the name of each branch that has a tip; a name that cannot be read is empty.
pub fn tips_of(entries: &Vec<BranchEntry>) -> (r: Vec<(String, String)>)
    ensures
        forall|i: int| 0 <= i < r@.len() ==> given_by_some(entries@, entries@.len() as int, #[trigger] r@[i]),
        forall|j: int| 0 <= j < entries@.len() && (#[trigger] entries@[j]).tip is Some ==> listed(r@, entries@[j]),
{
    let mut r: Vec<(String, String)> = Vec::new();
    let mut j: usize = 0;
    while j < entries.len()
        invariant
            j <= entries@.len(),
            forall|i: int| 0 <= i < r@.len() ==> given_by_some(entries@, j as int, #[trigger] r@[i]),
            forall|k: int| 0 <= k < j && (#[trigger] entries@[k]).tip is Some ==> listed(r@, entries@[k]),
        decreases entries.len() - j,
    {
        let entry = &entries[j];
        match &entry.tip {
            Some(tip) => {
                let name = match &entry.name {
                    Some(n) => n.clone(),
                    None => String::new(),
                };
                let ghost before = r@;
                r.push((tip.clone(), name));
                proof {
                    assert(entry_gives(entries@[j as int], r@[before.len() as int]));
                    assert forall|i: int| 0 <= i < r@.len() implies given_by_some(entries@, j + 1, #[trigger] r@[i]) by {
                        if i < before.len() {
                            assert(r@[i] == before[i]);
                            assert(given_by_some(entries@, j as int, before[i]));
                            let k = choose|k: int| 0 <= k < j && entry_gives(entries@[k], before[i]);
                            assert(entry_gives(entries@[k], r@[i]));
                        } else {
                            assert(entry_gives(entries@[j as int], r@[i]));
                        }
                    }
                    assert forall|k: int| 0 <= k < j + 1 && (#[trigger] entries@[k]).tip is Some implies listed(r@, entries@[k]) by {
                        if k < j {
                            assert(listed(before, entries@[k]));
                            let i = choose|i: int| 0 <= i < before.len() && entry_gives(entries@[k], before[i]);
                            assert(r@[i] == before[i]);
                        } else {
                            assert(entry_gives(entries@[k], r@[before.len() as int]));
                        }
                    }
                }
            },
            None => {
                proof {
                    assert forall|i: int| 0 <= i < r@.len() implies given_by_some(entries@, j + 1, #[trigger] r@[i]) by {
                        assert(given_by_some(entries@, j as int, r@[i]));
                        let k = choose|k: int| 0 <= k < j && entry_gives(entries@[k], r@[i]);
                    }
                }
            },
        }
        j += 1;
    }
    r
}

/// Every branch listed before a remote-tracking one is remote-tracking too: locals come first.
pub open spec fn locals_first(es: Seq<BranchEntry>) -> bool {
    forall|i: int, j: int| 0 <= i < j < es.len() && (#[trigger] es[i]).is_remote ==> (#[trigger] es[j]).is_remote
}

/// All branches of one scope.
pub open spec fn all_in_scope(es: Seq<BranchEntry>, remote: bool) -> bool {
    forall|i: int| 0 <= i < es.len() ==> (#[trigger] es[i]).is_remote == remote
}

/// The branches of both scopes, given what listing each gave: the local ones, then the
/// remote-tracking ones; the first failure, if either listing failed.
pub fn join_scopes(
    local: Result<Vec<BranchEntry>, StoreFailure>,
    remote: Result<Vec<BranchEntry>, StoreFailure>,
) -> (r: Result<Vec<BranchEntry>, GitError>)
    ensures
        local is Ok && remote is Ok ==> r is Ok && r->Ok_0@ == local->Ok_0@ + remote->Ok_0@,
        local matches Err(f) ==> r == Err::<Vec<BranchEntry>, GitError>(GitError::Store(f.message)),
        local is Ok && remote is Err ==> r == Err::<Vec<BranchEntry>, GitError>(
            GitError::Store(remote->Err_0.message),
        ),
{
    match local {
        Err(f) => Err(store_error(f)),
        Ok(mut l) => match remote {
            Err(f) => Err(store_error(f)),
            Ok(mut m) => {
                l.append(&mut m);
                Ok(l)
            },
        },
    }
}

/// Reads the branches of both scopes, local first.
pub(crate) fn all_branch_entries(repo: &Repository) -> (r: Result<Vec<BranchEntry>, GitError>)
    ensures
        r matches Ok(es) ==> locals_first(es@),
        r matches Err(e) ==> e matches GitError::Store(_),
{
    let local = match branch_entries(repo, false) {
        Ok(v) => Ok(v),
        Err(e) => Err(read_failure(&e)),
    };
    let ghost lv = local;
    let remote = match branch_entries(repo, true) {
        Ok(v) => Ok(v),
        Err(e) => Err(read_failure(&e)),
    };
    let ghost mv = remote;
    let r = join_scopes(local, remote);
    proof {
        if r is Ok {
            let es = r->Ok_0;
            let l = lv->Ok_0@;
            let m = mv->Ok_0@;
            assert(all_in_scope(l, false));
            assert(all_in_scope(m, true));
            assert forall|i: int, j: int| 0 <= i < j < es@.len() && (#[trigger] es@[i]).is_remote
                implies (#[trigger] es@[j]).is_remote by {
                if i < l.len() {
                    assert(es@[i] == l[i]);
                } else {
                    assert(es@[j] == m[j - l.len()]);
                }
            }
        }
    }
    r
}

/// A branch whose name cannot be read, among those that `only_tips` restricts to branches with a tip.
pub open spec fn name_fails(e: BranchEntry, only_tips: bool) -> bool {
    !e.name_readable && (e.tip is Some || !only_tips)
}

/// Whether some branch of `entries` (with a tip, where `only_tips`) has a name that cannot be read.
pub fn some_name_fails(entries: &Vec<BranchEntry>, only_tips: bool) -> (r: bool)
    ensures
        r == exists|j: int| 0 <= j < entries@.len() && name_fails(#[trigger] entries@[j], only_tips),
{
    let mut j: usize = 0;
    while j < entries.len()
        invariant
            j <= entries@.len(),
            forall|k: int| 0 <= k < j ==> !name_fails(#[trigger] entries@[k], only_tips),
        decreases entries.len() - j,
    {
        if !entries[j].name_readable && (entries[j].tip.is_some() || !only_tips) {
            return true;
        }
        j += 1;
    }
    false
}

/// The failure for a branch name that is not valid UTF-8.
pub fn unreadable_name_error() -> (r: GitError)
    ensures
        r matches GitError::Store(_),
{
    GitError::Store(String::from_str("branch name is not valid UTF-8"))
}

/// The tip of each pair of `refs`, in order: the starting points of the walk.
pub fn tip_ids(refs: &Vec<(String, String)>) -> (r: Vec<String>)
    ensures
        r@.len() == refs@.len(),
        forall|k: int| 0 <= k < refs@.len() ==> #[trigger] r@[k] == refs@[k].0,
{
    let mut tips: Vec<String> = Vec::new();
    let mut i: usize = 0;
    while i < refs.len()
        invariant
            i <= refs@.len(),
            tips@.len() == i,
            forall|k: int| 0 <= k < i ==> #[trigger] tips@[k] == refs@[k].0,
        decreases refs.len() - i,
    {
        tips.push(refs[i].0.clone());
        i += 1;
    }
    tips
}

/// `refs` holds the tip and the name of exactly the branches of `es` that have a tip.
pub open spec fn tips_from(es: Seq<BranchEntry>, refs: Seq<(String, String)>) -> bool {
    &&& forall|i: int| 0 <= i < refs.len() ==> given_by_some(es, es.len() as int, #[trigger] refs[i])
    &&& forall|j: int| 0 <= j < es.len() && (#[trigger] es[j]).tip is Some ==> listed(refs, es[j])
}

/// `nodes` is the graph of the listed branches `es`: built from the records `walked` of the
/// commits `ids` that the walk from their tips `tips` produced.
pub open spec fn graph_from_branches(
    nodes: Seq<CommitGraphNode>,
    es: Seq<BranchEntry>,
    tips: Seq<String>,
    ids: Seq<String>,
) -> bool {
    exists|refs: Seq<(String, String)>, walked: Seq<CommitInfo>|
        tips_from(es, refs) && tips.len() == refs.len()
            && (forall|k: int| 0 <= k < refs.len() ==> #[trigger] tips[k] == refs[k].0)
            && records_of(walked, ids) && is_graph_of(nodes, refs, walked)
}

/// `nodes` is the graph of some listing of the branches, locals first, with every name of a
/// branch with a tip readable, walked from exactly their tips.
pub open spec fn graph_of_listing(nodes: Seq<CommitGraphNode>) -> bool {
    exists|es: Seq<BranchEntry>, tips: Seq<String>, ids: Seq<String>|
        locals_first(es) && (forall|j: int| 0 <= j < es.len() ==> !name_fails(#[trigger] es[j], true))
            && graph_from_branches(nodes, es, tips, ids)
}

/// All commits reachable from any local or remote-tracking branch, each once, with the names
/// of the branches whose tip it is, most recent first.
pub fn list_all_commits_with_refs(repo: &Repository) -> (r: Result<Vec<CommitGraphNode>, GitError>)
    ensures
        r matches Ok(nodes) ==> ids_distinct(nodes@) && newest_first(nodes@) && graph_of_listing(nodes@),
        r matches Err(e) ==> e matches GitError::Store(_),
{
    let entries = match all_branch_entries(repo) {
        Ok(v) => v,
        Err(e) => return Err(e),
    };
    if some_name_fails(&entries, true) {
        return Err(unreadable_name_error());
    }
    let refs = tips_of(&entries);
    let tips = tip_ids(&refs);
    let ids = match walk_ancestry(repo, &tips) {
        Ok(ids) => ids,
        Err(e) => return Err(store_error(read_failure(&e))),
    };
    let walked = match read_records(repo, &ids) {
        Ok(cs) => cs,
        Err(e) => return Err(e),
    };
    let nodes = assemble_graph(&refs, &walked);
    proof {
        let rs = refs@;
        let ws = walked@;
        assert(tips_from(entries@, rs));
        assert(is_graph_of(nodes@, rs, ws));
        assert(graph_from_branches(nodes@, entries@, tips@, ids@));
        assert(graph_of_listing(nodes@));
    }
    Ok(nodes)
}

} // verus!
