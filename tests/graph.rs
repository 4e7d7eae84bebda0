use gitly_git::branches::{branch_infos, current_branch_from};
use gitly_git::errors::{open_error, GitError, StoreFailure};
use gitly_git::git::{BranchEntry, CommitFields, FailureCode};
use gitly_git::graph::{assemble_graph, branch_names_at};
use gitly_git::repository::{
    commit_info_from, join_scopes, local_ref_name, some_name_fails, start_commit, tip_ids, tips_of, CommitGraphNode,
    CommitInfo,
};

fn record(id: &str, time: i64, parents: &[&str]) -> CommitInfo {
    CommitInfo {
        id: id.to_string(),
        message: format!("commit {}", id),
        author: "dev".to_string(),
        time,
        parents: parents.iter().map(|p| p.to_string()).collect(),
    }
}

fn tip(id: &str, name: &str) -> (String, String) {
    (id.to_string(), name.to_string())
}

fn sorted_names(node: &CommitGraphNode) -> Vec<String> {
    let mut v = node.branches.clone();
    v.sort();
    v
}

#[test]
fn empty_repository_gives_empty_graph() {
    let nodes = assemble_graph(&Vec::new(), &Vec::new());
    assert!(nodes.is_empty());
}

#[test]
fn single_root_commit_on_main() {
    let refs = vec![tip("c1", "main")];
    let walked = vec![record("c1", 100, &[])];
    let nodes = assemble_graph(&refs, &walked);
    assert_eq!(nodes.len(), 1);
    assert_eq!(nodes[0].id, "c1");
    assert!(nodes[0].parents.is_empty());
    assert_eq!(nodes[0].branches, vec!["main".to_string()]);
    assert_eq!(nodes[0].message, "commit c1");
    assert_eq!(nodes[0].author, "dev");
    assert_eq!(nodes[0].time, 100);
}

#[test]
fn two_branches_on_one_commit() {
    let refs = vec![tip("c1", "main"), tip("c1", "feature")];
    let walked = vec![record("c1", 100, &[]), record("c1", 100, &[])];
    let nodes = assemble_graph(&refs, &walked);
    assert_eq!(nodes.len(), 1);
    assert_eq!(sorted_names(&nodes[0]), vec!["feature".to_string(), "main".to_string()]);
}

#[test]
fn diverging_branches_share_a_root() {
    let refs = vec![tip("c2", "main"), tip("c3", "feature")];
    let walked = vec![record("c3", 300, &["c1"]), record("c2", 200, &["c1"]), record("c1", 100, &[])];
    let nodes = assemble_graph(&refs, &walked);
    let ids: Vec<&str> = nodes.iter().map(|n| n.id.as_str()).collect();
    assert_eq!(ids, vec!["c3", "c2", "c1"]);
    assert_eq!(nodes[0].branches, vec!["feature".to_string()]);
    assert_eq!(nodes[1].branches, vec!["main".to_string()]);
    assert!(nodes[2].branches.is_empty());
    assert_eq!(nodes[0].parents, vec!["c1".to_string()]);
}

#[test]
fn walk_order_does_not_decide_graph_order() {
    let refs = vec![tip("c2", "main"), tip("c3", "feature")];
    let walked = vec![record("c1", 100, &[]), record("c2", 200, &["c1"]), record("c3", 300, &["c1"])];
    let nodes = assemble_graph(&refs, &walked);
    let times: Vec<i64> = nodes.iter().map(|n| n.time).collect();
    assert_eq!(times, vec![300, 200, 100]);
}

#[test]
fn repeated_commits_appear_once() {
    let refs = vec![tip("b", "x"), tip("c", "y")];
    let walked = vec![
        record("b", 50, &["a"]),
        record("a", 10, &[]),
        record("c", 60, &["a"]),
        record("a", 10, &[]),
    ];
    let nodes = assemble_graph(&refs, &walked);
    let mut ids: Vec<String> = nodes.iter().map(|n| n.id.clone()).collect();
    ids.sort();
    assert_eq!(ids, vec!["a".to_string(), "b".to_string(), "c".to_string()]);
}

#[test]
fn building_twice_gives_the_same_nodes() {
    let refs = vec![tip("c2", "main"), tip("c2", "origin/main"), tip("c1", "old")];
    let walked = vec![record("c2", 20, &["c1"]), record("c1", 10, &[])];
    let a = assemble_graph(&refs, &walked);
    let b = assemble_graph(&refs, &walked);
    assert_eq!(a.len(), b.len());
    for (x, y) in a.iter().zip(b.iter()) {
        assert_eq!(x.id, y.id);
        assert_eq!(x.time, y.time);
        assert_eq!(x.parents, y.parents);
        assert_eq!(sorted_names(x), sorted_names(y));
    }
}

#[test]
fn branch_names_are_listed_once() {
    let refs = vec![tip("c1", "main"), tip("c2", "dev"), tip("c1", "main"), tip("c1", "topic")];
    let names = branch_names_at(&refs, &"c1".to_string());
    assert_eq!(names, vec!["main".to_string(), "topic".to_string()]);
    let none = branch_names_at(&refs, &"c9".to_string());
    assert!(none.is_empty());
}

#[test]
fn equal_times_keep_walk_order() {
    let walked = vec![record("p", 5, &[]), record("q", 5, &[])];
    let nodes = assemble_graph(&Vec::new(), &walked);
    assert_eq!(nodes[0].id, "p");
    assert_eq!(nodes[1].id, "q");
}

#[test]
fn unborn_tips_are_skipped() {
    let entries = vec![
        BranchEntry { tip: Some("c1".to_string()), name_readable: true, name: Some("main".to_string()), is_remote: false },
        BranchEntry { tip: None, name_readable: true, name: Some("empty".to_string()), is_remote: false },
        BranchEntry { tip: Some("c2".to_string()), name_readable: true, name: None, is_remote: true },
    ];
    let refs = tips_of(&entries);
    assert_eq!(refs, vec![tip("c1", "main"), tip("c2", "")]);
    let infos = branch_infos(&entries);
    assert_eq!(infos.len(), 3);
    assert_eq!(infos[1].name, "empty");
    assert_eq!(infos[2].name, "");
    assert!(infos[2].is_remote);
    assert!(!infos[0].is_remote);
}

#[test]
fn missing_branch_is_reference_not_found() {
    let failure = StoreFailure { code: FailureCode::NotFound, message: "no such ref".to_string() };
    assert_eq!(start_commit(true, Err(failure)), Err(GitError::ReferenceNotFound("no such ref".to_string())));
}

#[test]
fn unborn_head_is_invalid_reference() {
    let failure = StoreFailure { code: FailureCode::UnbornBranch, message: "unborn".to_string() };
    assert_eq!(start_commit(false, Err(failure)), Err(GitError::InvalidReference));
    assert_eq!(start_commit(false, Ok(None)), Err(GitError::InvalidReference));
    assert_eq!(start_commit(false, Ok(Some("abc".to_string()))), Ok("abc".to_string()));
    let other = StoreFailure { code: FailureCode::Other, message: "io".to_string() };
    assert_eq!(start_commit(true, Err(other)), Err(GitError::Store("io".to_string())));
}

#[test]
fn current_branch_cases() {
    assert_eq!(current_branch_from(Ok((true, Some("main".to_string())))), Ok("main".to_string()));
    assert_eq!(current_branch_from(Ok((false, Some("HEAD".to_string())))), Err(GitError::NotOnABranch));
    let unborn = StoreFailure { code: FailureCode::UnbornBranch, message: "unborn".to_string() };
    assert_eq!(current_branch_from(Err(unborn)), Err(GitError::NotOnABranch));
    let other = StoreFailure { code: FailureCode::Other, message: "bad".to_string() };
    assert_eq!(current_branch_from(Err(other)), Err(GitError::Store("bad".to_string())));
}

#[test]
fn missing_store_is_repository_not_found() {
    let f = StoreFailure { code: FailureCode::NotFound, message: "none".to_string() };
    assert_eq!(open_error(f), GitError::RepositoryNotFound("none".to_string()));
    let g = StoreFailure { code: FailureCode::Other, message: "perm".to_string() };
    assert_eq!(open_error(g), GitError::Store("perm".to_string()));
}

#[test]
fn missing_fields_read_as_empty() {
    let fields = CommitFields { summary: None, author: Some("ann".to_string()), time: -5, parents: vec!["p".to_string()] };
    let info = commit_info_from("id1".to_string(), fields);
    assert_eq!(info.message, "");
    assert_eq!(info.author, "ann");
    assert_eq!(info.time, -5);
    assert_eq!(info.parents, vec!["p".to_string()]);
    assert_eq!(GitError::NotOnABranch.describe(), "Not currently on a branch");
}

fn entry(tip: Option<&str>, readable: bool, remote: bool) -> BranchEntry {
    BranchEntry {
        tip: tip.map(|t| t.to_string()),
        name_readable: readable,
        name: if readable { Some("b".to_string()) } else { None },
        is_remote: remote,
    }
}

#[test]
fn scopes_join_locals_first() {
    let joined = join_scopes(Ok(vec![entry(Some("a"), true, false)]), Ok(vec![entry(Some("b"), true, true)])).unwrap();
    assert_eq!(joined.len(), 2);
    assert!(!joined[0].is_remote);
    assert!(joined[1].is_remote);
    let failed = StoreFailure { code: FailureCode::Other, message: "remote list".to_string() };
    assert_eq!(
        join_scopes(Ok(vec![entry(Some("a"), true, false)]), Err(failed)).err(),
        Some(GitError::Store("remote list".to_string()))
    );
    let failed = StoreFailure { code: FailureCode::Other, message: "local list".to_string() };
    assert_eq!(join_scopes(Err(failed), Ok(Vec::new())).err(), Some(GitError::Store("local list".to_string())));
}

#[test]
fn unreadable_names_are_found() {
    let entries = vec![entry(Some("a"), true, false), entry(None, false, false)];
    assert!(!some_name_fails(&entries, true));
    assert!(some_name_fails(&entries, false));
    let with_tip = vec![entry(Some("a"), false, true)];
    assert!(some_name_fails(&with_tip, true));
    assert!(!some_name_fails(&Vec::new(), false));
}

#[test]
fn local_branch_reference_names() {
    assert_eq!(local_ref_name("main"), "refs/heads/main");
    assert_eq!(local_ref_name("feature/x"), "refs/heads/feature/x");
}

#[test]
fn walk_starts_at_every_tip() {
    let refs = vec![tip("c1", "main"), tip("c2", "dev"), tip("c1", "other")];
    assert_eq!(tip_ids(&refs), vec!["c1".to_string(), "c2".to_string(), "c1".to_string()]);
}

#[test]
fn every_failure_has_a_description() {
    assert_eq!(GitError::InvalidReference.describe(), "Invalid reference");
    assert_eq!(GitError::ReferenceNotFound("gone".to_string()).describe(), "gone");
    assert_eq!(GitError::RepositoryNotFound("none".to_string()).describe(), "none");
    assert_eq!(GitError::Store("io".to_string()).describe(), "io");
}
