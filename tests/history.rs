use git2::{Commit, Oid, Repository, Signature, Time};
use gitly_git::branches::{checkout_branch, create_branch, delete_branch, get_current_branch, list_all_branches};
use gitly_git::errors::GitError;
use gitly_git::repository::{init_git_repo, list_all_commits_with_refs, list_commits, open_repo};

fn commit_at(repo: &Repository, message: &str, time: i64, parents: &[&Commit]) -> Oid {
    let sig = Signature::new("dev", "dev@example.com", &Time::new(time, 0)).unwrap();
    let tree_id = repo.index().unwrap().write_tree().unwrap();
    let tree = repo.find_tree(tree_id).unwrap();
    repo.commit(None, &sig, &sig, message, &tree, parents).unwrap()
}

fn point(repo: &Repository, branch: &str, id: Oid) {
    repo.reference(&format!("refs/heads/{}", branch), id, true, "test").unwrap();
}

fn fresh(path: &str) -> Repository {
    init_git_repo(path).unwrap();
    Repository::open(path).unwrap()
}

#[test]
fn one_branch_on_a_root_commit() {
    let path = "/tmp/gitly_git_tests_single_root";
    let repo = fresh(path);
    let c1 = commit_at(&repo, "root", 100, &[]);
    point(&repo, "main", c1);
    let nodes = list_all_commits_with_refs(&open_repo(path).unwrap()).unwrap();
    assert_eq!(nodes.len(), 1);
    assert_eq!(nodes[0].id, c1.to_string());
    assert!(nodes[0].parents.is_empty());
    assert_eq!(nodes[0].branches, vec!["main".to_string()]);
    assert_eq!(nodes[0].message, "root");
    assert_eq!(nodes[0].author, "dev");
    assert_eq!(nodes[0].time, 100);
}

#[test]
fn two_branches_share_a_commit() {
    let path = "/tmp/gitly_git_tests_shared_tip";
    let repo = fresh(path);
    let c1 = commit_at(&repo, "root", 100, &[]);
    point(&repo, "main", c1);
    point(&repo, "feature", c1);
    let nodes = list_all_commits_with_refs(&open_repo(path).unwrap()).unwrap();
    assert_eq!(nodes.len(), 1);
    let mut names = nodes[0].branches.clone();
    names.sort();
    assert_eq!(names, vec!["feature".to_string(), "main".to_string()]);
    let mut branches: Vec<String> = list_all_branches(&repo).unwrap().into_iter().map(|b| b.name).collect();
    branches.sort();
    assert_eq!(branches, vec!["feature".to_string(), "main".to_string()]);
}

#[test]
fn diverging_branches_in_a_repository() {
    let path = "/tmp/gitly_git_tests_diverging";
    let repo = fresh(path);
    let c1 = commit_at(&repo, "root", 100, &[]);
    let first = repo.find_commit(c1).unwrap();
    let c2 = commit_at(&repo, "on main", 200, &[&first]);
    let c3 = commit_at(&repo, "on feature", 300, &[&first]);
    point(&repo, "main", c2);
    point(&repo, "feature", c3);
    let nodes = list_all_commits_with_refs(&open_repo(path).unwrap()).unwrap();
    let ids: Vec<String> = nodes.iter().map(|n| n.id.clone()).collect();
    assert_eq!(ids, vec![c3.to_string(), c2.to_string(), c1.to_string()]);
    assert_eq!(nodes[0].branches, vec!["feature".to_string()]);
    assert_eq!(nodes[1].branches, vec!["main".to_string()]);
    assert!(nodes[2].branches.is_empty());
    assert_eq!(nodes[1].parents, vec![c1.to_string()]);

    let main: Vec<String> = list_commits(&repo, Some("main")).unwrap().into_iter().map(|c| c.id).collect();
    assert_eq!(main, vec![c2.to_string(), c1.to_string()]);

    repo.set_head("refs/heads/feature").unwrap();
    assert_eq!(get_current_branch(&repo), Ok("feature".to_string()));
    let head: Vec<String> = list_commits(&repo, None).unwrap().into_iter().map(|c| c.id).collect();
    assert_eq!(head, vec![c3.to_string(), c1.to_string()]);
}

#[test]
fn branches_are_created_checked_out_and_deleted() {
    let path = "/tmp/gitly_git_tests_branch_edits";
    let repo = fresh(path);
    let c1 = commit_at(&repo, "root", 100, &[]);
    point(&repo, "main", c1);
    repo.set_head("refs/heads/main").unwrap();
    let _ = delete_branch(&repo, "topic");
    assert_eq!(create_branch(&repo, "topic"), Ok(()));
    assert!(list_all_branches(&repo).unwrap().iter().any(|b| b.name == "topic" && !b.is_remote));
    assert_eq!(checkout_branch(&repo, "topic"), Ok(()));
    assert_eq!(get_current_branch(&repo), Ok("topic".to_string()));
    assert_eq!(checkout_branch(&repo, "main"), Ok(()));
    assert_eq!(delete_branch(&repo, "topic"), Ok(()));
    assert!(matches!(delete_branch(&repo, "topic"), Err(GitError::ReferenceNotFound(_))));
    assert!(matches!(checkout_branch(&repo, "absent"), Err(GitError::ReferenceNotFound(_))));
}

#[test]
fn commit_time_is_the_author_time() {
    let path = "/tmp/gitly_git_tests_author_time";
    let repo = fresh(path);
    let author = Signature::new("ann", "ann@example.com", &Time::new(1000, 0)).unwrap();
    let committer = Signature::new("bob", "bob@example.com", &Time::new(5000, 0)).unwrap();
    let tree_id = repo.index().unwrap().write_tree().unwrap();
    let tree = repo.find_tree(tree_id).unwrap();
    let c1 = repo.commit(None, &author, &committer, "authored", &tree, &[]).unwrap();
    point(&repo, "main", c1);
    let nodes = list_all_commits_with_refs(&repo).unwrap();
    assert_eq!(nodes.len(), 1);
    assert_eq!(nodes[0].time, 1000);
    assert_eq!(nodes[0].author, "ann");
    let listed = list_commits(&repo, Some("main")).unwrap();
    assert_eq!(listed[0].time, 1000);
}
