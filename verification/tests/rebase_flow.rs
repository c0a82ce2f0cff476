//! The rebase engine against real repositories on disk.

use asyncgit::error::Error;
use asyncgit::rebase::{
    abort_rebase, conflict_free_rebase, get_rebase_progress, rebase, CommitId, RebaseProgress,
    RebaseState,
};
use git2::{BranchType, Repository};

fn repo_init() -> (tempfile::TempDir, Repository) {
    let td = tempfile::TempDir::new().unwrap();
    let repo = Repository::init(td.path()).unwrap();
    {
        let mut config = repo.config().unwrap();
        config.set_str("user.name", "name").unwrap();
        config.set_str("user.email", "email").unwrap();
    }
    (td, repo)
}

/// Commit whatever the index holds onto `HEAD`.
fn commit_all(repo: &Repository, msg: &str) -> git2::Oid {
    let mut index = repo.index().unwrap();
    let tree_id = index.write_tree().unwrap();
    let tree = repo.find_tree(tree_id).unwrap();
    let sig = repo.signature().unwrap();
    let parent = repo.head().ok().map(|h| h.peel_to_commit().unwrap());
    let parents: Vec<&git2::Commit> = parent.iter().collect();
    repo.commit(Some("HEAD"), &sig, &sig, msg, &tree, &parents)
        .unwrap()
}

/// Stage `content` under `file` straight into the index, commit it, and
/// force-checkout so the working tree matches the new head.
fn write_commit_file(repo: &Repository, file: &str, content: &str, msg: &str) -> git2::Oid {
    let mut index = repo.index().unwrap();
    let entry = git2::IndexEntry {
        ctime: git2::IndexTime::new(0, 0),
        mtime: git2::IndexTime::new(0, 0),
        dev: 0,
        ino: 0,
        mode: 0o100_644,
        uid: 0,
        gid: 0,
        file_size: 0,
        id: git2::Oid::zero(),
        flags: 0,
        flags_extended: 0,
        path: file.as_bytes().to_vec(),
    };
    index.add_frombuffer(&entry, content.as_bytes()).unwrap();
    index.write().unwrap();
    let oid = commit_all(repo, msg);
    let mut co = git2::build::CheckoutBuilder::new();
    co.force();
    repo.checkout_head(Some(&mut co)).unwrap();
    oid
}

/// Create a branch at `HEAD` and switch to it.
fn create_branch(repo: &Repository, name: &str) {
    let head = repo.head().unwrap().peel_to_commit().unwrap();
    repo.branch(name, &head, false).unwrap();
    repo.set_head(&format!("refs/heads/{}", name)).unwrap();
}

fn checkout_branch(repo: &Repository, ref_name: &str) {
    repo.set_head(ref_name).unwrap();
    let mut co = git2::build::CheckoutBuilder::new();
    co.force();
    repo.checkout_head(Some(&mut co)).unwrap();
}

fn annotated_of_branch<'r>(repo: &'r Repository, branch: &str) -> git2::AnnotatedCommit<'r> {
    let b = repo.find_branch(branch, BranchType::Local).unwrap();
    repo.reference_to_annotated_commit(b.get()).unwrap()
}

fn parent_ids(repo: &Repository, c: git2::Oid) -> Vec<git2::Oid> {
    repo.find_commit(c).unwrap().parent_ids().collect()
}

fn oid_of(id: CommitId) -> git2::Oid {
    git2::Oid::from_bytes(&id.raw).unwrap()
}

fn repo_is_rebasing(repo: &Repository) -> bool {
    matches!(
        repo.state(),
        git2::RepositoryState::Rebase
            | git2::RepositoryState::RebaseInteractive
            | git2::RepositoryState::RebaseMerge
    )
}

#[test]
fn test_smoke() {
    let (_td, repo) = repo_init();

    let c1 = write_commit_file(&repo, "test1.txt", "test", "commit1");

    create_branch(&repo, "foo");

    let c2 = write_commit_file(&repo, "test2.txt", "test", "commit2");

    assert_eq!(parent_ids(&repo, c2), vec![c1]);

    checkout_branch(&repo, "refs/heads/master");

    let c3 = write_commit_file(&repo, "test3.txt", "test", "commit3");

    checkout_branch(&repo, "refs/heads/foo");

    let annotated = annotated_of_branch(&repo, "master");
    let r = conflict_free_rebase(&repo, &annotated).unwrap();

    assert_eq!(parent_ids(&repo, oid_of(r)), vec![c3]);
}

#[test]
fn test_conflicted_abort() {
    let (_td, repo) = repo_init();

    write_commit_file(&repo, "test.txt", "test1", "commit1");

    create_branch(&repo, "foo");

    write_commit_file(&repo, "test.txt", "test2", "commit2");

    checkout_branch(&repo, "refs/heads/master");

    write_commit_file(&repo, "test.txt", "test3", "commit3");

    checkout_branch(&repo, "refs/heads/foo");

    assert!(get_rebase_progress(&repo).is_err());

    // rebase

    let annotated = annotated_of_branch(&repo, "master");
    let r = rebase(&repo, &annotated).unwrap();

    assert_eq!(r, RebaseState::Conflicted);
    assert!(repo_is_rebasing(&repo));
    assert_eq!(
        get_rebase_progress(&repo).unwrap(),
        RebaseProgress { current: 0, steps: 1 }
    );

    // abort

    abort_rebase(&repo).unwrap();

    assert!(!repo_is_rebasing(&repo));
    assert_eq!(repo.state(), git2::RepositoryState::Clean);
}

#[test]
fn conflict_free_rebase_aborts_and_restores() {
    let (_td, repo) = repo_init();

    write_commit_file(&repo, "test.txt", "test1", "commit1");
    create_branch(&repo, "foo");
    let c2 = write_commit_file(&repo, "test.txt", "test2", "commit2");
    checkout_branch(&repo, "refs/heads/master");
    write_commit_file(&repo, "test.txt", "test3", "commit3");
    checkout_branch(&repo, "refs/heads/foo");

    let head_before = repo.head().unwrap().target().unwrap();
    assert_eq!(head_before, c2);

    let annotated = annotated_of_branch(&repo, "master");
    let r = conflict_free_rebase(&repo, &annotated);

    // The conflicting step fails the call with the dedicated error ...
    assert!(matches!(r, Err(Error::RebaseConflict)));
    // ... and the repository is back in its clean pre-call state: same
    // head, no open rebase, original working-tree content.
    assert_eq!(repo.state(), git2::RepositoryState::Clean);
    assert_eq!(repo.head().unwrap().target().unwrap(), head_before);
    assert!(get_rebase_progress(&repo).is_err());
    // The working tree matches the restored head again ...
    let statuses = repo.statuses(None).unwrap();
    assert!(statuses.is_empty());
    // ... whose tree still carries the branch's own content.
    let head_tree = repo.head().unwrap().peel_to_tree().unwrap();
    let entry = head_tree.get_path(std::path::Path::new("test.txt")).unwrap();
    let blob = repo.find_blob(entry.id()).unwrap();
    assert_eq!(blob.content(), b"test2");
}

#[test]
fn empty_rebase_fails_with_generic_error() {
    let (_td, repo) = repo_init();

    let c1 = write_commit_file(&repo, "test1.txt", "test", "commit1");
    create_branch(&repo, "foo");
    checkout_branch(&repo, "refs/heads/master");
    write_commit_file(&repo, "test2.txt", "test", "commit2");
    checkout_branch(&repo, "refs/heads/foo");
    assert_eq!(repo.head().unwrap().target().unwrap(), c1);

    // The branch holds no commit of its own: nothing is ever replayed.
    let annotated = annotated_of_branch(&repo, "master");
    let r = conflict_free_rebase(&repo, &annotated);
    match r {
        Err(Error::Generic(m)) => assert_eq!(m, "no commit rebased"),
        other => panic!("expected the generic empty-rebase error, got {other:?}"),
    }
}

#[test]
fn tolerant_rebase_finishes_cleanly() {
    let (_td, repo) = repo_init();

    write_commit_file(&repo, "test1.txt", "test", "commit1");
    create_branch(&repo, "foo");
    write_commit_file(&repo, "test2.txt", "test", "commit2");
    checkout_branch(&repo, "refs/heads/master");
    let c3 = write_commit_file(&repo, "test3.txt", "test", "commit3");
    checkout_branch(&repo, "refs/heads/foo");

    let annotated = annotated_of_branch(&repo, "master");
    let r = rebase(&repo, &annotated).unwrap();

    assert_eq!(r, RebaseState::Finished);
    assert_eq!(repo.state(), git2::RepositoryState::Clean);
    let new_head = repo.head().unwrap().target().unwrap();
    assert_eq!(parent_ids(&repo, new_head), vec![c3]);
}

#[test]
fn progress_fails_without_open_rebase() {
    let (_td, repo) = repo_init();
    write_commit_file(&repo, "test.txt", "test1", "commit1");

    let r = get_rebase_progress(&repo);
    assert!(matches!(r, Err(Error::Git(_))));
}

#[test]
fn abort_fails_without_open_rebase() {
    let (_td, repo) = repo_init();
    write_commit_file(&repo, "test.txt", "test1", "commit1");

    let r = abort_rebase(&repo);
    assert!(matches!(r, Err(Error::Git(_))));
}
