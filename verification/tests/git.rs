use lazytrees::git::{
    branch_is_checked_out, branch_to_dir_name, default_worktree_path, discover_repo,
    format_worktree, list_worktrees, list_worktrees_from_cwd, prune_worktrees, remove_worktree,
    repo_at, worktree_removed, worktrees_listed, worktrees_pruned, Repo, Worktree,
};
use lazytrees::listing::{
    apply_worktree_field, finish_current_worktree, new_worktree, parse_worktree_list,
};
use lazytrees::process::{
    Effect, Exit, IoFailure, Program, Ran, Reply, Step, Streams,
};

fn repo() -> Repo {
    Repo {
        root: "/src/repo".to_owned(),
        default_worktree_parent: "/src/repo-worktrees".to_owned(),
    }
}

fn worktree(path: &str, branch: Option<&str>) -> Worktree {
    Worktree {
        path: path.to_owned(),
        head: Some("0123456789abcdef".to_owned()),
        branch: branch.map(|name| name.to_owned()),
        bare: false,
        detached: false,
        prunable: false,
    }
}

fn exited(success: bool, stdout: &[u8], stderr: &[u8]) -> Ran {
    Ran::Exited(Exit {
        success,
        code: Some(if success { 0 } else { 128 }),
        status: if success { "exit status: 0" } else { "exit status: 128" }.to_owned(),
        stdout: stdout.to_vec(),
        stderr: stderr.to_vec(),
    })
}

fn failed(message: &str) -> Ran {
    Ran::Failed(IoFailure {
        not_found: false,
        message: message.to_owned(),
    })
}

#[test]
fn branch_to_dir_name_replaces_path_unfriendly_characters() {
    assert_eq!(branch_to_dir_name("feat/search ui"), "feat-search-ui");
    assert_eq!(
        branch_to_dir_name("bugfix\\windows:path"),
        "bugfix-windows-path"
    );
}

#[test]
fn parse_worktree_list_reads_porcelain_output() {
    let output = "worktree /repo\nHEAD abc123\nbranch refs/heads/main\n\nworktree /repo-worktrees/feat\nHEAD def456\nbranch refs/heads/feat/demo\n\nworktree /repo-worktrees/detached\nHEAD 999999\ndetached\nprunable gitdir file points to non-existent location\n";

    let worktrees = parse_worktree_list(output);

    assert_eq!(worktrees.len(), 3);
    assert_eq!(
        std::path::PathBuf::from(&worktrees[0].path),
        std::path::PathBuf::from("/repo")
    );
    assert_eq!(worktrees[0].branch.as_deref(), Some("main"));
    assert_eq!(worktrees[1].branch.as_deref(), Some("feat/demo"));
    assert!(worktrees[2].detached);
    assert!(worktrees[2].prunable);
}

#[test]
fn listing_reads_back() {
    let output = "worktree /a\nbare\n\nworktree /b\nHEAD 1\nbranch refs/heads/x y\nlocked\n\n\n\nworktree /c\nworktree /d\r\nprunable\nignored";
    let worktrees = parse_worktree_list(output);
    assert_eq!(worktrees.len(), 4);
    assert!(worktrees[0].bare);
    assert_eq!(worktrees[0].head, None);
    assert_eq!(worktrees[1].head.as_deref(), Some("1"));
    assert_eq!(worktrees[1].branch.as_deref(), Some("x y"));
    assert_eq!(worktrees[2], new_worktree("/c".to_owned()));
    assert_eq!(worktrees[3].path, "/d");
    assert!(worktrees[3].prunable);
    assert_eq!(parse_worktree_list(""), Vec::new());
    assert_eq!(parse_worktree_list("HEAD 1\nbare\n"), Vec::new());
}

#[test]
fn fields_are_told_apart() {
    let mut entry = new_worktree("/x".to_owned());
    apply_worktree_field(&mut entry, "branch refs/tags/v1");
    apply_worktree_field(&mut entry, "bare ");
    apply_worktree_field(&mut entry, "detached-ish");
    apply_worktree_field(&mut entry, "HEAD");
    assert_eq!(entry, new_worktree("/x".to_owned()));
    apply_worktree_field(&mut entry, "HEAD ");
    assert_eq!(entry.head.as_deref(), Some(""));
    apply_worktree_field(&mut entry, "prunablex");
    assert!(entry.prunable);
}

#[test]
fn a_finished_worktree_moves_to_the_list() {
    let mut current = Some(worktree("/a", None));
    let mut list = Vec::new();
    finish_current_worktree(&mut current, &mut list);
    assert_eq!(current, None);
    assert_eq!(list, vec![worktree("/a", None)]);
    finish_current_worktree(&mut current, &mut list);
    assert_eq!(list.len(), 1);
}

#[test]
fn default_path_is_next_to_the_main_checkout() {
    assert_eq!(
        default_worktree_path(&repo(), "feature/search"),
        "/src/repo-worktrees/feature-search"
    );
    let made = repo_at("/src/repo".to_owned(), &vec![worktree("/src/repo", Some("main"))]);
    assert_eq!(
        made.expect("repo").default_worktree_parent,
        "/src/repo-worktrees"
    );
    let linked = repo_at(
        "/src/repo-worktrees/topic".to_owned(),
        &vec![worktree("/src/repo", Some("main")), worktree("/src/repo-worktrees/topic", None)],
    )
    .expect("repo");
    assert_eq!(linked.root, "/src/repo-worktrees/topic");
    assert_eq!(linked.default_worktree_parent, "/src/repo-worktrees");
}

#[test]
fn a_checkout_without_name_has_no_repo() {
    let error = repo_at("/".to_owned(), &Vec::new()).expect_err("no name");
    assert_eq!(error.to_text(), "could not determine repository name");
    let error = repo_at("..".to_owned(), &Vec::new()).expect_err("no name");
    assert_eq!(error.to_text(), "could not determine repository name");
    let plain = repo_at("repo".to_owned(), &Vec::new()).expect("repo");
    assert_eq!(plain.default_worktree_parent, "repo-worktrees");
}

#[test]
fn labels_and_short_heads() {
    let mut entry = worktree("/a", Some("main"));
    assert_eq!(entry.branch_label(), "main");
    assert_eq!(entry.short_head(), "0123456");
    entry.branch = None;
    assert_eq!(entry.branch_label(), "unknown");
    entry.bare = true;
    assert_eq!(entry.branch_label(), "bare");
    entry.detached = true;
    assert_eq!(entry.branch_label(), "detached");
    entry.head = Some("0123456".to_owned());
    assert_eq!(entry.short_head(), "0123456");
    entry.head = Some("012345".to_owned());
    assert_eq!(entry.short_head(), "012345");
    entry.head = Some("012345äxyz".to_owned());
    assert_eq!(entry.short_head(), "012345äxyz");
    entry.head = Some("01234äxyz".to_owned());
    assert_eq!(entry.short_head(), "01234ä");
    entry.head = None;
    assert_eq!(entry.short_head(), "-");
}

#[test]
fn worktrees_in_one_line() {
    let mut entry = worktree("/a", Some("main"));
    assert_eq!(format_worktree(&entry), "/a  [main]");
    entry.prunable = true;
    assert_eq!(format_worktree(&entry), "/a  [main prunable]");
}

#[test]
fn git_is_run_in_the_checkout() {
    let list = list_worktrees(&repo());
    assert_eq!(list.program, Program::Git);
    assert_eq!(list.args, vec!["worktree", "list", "--porcelain"]);
    assert_eq!(list.cwd.as_deref(), Some("/src/repo"));
    assert_eq!(list.streams, Streams::Captured);
    assert_eq!(list_worktrees_from_cwd().cwd, None);
    assert_eq!(list_worktrees_from_cwd().args, list.args);
    assert_eq!(prune_worktrees(&repo()).args, vec!["worktree", "prune"]);
    assert_eq!(
        remove_worktree(&repo(), "/x y").args,
        vec!["worktree", "remove", "/x y"]
    );
}

#[test]
fn git_output_is_decoded() {
    let listed = worktrees_listed(exited(true, b"\n worktree /a\xff\nbare\n\n", b"")).expect("list");
    assert_eq!(listed.len(), 1);
    assert_eq!(listed[0].path, "/a\u{FFFD}");
    let listed = worktrees_listed(exited(true, "worktree /ä\n".as_bytes(), b"")).expect("list");
    assert_eq!(listed[0].path, "/ä");
}

#[test]
fn git_failures_are_told() {
    let error = worktrees_listed(exited(false, b"", b"fatal: no\xffpe\n")).expect_err("failure");
    assert_eq!(
        error.to_text(),
        "git worktree list --porcelain failed: fatal: no\u{FFFD}pe"
    );
    let error = worktrees_pruned(exited(false, b"", b" a\n b \n")).expect_err("failure");
    assert_eq!(error.to_text(), "git worktree prune failed: a\n b");
    let error = worktree_removed("/x", exited(false, b"", b"dirty")).expect_err("failure");
    assert_eq!(error.to_text(), "git worktree remove /x failed: dirty");
    let error = worktree_removed("/x", failed("no such program")).expect_err("failure");
    assert_eq!(error.to_text(), "no such program");
    assert_eq!(worktree_removed("/x", exited(true, b"", b"")), Ok(()));
    assert_eq!(worktrees_pruned(exited(true, b"", b"")), Ok(()));
}

#[test]
fn checked_out_branches_are_found() {
    let list = vec![worktree("/a", Some("main")), worktree("/b", None)];
    assert!(branch_is_checked_out(&list, "main"));
    assert!(!branch_is_checked_out(&list, "mai"));
    assert!(!branch_is_checked_out(&list, "unknown"));
    assert!(!branch_is_checked_out(&Vec::new(), "main"));
}

#[test]
fn a_repo_is_discovered() {
    let start = discover_repo();
    match start.effect() {
        Effect::Run(run) => {
            assert_eq!(run.args, vec!["rev-parse", "--show-toplevel"]);
            assert_eq!(run.cwd, None);
        }
        other => panic!("unexpected {other:?}"),
    }
    let next = match start.resume(Reply::Ran(exited(true, b"/src/repo-worktrees/x\n", b""))) {
        Step::Next(next) => next,
        Step::Done(result) => panic!("unexpected {result:?}"),
    };
    assert_eq!(next.effect(), Effect::Run(list_worktrees_from_cwd()));
    let listing = b"worktree /src/repo\nHEAD 1\nbranch refs/heads/main\n\nworktree /src/repo-worktrees/x\nHEAD 2\ndetached\n\n";
    match next.resume(Reply::Ran(exited(true, listing, b""))) {
        Step::Done(Ok(repo)) => {
            assert_eq!(repo.root, "/src/repo-worktrees/x");
            assert_eq!(repo.default_worktree_parent, "/src/repo-worktrees");
        }
        other => panic!("unexpected {other:?}"),
    }
}

#[test]
fn a_repo_without_listing_is_its_own_main_checkout() {
    let next = match discover_repo().resume(Reply::Ran(exited(true, b"/src/repo\n", b""))) {
        Step::Next(next) => next,
        Step::Done(result) => panic!("unexpected {result:?}"),
    };
    match next.resume(Reply::Ran(exited(false, b"", b"broken"))) {
        Step::Done(Ok(repo)) => assert_eq!(repo.default_worktree_parent, "/src/repo-worktrees"),
        other => panic!("unexpected {other:?}"),
    }
}

#[test]
fn outside_a_repo_nothing_is_discovered() {
    match discover_repo().resume(Reply::Ran(exited(false, b"", b"fatal: not a git repository\n"))) {
        Step::Done(Err(error)) => assert_eq!(
            error.to_text(),
            "git rev-parse --show-toplevel failed: fatal: not a git repository"
        ),
        other => panic!("unexpected {other:?}"),
    }
}
