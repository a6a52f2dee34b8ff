use lazytrees::git::{NewOptions, Repo};
use lazytrees::plan::{
    build_new_worktree_plan, create_worktree, Creation, NewWorktreePlan, Planning,
};
use lazytrees::process::{Effect, Exit, Found, IoFailure, Ran, Reply, Step, Streams};

fn repo() -> Repo {
    Repo {
        root: "/src/repo".to_owned(),
        default_worktree_parent: "/src/repo-worktrees".to_owned(),
    }
}

fn options(branch: Option<&str>, base: Option<&str>, path: Option<&str>) -> NewOptions {
    NewOptions {
        branch: branch.map(|text| text.to_owned()),
        base: base.map(|text| text.to_owned()),
        path: path.map(|text| text.to_owned()),
        agent_command: None,
    }
}

fn exited(code: i32, stdout: &str, stderr: &str) -> Reply {
    Reply::Ran(Ran::Exited(Exit {
        success: code == 0,
        code: Some(code),
        status: format!("exit status: {code}"),
        stdout: stdout.as_bytes().to_vec(),
        stderr: stderr.as_bytes().to_vec(),
    }))
}

fn failed() -> IoFailure {
    IoFailure {
        not_found: true,
        message: "no git".to_owned(),
    }
}

fn next(step: Step<Planning, NewWorktreePlan>) -> Planning {
    match step {
        Step::Next(planning) => planning,
        Step::Done(result) => panic!("unexpected {result:?}"),
    }
}

fn done(step: Step<Planning, NewWorktreePlan>) -> Result<NewWorktreePlan, String> {
    match step {
        Step::Next(planning) => panic!("unexpected {planning:?}"),
        Step::Done(result) => result.map_err(|error| error.to_text()),
    }
}

fn validated(options: NewOptions) -> Planning {
    let planning = next(build_new_worktree_plan(&repo(), options));
    next(planning.resume(exited(0, "", "")))
}

#[test]
fn a_new_branch_is_planned() {
    let planning = next(build_new_worktree_plan(&repo(), options(Some("feat/x"), None, None)));
    match planning.effect() {
        Effect::Run(run) => {
            assert_eq!(run.args, vec!["check-ref-format", "--branch", "feat/x"]);
            assert_eq!(run.cwd.as_deref(), Some("/src/repo"));
            assert_eq!(run.streams, Streams::Captured);
        }
        other => panic!("unexpected {other:?}"),
    }
    let planning = next(planning.resume(exited(0, "", "")));
    match planning.effect() {
        Effect::Run(run) => {
            assert_eq!(run.args, vec!["show-ref", "--verify", "--quiet", "refs/heads/feat/x"]);
            assert_eq!(run.streams, Streams::Inherited);
        }
        other => panic!("unexpected {other:?}"),
    }
    let planning = next(planning.resume(exited(1, "", "")));
    assert_eq!(
        planning.effect(),
        Effect::PathExists("/src/repo-worktrees/feat-x".to_owned())
    );
    assert_eq!(
        done(planning.resume(Reply::Flag(false))),
        Ok(NewWorktreePlan {
            branch: "feat/x".to_owned(),
            base: Some("HEAD".to_owned()),
            path: "/src/repo-worktrees/feat-x".to_owned(),
            branch_exists: false,
        })
    );
}

#[test]
fn an_existing_branch_is_planned() {
    let planning = validated(options(Some("x"), Some("main"), Some("w")));
    let planning = next(planning.resume(exited(0, "", "")));
    match planning.effect() {
        Effect::Run(run) => assert_eq!(run.args, vec!["worktree", "list", "--porcelain"]),
        other => panic!("unexpected {other:?}"),
    }
    let planning = next(planning.resume(exited(0, "worktree /a\nbranch refs/heads/main\n", "")));
    assert_eq!(planning.effect(), Effect::CurrentDir);
    let planning = next(planning.resume(Reply::Dir(Found::Text("/here".to_owned()))));
    let plan = done(planning.resume(Reply::Flag(false))).expect("plan");
    assert_eq!(plan.path, "/here/w");
    assert_eq!(plan.base, None);
    assert!(plan.branch_exists);
}

#[test]
fn plans_fail_in_words() {
    assert_eq!(
        done(build_new_worktree_plan(&repo(), options(None, None, None))),
        Err("missing branch name".to_owned())
    );
    let planning = next(build_new_worktree_plan(&repo(), options(Some("a b"), None, None)));
    assert_eq!(
        done(planning.resume(exited(1, "", ""))),
        Err("invalid branch name `a b`".to_owned())
    );
    let planning = next(build_new_worktree_plan(&repo(), options(Some("a"), None, None)));
    assert_eq!(
        done(planning.resume(Reply::Ran(Ran::Failed(failed())))),
        Err("no git".to_owned())
    );
    assert_eq!(
        done(validated(options(Some("a"), None, None)).resume(exited(128, "", ""))),
        Err("git show-ref failed with status exit status: 128".to_owned())
    );
    let listing = next(validated(options(Some("a"), None, None)).resume(exited(0, "", "")));
    assert_eq!(
        done(listing.resume(exited(0, "worktree /x\nbranch refs/heads/a\n", ""))),
        Err("branch `a` is already checked out in another worktree".to_owned())
    );
    let listing = next(validated(options(Some("a"), None, None)).resume(exited(0, "", "")));
    assert_eq!(
        done(listing.resume(exited(1, "", "oops"))),
        Err("git worktree list --porcelain failed: oops".to_owned())
    );
    let locating = next(validated(options(Some("a"), None, Some("b"))).resume(exited(1, "", "")));
    assert_eq!(
        done(locating.resume(Reply::Dir(Found::Failed(failed())))),
        Err("no git".to_owned())
    );
    let probing = next(validated(options(Some("a"), None, Some("/b"))).resume(exited(1, "", "")));
    assert_eq!(
        done(probing.resume(Reply::Flag(true))),
        Err("path already exists: /b".to_owned())
    );
}

fn plan(base: Option<&str>, path: &str, branch_exists: bool) -> NewWorktreePlan {
    NewWorktreePlan {
        branch: "x".to_owned(),
        base: base.map(|text| text.to_owned()),
        path: path.to_owned(),
        branch_exists,
    }
}

fn added(creation: &Creation) -> Vec<String> {
    match creation.effect() {
        Effect::Run(run) => {
            assert_eq!(run.cwd.as_deref(), Some("/src/repo"));
            run.args
        }
        other => panic!("unexpected {other:?}"),
    }
}

#[test]
fn a_worktree_is_created_below_its_parent() {
    let creation = create_worktree(&repo(), &plan(Some("main"), "/w/x", false));
    assert_eq!(creation.effect(), Effect::CreateDirAll("/w".to_owned()));
    let creation = match creation.resume(Reply::Created(None)) {
        Step::Next(creation) => creation,
        Step::Done(result) => panic!("unexpected {result:?}"),
    };
    assert_eq!(added(&creation), vec!["worktree", "add", "-b", "x", "/w/x", "main"]);
    assert_eq!(creation.resume(exited(0, "", "")), Step::Done(Ok(())));
}

#[test]
fn a_worktree_without_parent_is_created_at_once() {
    let creation = create_worktree(&repo(), &plan(None, "/", true));
    assert_eq!(added(&creation), vec!["worktree", "add", "/", "x"]);
    match creation.resume(exited(128, "", "fatal: taken\n")) {
        Step::Done(Err(error)) => {
            assert_eq!(error.to_text(), "git worktree add / x failed: fatal: taken")
        }
        other => panic!("unexpected {other:?}"),
    }
    let creation = create_worktree(&repo(), &plan(None, "/", false));
    assert_eq!(added(&creation), vec!["worktree", "add", "-b", "x", "/", "HEAD"]);
}

#[test]
fn a_parent_that_cannot_be_made_is_told() {
    let creation = create_worktree(&repo(), &plan(None, "/w/x", true));
    match creation.resume(Reply::Created(Some(failed()))) {
        Step::Done(Err(error)) => assert_eq!(error.to_text(), "no git"),
        other => panic!("unexpected {other:?}"),
    }
}
