use lazytrees::git::Repo;
use lazytrees::process::{Effect, Exit, Found, IoFailure, Ran, Reply, Step};
use lazytrees::prompt::{answer, confirm, prompt, select_worktree, Selection};

fn typed(text: &str) -> Found {
    Found::Text(text.to_owned())
}

fn broken() -> Found {
    Found::Failed(IoFailure {
        not_found: false,
        message: "closed".to_owned(),
    })
}

fn listing(output: &str) -> Reply {
    Reply::Ran(Ran::Exited(Exit {
        success: true,
        code: Some(0),
        status: "exit status: 0".to_owned(),
        stdout: output.as_bytes().to_vec(),
        stderr: Vec::new(),
    }))
}

fn choosing() -> Selection {
    let repo = Repo {
        root: "/a".to_owned(),
        default_worktree_parent: "/a-worktrees".to_owned(),
    };
    let turn = select_worktree(&repo)
        .resume(listing("worktree /a\nbranch refs/heads/main\n\nworktree /b\ndetached\nprunable\n"));
    assert_eq!(
        turn.say,
        vec!["Worktrees:", "  1) /a  [main]", "  2) /b  [detached prunable]"]
    );
    match turn.step {
        Step::Next(selection) => selection,
        Step::Done(result) => panic!("unexpected {result:?}"),
    }
}

#[test]
fn questions_show_their_default() {
    assert_eq!(prompt("Base ref", Some("HEAD")), Effect::Ask("Base ref [HEAD]: ".to_owned()));
    assert_eq!(prompt("Branch name", None), Effect::Ask("Branch name: ".to_owned()));
}

#[test]
fn answers_are_trimmed_or_default() {
    assert_eq!(answer(Some("HEAD"), typed(" main \n")), Ok("main".to_owned()));
    assert_eq!(answer(Some("HEAD"), typed(" \n")), Ok("HEAD".to_owned()));
    assert_eq!(answer(None, typed("")), Ok(String::new()));
    assert_eq!(answer(None, broken()).expect_err("error").to_text(), "closed");
}

#[test]
fn yes_and_no() {
    for text in ["y\n", "YES\n", "Yes"] {
        assert_eq!(confirm(false, typed(text)), Ok(Some(true)));
    }
    for text in ["n\n", "NO\n", "No"] {
        assert_eq!(confirm(true, typed(text)), Ok(Some(false)));
    }
    assert_eq!(confirm(false, typed("\n")), Ok(Some(false)));
    assert_eq!(confirm(true, typed("\n")), Ok(Some(true)));
    assert_eq!(confirm(false, typed("y/N")), Ok(Some(false)));
    assert_eq!(confirm(false, typed("Y/N")), Ok(None));
    assert_eq!(confirm(false, typed("maybe")), Ok(None));
    assert_eq!(confirm(false, broken()).expect_err("error").to_text(), "closed");
}

#[test]
fn a_worktree_is_chosen_by_its_number() {
    assert_eq!(choosing().effect(), Effect::Ask("Choose worktree [1]: ".to_owned()));
    for (text, path) in [("1\n", "/a"), ("2\n", "/b"), ("\n", "/a"), ("+2\n", "/b"), ("02", "/b")] {
        let turn = choosing().resume(Reply::Line(typed(text)));
        assert_eq!(turn.say.len(), 0);
        assert_eq!(turn.step, Step::Done(Ok(path.to_owned())), "{text:?}");
    }
    for text in ["0", "3", "x", "-1", "1 2"] {
        let turn = choosing().resume(Reply::Line(typed(text)));
        assert_eq!(turn.say, vec!["Enter a number between 1 and 2."]);
        assert_eq!(turn.step, Step::Next(choosing()));
    }
    match choosing().resume(Reply::Line(broken())).step {
        Step::Done(Err(error)) => assert_eq!(error.to_text(), "closed"),
        other => panic!("unexpected {other:?}"),
    }
}

#[test]
fn without_worktrees_there_is_no_choice() {
    let repo = Repo {
        root: "/a".to_owned(),
        default_worktree_parent: "/a-worktrees".to_owned(),
    };
    match select_worktree(&repo).resume(listing("")).step {
        Step::Done(Err(error)) => assert_eq!(error.to_text(), "no worktrees found"),
        other => panic!("unexpected {other:?}"),
    }
}
