use lazytrees::commands::{
    agent_ended, launch_agent, launch_worktree, list_worktrees, new_worktree, open_worktree,
    prune_worktrees, remove_worktree, LaunchCommand, NewCommand, OpenCommand, RemoveCommand,
};
use lazytrees::git::Repo;
use lazytrees::process::{Effect, Exit, Found, IoFailure, Program, Ran, Reply, Step, Streams};
use lazytrees::prompt::Turn;

fn repo() -> Repo {
    Repo {
        root: "/src/repo".to_owned(),
        default_worktree_parent: "/src/repo-worktrees".to_owned(),
    }
}

fn args(words: &[&str]) -> Vec<String> {
    words.iter().map(|word| word.to_string()).collect()
}

fn ran(code: i32, stdout: &str, stderr: &str) -> Ran {
    Ran::Exited(Exit {
        success: code == 0,
        code: Some(code),
        status: format!("exit status: {code}"),
        stdout: stdout.as_bytes().to_vec(),
        stderr: stderr.as_bytes().to_vec(),
    })
}

fn exited(code: i32, stdout: &str) -> Reply {
    Reply::Ran(ran(code, stdout, "oops\n"))
}

fn line(text: &str) -> Reply {
    Reply::Line(Found::Text(text.to_owned()))
}

fn next<S: std::fmt::Debug>(turn: Turn<S, ()>) -> S {
    match turn.step {
        Step::Next(state) => state,
        Step::Done(result) => panic!("unexpected {result:?}"),
    }
}

fn done<S: std::fmt::Debug>(turn: Turn<S, ()>) -> Result<(), String> {
    match turn.step {
        Step::Next(state) => panic!("unexpected {state:?}"),
        Step::Done(result) => result.map_err(|error| error.to_text()),
    }
}

/// The command with its plan made for a branch that does not exist yet.
fn planned(command: NewCommand) -> Turn<NewCommand, ()> {
    let command = next(command.resume(exited(0, "")));
    let command = next(command.resume(exited(1, "")));
    command.resume(Reply::Flag(false))
}

const LISTED: &str = "worktree /src/repo\nbranch refs/heads/main\n\nworktree /w/x\nbranch refs/heads/x\n";

#[test]
fn worktrees_are_listed() {
    assert_eq!(
        list_worktrees(ran(0, LISTED, "")),
        Ok(vec!["/src/repo  [main]".to_owned(), "/w/x  [x]".to_owned()])
    );
    assert_eq!(
        list_worktrees(ran(0, "\n", "")),
        Ok(vec!["No worktrees found.".to_owned()])
    );
    assert_eq!(
        list_worktrees(ran(1, "", "oops")).expect_err("error").to_text(),
        "git worktree list --porcelain failed: oops"
    );
}

#[test]
fn worktrees_are_pruned() {
    assert_eq!(
        prune_worktrees(ran(0, "", "")),
        Ok(vec!["pruned stale worktree metadata".to_owned()])
    );
    assert_eq!(
        prune_worktrees(ran(1, "", "oops")).expect_err("error").to_text(),
        "git worktree prune failed: oops"
    );
}

#[test]
fn agents_run_in_a_shell() {
    let run = launch_agent("opencode --continue", "/w/x");
    assert_eq!(run.program, Program::Shell);
    assert_eq!(run.args, vec!["-c", "opencode --continue"]);
    assert_eq!(run.cwd.as_deref(), Some("/w/x"));
    assert_eq!(run.streams, Streams::Inherited);
    assert_eq!(agent_ended(ran(0, "", "")), Ok(()));
    assert_eq!(
        agent_ended(ran(2, "", "")).expect_err("error").to_text(),
        "agent command failed with status exit status: 2"
    );
    let failure = IoFailure { not_found: true, message: "no shell".to_owned() };
    assert_eq!(agent_ended(Ran::Failed(failure)).expect_err("error").to_text(), "no shell");
}

#[test]
fn a_named_branch_asks_nothing() {
    let turn = new_worktree(&repo(), &args(&["feat/x", "--base", "main"]));
    let turn = planned(next(turn));
    assert_eq!(
        turn.say,
        vec![
            "",
            "Create worktree",
            "  branch: feat/x",
            "  mode: new branch from main",
            "  path: /src/repo-worktrees/feat-x",
        ]
    );
    let command = next(turn);
    assert_eq!(command.effect(), Effect::CreateDirAll("/src/repo-worktrees".to_owned()));
    let command = next(command.resume(Reply::Created(None)));
    let turn = command.resume(exited(0, ""));
    assert_eq!(
        turn.say,
        vec![
            "created: /src/repo-worktrees/feat-x",
            "next: cd /src/repo-worktrees/feat-x",
        ]
    );
    assert_eq!(done(turn), Ok(()));
}

#[test]
fn a_missing_branch_is_asked_for() {
    let command = next(new_worktree(&repo(), &args(&["--path", "/w/it's"])));
    assert_eq!(command.effect(), Effect::Ask("Branch name: ".to_owned()));
    let turn = command.resume(line(" \n"));
    assert_eq!(turn.say, vec!["Branch name is required."]);
    let command = next(next(turn).resume(line("x\n")));
    assert_eq!(command.effect(), Effect::Ask("Base ref [HEAD]: ".to_owned()));
    let command = next(command.resume(line("main\n")));
    let command = next(planned(command));
    assert_eq!(
        command.effect(),
        Effect::Ask("Launch an agent after creation? [y/N]: ".to_owned())
    );
    let turn = command.resume(line("what\n"));
    assert_eq!(turn.say, vec!["Please answer yes or no."]);
    let command = next(next(turn).resume(line("\n")));
    let command = next(command.resume(Reply::Created(None)));
    let turn = command.resume(exited(0, ""));
    assert_eq!(turn.say, vec!["created: /w/it's", "next: cd '/w/it'\\''s'"]);
    assert_eq!(done(turn), Ok(()));
}

#[test]
fn an_agent_is_asked_for_and_launched() {
    let command = next(new_worktree(&repo(), &args(&["--base=main"])));
    let command = next(command.resume(line("x\n")));
    let command = next(planned(command));
    let command = next(command.resume(line("y\n")));
    assert_eq!(command.effect(), Effect::AgentSetting);
    let command = next(command.resume(Reply::Setting(Some("aider".to_owned()))));
    assert_eq!(command.effect(), Effect::Ask("Agent command [aider]: ".to_owned()));
    let command = next(command.resume(line("\n")));
    let command = next(command.resume(Reply::Created(None)));
    let turn = command.resume(exited(0, ""));
    assert_eq!(
        turn.say,
        vec![
            "created: /src/repo-worktrees/x",
            "launching `aider` in /src/repo-worktrees/x",
        ]
    );
    let command = next(turn);
    assert_eq!(
        command.effect(),
        Effect::Run(launch_agent("aider", "/src/repo-worktrees/x"))
    );
    assert_eq!(
        done(command.resume(exited(3, ""))),
        Err("agent command failed with status exit status: 3".to_owned())
    );
}

#[test]
fn a_named_agent_is_launched_in_the_new_worktree() {
    let command = next(new_worktree(&repo(), &args(&["x", "--agent", "top", "-u"])));
    let command = next(planned(command));
    let command = next(command.resume(Reply::Created(None)));
    let command = next(command.resume(exited(0, "")));
    assert_eq!(
        command.effect(),
        Effect::Run(launch_agent("top -u", "/src/repo-worktrees/x"))
    );
    assert_eq!(done(command.resume(exited(0, ""))), Ok(()));
}

#[test]
fn new_fails_in_words() {
    assert_eq!(
        done(new_worktree(&repo(), &args(&["--bogus"]))),
        Err("unknown option `--bogus`".to_owned())
    );
    let command = next(new_worktree(&repo(), &args(&["a b"])));
    assert_eq!(
        done(command.resume(exited(1, ""))),
        Err("invalid branch name `a b`".to_owned())
    );
    let command = next(planned(next(new_worktree(&repo(), &args(&["x"])))));
    let command = next(command.resume(Reply::Created(None)));
    assert_eq!(
        done(command.resume(exited(128, ""))),
        Err("git worktree add -b x /src/repo-worktrees/x HEAD failed: oops".to_owned())
    );
}

#[test]
fn an_agent_is_launched_in_a_named_worktree() {
    let command = next(launch_worktree(&repo(), &args(&["/w/x", "--agent", "top"])));
    assert_eq!(command.effect(), Effect::IsDirectory("/w/x".to_owned()));
    let turn = command.resume(Reply::Flag(true));
    assert_eq!(turn.say, vec!["launching `top` in /w/x"]);
    let command = next(turn);
    assert_eq!(command.effect(), Effect::Run(launch_agent("top", "/w/x")));
    assert_eq!(done(command.resume(exited(0, ""))), Ok(()));

    let command = next(launch_worktree(&repo(), &args(&["/w/x"])));
    assert_eq!(command.effect(), Effect::AgentSetting);
    let command = next(command.resume(Reply::Setting(None)));
    assert_eq!(
        command,
        LaunchCommand::CheckingPath { path: "/w/x".to_owned(), command: "opencode".to_owned() }
    );
    assert_eq!(
        done(command.resume(Reply::Flag(false))),
        Err("not a directory: /w/x".to_owned())
    );
}

#[test]
fn an_agent_is_launched_in_a_chosen_worktree() {
    let command = next(launch_worktree(&repo(), &[]));
    let turn = command.resume(exited(0, LISTED));
    assert_eq!(turn.say, vec!["Worktrees:", "  1) /src/repo  [main]", "  2) /w/x  [x]"]);
    let command = next(next(turn).resume(line("2\n")));
    let command = next(command.resume(Reply::Setting(Some("aider".to_owned()))));
    assert_eq!(command.effect(), Effect::Ask("Agent command [aider]: ".to_owned()));
    let command = next(command.resume(line("top\n")));
    let turn = command.resume(Reply::Flag(true));
    assert_eq!(turn.say, vec!["launching `top` in /w/x"]);
}

#[test]
fn a_session_is_opened_for_a_worktree() {
    let command = next(open_worktree(&repo(), &args(&["/w/x"])));
    assert_eq!(command.effect(), Effect::IsDirectory("/w/x".to_owned()));
    assert_eq!(
        done(command.resume(Reply::Flag(false))),
        Err("not a directory: /w/x".to_owned())
    );
    let command = next(open_worktree(&repo(), &[]));
    let command = next(command.resume(exited(0, LISTED)));
    let command = next(command.resume(line("2\n")));
    assert_eq!(command.effect(), Effect::IsDirectory("/w/x".to_owned()));
    let command = next(command.resume(Reply::Flag(true)));
    let command = next(command.resume(exited(1, "")));
    let command = next(command.resume(Reply::Flag(false)));
    assert!(matches!(command, OpenCommand::Opening(_)));
    assert_eq!(done(command.resume(exited(0, ""))), Ok(()));
}

#[test]
fn a_named_worktree_is_removed_at_once() {
    let command = next(remove_worktree(&repo(), &args(&["/w/x"])));
    match command.effect() {
        Effect::Run(run) => assert_eq!(run.args, vec!["worktree", "remove", "/w/x"]),
        other => panic!("unexpected {other:?}"),
    }
    let turn = command.resume(exited(0, ""));
    assert_eq!(turn.say, vec!["removed: /w/x"]);
    assert_eq!(done(turn), Ok(()));
    let command = next(remove_worktree(&repo(), &args(&["--path=/w/x"])));
    assert_eq!(
        done(command.resume(exited(1, ""))),
        Err("git worktree remove /w/x failed: oops".to_owned())
    );
}

#[test]
fn a_chosen_worktree_is_removed_on_yes_only() {
    let confirming = || -> RemoveCommand {
        let command = next(remove_worktree(&repo(), &[]));
        let command = next(command.resume(exited(0, LISTED)));
        next(command.resume(line("2\n")))
    };
    assert_eq!(
        confirming().effect(),
        Effect::Ask("Remove worktree /w/x? [y/N]: ".to_owned())
    );
    let turn = confirming().resume(line("\n"));
    assert_eq!(turn.say, vec!["remove cancelled"]);
    assert_eq!(done(turn), Ok(()));
    let turn = confirming().resume(line("hm\n"));
    assert_eq!(turn.say, vec!["Please answer yes or no."]);
    let command = next(next(turn).resume(line("yes\n")));
    let turn = command.resume(exited(0, ""));
    assert_eq!(turn.say, vec!["removed: /w/x"]);
}
