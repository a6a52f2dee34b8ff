use lazytrees::process::{Effect, Exit, IoFailure, Program, Ran, Reply, Step, Streams};
use lazytrees::tmux::{
    exact_tmux_target, open_tmux_session, sanitize_tmux_session_name, tmux_session_name, Opening,
};

fn ended(success: bool) -> Reply {
    Reply::Ran(Ran::Exited(Exit {
        success,
        code: Some(if success { 0 } else { 1 }),
        status: if success { "exit status: 0" } else { "exit status: 1" }.to_owned(),
        stdout: Vec::new(),
        stderr: Vec::new(),
    }))
}

fn missing(not_found: bool) -> Reply {
    Reply::Ran(Ran::Failed(IoFailure {
        not_found,
        message: "cannot run".to_owned(),
    }))
}

fn next(step: Step<Opening, ()>) -> Opening {
    match step {
        Step::Next(state) => state,
        Step::Done(result) => panic!("unexpected {result:?}"),
    }
}

fn done(step: Step<Opening, ()>) -> Result<(), String> {
    match step {
        Step::Next(state) => panic!("unexpected {state:?}"),
        Step::Done(result) => result.map_err(|error| error.to_text()),
    }
}

fn tmux_args(state: &Opening) -> Vec<String> {
    match state.effect() {
        Effect::Run(run) => {
            assert_eq!(run.program, Program::Tmux);
            assert_eq!(run.cwd, None);
            run.args
        }
        other => panic!("unexpected {other:?}"),
    }
}

#[test]
fn tmux_session_name_uses_sanitized_path_basename() {
    assert_eq!(
        tmux_session_name("/repo-worktrees/Feat Search!"),
        "lazytrees-feat-search"
    );
    assert_eq!(tmux_session_name("/"), "lazytrees-worktree");
}

#[test]
fn session_names_are_plain() {
    assert_eq!(sanitize_tmux_session_name("A.b:c"), "a-b-c");
    assert_eq!(sanitize_tmux_session_name("--a--_--b--"), "a-_-b");
    assert_eq!(sanitize_tmux_session_name("!!!"), "worktree");
    assert_eq!(sanitize_tmux_session_name(""), "worktree");
    assert_eq!(sanitize_tmux_session_name("äÄ9"), "9");
    assert_eq!(sanitize_tmux_session_name("a-b_9"), "a-b_9");
    assert_eq!(exact_tmux_target("x"), "=x");
}

#[test]
fn a_session_is_opened_beside_tmux() {
    let state = open_tmux_session("/w/Topic");
    assert_eq!(state.effect(), Effect::IsDirectory("/w/Topic".to_owned()));
    let state = next(state.resume(Reply::Flag(true)));
    assert_eq!(tmux_args(&state), vec!["has-session", "-t", "=lazytrees-topic"]);
    match state.effect() {
        Effect::Run(run) => assert_eq!(run.streams, Streams::Discarded),
        other => panic!("unexpected {other:?}"),
    }
    let state = next(state.resume(ended(false)));
    assert_eq!(state.effect(), Effect::InsideTmux);
    let state = next(state.resume(Reply::Flag(false)));
    assert_eq!(
        tmux_args(&state),
        vec!["new-session", "-s", "lazytrees-topic", "-c", "/w/Topic"]
    );
    assert_eq!(done(state.resume(ended(true))), Ok(()));
}

#[test]
fn a_session_is_opened_inside_tmux() {
    let state = next(open_tmux_session("/w/x").resume(Reply::Flag(true)));
    let state = next(state.resume(ended(false)));
    let state = next(state.resume(Reply::Flag(true)));
    assert_eq!(
        tmux_args(&state),
        vec!["new-session", "-d", "-s", "lazytrees-x", "-c", "/w/x"]
    );
    let state = next(state.resume(ended(true)));
    assert_eq!(tmux_args(&state), vec!["switch-client", "-t", "=lazytrees-x"]);
    assert_eq!(
        done(state.resume(ended(false))),
        Err("tmux switch-client failed with status exit status: 1".to_owned())
    );
}

#[test]
fn the_first_free_name_is_taken() {
    let mut state = next(open_tmux_session("/w/x").resume(Reply::Flag(true)));
    state = next(state.resume(ended(true)));
    assert_eq!(tmux_args(&state), vec!["has-session", "-t", "=lazytrees-x-2"]);
    state = next(state.resume(ended(true)));
    assert_eq!(tmux_args(&state), vec!["has-session", "-t", "=lazytrees-x-3"]);
    state = next(state.resume(ended(false)));
    state = next(state.resume(Reply::Flag(false)));
    assert_eq!(
        tmux_args(&state),
        vec!["new-session", "-s", "lazytrees-x-3", "-c", "/w/x"]
    );
    assert_eq!(
        done(state.resume(ended(false))),
        Err("tmux new-session failed with status exit status: 1".to_owned())
    );
}

#[test]
fn opening_fails_in_words() {
    assert_eq!(
        done(open_tmux_session("/w/x").resume(Reply::Flag(false))),
        Err("not a directory: /w/x".to_owned())
    );
    let searching = next(open_tmux_session("/w/x").resume(Reply::Flag(true)));
    assert_eq!(
        done(searching.resume(missing(true))),
        Err("tmux is required but was not found in PATH".to_owned())
    );
    let searching = next(open_tmux_session("/w/x").resume(Reply::Flag(true)));
    assert_eq!(
        done(searching.resume(missing(false))),
        Err("cannot run".to_owned())
    );
}

#[test]
fn the_last_number_can_be_taken() {
    let state = Opening::Searching {
        path: "/w/x".to_owned(),
        base: "lazytrees-x".to_owned(),
        attempt: i32::MAX as u64,
    };
    let state = next(state.resume(ended(false)));
    assert_eq!(
        state,
        Opening::AskingClient {
            path: "/w/x".to_owned(),
            session: "lazytrees-x-2147483647".to_owned(),
        }
    );
}
