use lazytrees::commands::launch_agent;
use lazytrees::error::AppError;
use lazytrees::git::{Repo, Worktree};
use lazytrees::process::{Effect, Exit, Found, IoFailure, Ran, Reply, Step};
use lazytrees::tui::{
    prompt_key, KeyCode, KeyEvent, Mode, PromptResult, StatusKind, TerminalEvent, TuiApp,
    TuiStep, TuiTask,
};

fn repo() -> Repo {
    Repo {
        root: "/src/repo".to_owned(),
        default_worktree_parent: "/src/repo-worktrees".to_owned(),
    }
}

fn worktree(path: &str, branch: &str) -> Worktree {
    Worktree {
        path: path.to_owned(),
        head: Some("1".to_owned()),
        branch: Some(branch.to_owned()),
        bare: false,
        detached: false,
        prunable: false,
    }
}

fn three() -> Vec<Worktree> {
    vec![worktree("/src/repo", "main"), worktree("/w/a", "a"), worktree("/w/b", "b")]
}

fn plain(code: KeyCode) -> KeyEvent {
    KeyEvent {
        code,
        control: false,
    }
}

fn press(app: &mut TuiApp, c: char) -> TuiStep {
    app.handle_key(plain(KeyCode::Char(c)))
}

fn type_text(app: &mut TuiApp, text: &str) {
    for c in text.chars() {
        assert_eq!(press(app, c), Step::Done(Ok(())));
    }
}

fn exited(success: bool, stdout: &str, stderr: &str) -> Reply {
    Reply::Ran(Ran::Exited(Exit {
        success,
        code: Some(if success { 0 } else { 1 }),
        status: if success { "exit status: 0" } else { "exit status: 1" }.to_owned(),
        stdout: stdout.as_bytes().to_vec(),
        stderr: stderr.as_bytes().to_vec(),
    }))
}

fn task(step: TuiStep) -> TuiTask {
    match step {
        Step::Next(task) => task,
        Step::Done(result) => panic!("unexpected {result:?}"),
    }
}

fn git_args(app: &TuiApp, task: &TuiTask) -> Vec<String> {
    match app.effect(task) {
        Effect::Run(run) => run.args,
        other => panic!("unexpected {other:?}"),
    }
}

const TWO_LISTED: &str =
    "worktree /src/repo\nHEAD 1\nbranch refs/heads/main\n\nworktree /w/a\nHEAD 1\nbranch refs/heads/a\n\n";

#[test]
fn the_interface_begins_with_the_list() {
    let repo = repo();
    let app = TuiApp::new(&repo, Ok(three())).expect("app");
    assert_eq!(app.worktrees, three());
    assert_eq!(app.selected, 0);
    assert_eq!(app.mode, Mode::Browse);
    assert_eq!(app.status.text, "ready");
    assert_eq!(app.status.kind, StatusKind::Info);
    assert!(!app.should_quit);
    let error = TuiApp::new(&repo, Err(AppError::new("no list"))).expect_err("no app");
    assert_eq!(error.to_text(), "no list");
}

#[test]
fn the_selection_moves_within_the_list() {
    let repo = repo();
    let mut app = TuiApp::new(&repo, Ok(three())).expect("app");
    let down = plain(KeyCode::Down);
    for expected in [1, 2, 2] {
        app.handle_key(down);
        assert_eq!(app.selected, expected);
    }
    press(&mut app, 'k');
    assert_eq!(app.selected, 1);
    press(&mut app, 'j');
    assert_eq!(app.selected, 2);
    press(&mut app, 'g');
    assert_eq!(app.selected, 0);
    app.handle_key(plain(KeyCode::Up));
    assert_eq!(app.selected, 0);
    press(&mut app, 'G');
    assert_eq!(app.selected, 2);
    app.handle_key(plain(KeyCode::Home));
    assert_eq!(app.selected, 0);
    app.handle_key(plain(KeyCode::End));
    assert_eq!(app.selected, 2);
    assert_eq!(app.selected_worktree(), Some(&three()[2]));
}

#[test]
fn an_empty_list_has_no_selection() {
    let repo = repo();
    let mut app = TuiApp::new(&repo, Ok(Vec::new())).expect("app");
    for c in ['j', 'k', 'g', 'G'] {
        press(&mut app, c);
        assert_eq!(app.selected, 0);
    }
    assert_eq!(app.selected_worktree(), None);
    assert_eq!(app.handle_key(plain(KeyCode::Enter)), Step::Done(Ok(())));
    assert_eq!(app.status.text, "no worktree selected");
    assert_eq!(app.status.kind, StatusKind::Error);
    press(&mut app, 'n');
    app.handle_key(plain(KeyCode::Esc));
    press(&mut app, 'd');
    assert_eq!(app.status.text, "no worktree selected");
    assert_eq!(app.mode, Mode::Browse);
}

#[test]
fn quitting() {
    let repo = repo();
    for code in [KeyCode::Char('q'), KeyCode::Esc] {
        let mut app = TuiApp::new(&repo, Ok(three())).expect("app");
        app.handle_key(plain(code));
        assert!(app.should_quit);
    }
    let mut app = TuiApp::new(&repo, Ok(three())).expect("app");
    press(&mut app, 'n');
    type_text(&mut app, "q");
    assert!(!app.should_quit);
    let interrupt = KeyEvent { code: KeyCode::Char('c'), control: true };
    assert_eq!(app.handle_key(interrupt), Step::Done(Ok(())));
    assert!(app.should_quit);
    assert_eq!(app.mode, Mode::NewBranch { input: "q".to_owned() });
}

#[test]
fn only_pressed_keys_count() {
    let repo = repo();
    let mut app = TuiApp::new(&repo, Ok(three())).expect("app");
    let key = plain(KeyCode::Char('q'));
    assert_eq!(app.handle_event(TerminalEvent::Released(key)), Step::Done(Ok(())));
    assert_eq!(app.handle_event(TerminalEvent::Other), Step::Done(Ok(())));
    assert!(!app.should_quit);
    app.handle_event(TerminalEvent::Pressed(key));
    assert!(app.should_quit);
}

#[test]
fn typing_into_a_dialog() {
    let mut input = "ab".to_owned();
    assert_eq!(prompt_key(&mut input, plain(KeyCode::Char('é'))), PromptResult::Continue);
    assert_eq!(input, "abé");
    assert_eq!(prompt_key(&mut input, plain(KeyCode::Backspace)), PromptResult::Continue);
    assert_eq!(input, "ab");
    let control = KeyEvent { code: KeyCode::Char('x'), control: true };
    assert_eq!(prompt_key(&mut input, control), PromptResult::Continue);
    assert_eq!(prompt_key(&mut input, plain(KeyCode::Up)), PromptResult::Continue);
    assert_eq!(input, "ab");
    assert_eq!(prompt_key(&mut input, plain(KeyCode::Esc)), PromptResult::Cancel);
    let mut input = " \ta b\u{a0} ".to_owned();
    assert_eq!(
        prompt_key(&mut input, plain(KeyCode::Enter)),
        PromptResult::Submit("a b".to_owned())
    );
    let mut empty = String::new();
    assert_eq!(prompt_key(&mut empty, plain(KeyCode::Backspace)), PromptResult::Continue);
    assert_eq!(empty, "");
}

#[test]
fn a_branch_is_required() {
    let repo = repo();
    let mut app = TuiApp::new(&repo, Ok(three())).expect("app");
    press(&mut app, 'n');
    assert_eq!(app.mode, Mode::NewBranch { input: String::new() });
    type_text(&mut app, "  ");
    app.handle_key(plain(KeyCode::Enter));
    assert_eq!(app.mode, Mode::Browse);
    assert_eq!(app.status.text, "branch name is required");
    assert_eq!(app.status.kind, StatusKind::Error);
}

#[test]
fn dialogs_are_cancelled() {
    let repo = repo();
    let mut app = TuiApp::new(&repo, Ok(three())).expect("app");
    press(&mut app, 'n');
    type_text(&mut app, "x");
    app.handle_key(plain(KeyCode::Enter));
    type_text(&mut app, "y");
    app.handle_key(plain(KeyCode::Enter));
    type_text(&mut app, "z");
    assert_eq!(
        app.mode,
        Mode::NewPath { branch: "x".to_owned(), base: "y".to_owned(), input: "z".to_owned() }
    );
    assert_eq!(app.handle_key(plain(KeyCode::Esc)), Step::Done(Ok(())));
    assert_eq!(app.mode, Mode::Browse);
    assert_eq!(app.status.text, "new worktree cancelled");

    press(&mut app, 'p');
    assert_eq!(app.mode, Mode::ConfirmPrune);
    press(&mut app, 'x');
    assert_eq!(app.mode, Mode::ConfirmPrune);
    press(&mut app, 'N');
    assert_eq!(app.mode, Mode::Browse);
    assert_eq!(app.status.text, "prune cancelled");
}

#[test]
fn a_worktree_is_made_and_opened() {
    let repo = repo();
    let mut app = TuiApp::new(&repo, Ok(vec![worktree("/src/repo", "main")])).expect("app");
    press(&mut app, 'n');
    type_text(&mut app, " a ");
    app.handle_key(plain(KeyCode::Enter));
    app.handle_key(plain(KeyCode::Enter));
    type_text(&mut app, "/w/a");
    let step = app.handle_key(plain(KeyCode::Enter));
    assert_eq!(app.mode, Mode::Browse);

    let work = task(step);
    assert_eq!(git_args(&app, &work), vec!["check-ref-format", "--branch", "a"]);
    let work = task(app.resume(work, exited(true, "", "")));
    assert_eq!(
        git_args(&app, &work),
        vec!["show-ref", "--verify", "--quiet", "refs/heads/a"]
    );
    let work = task(app.resume(work, exited(false, "", "")));
    assert_eq!(app.effect(&work), Effect::PathExists("/w/a".to_owned()));
    let work = task(app.resume(work, Reply::Flag(false)));
    assert_eq!(app.effect(&work), Effect::CreateDirAll("/w".to_owned()));
    let work = task(app.resume(work, Reply::Created(None)));
    assert_eq!(git_args(&app, &work), vec!["worktree", "add", "-b", "a", "/w/a", "HEAD"]);
    let work = task(app.resume(work, exited(true, "", "")));
    assert_eq!(git_args(&app, &work), vec!["worktree", "list", "--porcelain"]);
    let step = app.resume(work, exited(true, TWO_LISTED, ""));
    assert_eq!(step, Step::Next(TuiTask::CheckingPath { path: "/w/a".to_owned() }));
    assert_eq!(app.selected, 1);
    assert_eq!(app.worktrees.len(), 2);
    assert_eq!(app.status.text, "created /w/a");
}

#[test]
fn a_plan_that_fails_is_told() {
    let repo = repo();
    let mut app = TuiApp::new(&repo, Ok(three())).expect("app");
    press(&mut app, 'n');
    type_text(&mut app, "..");
    app.handle_key(plain(KeyCode::Enter));
    app.handle_key(plain(KeyCode::Enter));
    let work = task(app.handle_key(plain(KeyCode::Enter)));
    assert_eq!(app.resume(work, exited(false, "", "bad")), Step::Done(Ok(())));
    assert_eq!(app.status.text, "invalid branch name `..`");
    assert_eq!(app.status.kind, StatusKind::Error);
    assert_eq!(app.mode, Mode::Browse);
}

#[test]
fn a_creation_that_fails_is_told() {
    let repo = repo();
    let mut app = TuiApp::new(&repo, Ok(three())).expect("app");
    press(&mut app, 'n');
    type_text(&mut app, "new");
    app.handle_key(plain(KeyCode::Enter));
    app.handle_key(plain(KeyCode::Enter));
    let work = task(app.handle_key(plain(KeyCode::Enter)));
    let work = task(app.resume(work, exited(true, "", "")));
    let work = task(app.resume(work, exited(false, "", "")));
    assert_eq!(app.effect(&work), Effect::PathExists("/src/repo-worktrees/new".to_owned()));
    let work = task(app.resume(work, Reply::Flag(false)));
    let denied = IoFailure { not_found: false, message: "denied".to_owned() };
    assert_eq!(app.resume(work, Reply::Created(Some(denied))), Step::Done(Ok(())));
    assert_eq!(app.status.text, "denied");
}

#[test]
fn a_relative_path_is_seen_from_the_working_directory() {
    let repo = repo();
    let mut app = TuiApp::new(&repo, Ok(three())).expect("app");
    press(&mut app, 'n');
    type_text(&mut app, "new");
    app.handle_key(plain(KeyCode::Enter));
    app.handle_key(plain(KeyCode::Enter));
    type_text(&mut app, "../new");
    let work = task(app.handle_key(plain(KeyCode::Enter)));
    let work = task(app.resume(work, exited(true, "", "")));
    let work = task(app.resume(work, exited(false, "", "")));
    assert_eq!(app.effect(&work), Effect::CurrentDir);
    let work = task(app.resume(work, Reply::Dir(Found::Text("/here".to_owned()))));
    assert_eq!(app.effect(&work), Effect::PathExists("/here/../new".to_owned()));
    assert_eq!(app.resume(work, Reply::Flag(true)), Step::Done(Ok(())));
    assert_eq!(app.status.text, "path already exists: /here/../new");
}

#[test]
fn a_worktree_is_removed_on_yes() {
    let repo = repo();
    let mut app = TuiApp::new(&repo, Ok(three())).expect("app");
    press(&mut app, 'G');
    press(&mut app, 'd');
    assert_eq!(
        app.mode,
        Mode::ConfirmRemove { path: "/w/b".to_owned(), branch: "b".to_owned() }
    );
    press(&mut app, 'x');
    let work = task(press(&mut app, 'Y'));
    assert_eq!(git_args(&app, &work), vec!["worktree", "remove", "/w/b"]);
    let work = task(app.resume(work, exited(true, "", "")));
    assert_eq!(app.resume(work, exited(true, TWO_LISTED, "")), Step::Done(Ok(())));
    assert_eq!(app.selected, 1);
    assert_eq!(app.status.text, "removed /w/b");
    assert_eq!(app.mode, Mode::Browse);
}

#[test]
fn a_removal_that_fails_is_told() {
    let repo = repo();
    let mut app = TuiApp::new(&repo, Ok(three())).expect("app");
    press(&mut app, 'j');
    press(&mut app, 'd');
    let work = task(press(&mut app, 'y'));
    assert_eq!(app.resume(work, exited(false, "", "dirty\n")), Step::Done(Ok(())));
    assert_eq!(app.status.text, "git worktree remove /w/a failed: dirty");
    assert_eq!(app.mode, Mode::Browse);
}

#[test]
fn some_worktrees_are_not_removed() {
    let repo = repo();
    let mut list = three();
    list[0].path = "/src/repo/".to_owned();
    list[1].prunable = true;
    let mut app = TuiApp::new(&repo, Ok(list)).expect("app");
    press(&mut app, 'd');
    assert_eq!(app.status.text, "cannot remove current worktree");
    assert_eq!(app.mode, Mode::Browse);
    press(&mut app, 'j');
    press(&mut app, 'd');
    assert_eq!(app.status.text, "use prune for stale worktree metadata");
    assert_eq!(app.mode, Mode::Browse);
    press(&mut app, 'j');
    press(&mut app, 'd');
    app.handle_key(plain(KeyCode::Esc));
    assert_eq!(app.status.text, "remove cancelled");
    assert_eq!(app.status.kind, StatusKind::Info);
}

#[test]
fn pruning_and_refreshing() {
    let repo = repo();
    let mut app = TuiApp::new(&repo, Ok(three())).expect("app");
    press(&mut app, 'G');
    press(&mut app, 'p');
    let work = task(press(&mut app, 'y'));
    assert_eq!(git_args(&app, &work), vec!["worktree", "prune"]);
    let work = task(app.resume(work, exited(true, "", "")));
    assert_eq!(app.resume(work, exited(true, "", "")), Step::Done(Ok(())));
    assert_eq!(app.status.text, "pruned stale metadata");
    assert_eq!(app.worktrees.len(), 0);
    assert_eq!(app.selected, 0);

    let work = task(press(&mut app, 'r'));
    assert_eq!(app.resume(work, exited(true, TWO_LISTED, "")), Step::Done(Ok(())));
    assert_eq!(app.status.text, "refreshed");
    assert_eq!(app.worktrees.len(), 2);
}

#[test]
fn a_listing_or_a_pruning_that_fails_ends_the_interface() {
    let repo = repo();
    let mut app = TuiApp::new(&repo, Ok(three())).expect("app");
    let work = task(press(&mut app, 'r'));
    match app.resume(work, exited(false, "", "gone")) {
        Step::Done(Err(error)) => {
            assert_eq!(error.to_text(), "git worktree list --porcelain failed: gone")
        }
        other => panic!("unexpected {other:?}"),
    }
    press(&mut app, 'p');
    let work = task(press(&mut app, 'y'));
    match app.resume(work, exited(false, "", "gone")) {
        Step::Done(Err(error)) => assert_eq!(error.to_text(), "git worktree prune failed: gone"),
        other => panic!("unexpected {other:?}"),
    }
}

/// The interface once the agent was asked for in the second worktree, and the agent's run.
fn launching(app: &mut TuiApp, key: KeyCode, setting: Option<&str>) -> TuiTask {
    press(app, 'g');
    press(app, 'j');
    let work = task(app.handle_key(plain(key)));
    assert_eq!(app.effect(&work), Effect::IsDirectory("/w/a".to_owned()));
    let work = task(app.resume(work, Reply::Flag(true)));
    assert_eq!(app.effect(&work), Effect::AgentSetting);
    let setting = setting.map(|command| command.to_owned());
    task(app.resume(work, Reply::Setting(setting)))
}

#[test]
fn the_agent_is_launched_in_the_selection() {
    let repo = repo();
    let mut app = TuiApp::new(&repo, Ok(three())).expect("app");
    let work = launching(&mut app, KeyCode::Enter, Some("aider --yes"));
    assert_eq!(
        work,
        TuiTask::Launching { path: "/w/a".to_owned(), command: "aider --yes".to_owned() }
    );
    assert_eq!(app.effect(&work), Effect::Run(launch_agent("aider --yes", "/w/a")));
    let work = task(app.resume(work, exited(true, "", "")));
    assert_eq!(git_args(&app, &work), vec!["worktree", "list", "--porcelain"]);
    assert_eq!(app.resume(work, exited(true, TWO_LISTED, "")), Step::Done(Ok(())));
    assert_eq!(app.status.text, "agent launched: /w/a");
    assert_eq!(app.status.kind, StatusKind::Info);
    assert_eq!(app.worktrees.len(), 2);
    assert_eq!(
        TuiApp::launch_notice("aider --yes", "/w/a"),
        "lazytrees launching `aider --yes` in /w/a"
    );
}

#[test]
fn without_a_setting_opencode_is_launched() {
    let repo = repo();
    let mut app = TuiApp::new(&repo, Ok(three())).expect("app");
    let work = launching(&mut app, KeyCode::Char('o'), None);
    assert_eq!(app.effect(&work), Effect::Run(launch_agent("opencode", "/w/a")));
}

#[test]
fn a_launch_that_fails_is_told() {
    let repo = repo();
    let mut app = TuiApp::new(&repo, Ok(three())).expect("app");
    let work = launching(&mut app, KeyCode::Enter, None);
    let work = task(app.resume(work, exited(false, "", "")));
    assert_eq!(app.resume(work, exited(true, TWO_LISTED, "")), Step::Done(Ok(())));
    assert_eq!(app.status.text, "agent command failed with status exit status: 1");
    assert_eq!(app.status.kind, StatusKind::Error);

    let work = launching(&mut app, KeyCode::Enter, None);
    let failure = IoFailure { not_found: true, message: "no shell".to_owned() };
    let work = task(app.resume(work, Reply::Ran(Ran::Failed(failure))));
    assert_eq!(app.resume(work, exited(true, TWO_LISTED, "")), Step::Done(Ok(())));
    assert_eq!(app.status.text, "no shell");

    press(&mut app, 'G');
    let work = task(press(&mut app, 'o'));
    let work = task(app.resume(work, Reply::Flag(false)));
    assert_eq!(app.resume(work, exited(true, TWO_LISTED, "")), Step::Done(Ok(())));
    assert_eq!(app.status.text, "not a directory: /w/a");
    assert_eq!(app.status.kind, StatusKind::Error);
}
