//! The terminal interface: what it holds, and what each key and each reply from outside does to
//! it.
use vstd::prelude::*;
use vstd::string::*;

use crate::cli::{agent_command_of, default_agent_command};
use crate::commands::{
    agent_ended, agent_result, agent_run, launch_agent, launching_line, launching_text,
};
use crate::error::{outcome, AppError, AppResult};
use crate::git::{
    label_of, list_args, list_worktrees, listed, prune_args, prune_worktrees, remove_args,
    remove_worktree, worktree_removed, worktrees_listed, worktrees_pruned, NewOptions,
    NewOptionsView, Repo, RepoView, Worktree, WorktreeView,
};
use crate::path::{components_of, path_eq, same_path};
use crate::plan::{
    build_new_worktree_plan, create_worktree, creation_effect, creation_next, creation_start,
    planning_effect, planning_next, planning_start, Creation, CreationView, NewWorktreePlan,
    PlanView, Planning, PlanningView, WishView,
};
use crate::process::{
    answers, git_result, git_run, Effect, EffectView, RanView, Reply, ReplyView, Step, StepView,
};
use crate::text::{cat, is_space, law_trim_takes_white_space_off, trim, trimmed_space};
use crate::tmux::no_directory_text;

verus! {

/// A key, as far as the interface tells keys apart.
#[derive(Debug, Clone, Copy, PartialEq, Eq, Structural)]
pub enum KeyCode {
    Char(char),
    Enter,
    Esc,
    Backspace,
    Up,
    Down,
    Home,
    End,
    Other,
}

/// A key that was pressed, with or without the control key.
#[derive(Debug, Clone, Copy, PartialEq, Eq, Structural)]
pub struct KeyEvent {
    pub code: KeyCode,
    pub control: bool,
}

/// What the terminal reports.
#[derive(Debug, Clone, Copy, PartialEq, Eq, Structural)]
pub enum TerminalEvent {
    /// A key was pressed.
    Pressed(KeyEvent),
    /// A key was held or let go.
    Released(KeyEvent),
    /// Anything else, and that nothing came in a while.
    Other,
}

/// What the interface is doing.
#[derive(Debug, PartialEq, Eq)]
pub enum Mode {
    Browse,
    NewBranch { input: String },
    NewBase { branch: String, input: String },
    NewPath { branch: String, base: String, input: String },
    ConfirmRemove { path: String, branch: String },
    ConfirmPrune,
}

/// The view of a [`Mode`].
#[verifier::ext_equal]
pub enum ModeView {
    Browse,
    NewBranch { input: Seq<char> },
    NewBase { branch: Seq<char>, input: Seq<char> },
    NewPath { branch: Seq<char>, base: Seq<char>, input: Seq<char> },
    ConfirmRemove { path: Seq<char>, branch: Seq<char> },
    ConfirmPrune,
}

impl DeepView for Mode {
    type V = ModeView;

    open spec fn deep_view(&self) -> ModeView {
        match self {
            Mode::Browse => ModeView::Browse,
            Mode::NewBranch { input } => ModeView::NewBranch { input: input@ },
            Mode::NewBase { branch, input } => ModeView::NewBase {
                branch: branch@,
                input: input@,
            },
            Mode::NewPath { branch, base, input } => ModeView::NewPath {
                branch: branch@,
                base: base@,
                input: input@,
            },
            Mode::ConfirmRemove { path, branch } => ModeView::ConfirmRemove {
                path: path@,
                branch: branch@,
            },
            Mode::ConfirmPrune => ModeView::ConfirmPrune,
        }
    }
}

#[derive(Debug, Clone, Copy, PartialEq, Eq, Structural)]
pub enum StatusKind {
    Info,
    Error,
}

/// What the interface last had to say.
#[derive(Debug, PartialEq, Eq)]
pub struct StatusMessage {
    pub text: String,
    pub kind: StatusKind,
}

/// The view of a [`StatusMessage`].
#[verifier::ext_equal]
pub struct StatusView {
    pub text: Seq<char>,
    pub kind: StatusKind,
}

impl DeepView for StatusMessage {
    type V = StatusView;

    open spec fn deep_view(&self) -> StatusView {
        StatusView { text: self.text@, kind: self.kind }
    }
}

/// What the list of worktrees is read again for.
#[derive(Debug, PartialEq, Eq)]
pub enum Cause {
    /// The user asked for it.
    Asked,
    /// A worktree was made at the path.
    Created(String),
    /// The worktree at the path was removed.
    Removed(String),
    /// Worktrees were pruned.
    Pruned,
    /// The agent was launched at the path.
    Launched(String),
    /// The agent was not launched, or failed, for the reason given.
    NotLaunched(String),
}

/// The view of a [`Cause`].
#[verifier::ext_equal]
pub enum CauseView {
    Asked,
    Created(Seq<char>),
    Removed(Seq<char>),
    Pruned,
    Launched(Seq<char>),
    NotLaunched(Seq<char>),
}

impl DeepView for Cause {
    type V = CauseView;

    open spec fn deep_view(&self) -> CauseView {
        match self {
            Cause::Asked => CauseView::Asked,
            Cause::Created(path) => CauseView::Created(path@),
            Cause::Removed(path) => CauseView::Removed(path@),
            Cause::Pruned => CauseView::Pruned,
            Cause::Launched(path) => CauseView::Launched(path@),
            Cause::NotLaunched(reason) => CauseView::NotLaunched(reason@),
        }
    }
}

/// What the interface waits for.
#[derive(Debug, PartialEq, Eq)]
pub enum TuiTask {
    /// Git is asked for the worktrees.
    Refreshing(Cause),
    /// A plan is made for a new worktree.
    Planning(Planning),
    /// The worktree of the plan is made.
    Creating { plan: NewWorktreePlan, creation: Creation },
    /// Git is told to remove a worktree.
    Removing(String),
    /// Git is told to prune.
    Pruning,
    /// Whether the path of a worktree that is to be opened leads to a directory is asked for.
    CheckingPath { path: String },
    /// The agent that the environment sets is asked for.
    ReadingSetting { path: String },
    /// The agent runs in the worktree at the path.
    Launching { path: String, command: String },
}

/// The view of a [`TuiTask`].
#[verifier::ext_equal]
pub enum TuiTaskView {
    Refreshing(CauseView),
    Planning(PlanningView),
    Creating { plan: PlanView, creation: CreationView },
    Removing(Seq<char>),
    Pruning,
    CheckingPath { path: Seq<char> },
    ReadingSetting { path: Seq<char> },
    Launching { path: Seq<char>, command: Seq<char> },
}

impl DeepView for TuiTask {
    type V = TuiTaskView;

    open spec fn deep_view(&self) -> TuiTaskView {
        match self {
            TuiTask::Refreshing(cause) => TuiTaskView::Refreshing(cause.deep_view()),
            TuiTask::Planning(planning) => TuiTaskView::Planning(planning.deep_view()),
            TuiTask::Creating { plan, creation } => TuiTaskView::Creating {
                plan: plan.deep_view(),
                creation: creation.deep_view(),
            },
            TuiTask::Removing(path) => TuiTaskView::Removing(path@),
            TuiTask::Pruning => TuiTaskView::Pruning,
            TuiTask::CheckingPath { path } => TuiTaskView::CheckingPath { path: path@ },
            TuiTask::ReadingSetting { path } => TuiTaskView::ReadingSetting { path: path@ },
            TuiTask::Launching { path, command } => TuiTaskView::Launching {
                path: path@,
                command: command@,
            },
        }
    }
}

/// The terminal interface to the worktrees of a repository.
#[derive(Debug, PartialEq, Eq)]
pub struct TuiApp<'repo> {
    pub repo: &'repo Repo,
    pub worktrees: Vec<Worktree>,
    pub selected: usize,
    pub mode: Mode,
    pub status: StatusMessage,
    pub should_quit: bool,
}

/// The view of a [`TuiApp`].
#[verifier::ext_equal]
pub struct TuiView {
    pub repo: RepoView,
    pub worktrees: Seq<WorktreeView>,
    pub selected: int,
    pub mode: ModeView,
    pub status: StatusView,
    pub should_quit: bool,
}

impl<'repo> DeepView for TuiApp<'repo> {
    type V = TuiView;

    open spec fn deep_view(&self) -> TuiView {
        TuiView {
            repo: self.repo.deep_view(),
            worktrees: self.worktrees.deep_view(),
            selected: self.selected as int,
            mode: self.mode.deep_view(),
            status: self.status.deep_view(),
            should_quit: self.should_quit,
        }
    }
}

/// Whether the selection is a worktree of the list; of an empty one it is the place where the
/// first would be.
pub open spec fn selection_in_list(app: TuiView) -> bool {
    if app.worktrees.len() == 0 {
        app.selected == 0
    } else {
        0 <= app.selected < app.worktrees.len()
    }
}

/// What holds of the interface at all times: the selection is in the list, and the worktree that
/// the program runs in is not up for removal.
pub open spec fn well_formed(app: TuiView) -> bool {
    &&& selection_in_list(app)
    &&& app.mode matches ModeView::ConfirmRemove { path, .. } ==> !same_path(path, app.repo.root)
}

/// Where the interface stands behind a key or a reply.
pub type TuiStepView = StepView<TuiTaskView, ()>;

pub type TuiStep = Step<TuiTask, ()>;

/// Nothing is left to do.
pub open spec fn done() -> TuiStepView {
    StepView::Done(Ok(()))
}

/// A worktree is to be opened: the agent is to be launched in it.
pub open spec fn opening(path: Seq<char>) -> TuiStepView {
    StepView::Next(TuiTaskView::CheckingPath { path })
}

/// What is left to do once the agent was launched at a path, or was not.
pub open spec fn launch_told(path: Seq<char>, result: Result<(), Seq<char>>) -> TuiTaskView {
    TuiTaskView::Refreshing(
        match result {
            Ok(_) => CauseView::Launched(path),
            Err(message) => CauseView::NotLaunched(message),
        },
    )
}

/// The interface with an entry of good news.
pub open spec fn with_info(app: TuiView, text: Seq<char>) -> TuiView {
    TuiView { status: StatusView { text, kind: StatusKind::Info }, ..app }
}

/// The interface with an entry of bad news.
pub open spec fn with_error(app: TuiView, text: Seq<char>) -> TuiView {
    TuiView { status: StatusView { text, kind: StatusKind::Error }, ..app }
}

pub open spec fn in_mode(app: TuiView, mode: ModeView) -> TuiView {
    TuiView { mode, ..app }
}

/// The worktree that is selected.
pub open spec fn selected_of(app: TuiView) -> Option<WorktreeView> {
    if 0 <= app.selected < app.worktrees.len() {
        Some(app.worktrees[app.selected])
    } else {
        None
    }
}

/// A selection, moved into a list of the given length where it is behind its end.
pub open spec fn clamped(selected: int, count: nat) -> int {
    if count == 0 {
        0
    } else if selected >= count {
        count - 1
    } else {
        selected
    }
}

/// The interface with the worktrees that Git lists now.
pub open spec fn refreshed(app: TuiView, worktrees: Seq<WorktreeView>) -> TuiView {
    TuiView { worktrees, selected: clamped(app.selected, worktrees.len()), ..app }
}

/// The place of the first worktree at a path, from place `from` on.
pub open spec fn place_of(worktrees: Seq<WorktreeView>, path: Seq<char>, from: int) -> Option<int>
    decreases worktrees.len() - from,
{
    if from < 0 || from >= worktrees.len() {
        None
    } else if same_path(worktrees[from].path, path) {
        Some(from)
    } else {
        place_of(worktrees, path, from + 1)
    }
}

/// The interface with the worktree at a path selected, where there is one.
pub open spec fn with_path_selected(app: TuiView, path: Seq<char>) -> TuiView {
    match place_of(app.worktrees, path, 0) {
        Some(place) => TuiView { selected: place, ..app },
        None => app,
    }
}

/// What a key does to a text that is being typed.
#[derive(Debug, PartialEq, Eq)]
pub enum PromptResult {
    Submit(String),
    Cancel,
    Continue,
}

/// The view of a [`PromptResult`].
#[verifier::ext_equal]
pub enum PromptView {
    Submit(Seq<char>),
    Cancel,
    Continue,
}

impl DeepView for PromptResult {
    type V = PromptView;

    open spec fn deep_view(&self) -> PromptView {
        match self {
            PromptResult::Submit(text) => PromptView::Submit(text@),
            PromptResult::Cancel => PromptView::Cancel,
            PromptResult::Continue => PromptView::Continue,
        }
    }
}

/// What comes of a key for a text that is being typed. The text is handed over without the white
/// space around it.
pub open spec fn typed_result(input: Seq<char>, key: KeyEvent) -> PromptView {
    match key.code {
        KeyCode::Enter => PromptView::Submit(trimmed_space(input)),
        KeyCode::Esc => PromptView::Cancel,
        _ => PromptView::Continue,
    }
}

/// The text that is being typed, after a key.
pub open spec fn typed(input: Seq<char>, key: KeyEvent) -> Seq<char> {
    match key.code {
        KeyCode::Backspace => if input.len() > 0 {
            input.drop_last()
        } else {
            input
        },
        KeyCode::Char(c) => if key.control {
            input
        } else {
            input.push(c)
        },
        _ => input,
    }
}

/// Takes a key for a text that is being typed.
pub fn prompt_key(input: &mut String, key: KeyEvent) -> (r: PromptResult)
    ensures
        r.deep_view() == typed_result(old(input)@, key),
        final(input)@ == typed(old(input)@, key),
{
    match key.code {
        KeyCode::Enter => PromptResult::Submit(trim(input.as_str())),
        KeyCode::Esc => PromptResult::Cancel,
        KeyCode::Backspace => {
            let _dropped: Option<char> = input.pop();
            PromptResult::Continue
        },
        KeyCode::Char(c) => {
            if !key.control {
                input.push(c);
            }
            PromptResult::Continue
        },
        _ => PromptResult::Continue,
    }
}

/// The interface once the making of a worktree was called off.
pub open spec fn new_cancelled(app: TuiView) -> TuiView {
    with_info(in_mode(app, ModeView::Browse), "new worktree cancelled"@)
}

/// What a key does while a branch is typed.
pub open spec fn new_branch_key(app: TuiView, input: Seq<char>, key: KeyEvent) -> (
    TuiView,
    TuiStepView,
) {
    match typed_result(input, key) {
        PromptView::Submit(branch) => (branch_submitted(app, branch), done()),
        PromptView::Cancel => (new_cancelled(app), done()),
        PromptView::Continue => (
            in_mode(app, ModeView::NewBranch { input: typed(input, key) }),
            done(),
        ),
    }
}

/// The interface once a branch was handed in.
pub open spec fn branch_submitted(app: TuiView, branch: Seq<char>) -> TuiView {
    if branch.len() == 0 {
        with_error(app, "branch name is required"@)
    } else {
        in_mode(app, ModeView::NewBase { branch, input: seq![] })
    }
}

/// What a key does while a base is typed.
pub open spec fn new_base_key(
    app: TuiView,
    branch: Seq<char>,
    input: Seq<char>,
    key: KeyEvent,
) -> (TuiView, TuiStepView) {
    match typed_result(input, key) {
        PromptView::Submit(base) => (
            in_mode(
                app,
                ModeView::NewPath {
                    branch,
                    base: if base.len() == 0 {
                        "HEAD"@
                    } else {
                        base
                    },
                    input: seq![],
                },
            ),
            done(),
        ),
        PromptView::Cancel => (new_cancelled(app), done()),
        PromptView::Continue => (
            in_mode(app, ModeView::NewBase { branch, input: typed(input, key) }),
            done(),
        ),
    }
}

/// What the interface has planned once branch, base and path were handed in.
pub open spec fn prompt_submitted(
    app: TuiView,
    branch: Seq<char>,
    base: Seq<char>,
    path: Option<Seq<char>>,
) -> (TuiView, TuiStepView) {
    let options = NewOptionsView {
        branch: Some(branch),
        base: Some(base),
        path,
        agent_command: None,
    };
    match planning_start(app.repo, options) {
        StepView::Next(planning) => (app, StepView::Next(TuiTaskView::Planning(planning))),
        StepView::Done(Err(message)) => (
            with_error(in_mode(app, ModeView::Browse), message),
            done(),
        ),
        StepView::Done(Ok(plan)) => (
            app,
            StepView::Next(
                TuiTaskView::Creating { plan, creation: creation_start(app.repo, plan) },
            ),
        ),
    }
}

/// What a key does while a path is typed.
pub open spec fn new_path_key(
    app: TuiView,
    branch: Seq<char>,
    base: Seq<char>,
    input: Seq<char>,
    key: KeyEvent,
) -> (TuiView, TuiStepView) {
    match typed_result(input, key) {
        PromptView::Submit(path) => prompt_submitted(
            app,
            branch,
            base,
            if path.len() == 0 {
                None
            } else {
                Some(path)
            },
        ),
        PromptView::Cancel => (new_cancelled(app), done()),
        PromptView::Continue => (
            in_mode(app, ModeView::NewPath { branch, base, input: typed(input, key) }),
            done(),
        ),
    }
}

/// The interface once the selected worktree is up for removal, or why it is not: one that is gone
/// is pruned instead, and the one that the program runs in stays.
pub open spec fn removal_asked(app: TuiView) -> TuiView {
    match selected_of(app) {
        None => with_error(app, "no worktree selected"@),
        Some(worktree) => if worktree.prunable {
            with_error(app, "use prune for stale worktree metadata"@)
        } else if same_path(worktree.path, app.repo.root) {
            with_error(app, "cannot remove current worktree"@)
        } else {
            in_mode(
                app,
                ModeView::ConfirmRemove { path: worktree.path, branch: label_of(worktree) },
            )
        },
    }
}

/// What a key does while the list is looked through.
pub open spec fn browse_key(app: TuiView, code: KeyCode) -> (TuiView, TuiStepView) {
    if code == KeyCode::Char('q') || code == KeyCode::Esc {
        (TuiView { should_quit: true, ..app }, done())
    } else if code == KeyCode::Char('j') || code == KeyCode::Down {
        (TuiView { selected: clamped(app.selected + 1, app.worktrees.len()), ..app }, done())
    } else if code == KeyCode::Char('k') || code == KeyCode::Up {
        (
            TuiView {
                selected: if app.selected > 0 {
                    app.selected - 1
                } else {
                    0
                },
                ..app
            },
            done(),
        )
    } else if code == KeyCode::Char('g') || code == KeyCode::Home {
        (TuiView { selected: 0, ..app }, done())
    } else if code == KeyCode::Char('G') || code == KeyCode::End {
        (
            if app.worktrees.len() > 0 {
                TuiView { selected: app.worktrees.len() - 1, ..app }
            } else {
                app
            },
            done(),
        )
    } else if code == KeyCode::Char('r') {
        (app, StepView::Next(TuiTaskView::Refreshing(CauseView::Asked)))
    } else if code == KeyCode::Char('n') {
        (in_mode(app, ModeView::NewBranch { input: seq![] }), done())
    } else if code == KeyCode::Char('p') {
        (in_mode(app, ModeView::ConfirmPrune), done())
    } else if code == KeyCode::Char('d') {
        (removal_asked(app), done())
    } else if code == KeyCode::Enter || code == KeyCode::Char('o') {
        match selected_of(app) {
            Some(worktree) => (app, opening(worktree.path)),
            None => (with_error(app, "no worktree selected"@), done()),
        }
    } else {
        (app, done())
    }
}

pub open spec fn is_yes(code: KeyCode) -> bool {
    code == KeyCode::Char('y') || code == KeyCode::Char('Y')
}

pub open spec fn is_no(code: KeyCode) -> bool {
    code == KeyCode::Char('n') || code == KeyCode::Char('N') || code == KeyCode::Esc
}

/// What a key does while a worktree is up for removal.
pub open spec fn remove_key(
    app: TuiView,
    path: Seq<char>,
    branch: Seq<char>,
    code: KeyCode,
) -> (TuiView, TuiStepView) {
    if is_yes(code) {
        (app, StepView::Next(TuiTaskView::Removing(path)))
    } else if is_no(code) {
        (with_info(in_mode(app, ModeView::Browse), "remove cancelled"@), done())
    } else {
        (in_mode(app, ModeView::ConfirmRemove { path, branch }), done())
    }
}

/// What a key does while the pruning is up for confirmation.
pub open spec fn prune_key(app: TuiView, code: KeyCode) -> (TuiView, TuiStepView) {
    if is_yes(code) {
        (app, StepView::Next(TuiTaskView::Pruning))
    } else if is_no(code) {
        (with_info(in_mode(app, ModeView::Browse), "prune cancelled"@), done())
    } else {
        (in_mode(app, ModeView::ConfirmPrune), done())
    }
}

pub open spec fn is_interrupt(key: KeyEvent) -> bool {
    key.control && key.code == KeyCode::Char('c')
}

/// What a key does. The interface goes back to the list unless the key keeps it elsewhere.
pub open spec fn after_key(app: TuiView, key: KeyEvent) -> (TuiView, TuiStepView) {
    let idle = in_mode(app, ModeView::Browse);
    if is_interrupt(key) {
        (TuiView { should_quit: true, ..app }, done())
    } else {
        match app.mode {
            ModeView::Browse => browse_key(idle, key.code),
            ModeView::NewBranch { input } => new_branch_key(idle, input, key),
            ModeView::NewBase { branch, input } => new_base_key(idle, branch, input, key),
            ModeView::NewPath { branch, base, input } => new_path_key(
                idle,
                branch,
                base,
                input,
                key,
            ),
            ModeView::ConfirmRemove { path, branch } => remove_key(idle, path, branch, key.code),
            ModeView::ConfirmPrune => prune_key(idle, key.code),
        }
    }
}

/// What a report of the terminal does: only a key that is pressed does anything.
pub open spec fn after_event(app: TuiView, event: TerminalEvent) -> (TuiView, TuiStepView) {
    match event {
        TerminalEvent::Pressed(key) => after_key(app, key),
        _ => (app, done()),
    }
}

/// What a task waits for.
pub open spec fn task_effect(repo: RepoView, task: TuiTaskView) -> EffectView {
    match task {
        TuiTaskView::Refreshing(_) => EffectView::Run(git_run(list_args(), Some(repo.root))),
        TuiTaskView::Planning(planning) => planning_effect(planning),
        TuiTaskView::Creating { creation, .. } => creation_effect(creation),
        TuiTaskView::Removing(path) => EffectView::Run(
            git_run(remove_args(path), Some(repo.root)),
        ),
        TuiTaskView::Pruning => EffectView::Run(git_run(prune_args(), Some(repo.root))),
        TuiTaskView::CheckingPath { path } => EffectView::IsDirectory(path),
        TuiTaskView::ReadingSetting { .. } => EffectView::AgentSetting,
        TuiTaskView::Launching { path, command } => EffectView::Run(agent_run(command, path)),
    }
}

/// The interface once the user was told what the list was read again for, and what is left to do.
pub open spec fn told(app: TuiView, cause: CauseView) -> (TuiView, TuiStepView) {
    let idle = in_mode(app, ModeView::Browse);
    match cause {
        CauseView::Asked => (with_info(app, "refreshed"@), done()),
        CauseView::Created(path) => (
            with_info(
                in_mode(with_path_selected(app, path), ModeView::Browse),
                "created "@ + path,
            ),
            opening(path),
        ),
        CauseView::Removed(path) => (with_info(idle, "removed "@ + path), done()),
        CauseView::Pruned => (with_info(idle, "pruned stale metadata"@), done()),
        CauseView::Launched(path) => (with_info(app, "agent launched: "@ + path), done()),
        CauseView::NotLaunched(reason) => (with_error(app, reason), done()),
    }
}

/// What a reply does to a task. A plan, a creation or a removal that fails is told to the user; a
/// listing or a pruning that fails ends the interface.
pub open spec fn after_reply(app: TuiView, task: TuiTaskView, reply: ReplyView) -> (
    TuiView,
    TuiStepView,
) {
    let idle = in_mode(app, ModeView::Browse);
    match task {
        TuiTaskView::Refreshing(cause) => match listed(reply->Ran_0) {
            Ok(worktrees) => told(refreshed(app, worktrees), cause),
            Err(message) => (app, StepView::Done(Err(message))),
        },
        TuiTaskView::Planning(planning) => match planning_next(planning, reply) {
            StepView::Next(planning) => (app, StepView::Next(TuiTaskView::Planning(planning))),
            StepView::Done(Err(message)) => (with_error(idle, message), done()),
            StepView::Done(Ok(plan)) => (
                app,
                StepView::Next(
                    TuiTaskView::Creating { plan, creation: creation_start(app.repo, plan) },
                ),
            ),
        },
        TuiTaskView::Creating { plan, creation } => match creation_next(creation, reply) {
            StepView::Next(creation) => (
                app,
                StepView::Next(TuiTaskView::Creating { plan, creation }),
            ),
            StepView::Done(Err(message)) => (with_error(idle, message), done()),
            StepView::Done(Ok(_)) => (
                app,
                StepView::Next(TuiTaskView::Refreshing(CauseView::Created(plan.path))),
            ),
        },
        TuiTaskView::Removing(path) => match git_result(remove_args(path), reply->Ran_0) {
            Err(message) => (with_error(idle, message), done()),
            Ok(_) => (app, StepView::Next(TuiTaskView::Refreshing(CauseView::Removed(path)))),
        },
        TuiTaskView::Pruning => match git_result(prune_args(), reply->Ran_0) {
            Err(message) => (app, StepView::Done(Err(message))),
            Ok(_) => (app, StepView::Next(TuiTaskView::Refreshing(CauseView::Pruned))),
        },
        TuiTaskView::CheckingPath { path } => if reply->Flag_0 {
            (app, StepView::Next(TuiTaskView::ReadingSetting { path }))
        } else {
            (app, StepView::Next(launch_told(path, Err(no_directory_text(path)))))
        },
        TuiTaskView::ReadingSetting { path } => (
            app,
            StepView::Next(
                TuiTaskView::Launching { path, command: agent_command_of(reply->Setting_0) },
            ),
        ),
        TuiTaskView::Launching { path, .. } => (
            app,
            StepView::Next(launch_told(path, agent_result(reply->Ran_0))),
        ),
    }
}

/// The interface at its start.
pub open spec fn started(repo: RepoView, worktrees: Seq<WorktreeView>) -> TuiView {
    TuiView {
        repo,
        worktrees,
        selected: 0,
        mode: ModeView::Browse,
        status: StatusView { text: "ready"@, kind: StatusKind::Info },
        should_quit: false,
    }
}

impl<'repo> TuiApp<'repo> {
    /// Begins the interface, once Git has listed the worktrees.
    pub fn new(repo: &'repo Repo, listing: AppResult<Vec<Worktree>>) -> (r: AppResult<
        TuiApp<'repo>,
    >)
        ensures
            outcome(r) == match outcome(listing) {
                Ok(worktrees) => Ok(started(repo.deep_view(), worktrees)),
                Err(message) => Err(message),
            },
            r matches Ok(app) ==> well_formed(app.deep_view()),
    {
        match listing {
            Err(error) => Err(error),
            Ok(worktrees) => Ok(
                TuiApp {
                    repo,
                    worktrees,
                    selected: 0,
                    mode: Mode::Browse,
                    status: StatusMessage { text: "ready".to_owned(), kind: StatusKind::Info },
                    should_quit: false,
                },
            ),
        }
    }

    /// Takes up the worktrees that Git lists now.
    pub fn refresh(&mut self, listing: AppResult<Vec<Worktree>>) -> (r: AppResult<()>)
        ensures
            match outcome(listing) {
                Ok(worktrees) => r is Ok && final(self).deep_view() == refreshed(
                    old(self).deep_view(),
                    worktrees,
                ),
                Err(message) => outcome(r) == Err::<(), Seq<char>>(message)
                    && final(self).deep_view() == old(self).deep_view(),
            },
    {
        match listing {
            Err(error) => Err(error),
            Ok(worktrees) => {
                self.worktrees = worktrees;
                if self.worktrees.len() == 0 {
                    self.selected = 0;
                } else if self.selected >= self.worktrees.len() {
                    self.selected = self.worktrees.len() - 1;
                }
                Ok(())
            },
        }
    }

    pub fn set_info(&mut self, text: String)
        ensures
            final(self).deep_view() == with_info(old(self).deep_view(), text@),
    {
        self.status = StatusMessage { text, kind: StatusKind::Info };
    }

    pub fn set_error(&mut self, text: String)
        ensures
            final(self).deep_view() == with_error(old(self).deep_view(), text@),
    {
        self.status = StatusMessage { text, kind: StatusKind::Error };
    }

    pub fn selected_worktree(&self) -> (r: Option<&Worktree>)
        ensures
            r.deep_view() == selected_of(self.deep_view()),
    {
        if self.selected < self.worktrees.len() {
            Some(&self.worktrees[self.selected])
        } else {
            None
        }
    }

    pub fn select_next(&mut self)
        ensures
            final(self).deep_view() == (TuiView {
                selected: clamped(
                    old(self).deep_view().selected + 1,
                    old(self).deep_view().worktrees.len(),
                ),
                ..old(self).deep_view()
            }),
    {
        if self.worktrees.len() == 0 {
            self.selected = 0;
            return;
        }
        let last: usize = self.worktrees.len() - 1;
        self.selected = if self.selected < last {
            self.selected + 1
        } else {
            last
        };
    }

    pub fn select_previous(&mut self)
        ensures
            final(self).deep_view() == (TuiView {
                selected: if old(self).deep_view().selected > 0 {
                    old(self).deep_view().selected - 1
                } else {
                    0
                },
                ..old(self).deep_view()
            }),
    {
        if self.selected > 0 {
            self.selected = self.selected - 1;
        }
    }

    /// Selects the worktree at a path, where there is one.
    pub fn select_path(&mut self, path: &str)
        ensures
            final(self).deep_view() == with_path_selected(old(self).deep_view(), path@),
    {
        let ghost all = self.worktrees.deep_view();
        let mut i: usize = 0;
        while i < self.worktrees.len()
            invariant
                i <= self.worktrees@.len(),
                all == self.worktrees.deep_view(),
                self.deep_view() == old(self).deep_view(),
                place_of(all, path@, 0) == place_of(all, path@, i as int),
            decreases self.worktrees.len() - i,
        {
            assert(all[i as int].path == self.worktrees@[i as int].path@);
            if path_eq(self.worktrees[i].path.as_str(), path) {
                self.selected = i;
                return;
            }
            i += 1;
        }
    }

    /// Takes a report of the terminal.
    pub fn handle_event(&mut self, event: TerminalEvent) -> (r: TuiStep)
        requires
            well_formed(old(self).deep_view()),
        ensures
            (final(self).deep_view(), r.deep_view()) == after_event(old(self).deep_view(), event),
            well_formed(final(self).deep_view()),
    {
        match event {
            TerminalEvent::Pressed(key) => self.handle_key(key),
            _ => Step::Done(Ok(())),
        }
    }

    /// Takes a key.
    pub fn handle_key(&mut self, key: KeyEvent) -> (r: TuiStep)
        requires
            well_formed(old(self).deep_view()),
        ensures
            (final(self).deep_view(), r.deep_view()) == after_key(old(self).deep_view(), key),
            well_formed(final(self).deep_view()),
    {
        if key.control && key.code == KeyCode::Char('c') {
            self.should_quit = true;
            return Step::Done(Ok(()));
        }
        let mut mode: Mode = Mode::Browse;
        std::mem::swap(&mut mode, &mut self.mode);
        match mode {
            Mode::Browse => self.handle_browse_key(key),
            Mode::NewBranch { input } => self.handle_new_branch_key(key, input),
            Mode::NewBase { branch, input } => self.handle_new_base_key(key, branch, input),
            Mode::NewPath { branch, base, input } => self.handle_new_path_key(
                key,
                branch,
                base,
                input,
            ),
            Mode::ConfirmRemove { path, branch } => self.handle_remove_confirmation(
                key,
                path,
                branch,
            ),
            Mode::ConfirmPrune => self.handle_prune_confirmation(key),
        }
    }

    /// Takes a key while a branch is typed.
    pub fn handle_new_branch_key(&mut self, key: KeyEvent, input: String) -> (r: TuiStep)
        ensures
            (final(self).deep_view(), r.deep_view()) == new_branch_key(
                old(self).deep_view(),
                input@,
                key,
            ),
    {
        let mut input: String = input;
        match prompt_key(&mut input, key) {
            PromptResult::Submit(branch) => self.submit_branch(branch),
            PromptResult::Cancel => self.cancel_new_worktree(),
            PromptResult::Continue => {
                self.mode = Mode::NewBranch { input };
                Step::Done(Ok(()))
            },
        }
    }

    /// Takes a key while a base is typed.
    pub fn handle_new_base_key(&mut self, key: KeyEvent, branch: String, input: String) -> (r:
        TuiStep)
        ensures
            (final(self).deep_view(), r.deep_view()) == new_base_key(
                old(self).deep_view(),
                branch@,
                input@,
                key,
            ),
    {
        let mut input: String = input;
        match prompt_key(&mut input, key) {
            PromptResult::Submit(base) => {
                let base: String = if base.as_str().is_empty() {
                    "HEAD".to_owned()
                } else {
                    base
                };
                self.mode = Mode::NewPath { branch, base, input: String::new() };
                Step::Done(Ok(()))
            },
            PromptResult::Cancel => self.cancel_new_worktree(),
            PromptResult::Continue => {
                self.mode = Mode::NewBase { branch, input };
                Step::Done(Ok(()))
            },
        }
    }

    /// Takes a key while a path is typed.
    pub fn handle_new_path_key(
        &mut self,
        key: KeyEvent,
        branch: String,
        base: String,
        input: String,
    ) -> (r: TuiStep)
        ensures
            (final(self).deep_view(), r.deep_view()) == new_path_key(
                old(self).deep_view(),
                branch@,
                base@,
                input@,
                key,
            ),
    {
        let mut input: String = input;
        match prompt_key(&mut input, key) {
            PromptResult::Submit(path) => {
                let path: Option<String> = if path.as_str().is_empty() {
                    None
                } else {
                    Some(path)
                };
                self.create_from_prompt(branch, base, path)
            },
            PromptResult::Cancel => self.cancel_new_worktree(),
            PromptResult::Continue => {
                self.mode = Mode::NewPath { branch, base, input };
                Step::Done(Ok(()))
            },
        }
    }

    /// Takes a key while the list is looked through.
    pub fn handle_browse_key(&mut self, key: KeyEvent) -> (r: TuiStep)
        ensures
            (final(self).deep_view(), r.deep_view()) == browse_key(
                old(self).deep_view(),
                key.code,
            ),
    {
        match key.code {
            KeyCode::Esc => {
                self.should_quit = true;
            },
            KeyCode::Down => {
                self.select_next();
            },
            KeyCode::Up => {
                self.select_previous();
            },
            KeyCode::Home => {
                self.selected = 0;
            },
            KeyCode::End => {
                self.select_last();
            },
            KeyCode::Enter => {
                return self.open_selected();
            },
            KeyCode::Char(c) => {
                if c == 'q' {
                    self.should_quit = true;
                } else if c == 'j' {
                    self.select_next();
                } else if c == 'k' {
                    self.select_previous();
                } else if c == 'g' {
                    self.selected = 0;
                } else if c == 'G' {
                    self.select_last();
                } else if c == 'r' {
                    return Step::Next(TuiTask::Refreshing(Cause::Asked));
                } else if c == 'n' {
                    self.mode = Mode::NewBranch { input: String::new() };
                } else if c == 'p' {
                    self.mode = Mode::ConfirmPrune;
                } else if c == 'd' {
                    self.confirm_remove_selected();
                } else if c == 'o' {
                    return self.open_selected();
                }
            },
            _ => {},
        }
        Step::Done(Ok(()))
    }

    fn select_last(&mut self)
        ensures
            final(self).deep_view() == (if old(self).deep_view().worktrees.len() > 0 {
                TuiView {
                    selected: old(self).deep_view().worktrees.len() - 1,
                    ..old(self).deep_view()
                }
            } else {
                old(self).deep_view()
            }),
    {
        if self.worktrees.len() > 0 {
            self.selected = self.worktrees.len() - 1;
        }
    }

    fn open_selected(&mut self) -> (r: TuiStep)
        ensures
            (final(self).deep_view(), r.deep_view()) == (match selected_of(old(self).deep_view()) {
                Some(worktree) => (old(self).deep_view(), opening(worktree.path)),
                None => (with_error(old(self).deep_view(), "no worktree selected"@), done()),
            }),
    {
        if let Some(worktree) = self.selected_worktree() {
            return Step::Next(TuiTask::CheckingPath { path: worktree.path.clone() });
        }
        self.set_error("no worktree selected".to_owned());
        Step::Done(Ok(()))
    }

    /// Puts the selected worktree up for removal.
    pub fn confirm_remove_selected(&mut self)
        ensures
            final(self).deep_view() == removal_asked(old(self).deep_view()),
    {
        let chosen: Option<Worktree> = match self.selected_worktree() {
            Some(worktree) => Some(worktree.clone()),
            None => None,
        };
        match chosen {
            None => {
                self.set_error("no worktree selected".to_owned());
            },
            Some(worktree) => {
                if worktree.prunable {
                    self.set_error("use prune for stale worktree metadata".to_owned());
                } else if path_eq(worktree.path.as_str(), self.repo.root.as_str()) {
                    self.set_error("cannot remove current worktree".to_owned());
                } else {
                    let branch: String = worktree.branch_label().to_owned();
                    self.mode = Mode::ConfirmRemove { path: worktree.path, branch };
                }
            },
        }
    }

    /// Takes a branch that was handed in.
    pub fn submit_branch(&mut self, branch: String) -> (r: TuiStep)
        ensures
            final(self).deep_view() == branch_submitted(old(self).deep_view(), branch@),
            r.deep_view() == done(),
    {
        if branch.as_str().is_empty() {
            self.set_error("branch name is required".to_owned());
        } else {
            self.mode = Mode::NewBase { branch, input: String::new() };
        }
        Step::Done(Ok(()))
    }

    /// Begins to make the worktree that was typed in.
    pub fn create_from_prompt(&mut self, branch: String, base: String, path: Option<String>) -> (r:
        TuiStep)
        ensures
            (final(self).deep_view(), r.deep_view()) == prompt_submitted(
                old(self).deep_view(),
                branch@,
                base@,
                path.deep_view(),
            ),
    {
        let options: NewOptions = NewOptions {
            branch: Some(branch),
            base: Some(base),
            path,
            agent_command: None,
        };
        match build_new_worktree_plan(self.repo, options) {
            Step::Next(planning) => Step::Next(TuiTask::Planning(planning)),
            Step::Done(Err(error)) => self.fail(error),
            Step::Done(Ok(plan)) => self.begin_creation(plan),
        }
    }

    /// Goes back to the list with an error.
    fn fail(&mut self, error: AppError) -> (r: TuiStep)
        ensures
            final(self).deep_view() == with_error(
                in_mode(old(self).deep_view(), ModeView::Browse),
                error.deep_view(),
            ),
            r.deep_view() == done(),
    {
        self.mode = Mode::Browse;
        self.set_error(error.message);
        Step::Done(Ok(()))
    }

    fn begin_creation(&self, plan: NewWorktreePlan) -> (r: TuiStep)
        ensures
            r.deep_view() == StepView::<TuiTaskView, ()>::Next(
                TuiTaskView::Creating {
                    plan: plan.deep_view(),
                    creation: creation_start(self.deep_view().repo, plan.deep_view()),
                },
            ),
    {
        let creation: Creation = create_worktree(self.repo, &plan);
        Step::Next(TuiTask::Creating { plan, creation })
    }

    /// Takes a key while a worktree is up for removal.
    pub fn handle_remove_confirmation(&mut self, key: KeyEvent, path: String, branch: String) -> (r:
        TuiStep)
        ensures
            (final(self).deep_view(), r.deep_view()) == remove_key(
                old(self).deep_view(),
                path@,
                branch@,
                key.code,
            ),
    {
        match key.code {
            KeyCode::Char('y') | KeyCode::Char('Y') => Step::Next(TuiTask::Removing(path)),
            KeyCode::Char('n') | KeyCode::Char('N') | KeyCode::Esc => {
                self.mode = Mode::Browse;
                self.set_info("remove cancelled".to_owned());
                Step::Done(Ok(()))
            },
            _ => {
                self.mode = Mode::ConfirmRemove { path, branch };
                Step::Done(Ok(()))
            },
        }
    }

    /// Takes a key while the pruning is up for confirmation.
    pub fn handle_prune_confirmation(&mut self, key: KeyEvent) -> (r: TuiStep)
        ensures
            (final(self).deep_view(), r.deep_view()) == prune_key(old(self).deep_view(), key.code),
    {
        match key.code {
            KeyCode::Char('y') | KeyCode::Char('Y') => Step::Next(TuiTask::Pruning),
            KeyCode::Char('n') | KeyCode::Char('N') | KeyCode::Esc => {
                self.mode = Mode::Browse;
                self.set_info("prune cancelled".to_owned());
                Step::Done(Ok(()))
            },
            _ => {
                self.mode = Mode::ConfirmPrune;
                Step::Done(Ok(()))
            },
        }
    }

    /// Calls off the making of a worktree.
    pub fn cancel_new_worktree(&mut self) -> (r: TuiStep)
        ensures
            final(self).deep_view() == new_cancelled(old(self).deep_view()),
            r.deep_view() == done(),
    {
        self.mode = Mode::Browse;
        self.set_info("new worktree cancelled".to_owned());
        Step::Done(Ok(()))
    }

    /// What is printed before the agent is launched.
    pub fn launch_notice(command: &str, path: &str) -> (r: String)
        ensures
            r@ == "lazytrees "@ + launching_text(command@, path@),
    {
        cat("lazytrees ", launching_line(command, path).as_str())
    }

    /// What is left to do once the agent was launched at a path, or was not.
    fn launched(path: String, result: AppResult<()>) -> (r: TuiTask)
        ensures
            r.deep_view() == launch_told(path@, outcome(result)),
    {
        match result {
            Ok(_) => TuiTask::Refreshing(Cause::Launched(path)),
            Err(error) => TuiTask::Refreshing(Cause::NotLaunched(error.message)),
        }
    }

    /// What a task waits for.
    pub fn effect(&self, task: &TuiTask) -> (r: Effect)
        ensures
            r.deep_view() == task_effect(self.deep_view().repo, task.deep_view()),
    {
        match task {
            TuiTask::Refreshing(_) => Effect::Run(list_worktrees(self.repo)),
            TuiTask::Planning(planning) => planning.effect(),
            TuiTask::Creating { creation, .. } => creation.effect(),
            TuiTask::Removing(path) => Effect::Run(remove_worktree(self.repo, path.as_str())),
            TuiTask::Pruning => Effect::Run(prune_worktrees(self.repo)),
            TuiTask::CheckingPath { path } => Effect::IsDirectory(path.clone()),
            TuiTask::ReadingSetting { .. } => Effect::AgentSetting,
            TuiTask::Launching { path, command } => Effect::Run(
                launch_agent(command.as_str(), path.as_str()),
            ),
        }
    }

    /// Goes on with a task and the reply that it waited for.
    pub fn resume(&mut self, task: TuiTask, reply: Reply) -> (r: TuiStep)
        requires
            well_formed(old(self).deep_view()),
            answers(
                reply.deep_view(),
                task_effect(old(self).deep_view().repo, task.deep_view()),
            ),
        ensures
            (final(self).deep_view(), r.deep_view()) == after_reply(
                old(self).deep_view(),
                task.deep_view(),
                reply.deep_view(),
            ),
            well_formed(final(self).deep_view()),
    {
        proof {
            law_reply_keeps_well_formed(self.deep_view(), task.deep_view(), reply.deep_view());
        }
        match task {
            TuiTask::Refreshing(cause) => match self.refresh(worktrees_listed(reply.ran())) {
                Err(error) => Step::Done(Err(error)),
                Ok(_) => self.tell(cause),
            },
            TuiTask::Planning(planning) => match planning.resume(reply) {
                Step::Next(planning) => Step::Next(TuiTask::Planning(planning)),
                Step::Done(Err(error)) => self.fail(error),
                Step::Done(Ok(plan)) => self.begin_creation(plan),
            },
            TuiTask::Creating { plan, creation } => match creation.resume(reply) {
                Step::Next(creation) => Step::Next(TuiTask::Creating { plan, creation }),
                Step::Done(Err(error)) => self.fail(error),
                Step::Done(Ok(_)) => Step::Next(TuiTask::Refreshing(Cause::Created(plan.path))),
            },
            TuiTask::Removing(path) => match worktree_removed(path.as_str(), reply.ran()) {
                Err(error) => self.fail(error),
                Ok(_) => Step::Next(TuiTask::Refreshing(Cause::Removed(path))),
            },
            TuiTask::Pruning => match worktrees_pruned(reply.ran()) {
                Err(error) => Step::Done(Err(error)),
                Ok(_) => Step::Next(TuiTask::Refreshing(Cause::Pruned)),
            },
            TuiTask::CheckingPath { path } => if reply.flag() {
                Step::Next(TuiTask::ReadingSetting { path })
            } else {
                let reason: String = cat("not a directory: ", path.as_str());
                Step::Next(TuiApp::launched(path, Err(AppError::from_message(reason))))
            },
            TuiTask::ReadingSetting { path } => {
                let command: String = default_agent_command(reply.setting());
                Step::Next(TuiTask::Launching { path, command })
            },
            TuiTask::Launching { path, .. } => Step::Next(
                TuiApp::launched(path, agent_ended(reply.ran())),
            ),
        }
    }

    /// Tells the user what the list was read again for.
    fn tell(&mut self, cause: Cause) -> (r: TuiStep)
        ensures
            (final(self).deep_view(), r.deep_view()) == told(
                old(self).deep_view(),
                cause.deep_view(),
            ),
    {
        match cause {
            Cause::Asked => {
                self.set_info("refreshed".to_owned());
            },
            Cause::Created(path) => {
                self.select_path(path.as_str());
                self.mode = Mode::Browse;
                self.set_info(cat("created ", path.as_str()));
                return Step::Next(TuiTask::CheckingPath { path });
            },
            Cause::Removed(path) => {
                self.mode = Mode::Browse;
                self.set_info(cat("removed ", path.as_str()));
            },
            Cause::Pruned => {
                self.mode = Mode::Browse;
                self.set_info("pruned stale metadata".to_owned());
            },
            Cause::Launched(path) => {
                self.set_info(cat("agent launched: ", path.as_str()));
            },
            Cause::NotLaunched(reason) => {
                self.set_error(reason);
            },
        }
        Step::Done(Ok(()))
    }
}

/// The place of a path is the first that holds it.
proof fn lemma_place_is_first(worktrees: Seq<WorktreeView>, path: Seq<char>, from: int)
    requires
        0 <= from,
    ensures
        place_of(worktrees, path, from) matches Some(place) ==> from <= place < worktrees.len()
            && same_path(worktrees[place].path, path),
        place_of(worktrees, path, from) is None ==> forall|i: int|
            from <= i < worktrees.len() ==> !same_path(#[trigger] worktrees[i].path, path),
    decreases worktrees.len() - from,
{
    if from < worktrees.len() && !same_path(worktrees[from].path, path) {
        lemma_place_is_first(worktrees, path, from + 1);
    }
}

/// Whatever key is pressed, the selection stays in the list, and the worktree that the program
/// runs in does not come up for removal.
pub proof fn law_key_keeps_well_formed(app: TuiView, key: KeyEvent)
    requires
        well_formed(app),
    ensures
        well_formed(after_key(app, key).0),
        after_key(app, key).0.repo == app.repo,
        after_key(app, key).0.worktrees == app.worktrees,
{
}

/// Whatever comes back from outside, even a list that became shorter, the selection stays in the
/// list, and the worktree that the program runs in does not come up for removal.
pub proof fn law_reply_keeps_well_formed(app: TuiView, task: TuiTaskView, reply: ReplyView)
    requires
        well_formed(app),
    ensures
        well_formed(after_reply(app, task, reply).0),
        after_reply(app, task, reply).0.repo == app.repo,
{
    if let TuiTaskView::Refreshing(CauseView::Created(path)) = task {
        if let Ok(worktrees) = listed(reply->Ran_0) {
            lemma_place_is_first(worktrees, path, 0);
        }
    }
}

/// Control and C end the interface from anywhere, and do nothing else.
pub proof fn law_interrupt_quits(app: TuiView, key: KeyEvent)
    requires
        is_interrupt(key),
    ensures
        after_key(app, key) == (TuiView { should_quit: true, ..app }, done()),
{
}

/// Escape leads out of every dialog, back to the list, with nothing done.
pub proof fn law_escape_cancels(app: TuiView, key: KeyEvent)
    requires
        key.code == KeyCode::Esc,
        !(app.mode is Browse),
    ensures
        after_key(app, key).0 == (TuiView {
            mode: ModeView::Browse,
            status: after_key(app, key).0.status,
            ..app
        }),
        after_key(app, key).0.status.kind == StatusKind::Info,
        after_key(app, key).1 == done(),
{
}

/// A key has something done outside on five occasions alone: the selected worktree is opened, or
/// the list read again, on request; a new worktree is planned once its path was handed in; and a
/// worktree is removed, or worktrees are pruned, once that was confirmed.
pub proof fn law_work_is_asked_for(app: TuiView, key: KeyEvent)
    ensures
        after_key(app, key).1 matches StepView::Next(task) ==> match task {
            TuiTaskView::Refreshing(cause) => app.mode is Browse && key.code == KeyCode::Char('r')
                && cause is Asked,
            TuiTaskView::Planning(_) | TuiTaskView::Creating { .. } => app.mode is NewPath
                && key.code == KeyCode::Enter,
            TuiTaskView::Removing(path) => is_yes(key.code) && app.mode is ConfirmRemove
                && app.mode->ConfirmRemove_path == path,
            TuiTaskView::Pruning => is_yes(key.code) && app.mode is ConfirmPrune,
            TuiTaskView::CheckingPath { path } => {
                &&& app.mode is Browse
                &&& key.code == KeyCode::Enter || key.code == KeyCode::Char('o')
                &&& selected_of(app) matches Some(worktree)
                &&& worktree.path == path
            },
            TuiTaskView::ReadingSetting { .. } | TuiTaskView::Launching { .. } => false,
        },
{
}

/// A worktree that comes up for removal is the selected one, Git has not lost it, and it is not
/// the one that the program runs in.
pub proof fn law_removal_is_of_selected(app: TuiView, key: KeyEvent)
    requires
        app.mode is Browse,
    ensures
        after_key(app, key).0.mode matches ModeView::ConfirmRemove { path, branch } ==> {
            &&& selected_of(app) matches Some(worktree)
            &&& path == worktree.path
            &&& branch == label_of(worktree)
            &&& !worktree.prunable
            &&& !same_path(path, app.repo.root)
        },
{
}

/// The worktree that the program runs in is never removed.
pub proof fn law_current_worktree_stays(app: TuiView, key: KeyEvent)
    requires
        well_formed(app),
    ensures
        after_key(app, key).1 matches StepView::Next(TuiTaskView::Removing(path))
            ==> !same_path(path, app.repo.root),
{
}

/// The key that types a character.
pub open spec fn char_key(c: char) -> KeyEvent {
    KeyEvent { code: KeyCode::Char(c), control: false }
}

/// The backspace key takes back the character that was typed last.
pub proof fn law_backspace_takes_back(input: Seq<char>, c: char, erase: KeyEvent)
    requires
        erase.code == KeyCode::Backspace,
    ensures
        typed(typed(input, char_key(c)), erase) == input,
{
    assert(input.push(c).drop_last() =~= input);
}

/// The keys that type a text.
pub open spec fn keys_of(text: Seq<char>) -> Seq<KeyEvent>
    decreases text.len(),
{
    if text.len() == 0 {
        seq![]
    } else {
        keys_of(text.drop_last()).push(char_key(text.last()))
    }
}

/// The interface after some keys, none of which has anything done outside.
pub open spec fn after_keys(app: TuiView, keys: Seq<KeyEvent>) -> TuiView
    decreases keys.len(),
{
    if keys.len() == 0 {
        app
    } else {
        after_key(after_keys(app, keys.drop_last()), keys.last()).0
    }
}

/// The interface in a dialog, with a text typed behind what was there.
pub open spec fn with_typed(app: TuiView, text: Seq<char>) -> TuiView {
    in_mode(
        app,
        match app.mode {
            ModeView::NewBranch { input } => ModeView::NewBranch { input: input + text },
            ModeView::NewBase { branch, input } => ModeView::NewBase {
                branch,
                input: input + text,
            },
            ModeView::NewPath { branch, base, input } => ModeView::NewPath {
                branch,
                base,
                input: input + text,
            },
            mode => mode,
        },
    )
}

/// What is typed into a dialog is what it then holds, whatever the characters are: in a dialog no
/// character is a command.
pub proof fn law_typed_text_is_held(app: TuiView, text: Seq<char>)
    requires
        app.mode is NewBranch || app.mode is NewBase || app.mode is NewPath,
    ensures
        after_keys(app, keys_of(text)) == with_typed(app, text),
    decreases text.len(),
{
    let keys = keys_of(text);
    if text.len() == 0 {
        assert(with_typed(app, text) =~= app);
    } else {
        let rest = text.drop_last();
        assert(keys.drop_last() =~= keys_of(rest));
        law_typed_text_is_held(app, rest);
        assert forall|input: Seq<char>| (input + rest).push(text.last()) == #[trigger] (input
            + text) by {
            assert((input + rest).push(text.last()) =~= input + text);
        }
        assert(after_keys(app, keys) =~= with_typed(app, text));
    }
}

/// The three texts of a new worktree, typed one after another, end up in its plan: the branch, the
/// base, which is `HEAD` where nothing was typed, and the path, where there is one. White space
/// around them does not count.
pub proof fn law_dialog_gathers_options(
    app: TuiView,
    branch: Seq<char>,
    base: Seq<char>,
    path: Seq<char>,
    enter: KeyEvent,
)
    requires
        app.mode == (ModeView::NewBranch { input: seq![] }),
        enter.code == KeyCode::Enter,
        trimmed_space(branch).len() > 0,
    ensures
        ({
            let named = after_keys(app, keys_of(branch).push(enter));
            let based = after_keys(named, keys_of(base).push(enter));
            let placed = after_keys(based, keys_of(path));
            after_key(placed, enter) == prompt_submitted(
                in_mode(app, ModeView::Browse),
                trimmed_space(branch),
                if trimmed_space(base).len() == 0 {
                    "HEAD"@
                } else {
                    trimmed_space(base)
                },
                if trimmed_space(path).len() == 0 {
                    None
                } else {
                    Some(trimmed_space(path))
                },
            )
        }),
{
    let named = after_keys(app, keys_of(branch).push(enter));
    let based = after_keys(named, keys_of(base).push(enter));
    law_typed_text_is_held(app, branch);
    assert(keys_of(branch).push(enter).drop_last() =~= keys_of(branch));
    assert(Seq::<char>::empty() + branch =~= branch);
    law_typed_text_is_held(named, base);
    assert(keys_of(base).push(enter).drop_last() =~= keys_of(base));
    assert(Seq::<char>::empty() + base =~= base);
    law_typed_text_is_held(based, path);
    assert(Seq::<char>::empty() + path =~= path);
    let placed = after_keys(based, keys_of(path));
    assert(in_mode(placed, ModeView::Browse) =~= in_mode(app, ModeView::Browse));
}

/// Down and then up leads back to where one was, except at the end of the list.
pub proof fn law_down_and_up(app: TuiView)
    requires
        app.mode is Browse,
        0 <= app.selected,
        app.selected + 1 < app.worktrees.len(),
    ensures
        ({
            let down = KeyEvent { code: KeyCode::Down, control: false };
            let up = KeyEvent { code: KeyCode::Up, control: false };
            &&& after_key(app, down).0.selected == app.selected + 1
            &&& after_keys(app, seq![down, up]) == app
        }),
{
    let down = KeyEvent { code: KeyCode::Down, control: false };
    let up = KeyEvent { code: KeyCode::Up, control: false };
    reveal_with_fuel(after_keys, 3);
    assert(seq![down, up].drop_last() =~= seq![down]);
    assert(seq![down].drop_last() =~= seq![]);
    assert(after_keys(app, seq![down, up]) =~= app);
}

/// Enter, or the letter O, launches the configured agent inside the selected worktree: the one
/// that the environment sets, and else `opencode`. Once it has ended, the list is read again, and
/// the user is told of the launch, or why it failed.
pub proof fn law_opening_launches_agent(
    app: TuiView,
    key: KeyEvent,
    setting: Option<Seq<char>>,
    ran: RanView,
    listing: ReplyView,
)
    requires
        app.mode is Browse,
        key.code == KeyCode::Enter || key.code == KeyCode::Char('o'),
        selected_of(app) is Some,
        listed(listing->Ran_0) is Ok,
    ensures
        ({
            let path = selected_of(app)->Some_0.path;
            let command = match setting {
                Some(command) => command,
                None => "opencode"@,
            };
            let checking = TuiTaskView::CheckingPath { path };
            let reading = TuiTaskView::ReadingSetting { path };
            let launching = TuiTaskView::Launching { path, command };
            let ended = launch_told(path, agent_result(ran));
            let after = after_reply(app, ended, listing);
            &&& after_key(app, key) == (app, StepView::<TuiTaskView, ()>::Next(checking))
            &&& task_effect(app.repo, checking) == EffectView::IsDirectory(path)
            &&& after_reply(app, checking, ReplyView::Flag(true)) == (
                app,
                StepView::<TuiTaskView, ()>::Next(reading),
            )
            &&& task_effect(app.repo, reading) == EffectView::AgentSetting
            &&& after_reply(app, reading, ReplyView::Setting(setting)) == (
                app,
                StepView::<TuiTaskView, ()>::Next(launching),
            )
            &&& task_effect(app.repo, launching) == EffectView::Run(agent_run(command, path))
            &&& after_reply(app, launching, ReplyView::Ran(ran)) == (
                app,
                StepView::<TuiTaskView, ()>::Next(ended),
            )
            &&& after.1 == done()
            &&& after.0.worktrees == listed(listing->Ran_0)->Ok_0
            &&& after.0.status == match agent_result(ran) {
                Ok(_) => StatusView {
                    text: "agent launched: "@ + path,
                    kind: StatusKind::Info,
                },
                Err(message) => StatusView { text: message, kind: StatusKind::Error },
            }
        }),
{
}

/// A worktree that was just made is selected where Git lists it, and the agent is launched in it.
pub proof fn law_created_worktree_is_selected(app: TuiView, path: Seq<char>, reply: ReplyView)
    requires
        listed(reply->Ran_0) is Ok,
    ensures
        ({
            let worktrees = listed(reply->Ran_0)->Ok_0;
            let (after, step) = after_reply(
                app,
                TuiTaskView::Refreshing(CauseView::Created(path)),
                reply,
            );
            &&& after.worktrees == worktrees
            &&& after.mode is Browse
            &&& step == opening(path)
            &&& (exists|i: int|
                0 <= i < worktrees.len() && same_path(#[trigger] worktrees[i].path, path))
                ==> (selected_of(after) matches Some(worktree) && same_path(worktree.path, path))
        }),
{
    lemma_place_is_first(listed(reply->Ran_0)->Ok_0, path, 0);
}

/// The interface begins with the list that Git gave, its first worktree selected, nothing open,
/// and ready.
pub proof fn law_interface_begins_ready(repo: RepoView, worktrees: Seq<WorktreeView>)
    ensures
        ({
            let app = started(repo, worktrees);
            &&& app.repo == repo
            &&& app.worktrees == worktrees
            &&& app.selected == 0
            &&& app.mode is Browse
            &&& app.status.text == "ready"@
            &&& app.status.kind == StatusKind::Info
            &&& !app.should_quit
            &&& well_formed(app)
        }),
{
}

/// A list that is read again keeps the user's place in it. A place that the new list does not have
/// becomes its last one, and the first where the list is empty. Nothing else changes.
pub proof fn law_refresh_keeps_place(app: TuiView, worktrees: Seq<WorktreeView>)
    requires
        0 <= app.selected,
    ensures
        ({
            let after = refreshed(app, worktrees);
            &&& after.worktrees == worktrees
            &&& app.selected < worktrees.len() ==> after.selected == app.selected
            &&& worktrees.len() > 0 && app.selected >= worktrees.len() ==> after.selected
                == worktrees.len() - 1
            &&& worktrees.len() == 0 ==> after.selected == 0
            &&& after.repo == app.repo
            &&& after.mode == app.mode
            &&& after.status == app.status
            &&& after.should_quit == app.should_quit
        }),
{
}

/// The selected worktree is the one at the selected place, where there is one.
pub proof fn law_selected_worktree_is_at_its_place(app: TuiView)
    ensures
        0 <= app.selected < app.worktrees.len() ==> selected_of(app) == Some(
            app.worktrees[app.selected],
        ),
        app.selected < 0 || app.selected >= app.worktrees.len() ==> selected_of(app) is None,
{
}

/// Whether two states of the interface differ in the selection alone, and nothing is left to do.
pub open spec fn only_selection_moved(
    before: TuiView,
    after: (TuiView, TuiStepView),
    selected: int,
) -> bool {
    &&& after.0.selected == selected
    &&& after.0.repo == before.repo
    &&& after.0.worktrees == before.worktrees
    &&& after.0.mode == before.mode
    &&& after.0.status == before.status
    &&& after.0.should_quit == before.should_quit
    &&& after.1 == StepView::<TuiTaskView, ()>::Done(Ok(()))
}

/// J and the down key move the selection by one, up to the last worktree; K and the up key move it
/// back by one, up to the first; G and the home key move it to the first, and a capital G and the
/// end key to the last. They do nothing else.
pub proof fn law_keys_move_selection(app: TuiView, key: KeyEvent)
    requires
        app.mode is Browse,
        selection_in_list(app),
    ensures
        key.code == KeyCode::Char('j') || key.code == KeyCode::Down ==> only_selection_moved(
            app,
            after_key(app, key),
            if app.selected + 1 < app.worktrees.len() {
                app.selected + 1
            } else {
                app.selected
            },
        ),
        key.code == KeyCode::Char('k') || key.code == KeyCode::Up ==> only_selection_moved(
            app,
            after_key(app, key),
            if app.selected > 0 {
                app.selected - 1
            } else {
                0
            },
        ),
        key.code == KeyCode::Char('g') || key.code == KeyCode::Home ==> only_selection_moved(
            app,
            after_key(app, key),
            0,
        ),
        key.code == KeyCode::Char('G') || key.code == KeyCode::End ==> only_selection_moved(
            app,
            after_key(app, key),
            if app.worktrees.len() > 0 {
                app.worktrees.len() - 1
            } else {
                0
            },
        ),
{
}

/// Q and the escape key end the interface from the list, and do nothing else.
pub proof fn law_keys_quit(app: TuiView, key: KeyEvent)
    requires
        app.mode is Browse,
        key.code == KeyCode::Char('q') || key.code == KeyCode::Esc,
    ensures
        ({
            let (after, step) = after_key(app, key);
            &&& after.should_quit
            &&& after.selected == app.selected
            &&& after.worktrees == app.worktrees
            &&& after.mode is Browse
            &&& after.status == app.status
            &&& step == StepView::<TuiTaskView, ()>::Done(Ok(()))
        }),
{
}

/// From the list, N opens the dialog for a new worktree, empty, P asks whether to prune, and R
/// reads the list again. None of them changes anything else.
pub proof fn law_keys_open_dialogs(app: TuiView, key: KeyEvent)
    requires
        app.mode is Browse,
    ensures
        ({
            let (after, step) = after_key(app, key);
            let same = after.selected == app.selected && after.worktrees == app.worktrees
                && after.status == app.status && after.should_quit == app.should_quit && after.repo
                == app.repo;
            &&& key.code == KeyCode::Char('n') ==> {
                &&& same
                &&& after.mode == (ModeView::NewBranch { input: seq![] })
                &&& step == StepView::<TuiTaskView, ()>::Done(Ok(()))
            }
            &&& key.code == KeyCode::Char('p') ==> {
                &&& same
                &&& after.mode is ConfirmPrune
                &&& step == StepView::<TuiTaskView, ()>::Done(Ok(()))
            }
            &&& key.code == KeyCode::Char('r') ==> {
                &&& same
                &&& after.mode is Browse
                &&& step == StepView::<TuiTaskView, ()>::Next(
                    TuiTaskView::Refreshing(CauseView::Asked),
                )
            }
        }),
{
}

/// A key that means nothing to the list does nothing.
pub proof fn law_other_keys_do_nothing(app: TuiView, key: KeyEvent)
    requires
        app.mode is Browse,
        !(key.control && key.code == KeyCode::Char('c')),
        match key.code {
            KeyCode::Char(c) => c != 'q' && c != 'j' && c != 'k' && c != 'g' && c != 'G' && c != 'r'
                && c != 'n' && c != 'p' && c != 'd' && c != 'o',
            KeyCode::Backspace | KeyCode::Other => true,
            _ => false,
        },
    ensures
        after_key(app, key) == (app, StepView::<TuiTaskView, ()>::Done(Ok(()))),
{
    assert(in_mode(app, ModeView::Browse) =~= app);
}

/// Without a selected worktree there is nothing to open or to remove, and that is told.
pub proof fn law_nothing_is_selected_in_empty_list(app: TuiView, key: KeyEvent)
    requires
        app.mode is Browse,
        app.worktrees.len() == 0,
        key.code == KeyCode::Enter || key.code == KeyCode::Char('o') || key.code == KeyCode::Char(
            'd',
        ),
    ensures
        ({
            let (after, step) = after_key(app, key);
            &&& after.status.text == "no worktree selected"@
            &&& after.status.kind == StatusKind::Error
            &&& after.mode is Browse
            &&& after.selected == app.selected
            &&& step == StepView::<TuiTaskView, ()>::Done(Ok(()))
        }),
{
}

/// D asks whether to remove the selected worktree, by its path and label. One that can be pruned,
/// and the one that the program runs in, are refused instead, each with its reason.
pub proof fn law_removal_is_asked_or_refused(app: TuiView, key: KeyEvent)
    requires
        app.mode is Browse,
        key.code == KeyCode::Char('d'),
        0 <= app.selected < app.worktrees.len(),
    ensures
        ({
            let worktree = app.worktrees[app.selected];
            let (after, step) = after_key(app, key);
            let current = components_of(worktree.path) == components_of(app.repo.root);
            &&& step == StepView::<TuiTaskView, ()>::Done(Ok(()))
            &&& after.selected == app.selected
            &&& after.worktrees == app.worktrees
            &&& after.should_quit == app.should_quit
            &&& worktree.prunable ==> {
                &&& after.mode is Browse
                &&& after.status.text == "use prune for stale worktree metadata"@
                &&& after.status.kind == StatusKind::Error
            }
            &&& !worktree.prunable && current ==> {
                &&& after.mode is Browse
                &&& after.status.text == "cannot remove current worktree"@
                &&& after.status.kind == StatusKind::Error
            }
            &&& !worktree.prunable && !current ==> {
                &&& after.mode == (ModeView::ConfirmRemove {
                    path: worktree.path,
                    branch: label_of(worktree),
                })
                &&& after.status == app.status
            }
        }),
{
}

/// While a removal or a pruning is up for confirmation, yes does it, no and escape call it off and
/// say so, and any other key leaves it up.
pub proof fn law_confirmation_is_by_key(
    app: TuiView,
    path: Seq<char>,
    branch: Seq<char>,
    key: KeyEvent,
)
    requires
        !(key.control && key.code == KeyCode::Char('c')),
    ensures
        ({
            let removing = TuiView { mode: ModeView::ConfirmRemove { path, branch }, ..app };
            let pruning = TuiView { mode: ModeView::ConfirmPrune, ..app };
            let yes = key.code == KeyCode::Char('y') || key.code == KeyCode::Char('Y');
            let no = key.code == KeyCode::Char('n') || key.code == KeyCode::Char('N') || key.code
                == KeyCode::Esc;
            let idle = TuiView { mode: ModeView::Browse, ..app };
            let done = StepView::<TuiTaskView, ()>::Done(Ok(()));
            &&& yes ==> after_key(removing, key) == (
                idle,
                StepView::<TuiTaskView, ()>::Next(TuiTaskView::Removing(path)),
            )
            &&& yes ==> after_key(pruning, key) == (
                idle,
                StepView::<TuiTaskView, ()>::Next(TuiTaskView::Pruning),
            )
            &&& no ==> after_key(removing, key) == (
                TuiView {
                    status: StatusView { text: "remove cancelled"@, kind: StatusKind::Info },
                    ..idle
                },
                done,
            )
            &&& no ==> after_key(pruning, key) == (
                TuiView {
                    status: StatusView { text: "prune cancelled"@, kind: StatusKind::Info },
                    ..idle
                },
                done,
            )
            &&& !yes && !no ==> after_key(removing, key) == (removing, done)
            &&& !yes && !no ==> after_key(pruning, key) == (pruning, done)
        }),
{
    let removing = TuiView { mode: ModeView::ConfirmRemove { path, branch }, ..app };
    let pruning = TuiView { mode: ModeView::ConfirmPrune, ..app };
    assert(in_mode(in_mode(removing, ModeView::Browse), removing.mode) =~= removing);
    assert(in_mode(in_mode(pruning, ModeView::Browse), pruning.mode) =~= pruning);
}

/// A key that is typed stands behind the text, the backspace key takes the last character off, and
/// every other key leaves the text. Enter hands the text in, without the white space around it,
/// and escape calls the dialog off.
pub proof fn law_keys_edit_text(
    input: Seq<char>,
    c: char,
    key: KeyEvent,
    before: Seq<char>,
    words: Seq<char>,
    behind: Seq<char>,
)
    requires
        forall|i: int| 0 <= i < before.len() ==> is_space(#[trigger] before[i]),
        forall|i: int| 0 <= i < behind.len() ==> is_space(#[trigger] behind[i]),
        words.len() > 0 ==> !is_space(words[0]) && !is_space(words.last()),
    ensures
        key.code == KeyCode::Char(c) && !key.control ==> typed(input, key) == input + seq![c],
        key.code == KeyCode::Char(c) && key.control ==> typed(input, key) == input,
        key.code == KeyCode::Backspace ==> typed(input + seq![c], key) == input && typed(
            seq![],
            key,
        ) == Seq::<char>::empty(),
        !(key.code is Char) && key.code != KeyCode::Backspace ==> typed(input, key) == input,
        key.code == KeyCode::Enter ==> typed_result(before + words + behind, key)
            == PromptView::Submit(words),
        key.code == KeyCode::Esc ==> typed_result(input, key) == PromptView::Cancel,
        key.code != KeyCode::Enter && key.code != KeyCode::Esc ==> typed_result(input, key)
            == PromptView::Continue,
{
    law_trim_takes_white_space_off(before, words, behind);
    assert(input.push(c) =~= input + seq![c]);
    assert((input + seq![c]).drop_last() =~= input);
}

/// A branch that is handed in leads to the dialog for its base, an empty one back to the list,
/// with the reason. The base leads to the dialog for the path. A dialog that is called off leads
/// back to the list, and that is told.
pub proof fn law_dialogs_follow_one_another(
    app: TuiView,
    branch: Seq<char>,
    base: Seq<char>,
    input: Seq<char>,
    key: KeyEvent,
)
    requires
        app.mode is Browse,
    ensures
        ({
            let naming = TuiView { mode: ModeView::NewBranch { input }, ..app };
            let basing = TuiView { mode: ModeView::NewBase { branch, input }, ..app };
            let placing = TuiView { mode: ModeView::NewPath { branch, base, input }, ..app };
            let done = StepView::<TuiTaskView, ()>::Done(Ok(()));
            let text = trimmed_space(input);
            let cancelled = TuiView {
                status: StatusView { text: "new worktree cancelled"@, kind: StatusKind::Info },
                ..app
            };
            &&& key.code == KeyCode::Enter && text.len() == 0 ==> after_key(naming, key) == (
                TuiView {
                    status: StatusView {
                        text: "branch name is required"@,
                        kind: StatusKind::Error,
                    },
                    ..app
                },
                done,
            )
            &&& key.code == KeyCode::Enter && text.len() > 0 ==> after_key(naming, key) == (
                TuiView { mode: ModeView::NewBase { branch: text, input: seq![] }, ..app },
                done,
            )
            &&& key.code == KeyCode::Enter ==> after_key(basing, key) == (
                TuiView {
                    mode: ModeView::NewPath {
                        branch,
                        base: if text.len() == 0 {
                            "HEAD"@
                        } else {
                            text
                        },
                        input: seq![],
                    },
                    ..app
                },
                done,
            )
            &&& key.code == KeyCode::Enter ==> after_key(placing, key) == (
                app,
                StepView::<TuiTaskView, ()>::Next(
                    TuiTaskView::Planning(
                        PlanningView::Validating(
                            WishView {
                                repo: app.repo,
                                branch,
                                base: Some(base),
                                path: if text.len() == 0 {
                                    None
                                } else {
                                    Some(text)
                                },
                            },
                        ),
                    ),
                ),
            )
            &&& key.code == KeyCode::Esc ==> after_key(naming, key) == (cancelled, done)
            &&& key.code == KeyCode::Esc ==> after_key(basing, key) == (cancelled, done)
            &&& key.code == KeyCode::Esc ==> after_key(placing, key) == (cancelled, done)
        }),
{
    let naming = TuiView { mode: ModeView::NewBranch { input }, ..app };
    let basing = TuiView { mode: ModeView::NewBase { branch, input }, ..app };
    let placing = TuiView { mode: ModeView::NewPath { branch, base, input }, ..app };
    assert(in_mode(naming, ModeView::Browse) =~= app);
    assert(in_mode(basing, ModeView::Browse) =~= app);
    assert(in_mode(placing, ModeView::Browse) =~= app);
}

/// Only a key that is pressed counts; one that is held or let go, and anything else that the
/// terminal reports, changes nothing.
pub proof fn law_only_pressed_keys_count(app: TuiView, key: KeyEvent)
    ensures
        after_event(app, TerminalEvent::Pressed(key)) == after_key(app, key),
        after_event(app, TerminalEvent::Released(key)) == (
            app,
            StepView::<TuiTaskView, ()>::Done(Ok(())),
        ),
        after_event(app, TerminalEvent::Other) == (
            app,
            StepView::<TuiTaskView, ()>::Done(Ok(())),
        ),
{
}

/// What is asked of Git, and of the system, for each task: the list, the removal and the pruning
/// in the repository, and the rest as the plan, the creation and the launch ask it.
pub proof fn law_tasks_ask_what_they_are_for(
    repo: RepoView,
    cause: CauseView,
    path: Seq<char>,
    planning: PlanningView,
    plan: PlanView,
    creation: CreationView,
)
    ensures
        task_effect(repo, TuiTaskView::Refreshing(cause)) == EffectView::Run(
            git_run(seq!["worktree"@, "list"@, "--porcelain"@], Some(repo.root)),
        ),
        task_effect(repo, TuiTaskView::Removing(path)) == EffectView::Run(
            git_run(seq!["worktree"@, "remove"@, path], Some(repo.root)),
        ),
        task_effect(repo, TuiTaskView::Pruning) == EffectView::Run(
            git_run(seq!["worktree"@, "prune"@], Some(repo.root)),
        ),
        task_effect(repo, TuiTaskView::Planning(planning)) == planning_effect(planning),
        task_effect(repo, TuiTaskView::Creating { plan, creation }) == creation_effect(creation),
{
}

/// Where a plan ends its worktree is made; where that ends the list is read again. A failure of
/// either leads back to the list, and is told.
pub proof fn law_plan_leads_to_creation(
    app: TuiView,
    planning: PlanningView,
    plan: PlanView,
    creation: CreationView,
    reply: ReplyView,
    message: Seq<char>,
)
    ensures
        ({
            let working = after_reply(app, TuiTaskView::Planning(planning), reply);
            let making = after_reply(app, TuiTaskView::Creating { plan, creation }, reply);
            let failed = (
                TuiView {
                    mode: ModeView::Browse,
                    status: StatusView { text: message, kind: StatusKind::Error },
                    ..app
                },
                StepView::<TuiTaskView, ()>::Done(Ok(())),
            );
            &&& planning_next(planning, reply) == StepView::<PlanningView, PlanView>::Done(
                Err(message),
            ) ==> working == failed
            &&& planning_next(planning, reply) == StepView::<PlanningView, PlanView>::Done(Ok(plan))
                ==> working == (
                app,
                StepView::<TuiTaskView, ()>::Next(
                    TuiTaskView::Creating { plan, creation: creation_start(app.repo, plan) },
                ),
            )
            &&& planning_next(planning, reply) matches StepView::Next(next) ==> working == (
                app,
                StepView::<TuiTaskView, ()>::Next(TuiTaskView::Planning(next)),
            )
            &&& creation_next(creation, reply) == StepView::<CreationView, ()>::Done(Err(message))
                ==> making == failed
            &&& creation_next(creation, reply) == StepView::<CreationView, ()>::Done(Ok(()))
                ==> making == (
                app,
                StepView::<TuiTaskView, ()>::Next(
                    TuiTaskView::Refreshing(CauseView::Created(plan.path)),
                ),
            )
            &&& creation_next(creation, reply) matches StepView::Next(next) ==> making == (
                app,
                StepView::<TuiTaskView, ()>::Next(TuiTaskView::Creating { plan, creation: next }),
            )
        }),
{
}

/// A removal that fails leads back to the list, and is told; a pruning that fails ends the
/// interface. Where either succeeds, the list is read again.
pub proof fn law_removal_and_pruning_end(
    app: TuiView,
    path: Seq<char>,
    ran: RanView,
    message: Seq<char>,
)
    ensures
        ({
            let removed = after_reply(app, TuiTaskView::Removing(path), ReplyView::Ran(ran));
            let pruned = after_reply(app, TuiTaskView::Pruning, ReplyView::Ran(ran));
            &&& git_result(seq!["worktree"@, "remove"@, path], ran) == Ok::<(), Seq<char>>(())
                ==> removed == (
                app,
                StepView::<TuiTaskView, ()>::Next(
                    TuiTaskView::Refreshing(CauseView::Removed(path)),
                ),
            )
            &&& git_result(seq!["worktree"@, "remove"@, path], ran) == Err::<(), Seq<char>>(message)
                ==> removed == (
                TuiView {
                    mode: ModeView::Browse,
                    status: StatusView { text: message, kind: StatusKind::Error },
                    ..app
                },
                StepView::<TuiTaskView, ()>::Done(Ok(())),
            )
            &&& git_result(seq!["worktree"@, "prune"@], ran) == Ok::<(), Seq<char>>(()) ==> pruned
                == (
                app,
                StepView::<TuiTaskView, ()>::Next(TuiTaskView::Refreshing(CauseView::Pruned)),
            )
            &&& git_result(seq!["worktree"@, "prune"@], ran) == Err::<(), Seq<char>>(message)
                ==> pruned == (app, StepView::<TuiTaskView, ()>::Done(Err(message)))
        }),
{
}

/// A list that was read again is the new list, with the user's place kept, and what it was read
/// for is told. A list that could not be read ends the interface.
pub proof fn law_list_is_read_for_a_reason(
    app: TuiView,
    cause: CauseView,
    ran: RanView,
    worktrees: Seq<WorktreeView>,
    message: Seq<char>,
)
    requires
        0 <= app.selected,
        !(cause is Created),
    ensures
        ({
            let (after, step) = after_reply(
                app,
                TuiTaskView::Refreshing(cause),
                ReplyView::Ran(ran),
            );
            &&& listed(ran) == Err::<Seq<WorktreeView>, Seq<char>>(message) ==> after == app && step
                == StepView::<TuiTaskView, ()>::Done(Err(message))
            &&& listed(ran) == Ok::<Seq<WorktreeView>, Seq<char>>(worktrees) ==> {
                &&& step == StepView::<TuiTaskView, ()>::Done(Ok(()))
                &&& after.worktrees == worktrees
                &&& after.selected == if app.selected < worktrees.len() {
                    app.selected
                } else if worktrees.len() > 0 {
                    worktrees.len() - 1
                } else {
                    0
                }
                &&& after.should_quit == app.should_quit
                &&& after.mode == if cause is Removed || cause is Pruned {
                    ModeView::Browse
                } else {
                    app.mode
                }
                &&& after.status == match cause {
                    CauseView::Asked => StatusView { text: "refreshed"@, kind: StatusKind::Info },
                    CauseView::Removed(gone) => StatusView {
                        text: "removed "@ + gone,
                        kind: StatusKind::Info,
                    },
                    CauseView::Pruned => StatusView {
                        text: "pruned stale metadata"@,
                        kind: StatusKind::Info,
                    },
                    CauseView::Launched(place) => StatusView {
                        text: "agent launched: "@ + place,
                        kind: StatusKind::Info,
                    },
                    CauseView::NotLaunched(reason) => StatusView {
                        text: reason,
                        kind: StatusKind::Error,
                    },
                    CauseView::Created(made) => StatusView {
                        text: "created "@ + made,
                        kind: StatusKind::Info,
                    },
                }
            }
        }),
{
}

/// Once a worktree was made, the first one at its path is selected, and otherwise the user's place
/// is kept; the worktree is told, and opened.
pub proof fn law_created_worktree_is_told(
    app: TuiView,
    path: Seq<char>,
    ran: RanView,
    worktrees: Seq<WorktreeView>,
    place: int,
)
    requires
        0 <= app.selected,
        listed(ran) == Ok::<Seq<WorktreeView>, Seq<char>>(worktrees),
    ensures
        ({
            let (after, step) = after_reply(
                app,
                TuiTaskView::Refreshing(CauseView::Created(path)),
                ReplyView::Ran(ran),
            );
            &&& after.status == (StatusView { text: "created "@ + path, kind: StatusKind::Info })
            &&& after.mode is Browse
            &&& after.worktrees == worktrees
            &&& after.should_quit == app.should_quit
            &&& step == StepView::<TuiTaskView, ()>::Next(TuiTaskView::CheckingPath { path })
            &&& (0 <= place < worktrees.len() && components_of(worktrees[place].path)
                == components_of(path) && forall|i: int|
                0 <= i < place ==> components_of(#[trigger] worktrees[i].path) != components_of(
                    path,
                )) ==> after.selected == place
            &&& (forall|i: int|
                0 <= i < worktrees.len() ==> components_of(#[trigger] worktrees[i].path)
                    != components_of(path)) && app.selected < worktrees.len() ==> after.selected
                == app.selected
        }),
{
    lemma_place_is_first(worktrees, path, 0);
    if 0 <= place < worktrees.len() && components_of(worktrees[place].path) == components_of(path)
        && forall|i: int|
        0 <= i < place ==> components_of(#[trigger] worktrees[i].path) != components_of(path) {
        lemma_place_is(worktrees, path, 0, place);
    }
    if place_of(worktrees, path, 0) is Some {
        let found = place_of(worktrees, path, 0)->Some_0;
        assert(same_path(worktrees[found].path, path));
    }
}

proof fn lemma_place_is(worktrees: Seq<WorktreeView>, path: Seq<char>, from: int, place: int)
    requires
        0 <= from <= place < worktrees.len(),
        same_path(worktrees[place].path, path),
        forall|i: int| from <= i < place ==> !same_path(#[trigger] worktrees[i].path, path),
    ensures
        place_of(worktrees, path, from) == Some(place),
    decreases place - from,
{
    if from < place {
        assert(!same_path(worktrees[from].path, path));
        lemma_place_is(worktrees, path, from + 1, place);
    }
}

/// A worktree that is no directory is not opened, and that is told once the list was read again.
pub proof fn law_missing_directory_is_told(app: TuiView, path: Seq<char>)
    ensures
        after_reply(app, TuiTaskView::CheckingPath { path }, ReplyView::Flag(false)) == (
            app,
            StepView::<TuiTaskView, ()>::Next(
                TuiTaskView::Refreshing(CauseView::NotLaunched("not a directory: "@ + path)),
            ),
        ),
{
}

/// The control key and C, pressed together, end the interface, whatever is open, and leave
/// everything as it is.
pub proof fn law_control_c_quits(app: TuiView)
    ensures
        ({
            let (after, step) = after_key(
                app,
                KeyEvent { code: KeyCode::Char('c'), control: true },
            );
            &&& after.should_quit
            &&& after.repo == app.repo
            &&& after.worktrees == app.worktrees
            &&& after.selected == app.selected
            &&& after.mode == app.mode
            &&& after.status == app.status
            &&& step == StepView::<TuiTaskView, ()>::Done(Ok(()))
        }),
{
}

} // verus!
