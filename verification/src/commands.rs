//! The commands of the command line, from their arguments to their last line of output. Each is a
//! state that waits for a reply from outside, and goes on with it.
use vstd::prelude::*;
use vstd::string::*;

use crate::cli::{
    agent_command_of, default_agent_command, launch_options_from, new_options_from,
    no_launch_options, no_new_options, parse_launch_options, parse_new_options, parse_open_options,
    parse_remove_options, path_option_from, LaunchOptionsView,
};
use crate::error::{outcome, AppError, AppResult};
use crate::git::{
    format_worktree, listed, prune_args, remove_args, worktree_line, worktree_removed,
    worktrees_listed, worktrees_pruned, NewOptions, NewOptionsView, Repo, RepoView, WorktreeView,
};
use crate::plan::{
    build_new_worktree_plan, create_worktree as begin_creation, creation_effect, creation_next,
    creation_start, planning_effect, planning_next, planning_start, Creation, CreationView,
    NewWorktreePlan, PlanView, Planning, PlanningView, WishView,
};
use crate::process::{
    answers, git_result, git_run, status_failure_text, words, Effect, EffectView, ExitView,
    FoundView, Invocation, InvocationView, IoFailureView, Program, Ran, RanView, Reply, ReplyView,
    Step, StepView, Streams,
};
use crate::prompt::{
    answer, confirm, confirm_answer, confirm_hint, hint_for, prompt, prompt_answer, prompt_text,
    quiet, quietly, saying, select_worktree, selection_effect, selection_next, yes_or_no_text,
    Selection, SelectionView, Turn, TurnView,
};
use crate::shell::{quoted, shell_quote_path};
use crate::text::{cat, cat3};
use crate::tmux::{
    has_attempts_left, no_directory_text, open_tmux_session, opening_effect, opening_next, Opening,
    OpeningView,
};

verus! {

/// The lines that list worktrees.
pub open spec fn list_text(worktrees: Seq<WorktreeView>) -> Seq<Seq<char>> {
    if worktrees.len() == 0 {
        seq!["No worktrees found."@]
    } else {
        worktrees.map_values(|worktree: WorktreeView| worktree_line(worktree))
    }
}

/// What the command that lists worktrees prints, once Git has listed them.
pub fn list_worktrees(ran: Ran) -> (r: AppResult<Vec<String>>)
    ensures
        outcome(r) == match listed(ran.deep_view()) {
            Ok(worktrees) => Ok(list_text(worktrees)),
            Err(message) => Err(message),
        },
{
    match worktrees_listed(ran) {
        Err(error) => Err(error),
        Ok(worktrees) => {
            let mut r: Vec<String> = Vec::new();
            if worktrees.len() == 0 {
                r.push("No worktrees found.".to_owned());
                assert(r.deep_view() =~= list_text(worktrees.deep_view()));
                return Ok(r);
            }
            let mut i: usize = 0;
            while i < worktrees.len()
                invariant
                    i <= worktrees@.len(),
                    worktrees@.len() > 0,
                    r.deep_view() =~= list_text(worktrees.deep_view()).take(i as int),
                decreases worktrees.len() - i,
            {
                let ghost before = r.deep_view();
                let line: String = format_worktree(&worktrees[i]);
                assert(line@ == list_text(worktrees.deep_view())[i as int]);
                r.push(line);
                assert(r.deep_view() =~= before.push(line@));
                i += 1;
            }
            assert(r.deep_view() =~= list_text(worktrees.deep_view()));
            Ok(r)
        },
    }
}

/// What the command that prunes prints, once Git has pruned.
pub fn prune_worktrees(ran: Ran) -> (r: AppResult<Vec<String>>)
    ensures
        outcome(r) == match git_result(prune_args(), ran.deep_view()) {
            Ok(_) => Ok(seq!["pruned stale worktree metadata"@]),
            Err(message) => Err(message),
        },
{
    match worktrees_pruned(ran) {
        Err(error) => Err(error),
        Ok(_) => {
            let r: Vec<String> = vec!["pruned stale worktree metadata".to_owned()];
            assert(r.deep_view() =~= seq!["pruned stale worktree metadata"@]);
            Ok(r)
        },
    }
}

/// An agent's command, run by a shell in a worktree.
pub open spec fn agent_run(command: Seq<char>, path: Seq<char>) -> InvocationView {
    InvocationView {
        program: Program::Shell,
        args: seq!["-c"@, command],
        cwd: Some(path),
        streams: Streams::Inherited,
    }
}

pub fn launch_agent(command: &str, path: &str) -> (r: Invocation)
    ensures
        r.deep_view() == agent_run(command@, path@),
{
    Invocation {
        program: Program::Shell,
        args: words(&vec!["-c", command]),
        cwd: Some(path.to_owned()),
        streams: Streams::Inherited,
    }
}

/// What the run of an agent comes to.
pub open spec fn agent_result(ran: RanView) -> Result<(), Seq<char>> {
    match ran {
        RanView::Failed(failure) => Err(failure.message),
        RanView::Exited(exit) => if exit.success {
            Ok(())
        } else {
            Err(status_failure_text("agent command"@, exit.status))
        },
    }
}

pub fn agent_ended(ran: Ran) -> (r: AppResult<()>)
    ensures
        outcome(r) == agent_result(ran.deep_view()),
{
    match ran {
        Ran::Failed(failure) => Err(AppError::from_message(failure.message)),
        Ran::Exited(exit) => if exit.success {
            Ok(())
        } else {
            Err(
                AppError::from_message(
                    cat3("agent command", " failed with status ", exit.status.as_str()),
                ),
            )
        },
    }
}

/// The line that tells of an agent's start.
pub open spec fn launching_text(command: Seq<char>, path: Seq<char>) -> Seq<char> {
    "launching `"@ + command + "` in "@ + path
}

/// Tells of an agent's start.
pub fn launching_line(command: &str, path: &str) -> (r: String)
    ensures
        r@ == launching_text(command@, path@),
{
    let mut r: String = cat3("launching `", command, "` in ");
    r.append(path);
    r
}

/// How far the command that makes a worktree has come.
#[derive(Debug, PartialEq, Eq)]
pub enum NewCommand {
    /// The user is asked for a branch.
    AskingBranch { repo: Repo, options: NewOptions },
    /// The user is asked what the branch begins at.
    AskingBase { repo: Repo, options: NewOptions },
    /// A plan is made. `asking` tells whether the user was asked for the branch.
    Planning { repo: Repo, asking: bool, agent: Option<String>, planning: Planning },
    /// The user is asked whether an agent is wanted.
    Confirming { repo: Repo, plan: NewWorktreePlan },
    /// The agent that the environment sets is asked for.
    ReadingSetting { repo: Repo, plan: NewWorktreePlan },
    /// The user is asked for an agent.
    AskingAgent { repo: Repo, plan: NewWorktreePlan, default: String },
    /// The worktree is made.
    Creating { plan: NewWorktreePlan, agent: Option<String>, creation: Creation },
    /// The agent runs.
    Launching { command: String, path: String },
}

/// The view of a [`NewCommand`].
#[verifier::ext_equal]
pub enum NewCommandView {
    AskingBranch { repo: RepoView, options: NewOptionsView },
    AskingBase { repo: RepoView, options: NewOptionsView },
    Planning { repo: RepoView, asking: bool, agent: Option<Seq<char>>, planning: PlanningView },
    Confirming { repo: RepoView, plan: PlanView },
    ReadingSetting { repo: RepoView, plan: PlanView },
    AskingAgent { repo: RepoView, plan: PlanView, default: Seq<char> },
    Creating { plan: PlanView, agent: Option<Seq<char>>, creation: CreationView },
    Launching { command: Seq<char>, path: Seq<char> },
}

impl DeepView for NewCommand {
    type V = NewCommandView;

    open spec fn deep_view(&self) -> NewCommandView {
        match self {
            NewCommand::AskingBranch { repo, options } => NewCommandView::AskingBranch {
                repo: repo.deep_view(),
                options: options.deep_view(),
            },
            NewCommand::AskingBase { repo, options } => NewCommandView::AskingBase {
                repo: repo.deep_view(),
                options: options.deep_view(),
            },
            NewCommand::Planning { repo, asking, agent, planning } => NewCommandView::Planning {
                repo: repo.deep_view(),
                asking: *asking,
                agent: agent.deep_view(),
                planning: planning.deep_view(),
            },
            NewCommand::Confirming { repo, plan } => NewCommandView::Confirming {
                repo: repo.deep_view(),
                plan: plan.deep_view(),
            },
            NewCommand::ReadingSetting { repo, plan } => NewCommandView::ReadingSetting {
                repo: repo.deep_view(),
                plan: plan.deep_view(),
            },
            NewCommand::AskingAgent { repo, plan, default } => NewCommandView::AskingAgent {
                repo: repo.deep_view(),
                plan: plan.deep_view(),
                default: default@,
            },
            NewCommand::Creating { plan, agent, creation } => NewCommandView::Creating {
                plan: plan.deep_view(),
                agent: agent.deep_view(),
                creation: creation.deep_view(),
            },
            NewCommand::Launching { command, path } => NewCommandView::Launching {
                command: command@,
                path: path@,
            },
        }
    }
}

/// What the command that makes a worktree waits for.
pub open spec fn new_effect(state: NewCommandView) -> EffectView {
    match state {
        NewCommandView::AskingBranch { .. } => EffectView::Ask(
            prompt_text("Branch name"@, None),
        ),
        NewCommandView::AskingBase { .. } => EffectView::Ask(
            prompt_text("Base ref"@, Some("HEAD"@)),
        ),
        NewCommandView::Planning { planning, .. } => planning_effect(planning),
        NewCommandView::Confirming { .. } => EffectView::Ask(
            prompt_text("Launch an agent after creation?"@, Some(confirm_hint(false))),
        ),
        NewCommandView::ReadingSetting { .. } => EffectView::AgentSetting,
        NewCommandView::AskingAgent { default, .. } => EffectView::Ask(
            prompt_text("Agent command"@, Some(default)),
        ),
        NewCommandView::Creating { creation, .. } => creation_effect(creation),
        NewCommandView::Launching { command, path } => EffectView::Run(agent_run(command, path)),
    }
}

/// How the command goes on once its options are known.
pub open spec fn new_planned(repo: RepoView, options: NewOptionsView, asking: bool) -> StepView<
    NewCommandView,
    (),
> {
    match planning_start(repo, options) {
        StepView::Done(Err(message)) => StepView::Done(Err(message)),
        StepView::Done(Ok(_)) => StepView::Done(Ok(())),
        StepView::Next(planning) => StepView::Next(
            NewCommandView::Planning { repo, asking, agent: options.agent_command, planning },
        ),
    }
}

/// How the command begins: with the user, where no branch is named.
pub open spec fn new_start(repo: RepoView, args: Seq<Seq<char>>) -> TurnView<NewCommandView, ()> {
    match new_options_from(no_new_options(), args) {
        Err(message) => quietly(StepView::Done(Err(message))),
        Ok(options) => if options.branch is None {
            quietly(StepView::Next(NewCommandView::AskingBranch { repo, options }))
        } else {
            quietly(new_planned(repo, options, false))
        },
    }
}

/// The lines that tell of a plan.
pub open spec fn plan_text(plan: PlanView) -> Seq<Seq<char>> {
    seq![
        ""@,
        "Create worktree"@,
        "  branch: "@ + plan.branch,
        if plan.branch_exists {
            "  mode: existing branch"@
        } else {
            "  mode: new branch from "@ + (match plan.base {
                Some(base) => base,
                None => "HEAD"@,
            })
        },
        "  path: "@ + plan.path,
    ]
}

/// How the command goes on once the agent is known, or that there is none.
pub open spec fn new_created(
    repo: RepoView,
    plan: PlanView,
    agent: Option<Seq<char>>,
) -> NewCommandView {
    NewCommandView::Creating { plan, agent, creation: creation_start(repo, plan) }
}

/// How the command that makes a worktree goes on.
pub open spec fn new_next(state: NewCommandView, reply: ReplyView) -> TurnView<NewCommandView, ()> {
    match state {
        NewCommandView::AskingBranch { repo, options } => match prompt_answer(
            None,
            reply->Line_0,
        ) {
            Err(message) => quietly(StepView::Done(Err(message))),
            Ok(branch) => if branch.len() == 0 {
                TurnView { say: seq!["Branch name is required."@], step: StepView::Next(state) }
            } else {
                let options = NewOptionsView { branch: Some(branch), ..options };
                if options.base is None {
                    quietly(StepView::Next(NewCommandView::AskingBase { repo, options }))
                } else {
                    quietly(new_planned(repo, options, true))
                }
            },
        },
        NewCommandView::AskingBase { repo, options } => match prompt_answer(
            Some("HEAD"@),
            reply->Line_0,
        ) {
            Err(message) => quietly(StepView::Done(Err(message))),
            Ok(base) => quietly(
                new_planned(repo, NewOptionsView { base: Some(base), ..options }, true),
            ),
        },
        NewCommandView::Planning { repo, asking, agent, planning } => match planning_next(
            planning,
            reply,
        ) {
            StepView::Next(planning) => quietly(
                StepView::Next(NewCommandView::Planning { repo, asking, agent, planning }),
            ),
            StepView::Done(Err(message)) => quietly(StepView::Done(Err(message))),
            StepView::Done(Ok(plan)) => TurnView {
                say: plan_text(plan),
                step: StepView::Next(
                    if asking && agent is None {
                        NewCommandView::Confirming { repo, plan }
                    } else {
                        new_created(repo, plan, agent)
                    },
                ),
            },
        },
        NewCommandView::Confirming { repo, plan } => match confirm_answer(false, reply->Line_0) {
            Err(message) => quietly(StepView::Done(Err(message))),
            Ok(None) => TurnView { say: seq![yes_or_no_text()], step: StepView::Next(state) },
            Ok(Some(true)) => quietly(
                StepView::Next(NewCommandView::ReadingSetting { repo, plan }),
            ),
            Ok(Some(false)) => quietly(StepView::Next(new_created(repo, plan, None))),
        },
        NewCommandView::ReadingSetting { repo, plan } => quietly(
            StepView::Next(
                NewCommandView::AskingAgent {
                    repo,
                    plan,
                    default: agent_command_of(reply->Setting_0),
                },
            ),
        ),
        NewCommandView::AskingAgent { repo, plan, default } => match prompt_answer(
            Some(default),
            reply->Line_0,
        ) {
            Err(message) => quietly(StepView::Done(Err(message))),
            Ok(command) => quietly(StepView::Next(new_created(repo, plan, Some(command)))),
        },
        NewCommandView::Creating { plan, agent, creation } => match creation_next(
            creation,
            reply,
        ) {
            StepView::Next(creation) => quietly(
                StepView::Next(NewCommandView::Creating { plan, agent, creation }),
            ),
            StepView::Done(Err(message)) => quietly(StepView::Done(Err(message))),
            StepView::Done(Ok(_)) => match agent {
                Some(command) => TurnView {
                    say: seq!["created: "@ + plan.path, launching_text(command, plan.path)],
                    step: StepView::Next(NewCommandView::Launching { command, path: plan.path }),
                },
                None => TurnView {
                    say: seq!["created: "@ + plan.path, "next: cd "@ + quoted(plan.path)],
                    step: StepView::Done(Ok(())),
                },
            },
        },
        NewCommandView::Launching { .. } => quietly(StepView::Done(agent_result(reply->Ran_0))),
    }
}

fn begin_planning(repo: Repo, options: NewOptions, asking: bool) -> (r: Step<NewCommand, ()>)
    ensures
        r.deep_view() == new_planned(repo.deep_view(), options.deep_view(), asking),
{
    let agent: Option<String> = options.agent_command.clone();
    match build_new_worktree_plan(&repo, options) {
        Step::Done(Err(error)) => Step::Done(Err(error)),
        Step::Done(Ok(_)) => Step::Done(Ok(())),
        Step::Next(planning) => Step::Next(NewCommand::Planning { repo, asking, agent, planning }),
    }
}

fn plan_lines(plan: &NewWorktreePlan) -> (r: Vec<String>)
    ensures
        r.deep_view() == plan_text(plan.deep_view()),
{
    let mode: String = if plan.branch_exists {
        "  mode: existing branch".to_owned()
    } else {
        let base: &str = match &plan.base {
            Some(base) => base.as_str(),
            None => "HEAD",
        };
        cat("  mode: new branch from ", base)
    };
    let r: Vec<String> = vec![
        "".to_owned(),
        "Create worktree".to_owned(),
        cat("  branch: ", plan.branch.as_str()),
        mode,
        cat("  path: ", plan.path.as_str()),
    ];
    assert(r.deep_view() =~= plan_text(plan.deep_view()));
    r
}

/// Begins the command that makes a worktree.
pub fn new_worktree(repo: &Repo, args: &[String]) -> (r: Turn<NewCommand, ()>)
    ensures
        r.deep_view() == new_start(repo.deep_view(), args.deep_view()),
{
    match parse_new_options(args) {
        Err(error) => quiet(Step::Done(Err(error))),
        Ok(options) => if options.branch.is_none() {
            quiet(Step::Next(NewCommand::AskingBranch { repo: repo.clone(), options }))
        } else {
            quiet(begin_planning(repo.clone(), options, false))
        },
    }
}

fn creating(repo: &Repo, plan: NewWorktreePlan, agent: Option<String>) -> (r: NewCommand)
    ensures
        r.deep_view() == new_created(repo.deep_view(), plan.deep_view(), agent.deep_view()),
{
    let creation: Creation = begin_creation(repo, &plan);
    NewCommand::Creating { plan, agent, creation }
}

impl NewCommand {
    /// What the command waits for.
    pub fn effect(&self) -> (r: Effect)
        ensures
            r.deep_view() == new_effect(self.deep_view()),
    {
        match self {
            NewCommand::AskingBranch { .. } => prompt("Branch name", None),
            NewCommand::AskingBase { .. } => prompt("Base ref", Some("HEAD")),
            NewCommand::Planning { planning, .. } => planning.effect(),
            NewCommand::Confirming { .. } => prompt(
                "Launch an agent after creation?",
                Some(hint_for(false)),
            ),
            NewCommand::ReadingSetting { .. } => Effect::AgentSetting,
            NewCommand::AskingAgent { default, .. } => prompt(
                "Agent command",
                Some(default.as_str()),
            ),
            NewCommand::Creating { creation, .. } => creation.effect(),
            NewCommand::Launching { command, path } => Effect::Run(
                launch_agent(command.as_str(), path.as_str()),
            ),
        }
    }

    /// Goes on with the reply.
    pub fn resume(self, reply: Reply) -> (r: Turn<NewCommand, ()>)
        requires
            answers(reply.deep_view(), new_effect(self.deep_view())),
        ensures
            r.deep_view() == new_next(self.deep_view(), reply.deep_view()),
    {
        match self {
            NewCommand::AskingBranch { repo, options } => match answer(None, reply.line()) {
                Err(error) => quiet(Step::Done(Err(error))),
                Ok(branch) => if branch.as_str().is_empty() {
                    saying(
                        "Branch name is required.".to_owned(),
                        Step::Next(NewCommand::AskingBranch { repo, options }),
                    )
                } else {
                    let options: NewOptions = NewOptions {
                        branch: Some(branch),
                        base: options.base,
                        path: options.path,
                        agent_command: options.agent_command,
                    };
                    if options.base.is_none() {
                        quiet(Step::Next(NewCommand::AskingBase { repo, options }))
                    } else {
                        quiet(begin_planning(repo, options, true))
                    }
                },
            },
            NewCommand::AskingBase { repo, options } => match answer(
                Some("HEAD"),
                reply.line(),
            ) {
                Err(error) => quiet(Step::Done(Err(error))),
                Ok(base) => {
                    let options: NewOptions = NewOptions {
                        branch: options.branch,
                        base: Some(base),
                        path: options.path,
                        agent_command: options.agent_command,
                    };
                    quiet(begin_planning(repo, options, true))
                },
            },
            NewCommand::Planning { repo, asking, agent, planning } => match planning.resume(reply) {
                Step::Next(planning) => quiet(
                    Step::Next(NewCommand::Planning { repo, asking, agent, planning }),
                ),
                Step::Done(Err(error)) => quiet(Step::Done(Err(error))),
                Step::Done(Ok(plan)) => {
                    let say: Vec<String> = plan_lines(&plan);
                    if asking && agent.is_none() {
                        Turn { say, step: Step::Next(NewCommand::Confirming { repo, plan }) }
                    } else {
                        Turn { say, step: Step::Next(creating(&repo, plan, agent)) }
                    }
                },
            },
            NewCommand::Confirming { repo, plan } => match confirm(false, reply.line()) {
                Err(error) => quiet(Step::Done(Err(error))),
                Ok(None) => saying(
                    "Please answer yes or no.".to_owned(),
                    Step::Next(NewCommand::Confirming { repo, plan }),
                ),
                Ok(Some(wanted)) => if wanted {
                    quiet(Step::Next(NewCommand::ReadingSetting { repo, plan }))
                } else {
                    quiet(Step::Next(creating(&repo, plan, None)))
                },
            },
            NewCommand::ReadingSetting { repo, plan } => {
                let default: String = default_agent_command(reply.setting());
                quiet(Step::Next(NewCommand::AskingAgent { repo, plan, default }))
            },
            NewCommand::AskingAgent { repo, plan, default } => match answer(
                Some(default.as_str()),
                reply.line(),
            ) {
                Err(error) => quiet(Step::Done(Err(error))),
                Ok(command) => quiet(Step::Next(creating(&repo, plan, Some(command)))),
            },
            NewCommand::Creating { plan, agent, creation } => match creation.resume(reply) {
                Step::Next(creation) => quiet(
                    Step::Next(NewCommand::Creating { plan, agent, creation }),
                ),
                Step::Done(Err(error)) => quiet(Step::Done(Err(error))),
                Step::Done(Ok(_)) => {
                    let created: String = cat("created: ", plan.path.as_str());
                    match agent {
                        Some(command) => {
                            let say: Vec<String> = vec![
                                created,
                                launching_line(command.as_str(), plan.path.as_str()),
                            ];
                            assert(say.deep_view() =~= seq![
                                "created: "@ + plan.path@,
                                launching_text(command@, plan.path@),
                            ]);
                            Turn {
                                say,
                                step: Step::Next(
                                    NewCommand::Launching { command, path: plan.path },
                                ),
                            }
                        },
                        None => {
                            let next: String = cat(
                                "next: cd ",
                                shell_quote_path(plan.path.as_str()).as_str(),
                            );
                            let say: Vec<String> = vec![created, next];
                            assert(say.deep_view() =~= seq![
                                "created: "@ + plan.path@,
                                "next: cd "@ + quoted(plan.path@),
                            ]);
                            Turn { say, step: Step::Done(Ok(())) }
                        },
                    }
                },
            },
            NewCommand::Launching { .. } => quiet(Step::Done(agent_ended(reply.ran()))),
        }
    }
}

/// How far the command that launches an agent has come.
#[derive(Debug, PartialEq, Eq)]
pub enum LaunchCommand {
    /// The user chooses a worktree.
    Selecting { agent: Option<String>, selection: Selection },
    /// The agent that the environment sets is asked for. `asking` tells whether the user was asked
    /// for the worktree.
    ReadingSetting { path: String, asking: bool },
    /// The user is asked for an agent.
    AskingAgent { path: String, default: String },
    /// Whether the path leads to a directory is asked for.
    CheckingPath { path: String, command: String },
    /// The agent runs.
    Launching { path: String, command: String },
}

/// The view of a [`LaunchCommand`].
#[verifier::ext_equal]
pub enum LaunchCommandView {
    Selecting { agent: Option<Seq<char>>, selection: SelectionView },
    ReadingSetting { path: Seq<char>, asking: bool },
    AskingAgent { path: Seq<char>, default: Seq<char> },
    CheckingPath { path: Seq<char>, command: Seq<char> },
    Launching { path: Seq<char>, command: Seq<char> },
}

impl DeepView for LaunchCommand {
    type V = LaunchCommandView;

    open spec fn deep_view(&self) -> LaunchCommandView {
        match self {
            LaunchCommand::Selecting { agent, selection } => LaunchCommandView::Selecting {
                agent: agent.deep_view(),
                selection: selection.deep_view(),
            },
            LaunchCommand::ReadingSetting { path, asking } => LaunchCommandView::ReadingSetting {
                path: path@,
                asking: *asking,
            },
            LaunchCommand::AskingAgent { path, default } => LaunchCommandView::AskingAgent {
                path: path@,
                default: default@,
            },
            LaunchCommand::CheckingPath { path, command } => LaunchCommandView::CheckingPath {
                path: path@,
                command: command@,
            },
            LaunchCommand::Launching { path, command } => LaunchCommandView::Launching {
                path: path@,
                command: command@,
            },
        }
    }
}

/// What the command that launches an agent waits for.
pub open spec fn launch_effect(state: LaunchCommandView) -> EffectView {
    match state {
        LaunchCommandView::Selecting { selection, .. } => selection_effect(selection),
        LaunchCommandView::ReadingSetting { .. } => EffectView::AgentSetting,
        LaunchCommandView::AskingAgent { default, .. } => EffectView::Ask(
            prompt_text("Agent command"@, Some(default)),
        ),
        LaunchCommandView::CheckingPath { path, .. } => EffectView::IsDirectory(path),
        LaunchCommandView::Launching { path, command } => EffectView::Run(
            agent_run(command, path),
        ),
    }
}

/// How the command goes on once the worktree is known.
pub open spec fn launch_chosen(
    path: Seq<char>,
    agent: Option<Seq<char>>,
    asking: bool,
) -> LaunchCommandView {
    match agent {
        Some(command) => LaunchCommandView::CheckingPath { path, command },
        None => LaunchCommandView::ReadingSetting { path, asking },
    }
}

/// How the command begins: with the user, where no worktree is named.
pub open spec fn launch_start(repo: RepoView, args: Seq<Seq<char>>) -> TurnView<
    LaunchCommandView,
    (),
> {
    match launch_options_from(no_launch_options(), args) {
        Err(message) => quietly(StepView::Done(Err(message))),
        Ok(options) => match options.path {
            Some(path) => quietly(
                StepView::Next(launch_chosen(path, options.agent_command, false)),
            ),
            None => quietly(
                StepView::Next(
                    LaunchCommandView::Selecting {
                        agent: options.agent_command,
                        selection: SelectionView::Listing { repo },
                    },
                ),
            ),
        },
    }
}

/// How the command that launches an agent goes on.
pub open spec fn launch_next(state: LaunchCommandView, reply: ReplyView) -> TurnView<
    LaunchCommandView,
    (),
> {
    match state {
        LaunchCommandView::Selecting { agent, selection } => {
            let turn = selection_next(selection, reply);
            match turn.step {
                StepView::Next(selection) => TurnView {
                    say: turn.say,
                    step: StepView::Next(LaunchCommandView::Selecting { agent, selection }),
                },
                StepView::Done(Err(message)) => TurnView {
                    say: turn.say,
                    step: StepView::Done(Err(message)),
                },
                StepView::Done(Ok(path)) => TurnView {
                    say: turn.say,
                    step: StepView::Next(launch_chosen(path, agent, true)),
                },
            }
        },
        LaunchCommandView::ReadingSetting { path, asking } => {
            let command = agent_command_of(reply->Setting_0);
            if asking {
                quietly(
                    StepView::Next(LaunchCommandView::AskingAgent { path, default: command }),
                )
            } else {
                quietly(StepView::Next(LaunchCommandView::CheckingPath { path, command }))
            }
        },
        LaunchCommandView::AskingAgent { path, default } => match prompt_answer(
            Some(default),
            reply->Line_0,
        ) {
            Err(message) => quietly(StepView::Done(Err(message))),
            Ok(command) => quietly(
                StepView::Next(LaunchCommandView::CheckingPath { path, command }),
            ),
        },
        LaunchCommandView::CheckingPath { path, command } => if reply->Flag_0 {
            TurnView {
                say: seq![launching_text(command, path)],
                step: StepView::Next(LaunchCommandView::Launching { path, command }),
            }
        } else {
            quietly(StepView::Done(Err(no_directory_text(path))))
        },
        LaunchCommandView::Launching { .. } => quietly(StepView::Done(agent_result(reply->Ran_0))),
    }
}

fn launch_at(path: String, agent: Option<String>, asking: bool) -> (r: LaunchCommand)
    ensures
        r.deep_view() == launch_chosen(path@, agent.deep_view(), asking),
{
    match agent {
        Some(command) => LaunchCommand::CheckingPath { path, command },
        None => LaunchCommand::ReadingSetting { path, asking },
    }
}

/// Begins the command that launches an agent in a worktree.
pub fn launch_worktree(repo: &Repo, args: &[String]) -> (r: Turn<LaunchCommand, ()>)
    ensures
        r.deep_view() == launch_start(repo.deep_view(), args.deep_view()),
{
    match parse_launch_options(args) {
        Err(error) => quiet(Step::Done(Err(error))),
        Ok(options) => match options.path {
            Some(path) => quiet(Step::Next(launch_at(path, options.agent_command, false))),
            None => quiet(
                Step::Next(
                    LaunchCommand::Selecting {
                        agent: options.agent_command,
                        selection: select_worktree(repo),
                    },
                ),
            ),
        },
    }
}

impl LaunchCommand {
    /// What the command waits for.
    pub fn effect(&self) -> (r: Effect)
        ensures
            r.deep_view() == launch_effect(self.deep_view()),
    {
        match self {
            LaunchCommand::Selecting { selection, .. } => selection.effect(),
            LaunchCommand::ReadingSetting { .. } => Effect::AgentSetting,
            LaunchCommand::AskingAgent { default, .. } => prompt(
                "Agent command",
                Some(default.as_str()),
            ),
            LaunchCommand::CheckingPath { path, .. } => Effect::IsDirectory(path.clone()),
            LaunchCommand::Launching { path, command } => Effect::Run(
                launch_agent(command.as_str(), path.as_str()),
            ),
        }
    }

    /// Goes on with the reply.
    pub fn resume(self, reply: Reply) -> (r: Turn<LaunchCommand, ()>)
        requires
            answers(reply.deep_view(), launch_effect(self.deep_view())),
        ensures
            r.deep_view() == launch_next(self.deep_view(), reply.deep_view()),
    {
        match self {
            LaunchCommand::Selecting { agent, selection } => {
                let turn: Turn<Selection, String> = selection.resume(reply);
                let say: Vec<String> = turn.say;
                match turn.step {
                    Step::Next(selection) => Turn {
                        say,
                        step: Step::Next(LaunchCommand::Selecting { agent, selection }),
                    },
                    Step::Done(Err(error)) => Turn { say, step: Step::Done(Err(error)) },
                    Step::Done(Ok(path)) => Turn {
                        say,
                        step: Step::Next(launch_at(path, agent, true)),
                    },
                }
            },
            LaunchCommand::ReadingSetting { path, asking } => {
                let command: String = default_agent_command(reply.setting());
                if asking {
                    quiet(Step::Next(LaunchCommand::AskingAgent { path, default: command }))
                } else {
                    quiet(Step::Next(LaunchCommand::CheckingPath { path, command }))
                }
            },
            LaunchCommand::AskingAgent { path, default } => match answer(
                Some(default.as_str()),
                reply.line(),
            ) {
                Err(error) => quiet(Step::Done(Err(error))),
                Ok(command) => quiet(Step::Next(LaunchCommand::CheckingPath { path, command })),
            },
            LaunchCommand::CheckingPath { path, command } => if reply.flag() {
                saying(
                    launching_line(command.as_str(), path.as_str()),
                    Step::Next(LaunchCommand::Launching { path, command }),
                )
            } else {
                quiet(
                    Step::Done(
                        Err(AppError::from_message(cat("not a directory: ", path.as_str()))),
                    ),
                )
            },
            LaunchCommand::Launching { .. } => quiet(Step::Done(agent_ended(reply.ran()))),
        }
    }
}

/// How far the command that opens a worktree in tmux has come.
#[derive(Debug, PartialEq, Eq)]
pub enum OpenCommand {
    /// The user chooses a worktree.
    Selecting(Selection),
    /// The session is opened.
    Opening(Opening),
}

/// The view of an [`OpenCommand`].
#[verifier::ext_equal]
pub enum OpenCommandView {
    Selecting(SelectionView),
    Opening(OpeningView),
}

impl DeepView for OpenCommand {
    type V = OpenCommandView;

    open spec fn deep_view(&self) -> OpenCommandView {
        match self {
            OpenCommand::Selecting(selection) => OpenCommandView::Selecting(selection.deep_view()),
            OpenCommand::Opening(opening) => OpenCommandView::Opening(opening.deep_view()),
        }
    }
}

/// What the command that opens a worktree waits for.
pub open spec fn open_effect(state: OpenCommandView) -> EffectView {
    match state {
        OpenCommandView::Selecting(selection) => selection_effect(selection),
        OpenCommandView::Opening(opening) => opening_effect(opening),
    }
}

/// How the command begins: with the user, where no worktree is named.
pub open spec fn open_start(repo: RepoView, args: Seq<Seq<char>>) -> TurnView<
    OpenCommandView,
    (),
> {
    match path_option_from(None, args) {
        Err(message) => quietly(StepView::Done(Err(message))),
        Ok(Some(path)) => quietly(
            StepView::Next(OpenCommandView::Opening(OpeningView::CheckingPath { path })),
        ),
        Ok(None) => quietly(
            StepView::Next(OpenCommandView::Selecting(SelectionView::Listing { repo })),
        ),
    }
}

/// How the command that opens a worktree goes on.
pub open spec fn open_next(state: OpenCommandView, reply: ReplyView) -> TurnView<
    OpenCommandView,
    (),
> {
    match state {
        OpenCommandView::Selecting(selection) => {
            let turn = selection_next(selection, reply);
            TurnView {
                say: turn.say,
                step: match turn.step {
                    StepView::Next(selection) => StepView::Next(
                        OpenCommandView::Selecting(selection),
                    ),
                    StepView::Done(Err(message)) => StepView::Done(Err(message)),
                    StepView::Done(Ok(path)) => StepView::Next(
                        OpenCommandView::Opening(OpeningView::CheckingPath { path }),
                    ),
                },
            }
        },
        OpenCommandView::Opening(opening) => match opening_next(opening, reply) {
            StepView::Next(opening) => quietly(StepView::Next(OpenCommandView::Opening(opening))),
            StepView::Done(result) => quietly(StepView::Done(result)),
        },
    }
}

/// Whether the search for a session's name, where there is one, has a number left to go on with.
pub open spec fn open_has_attempts_left(state: OpenCommandView, reply: ReplyView) -> bool {
    state matches OpenCommandView::Opening(opening) ==> has_attempts_left(opening, reply)
}

/// Begins the command that opens a worktree in tmux.
pub fn open_worktree(repo: &Repo, args: &[String]) -> (r: Turn<OpenCommand, ()>)
    ensures
        r.deep_view() == open_start(repo.deep_view(), args.deep_view()),
{
    match parse_open_options(args) {
        Err(error) => quiet(Step::Done(Err(error))),
        Ok(options) => match options.path {
            Some(path) => quiet(
                Step::Next(OpenCommand::Opening(open_tmux_session(path.as_str()))),
            ),
            None => quiet(Step::Next(OpenCommand::Selecting(select_worktree(repo)))),
        },
    }
}

impl OpenCommand {
    /// What the command waits for.
    pub fn effect(&self) -> (r: Effect)
        ensures
            r.deep_view() == open_effect(self.deep_view()),
    {
        match self {
            OpenCommand::Selecting(selection) => selection.effect(),
            OpenCommand::Opening(opening) => opening.effect(),
        }
    }

    /// Goes on with the reply.
    pub fn resume(self, reply: Reply) -> (r: Turn<OpenCommand, ()>)
        requires
            answers(reply.deep_view(), open_effect(self.deep_view())),
            open_has_attempts_left(self.deep_view(), reply.deep_view()),
        ensures
            r.deep_view() == open_next(self.deep_view(), reply.deep_view()),
    {
        match self {
            OpenCommand::Selecting(selection) => {
                let turn: Turn<Selection, String> = selection.resume(reply);
                let step: Step<OpenCommand, ()> = match turn.step {
                    Step::Next(selection) => Step::Next(OpenCommand::Selecting(selection)),
                    Step::Done(Err(error)) => Step::Done(Err(error)),
                    Step::Done(Ok(path)) => Step::Next(
                        OpenCommand::Opening(open_tmux_session(path.as_str())),
                    ),
                };
                Turn { say: turn.say, step }
            },
            OpenCommand::Opening(opening) => match opening.resume(reply) {
                Step::Next(opening) => quiet(Step::Next(OpenCommand::Opening(opening))),
                Step::Done(result) => quiet(Step::Done(result)),
            },
        }
    }
}

/// How far the command that removes a worktree has come.
#[derive(Debug, PartialEq, Eq)]
pub enum RemoveCommand {
    /// The user chooses a worktree.
    Selecting { repo: Repo, selection: Selection },
    /// The user is asked whether to remove it.
    Confirming { repo: Repo, path: String },
    /// Git is told to remove it.
    Removing { repo: Repo, path: String },
}

/// The view of a [`RemoveCommand`].
#[verifier::ext_equal]
pub enum RemoveCommandView {
    Selecting { repo: RepoView, selection: SelectionView },
    Confirming { repo: RepoView, path: Seq<char> },
    Removing { repo: RepoView, path: Seq<char> },
}

impl DeepView for RemoveCommand {
    type V = RemoveCommandView;

    open spec fn deep_view(&self) -> RemoveCommandView {
        match self {
            RemoveCommand::Selecting { repo, selection } => RemoveCommandView::Selecting {
                repo: repo.deep_view(),
                selection: selection.deep_view(),
            },
            RemoveCommand::Confirming { repo, path } => RemoveCommandView::Confirming {
                repo: repo.deep_view(),
                path: path@,
            },
            RemoveCommand::Removing { repo, path } => RemoveCommandView::Removing {
                repo: repo.deep_view(),
                path: path@,
            },
        }
    }
}

/// The question whether to remove a worktree.
pub open spec fn remove_question(path: Seq<char>) -> Seq<char> {
    "Remove worktree "@ + path + "?"@
}

/// What the command that removes a worktree waits for.
pub open spec fn remove_effect(state: RemoveCommandView) -> EffectView {
    match state {
        RemoveCommandView::Selecting { selection, .. } => selection_effect(selection),
        RemoveCommandView::Confirming { path, .. } => EffectView::Ask(
            prompt_text(remove_question(path), Some(confirm_hint(false))),
        ),
        RemoveCommandView::Removing { repo, path } => EffectView::Run(
            git_run(remove_args(path), Some(repo.root)),
        ),
    }
}

/// How the command begins: with the user, where no worktree is named.
pub open spec fn remove_start(repo: RepoView, args: Seq<Seq<char>>) -> TurnView<
    RemoveCommandView,
    (),
> {
    match path_option_from(None, args) {
        Err(message) => quietly(StepView::Done(Err(message))),
        Ok(Some(path)) => quietly(StepView::Next(RemoveCommandView::Removing { repo, path })),
        Ok(None) => quietly(
            StepView::Next(
                RemoveCommandView::Selecting { repo, selection: SelectionView::Listing { repo } },
            ),
        ),
    }
}

/// How the command that removes a worktree goes on.
pub open spec fn remove_next(state: RemoveCommandView, reply: ReplyView) -> TurnView<
    RemoveCommandView,
    (),
> {
    match state {
        RemoveCommandView::Selecting { repo, selection } => {
            let turn = selection_next(selection, reply);
            TurnView {
                say: turn.say,
                step: match turn.step {
                    StepView::Next(selection) => StepView::Next(
                        RemoveCommandView::Selecting { repo, selection },
                    ),
                    StepView::Done(Err(message)) => StepView::Done(Err(message)),
                    StepView::Done(Ok(path)) => StepView::Next(
                        RemoveCommandView::Confirming { repo, path },
                    ),
                },
            }
        },
        RemoveCommandView::Confirming { repo, path } => match confirm_answer(
            false,
            reply->Line_0,
        ) {
            Err(message) => quietly(StepView::Done(Err(message))),
            Ok(None) => TurnView { say: seq![yes_or_no_text()], step: StepView::Next(state) },
            Ok(Some(true)) => quietly(StepView::Next(RemoveCommandView::Removing { repo, path })),
            Ok(Some(false)) => TurnView {
                say: seq!["remove cancelled"@],
                step: StepView::Done(Ok(())),
            },
        },
        RemoveCommandView::Removing { path, .. } => match git_result(
            remove_args(path),
            reply->Ran_0,
        ) {
            Err(message) => quietly(StepView::Done(Err(message))),
            Ok(_) => TurnView { say: seq!["removed: "@ + path], step: StepView::Done(Ok(())) },
        },
    }
}

/// Begins the command that removes a worktree.
pub fn remove_worktree(repo: &Repo, args: &[String]) -> (r: Turn<RemoveCommand, ()>)
    ensures
        r.deep_view() == remove_start(repo.deep_view(), args.deep_view()),
{
    match parse_remove_options(args) {
        Err(error) => quiet(Step::Done(Err(error))),
        Ok(options) => match options.path {
            Some(path) => quiet(
                Step::Next(RemoveCommand::Removing { repo: repo.clone(), path }),
            ),
            None => quiet(
                Step::Next(
                    RemoveCommand::Selecting {
                        repo: repo.clone(),
                        selection: select_worktree(repo),
                    },
                ),
            ),
        },
    }
}

impl RemoveCommand {
    /// What the command waits for.
    pub fn effect(&self) -> (r: Effect)
        ensures
            r.deep_view() == remove_effect(self.deep_view()),
    {
        match self {
            RemoveCommand::Selecting { selection, .. } => selection.effect(),
            RemoveCommand::Confirming { path, .. } => {
                let question: String = cat3("Remove worktree ", path.as_str(), "?");
                prompt(question.as_str(), Some(hint_for(false)))
            },
            RemoveCommand::Removing { repo, path } => Effect::Run(
                crate::git::remove_worktree(repo, path.as_str()),
            ),
        }
    }

    /// Goes on with the reply.
    pub fn resume(self, reply: Reply) -> (r: Turn<RemoveCommand, ()>)
        requires
            answers(reply.deep_view(), remove_effect(self.deep_view())),
        ensures
            r.deep_view() == remove_next(self.deep_view(), reply.deep_view()),
    {
        match self {
            RemoveCommand::Selecting { repo, selection } => {
                let turn: Turn<Selection, String> = selection.resume(reply);
                let step: Step<RemoveCommand, ()> = match turn.step {
                    Step::Next(selection) => Step::Next(
                        RemoveCommand::Selecting { repo, selection },
                    ),
                    Step::Done(Err(error)) => Step::Done(Err(error)),
                    Step::Done(Ok(path)) => Step::Next(RemoveCommand::Confirming { repo, path }),
                };
                Turn { say: turn.say, step }
            },
            RemoveCommand::Confirming { repo, path } => match confirm(false, reply.line()) {
                Err(error) => quiet(Step::Done(Err(error))),
                Ok(None) => saying(
                    "Please answer yes or no.".to_owned(),
                    Step::Next(RemoveCommand::Confirming { repo, path }),
                ),
                Ok(Some(wanted)) => if wanted {
                    quiet(Step::Next(RemoveCommand::Removing { repo, path }))
                } else {
                    saying("remove cancelled".to_owned(), Step::Done(Ok(())))
                },
            },
            RemoveCommand::Removing { path, .. } => match worktree_removed(
                path.as_str(),
                reply.ran(),
            ) {
                Err(error) => quiet(Step::Done(Err(error))),
                Ok(_) => saying(cat("removed: ", path.as_str()), Step::Done(Ok(()))),
            },
        }
    }
}

/// Whether a new worktree is made without a question to the user.
pub open spec fn new_is_scripted(state: NewCommandView) -> bool {
    match state {
        NewCommandView::Planning { asking, .. } => !asking,
        NewCommandView::Creating { .. } => true,
        NewCommandView::Launching { .. } => true,
        _ => false,
    }
}

/// Where the arguments name a branch, the command that makes a worktree never asks the user
/// anything, whatever the replies.
pub proof fn law_new_with_branch_is_scripted(
    repo: RepoView,
    args: Seq<Seq<char>>,
    state: NewCommandView,
    reply: ReplyView,
)
    ensures
        (new_options_from(no_new_options(), args) matches Ok(options) && options.branch is Some)
            ==> (new_start(repo, args).step matches StepView::Next(first) ==> new_is_scripted(
            first,
        )),
        new_is_scripted(state) ==> !(new_effect(state) is Ask),
        new_is_scripted(state) ==> (new_next(state, reply).step matches StepView::Next(next)
            ==> new_is_scripted(next)),
{
}

/// Whether an agent is launched without a question to the user.
pub open spec fn launch_is_scripted(state: LaunchCommandView) -> bool {
    match state {
        LaunchCommandView::ReadingSetting { asking, .. } => !asking,
        LaunchCommandView::CheckingPath { .. } => true,
        LaunchCommandView::Launching { .. } => true,
        _ => false,
    }
}

/// Where the arguments name a worktree, the command that launches an agent never asks the user
/// anything, whatever the replies.
pub proof fn law_launch_with_path_is_scripted(
    repo: RepoView,
    args: Seq<Seq<char>>,
    state: LaunchCommandView,
    reply: ReplyView,
)
    ensures
        (launch_options_from(no_launch_options(), args) matches Ok(options) && options.path is Some)
            ==> (launch_start(repo, args).step matches StepView::Next(first)
            ==> launch_is_scripted(first)),
        launch_is_scripted(state) ==> !(launch_effect(state) is Ask),
        launch_is_scripted(state) ==> (launch_next(state, reply).step matches StepView::Next(next)
            ==> launch_is_scripted(next)),
{
}

/// Where the arguments name a worktree, it is removed without a question; where the user chose
/// it, only a yes removes it.
pub proof fn law_chosen_worktree_is_removed_on_yes_only(
    repo: RepoView,
    args: Seq<Seq<char>>,
    state: RemoveCommandView,
    reply: ReplyView,
)
    ensures
        path_option_from(None, args) matches Ok(Some(path)) ==> remove_start(repo, args)
            == quietly::<
            RemoveCommandView,
            (),
        >(StepView::Next(RemoveCommandView::Removing { repo, path })),
        path_option_from(None, args) matches Ok(None) ==> (remove_start(
            repo,
            args,
        ).step matches StepView::Next(first) && first is Selecting),
        !(state is Removing) && (remove_next(state, reply).step matches StepView::Next(next)
            && next is Removing) ==> state is Confirming && confirm_answer(false, reply->Line_0)
            == Ok::<Option<bool>, Seq<char>>(Some(true)),
{
}

/// An agent that is named on the command line is run in the new worktree, and none is otherwise
/// unless the user asks for it.
pub proof fn law_named_agent_runs_in_new_worktree(
    plan: PlanView,
    agent: Option<Seq<char>>,
    creation: CreationView,
    reply: ReplyView,
)
    ensures
        ({
            let state = NewCommandView::Creating { plan, agent, creation };
            creation_next(creation, reply) == StepView::<CreationView, ()>::Done(Ok(())) ==> (
            match agent {
                Some(command) => new_next(state, reply).step matches StepView::Next(next)
                    && new_effect(next) == EffectView::Run(agent_run(command, plan.path)),
                None => new_next(state, reply).step == StepView::<NewCommandView, ()>::Done(Ok(())),
            })
        }),
{
}

/// The list has a line for each worktree, in order, and says so where there is none.
pub proof fn law_list_has_line_for_each_worktree(worktrees: Seq<WorktreeView>, i: int)
    requires
        0 <= i < worktrees.len(),
    ensures
        list_text(seq![]) == seq!["No worktrees found."@],
        list_text(worktrees).len() == worktrees.len(),
        list_text(worktrees)[i] == worktree_line(worktrees[i]),
{
}

/// An agent's command is run by a shell, in the worktree, on the terminal. It fails in the words
/// of the system, or with its status.
pub proof fn law_agent_is_run_in_worktree(
    command: Seq<char>,
    path: Seq<char>,
    exit: ExitView,
    failure: IoFailureView,
)
    ensures
        agent_run(command, path).program == Program::Shell,
        agent_run(command, path).args == seq!["-c"@, command],
        agent_run(command, path).cwd == Some(path),
        agent_run(command, path).streams == Streams::Inherited,
        exit.success ==> agent_result(RanView::Exited(exit)) == Ok::<(), Seq<char>>(()),
        !exit.success ==> agent_result(RanView::Exited(exit)) == Err::<(), Seq<char>>(
            "agent command"@ + " failed with status "@ + exit.status,
        ),
        agent_result(RanView::Failed(failure)) == Err::<(), Seq<char>>(failure.message),
        launching_text(command, path) == "launching `"@ + command + "` in "@ + path,
{
}

/// What is told of a plan: the branch, whether it exists or what it begins at, and the path.
pub proof fn law_plan_is_told(plan: PlanView, base: Seq<char>)
    ensures
        plan_text(plan).len() == 5,
        plan_text(plan)[0] == ""@,
        plan_text(plan)[1] == "Create worktree"@,
        plan_text(plan)[2] == "  branch: "@ + plan.branch,
        plan.branch_exists ==> plan_text(plan)[3] == "  mode: existing branch"@,
        !plan.branch_exists && plan.base == Some(base) ==> plan_text(plan)[3]
            == "  mode: new branch from "@ + base,
        !plan.branch_exists && plan.base is None ==> plan_text(plan)[3]
            == "  mode: new branch from "@ + "HEAD"@,
        plan_text(plan)[4] == "  path: "@ + plan.path,
{
}

/// The command that makes a worktree begins with the plan where the arguments name a branch, and
/// otherwise asks for the branch. The options that were given are kept.
pub proof fn law_new_begins_with_what_is_missing(
    repo: RepoView,
    args: Seq<Seq<char>>,
    options: NewOptionsView,
    branch: Seq<char>,
    message: Seq<char>,
)
    ensures
        ({
            let turn = new_start(repo, args);
            &&& turn.say == Seq::<Seq<char>>::empty()
            &&& new_options_from(no_new_options(), args) == Err::<NewOptionsView, Seq<char>>(
                message,
            ) ==> turn.step == StepView::<NewCommandView, ()>::Done(Err(message))
            &&& new_options_from(no_new_options(), args) == Ok::<NewOptionsView, Seq<char>>(options)
                && options.branch is None ==> turn.step == StepView::<NewCommandView, ()>::Next(
                NewCommandView::AskingBranch { repo, options },
            )
            &&& new_options_from(no_new_options(), args) == Ok::<NewOptionsView, Seq<char>>(options)
                && options.branch == Some(branch) ==> turn.step == StepView::<
                NewCommandView,
                (),
            >::Next(
                NewCommandView::Planning {
                    repo,
                    asking: false,
                    agent: options.agent_command,
                    planning: PlanningView::Validating(
                        WishView { repo, branch, base: options.base, path: options.path },
                    ),
                },
            )
        }),
{
}

/// A user who is asked for the branch gives it, and then the base, unless that was an option. An
/// empty branch is asked for again. What was typed goes into the plan.
pub proof fn law_new_asks_for_branch_and_base(
    repo: RepoView,
    options: NewOptionsView,
    branch: Seq<char>,
    line: FoundView,
    message: Seq<char>,
)
    ensures
        ({
            let asking = NewCommandView::AskingBranch { repo, options };
            let named = NewOptionsView { branch: Some(branch), ..options };
            let basing = NewCommandView::AskingBase { repo, options: named };
            let turn = new_next(asking, ReplyView::Line(line));
            let base_turn = new_next(basing, ReplyView::Line(line));
            &&& new_effect(asking) == EffectView::Ask("Branch name"@ + ": "@)
            &&& new_effect(basing) == EffectView::Ask("Base ref"@ + " ["@ + "HEAD"@ + "]: "@)
            &&& prompt_answer(None, line) == Err::<Seq<char>, Seq<char>>(message) ==> turn.step
                == StepView::<NewCommandView, ()>::Done(Err(message))
            &&& prompt_answer(None, line) == Ok::<Seq<char>, Seq<char>>(seq![]) ==> turn.say
                == seq!["Branch name is required."@] && turn.step == StepView::<
                NewCommandView,
                (),
            >::Next(asking)
            &&& prompt_answer(None, line) == Ok::<Seq<char>, Seq<char>>(branch) && branch.len() > 0
                ==> turn.step == if options.base is None {
                StepView::<NewCommandView, ()>::Next(basing)
            } else {
                StepView::<NewCommandView, ()>::Next(
                    NewCommandView::Planning {
                        repo,
                        asking: true,
                        agent: options.agent_command,
                        planning: PlanningView::Validating(
                            WishView { repo, branch, base: options.base, path: options.path },
                        ),
                    },
                )
            }
            &&& prompt_answer(Some("HEAD"@), line) matches Ok(base) ==> base_turn.step
                == StepView::<
                NewCommandView,
                (),
            >::Next(
                NewCommandView::Planning {
                    repo,
                    asking: true,
                    agent: options.agent_command,
                    planning: PlanningView::Validating(
                        WishView { repo, branch, base: Some(base), path: options.path },
                    ),
                },
            )
            &&& prompt_answer(Some("HEAD"@), line) == Err::<Seq<char>, Seq<char>>(message)
                ==> base_turn.step == StepView::<NewCommandView, ()>::Done(Err(message))
        }),
{
}

/// Once a plan is made it is told, and carried out. Only a user who was asked for the branch, and
/// who named no agent, is asked for one before.
pub proof fn law_new_carries_out_its_plan(
    repo: RepoView,
    asking: bool,
    agent: Option<Seq<char>>,
    planning: PlanningView,
    reply: ReplyView,
    plan: PlanView,
    message: Seq<char>,
)
    ensures
        ({
            let state = NewCommandView::Planning { repo, asking, agent, planning };
            let turn = new_next(state, reply);
            &&& new_effect(state) == planning_effect(planning)
            &&& planning_next(planning, reply) == StepView::<PlanningView, PlanView>::Done(
                Err(message),
            ) ==> turn.step == StepView::<NewCommandView, ()>::Done(Err(message))
            &&& planning_next(planning, reply) matches StepView::Next(next) ==> turn.step
                == StepView::<NewCommandView, ()>::Next(
                NewCommandView::Planning { repo, asking, agent, planning: next },
            )
            &&& planning_next(planning, reply) == StepView::<PlanningView, PlanView>::Done(Ok(plan))
                ==> {
                &&& turn.say == plan_text(plan)
                &&& turn.step == if asking && agent is None {
                    StepView::<NewCommandView, ()>::Next(NewCommandView::Confirming { repo, plan })
                } else {
                    StepView::<NewCommandView, ()>::Next(
                        NewCommandView::Creating {
                            plan,
                            agent,
                            creation: creation_start(repo, plan),
                        },
                    )
                }
            }
        }),
{
}

/// A user who wants an agent is asked for its command, with the configured one as the default, and
/// the command that was typed is the agent. One who wants none gets none.
pub proof fn law_new_asks_for_agent(
    repo: RepoView,
    plan: PlanView,
    line: FoundView,
    setting: Option<Seq<char>>,
    default: Seq<char>,
    message: Seq<char>,
)
    ensures
        ({
            let confirming = NewCommandView::Confirming { repo, plan };
            let reading = NewCommandView::ReadingSetting { repo, plan };
            let asking = NewCommandView::AskingAgent { repo, plan, default };
            let turn = new_next(confirming, ReplyView::Line(line));
            let creation = creation_start(repo, plan);
            &&& new_effect(confirming) == EffectView::Ask(
                "Launch an agent after creation?"@ + " ["@ + "y/N"@ + "]: "@,
            )
            &&& confirm_answer(false, line) == Ok::<Option<bool>, Seq<char>>(Some(true))
                ==> turn.step == StepView::<NewCommandView, ()>::Next(reading)
            &&& confirm_answer(false, line) == Ok::<Option<bool>, Seq<char>>(Some(false))
                ==> turn.step == StepView::<NewCommandView, ()>::Next(
                NewCommandView::Creating { plan, agent: None, creation },
            )
            &&& confirm_answer(false, line) == Ok::<Option<bool>, Seq<char>>(None) ==> turn.step
                == StepView::<NewCommandView, ()>::Next(confirming) && turn.say == seq![
                "Please answer yes or no."@,
            ]
            &&& confirm_answer(false, line) == Err::<Option<bool>, Seq<char>>(message) ==> turn.step
                == StepView::<NewCommandView, ()>::Done(Err(message))
            &&& new_effect(reading) == EffectView::AgentSetting
            &&& new_next(reading, ReplyView::Setting(setting)).step == StepView::<
                NewCommandView,
                (),
            >::Next(
                NewCommandView::AskingAgent {
                    repo,
                    plan,
                    default: match setting {
                        Some(command) => command,
                        None => "opencode"@,
                    },
                },
            )
            &&& new_effect(asking) == EffectView::Ask(
                "Agent command"@ + " ["@ + default + "]: "@,
            )
            &&& prompt_answer(Some(default), line) matches Ok(command) ==> new_next(
                asking,
                ReplyView::Line(line),
            ).step == StepView::<NewCommandView, ()>::Next(
                NewCommandView::Creating { plan, agent: Some(command), creation },
            )
            &&& prompt_answer(Some(default), line) == Err::<Seq<char>, Seq<char>>(message)
                ==> new_next(asking, ReplyView::Line(line)).step == StepView::<
                NewCommandView,
                (),
            >::Done(Err(message))
        }),
{
}

/// A worktree that was made is told by its path. Then its agent is told and runs in it, and
/// without one the way there is told, for a shell to read.
pub proof fn law_new_ends_in_worktree(
    plan: PlanView,
    agent: Option<Seq<char>>,
    creation: CreationView,
    reply: ReplyView,
    ran: RanView,
    message: Seq<char>,
)
    ensures
        ({
            let state = NewCommandView::Creating { plan, agent, creation };
            let turn = new_next(state, reply);
            &&& new_effect(state) == creation_effect(creation)
            &&& creation_next(creation, reply) == StepView::<CreationView, ()>::Done(Err(message))
                ==> turn.step == StepView::<NewCommandView, ()>::Done(Err(message))
            &&& creation_next(creation, reply) matches StepView::Next(next) ==> turn.step
                == StepView::<NewCommandView, ()>::Next(
                NewCommandView::Creating { plan, agent, creation: next },
            )
            &&& creation_next(creation, reply) == StepView::<CreationView, ()>::Done(Ok(()))
                ==> match agent {
                Some(command) => {
                    let launching = NewCommandView::Launching { command, path: plan.path };
                    &&& turn.say == seq![
                        "created: "@ + plan.path,
                        "launching `"@ + command + "` in "@ + plan.path,
                    ]
                    &&& turn.step == StepView::<NewCommandView, ()>::Next(launching)
                    &&& new_effect(launching) == EffectView::Run(agent_run(command, plan.path))
                    &&& new_next(launching, ReplyView::Ran(ran)).step == StepView::<
                        NewCommandView,
                        (),
                    >::Done(agent_result(ran))
                },
                None => {
                    &&& turn.say == seq![
                        "created: "@ + plan.path,
                        "next: cd "@ + quoted(plan.path),
                    ]
                    &&& turn.step == StepView::<NewCommandView, ()>::Done(Ok(()))
                },
            }
        }),
{
}

/// The command that launches an agent takes the worktree and the agent from its arguments, and
/// else asks for the worktree.
pub proof fn law_launch_begins_with_what_is_missing(
    repo: RepoView,
    args: Seq<Seq<char>>,
    path: Seq<char>,
    command: Seq<char>,
    agent: Option<Seq<char>>,
    message: Seq<char>,
)
    ensures
        ({
            let turn = launch_start(repo, args);
            let options = launch_options_from(no_launch_options(), args);
            &&& turn.say == Seq::<Seq<char>>::empty()
            &&& options == Err::<LaunchOptionsView, Seq<char>>(message) ==> turn.step == StepView::<
                LaunchCommandView,
                (),
            >::Done(Err(message))
            &&& options == Ok::<LaunchOptionsView, Seq<char>>(
                LaunchOptionsView { path: Some(path), agent_command: Some(command) },
            ) ==> turn.step == StepView::<LaunchCommandView, ()>::Next(
                LaunchCommandView::CheckingPath { path, command },
            )
            &&& options == Ok::<LaunchOptionsView, Seq<char>>(
                LaunchOptionsView { path: Some(path), agent_command: None },
            ) ==> turn.step == StepView::<LaunchCommandView, ()>::Next(
                LaunchCommandView::ReadingSetting { path, asking: false },
            )
            &&& options == Ok::<LaunchOptionsView, Seq<char>>(
                LaunchOptionsView { path: None, agent_command: agent },
            ) ==> turn.step == StepView::<LaunchCommandView, ()>::Next(
                LaunchCommandView::Selecting { agent, selection: SelectionView::Listing { repo } },
            )
        }),
{
}

/// A worktree that was chosen is launched in with the agent that was named; where none was, the
/// user is asked for one, with the configured one as the default.
pub proof fn law_launch_in_chosen_worktree(
    agent: Option<Seq<char>>,
    selection: SelectionView,
    reply: ReplyView,
    path: Seq<char>,
    message: Seq<char>,
)
    ensures
        ({
            let state = LaunchCommandView::Selecting { agent, selection };
            let turn = launch_next(state, reply);
            let choice = selection_next(selection, reply);
            &&& launch_effect(state) == selection_effect(selection)
            &&& turn.say == choice.say
            &&& choice.step matches StepView::Next(next) ==> turn.step == StepView::<
                LaunchCommandView,
                (),
            >::Next(LaunchCommandView::Selecting { agent, selection: next })
            &&& choice.step == StepView::<SelectionView, Seq<char>>::Done(Err(message))
                ==> turn.step == StepView::<LaunchCommandView, ()>::Done(Err(message))
            &&& choice.step == StepView::<SelectionView, Seq<char>>::Done(Ok(path)) ==> turn.step
                == StepView::<LaunchCommandView, ()>::Next(
                match agent {
                    Some(command) => LaunchCommandView::CheckingPath { path, command },
                    None => LaunchCommandView::ReadingSetting { path, asking: true },
                },
            )
        }),
{
}

/// The agent is the one that was named, or typed, or configured; it is told, and runs in the
/// worktree, if that is a directory.
pub proof fn law_launch_runs_agent_in_worktree(
    path: Seq<char>,
    asking: bool,
    setting: Option<Seq<char>>,
    default: Seq<char>,
    line: FoundView,
    command: Seq<char>,
    ran: RanView,
    message: Seq<char>,
)
    ensures
        ({
            let reading = LaunchCommandView::ReadingSetting { path, asking };
            let prompting = LaunchCommandView::AskingAgent { path, default };
            let checking = LaunchCommandView::CheckingPath { path, command };
            let launching = LaunchCommandView::Launching { path, command };
            let configured = match setting {
                Some(command) => command,
                None => "opencode"@,
            };
            &&& launch_effect(reading) == EffectView::AgentSetting
            &&& launch_next(reading, ReplyView::Setting(setting)).step == StepView::<
                LaunchCommandView,
                (),
            >::Next(
                if asking {
                    LaunchCommandView::AskingAgent { path, default: configured }
                } else {
                    LaunchCommandView::CheckingPath { path, command: configured }
                },
            )
            &&& launch_effect(prompting) == EffectView::Ask(
                "Agent command"@ + " ["@ + default + "]: "@,
            )
            &&& prompt_answer(Some(default), line) == Ok::<Seq<char>, Seq<char>>(command)
                ==> launch_next(prompting, ReplyView::Line(line)).step == StepView::<
                LaunchCommandView,
                (),
            >::Next(checking)
            &&& prompt_answer(Some(default), line) == Err::<Seq<char>, Seq<char>>(message)
                ==> launch_next(prompting, ReplyView::Line(line)).step == StepView::<
                LaunchCommandView,
                (),
            >::Done(Err(message))
            &&& launch_effect(checking) == EffectView::IsDirectory(path)
            &&& launch_next(checking, ReplyView::Flag(false)).step == StepView::<
                LaunchCommandView,
                (),
            >::Done(Err("not a directory: "@ + path))
            &&& launch_next(checking, ReplyView::Flag(true)).step == StepView::<
                LaunchCommandView,
                (),
            >::Next(launching)
            &&& launch_next(checking, ReplyView::Flag(true)).say == seq![
                "launching `"@ + command + "` in "@ + path,
            ]
            &&& launch_effect(launching) == EffectView::Run(agent_run(command, path))
            &&& launch_next(launching, ReplyView::Ran(ran)).step == StepView::<
                LaunchCommandView,
                (),
            >::Done(agent_result(ran))
        }),
{
}

/// The command that opens a worktree opens a session for the one that its arguments name, and else
/// for the one that the user chooses, and ends as the opening ends.
pub proof fn law_open_opens_session(
    repo: RepoView,
    args: Seq<Seq<char>>,
    path: Seq<char>,
    selection: SelectionView,
    opening: OpeningView,
    reply: ReplyView,
    message: Seq<char>,
)
    ensures
        ({
            let turn = open_start(repo, args);
            let begun = StepView::<OpenCommandView, ()>::Next(
                OpenCommandView::Opening(OpeningView::CheckingPath { path }),
            );
            let choosing = OpenCommandView::Selecting(selection);
            let choice = selection_next(selection, reply);
            let busy = OpenCommandView::Opening(opening);
            &&& turn.say == Seq::<Seq<char>>::empty()
            &&& path_option_from(None, args) == Err::<Option<Seq<char>>, Seq<char>>(message)
                ==> turn.step == StepView::<OpenCommandView, ()>::Done(Err(message))
            &&& path_option_from(None, args) == Ok::<Option<Seq<char>>, Seq<char>>(Some(path))
                ==> turn.step == begun
            &&& path_option_from(None, args) == Ok::<Option<Seq<char>>, Seq<char>>(None)
                ==> turn.step == StepView::<OpenCommandView, ()>::Next(
                OpenCommandView::Selecting(SelectionView::Listing { repo }),
            )
            &&& open_effect(choosing) == selection_effect(selection)
            &&& open_next(choosing, reply).say == choice.say
            &&& choice.step matches StepView::Next(next) ==> open_next(choosing, reply).step
                == StepView::<OpenCommandView, ()>::Next(OpenCommandView::Selecting(next))
            &&& choice.step == StepView::<SelectionView, Seq<char>>::Done(Err(message))
                ==> open_next(choosing, reply).step == StepView::<OpenCommandView, ()>::Done(
                Err(message),
            )
            &&& choice.step == StepView::<SelectionView, Seq<char>>::Done(Ok(path)) ==> open_next(
                choosing,
                reply,
            ).step == begun
            &&& open_effect(busy) == opening_effect(opening)
            &&& match opening_next(opening, reply) {
                StepView::Next(next) => open_next(busy, reply).step == StepView::<
                    OpenCommandView,
                    (),
                >::Next(OpenCommandView::Opening(next)),
                StepView::Done(result) => open_next(busy, reply).step == StepView::<
                    OpenCommandView,
                    (),
                >::Done(result),
            }
        }),
{
}

/// The command that removes a worktree removes the one that its arguments name. One that the user
/// chooses is removed once that is confirmed, and else stays. What Git is told, and how it ends,
/// is for that worktree.
pub proof fn law_remove_removes_worktree(
    repo: RepoView,
    selection: SelectionView,
    reply: ReplyView,
    path: Seq<char>,
    line: FoundView,
    ran: RanView,
    message: Seq<char>,
)
    ensures
        ({
            let choosing = RemoveCommandView::Selecting { repo, selection };
            let choice = selection_next(selection, reply);
            let confirming = RemoveCommandView::Confirming { repo, path };
            let removing = RemoveCommandView::Removing { repo, path };
            let turn = remove_next(confirming, ReplyView::Line(line));
            let end = remove_next(removing, ReplyView::Ran(ran));
            &&& remove_effect(choosing) == selection_effect(selection)
            &&& remove_next(choosing, reply).say == choice.say
            &&& choice.step matches StepView::Next(next) ==> remove_next(choosing, reply).step
                == StepView::<RemoveCommandView, ()>::Next(
                RemoveCommandView::Selecting { repo, selection: next },
            )
            &&& choice.step == StepView::<SelectionView, Seq<char>>::Done(Err(message))
                ==> remove_next(choosing, reply).step == StepView::<RemoveCommandView, ()>::Done(
                Err(message),
            )
            &&& choice.step == StepView::<SelectionView, Seq<char>>::Done(Ok(path)) ==> remove_next(
                choosing,
                reply,
            ).step == StepView::<RemoveCommandView, ()>::Next(confirming)
            &&& remove_effect(confirming) == EffectView::Ask(
                "Remove worktree "@ + path + "?"@ + " ["@ + "y/N"@ + "]: "@,
            )
            &&& confirm_answer(false, line) == Ok::<Option<bool>, Seq<char>>(Some(true))
                ==> turn.step == StepView::<RemoveCommandView, ()>::Next(removing)
            &&& confirm_answer(false, line) == Ok::<Option<bool>, Seq<char>>(Some(false))
                ==> turn.step == StepView::<RemoveCommandView, ()>::Done(Ok(())) && turn.say
                == seq!["remove cancelled"@]
            &&& confirm_answer(false, line) == Ok::<Option<bool>, Seq<char>>(None) ==> turn.step
                == StepView::<RemoveCommandView, ()>::Next(confirming) && turn.say == seq![
                "Please answer yes or no."@,
            ]
            &&& confirm_answer(false, line) == Err::<Option<bool>, Seq<char>>(message) ==> turn.step
                == StepView::<RemoveCommandView, ()>::Done(Err(message))
            &&& remove_effect(removing) == EffectView::Run(
                InvocationView {
                    program: Program::Git,
                    args: seq!["worktree"@, "remove"@, path],
                    cwd: Some(repo.root),
                    streams: Streams::Captured,
                },
            )
            &&& git_result(seq!["worktree"@, "remove"@, path], ran) == Ok::<(), Seq<char>>(())
                ==> end.step == StepView::<RemoveCommandView, ()>::Done(Ok(())) && end.say == seq![
                "removed: "@ + path,
            ]
            &&& git_result(seq!["worktree"@, "remove"@, path], ran) == Err::<(), Seq<char>>(message)
                ==> end.step == StepView::<RemoveCommandView, ()>::Done(Err(message))
        }),
{
}

/// The command that makes a worktree prints nothing but what its laws tell of: that a branch is
/// required, the plan, that an answer was neither yes nor no, and the worktree that was made.
pub proof fn law_new_prints_nothing_else(state: NewCommandView, reply: ReplyView)
    requires
        new_next(state, reply).say.len() > 0,
    ensures
        match state {
            NewCommandView::AskingBranch { .. } => prompt_answer(None, reply->Line_0) == Ok::<
                Seq<char>,
                Seq<char>,
            >(seq![]),
            NewCommandView::Planning { planning, .. } => planning_next(planning, reply) matches
                StepView::Done(Ok(_)),
            NewCommandView::Confirming { .. } => confirm_answer(false, reply->Line_0) == Ok::<
                Option<bool>,
                Seq<char>,
            >(None),
            NewCommandView::Creating { creation, .. } => creation_next(creation, reply)
                == StepView::<CreationView, ()>::Done(Ok(())),
            _ => false,
        },
{
    if let NewCommandView::AskingBranch { .. } = state {
        if let Ok(branch) = prompt_answer(None, reply->Line_0) {
            assert(branch.len() == 0 ==> branch =~= seq![]);
        }
    }
}

/// The commands that launch an agent, open a worktree and remove one print nothing but the offer
/// of worktrees to choose from and what their laws tell of.
pub proof fn law_other_commands_print_nothing_else(
    launch: LaunchCommandView,
    open: OpenCommandView,
    remove: RemoveCommandView,
    reply: ReplyView,
)
    ensures
        launch_next(launch, reply).say.len() > 0 ==> launch is Selecting || (launch is CheckingPath
            && reply->Flag_0),
        open_next(open, reply).say.len() > 0 ==> open is Selecting,
        remove_next(remove, reply).say.len() > 0 ==> match remove {
            RemoveCommandView::Selecting { .. } => true,
            RemoveCommandView::Confirming { .. } => confirm_answer(false, reply->Line_0) == Ok::<
                Option<bool>,
                Seq<char>,
            >(None) || confirm_answer(false, reply->Line_0) == Ok::<Option<bool>, Seq<char>>(
                Some(false),
            ),
            RemoveCommandView::Removing { path, .. } => git_result(
                seq!["worktree"@, "remove"@, path],
                reply->Ran_0,
            ) is Ok,
        },
{
}

} // verus!
