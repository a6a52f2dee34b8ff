//! The plan for a new worktree, and its creation.
use vstd::prelude::*;
use vstd::string::*;

use crate::error::AppError;
use crate::git::{
    branch_is_checked_out, checked_out, default_path_of, default_worktree_path, dir_name_of,
    law_dir_name_is_plain, list_args, list_worktrees, listed, worktrees_listed, NewOptions,
    NewOptionsView, Repo, RepoView,
};
use crate::path::{
    absolute, ends_in_step, is_absolute, is_file_name, join, law_parent_is_before_last_slash,
    law_path_below_is_put_behind, parent, parent_of, path_below,
};
use crate::process::{
    answers, git, git_result, git_run, run_git, status_answer, status_to_bool, words, Effect,
    EffectView, ExitView, Found, FoundView, Invocation, InvocationView, IoFailureView, Program, Ran,
    RanView, Reply, ReplyView, Step, StepView, Streams,
};
use crate::text::{cat, cat3};

verus! {

/// A worktree that can be made.
#[derive(Debug, PartialEq, Eq)]
pub struct NewWorktreePlan {
    pub branch: String,
    /// What a new branch begins at; a branch that exists needs none.
    pub base: Option<String>,
    pub path: String,
    pub branch_exists: bool,
}

/// The view of a [`NewWorktreePlan`].
#[verifier::ext_equal]
pub struct PlanView {
    pub branch: Seq<char>,
    pub base: Option<Seq<char>>,
    pub path: Seq<char>,
    pub branch_exists: bool,
}

impl DeepView for NewWorktreePlan {
    type V = PlanView;

    open spec fn deep_view(&self) -> PlanView {
        PlanView {
            branch: self.branch@,
            base: self.base.deep_view(),
            path: self.path@,
            branch_exists: self.branch_exists,
        }
    }
}

impl Clone for NewWorktreePlan {
    fn clone(&self) -> (r: NewWorktreePlan)
        ensures
            r.deep_view() == self.deep_view(),
    {
        NewWorktreePlan {
            branch: self.branch.clone(),
            base: self.base.clone(),
            path: self.path.clone(),
            branch_exists: self.branch_exists,
        }
    }
}

/// A worktree that is wanted in a repository, on a branch.
#[derive(Debug, PartialEq, Eq)]
pub struct Wish {
    pub repo: Repo,
    pub branch: String,
    pub base: Option<String>,
    pub path: Option<String>,
}

/// The view of a [`Wish`].
#[verifier::ext_equal]
pub struct WishView {
    pub repo: RepoView,
    pub branch: Seq<char>,
    pub base: Option<Seq<char>>,
    pub path: Option<Seq<char>>,
}

impl DeepView for Wish {
    type V = WishView;

    open spec fn deep_view(&self) -> WishView {
        WishView {
            repo: self.repo.deep_view(),
            branch: self.branch@,
            base: self.base.deep_view(),
            path: self.path.deep_view(),
        }
    }
}

/// How far the making of a plan has come.
#[derive(Debug, PartialEq, Eq)]
pub enum Planning {
    /// Git is asked whether the branch's name is a valid one.
    Validating(Wish),
    /// Git is asked whether the branch exists.
    Checking(Wish),
    /// Git is asked where branches are checked out.
    Listing(Wish),
    /// The directory that the plan's path is seen from is asked for.
    Locating(NewWorktreePlan),
    /// Whether anything stands at the plan's path is asked for.
    Probing(NewWorktreePlan),
}

/// The view of a [`Planning`].
#[verifier::ext_equal]
pub enum PlanningView {
    Validating(WishView),
    Checking(WishView),
    Listing(WishView),
    Locating(PlanView),
    Probing(PlanView),
}

impl DeepView for Planning {
    type V = PlanningView;

    open spec fn deep_view(&self) -> PlanningView {
        match self {
            Planning::Validating(wish) => PlanningView::Validating(wish.deep_view()),
            Planning::Checking(wish) => PlanningView::Checking(wish.deep_view()),
            Planning::Listing(wish) => PlanningView::Listing(wish.deep_view()),
            Planning::Locating(plan) => PlanningView::Locating(plan.deep_view()),
            Planning::Probing(plan) => PlanningView::Probing(plan.deep_view()),
        }
    }
}

/// The command that tells whether a branch's name is a valid one.
pub open spec fn validate_run(wish: WishView) -> InvocationView {
    git_run(seq!["check-ref-format"@, "--branch"@, wish.branch], Some(wish.repo.root))
}

fn validate_branch_name(repo: &Repo, branch: &str) -> (r: Invocation)
    ensures
        r.deep_view() == git_run(
            seq!["check-ref-format"@, "--branch"@, branch@],
            Some(repo.deep_view().root),
        ),
{
    git(words(&vec!["check-ref-format", "--branch", branch]), Some(repo.root.clone()))
}

/// The command that tells whether a branch exists.
pub open spec fn show_ref_run(wish: WishView) -> InvocationView {
    InvocationView {
        program: Program::Git,
        args: seq!["show-ref"@, "--verify"@, "--quiet"@, "refs/heads/"@ + wish.branch],
        cwd: Some(wish.repo.root),
        streams: Streams::Inherited,
    }
}

fn local_branch_exists(repo: &Repo, branch: &str) -> (r: Invocation)
    ensures
        r.deep_view() == (InvocationView {
            program: Program::Git,
            args: seq!["show-ref"@, "--verify"@, "--quiet"@, "refs/heads/"@ + branch@],
            cwd: Some(repo.deep_view().root),
            streams: Streams::Inherited,
        }),
{
    let name: String = cat("refs/heads/", branch);
    Invocation {
        program: Program::Git,
        args: words(&vec!["show-ref", "--verify", "--quiet", name.as_str()]),
        cwd: Some(repo.root.clone()),
        streams: Streams::Inherited,
    }
}

/// What the making of a plan waits for.
pub open spec fn planning_effect(state: PlanningView) -> EffectView {
    match state {
        PlanningView::Validating(wish) => EffectView::Run(validate_run(wish)),
        PlanningView::Checking(wish) => EffectView::Run(show_ref_run(wish)),
        PlanningView::Listing(wish) => EffectView::Run(git_run(list_args(), Some(wish.repo.root))),
        PlanningView::Locating(_) => EffectView::CurrentDir,
        PlanningView::Probing(plan) => EffectView::PathExists(plan.path),
    }
}

/// The plan that a wish comes to, once it is known whether the branch exists. Its path may still
/// be one that is seen from the current directory.
pub open spec fn drafted(wish: WishView, branch_exists: bool) -> PlanView {
    PlanView {
        branch: wish.branch,
        base: if branch_exists {
            None
        } else {
            match wish.base {
                Some(base) => Some(base),
                None => Some("HEAD"@),
            }
        },
        path: match wish.path {
            Some(path) => path,
            None => default_path_of(wish.repo, wish.branch),
        },
        branch_exists,
    }
}

/// How a plan goes on from its draft.
pub open spec fn settled(draft: PlanView) -> StepView<PlanningView, PlanView> {
    if absolute(draft.path) {
        StepView::Next(PlanningView::Probing(draft))
    } else {
        StepView::Next(PlanningView::Locating(draft))
    }
}

/// What Git's verdict on a branch's name comes to.
pub open spec fn name_verdict(branch: Seq<char>, ran: RanView) -> Result<(), Seq<char>> {
    match ran {
        RanView::Failed(failure) => Err(failure.message),
        RanView::Exited(exit) => if exit.success {
            Ok(())
        } else {
            Err("invalid branch name `"@ + branch + "`"@)
        },
    }
}

/// What Git's answer to whether a branch exists comes to.
pub open spec fn existence(ran: RanView) -> Result<bool, Seq<char>> {
    match ran {
        RanView::Failed(failure) => Err(failure.message),
        RanView::Exited(exit) => status_answer(exit, "git show-ref"@),
    }
}

/// The words for a branch that another worktree has checked out.
pub open spec fn checked_out_text(branch: Seq<char>) -> Seq<char> {
    "branch `"@ + branch + "` is already checked out in another worktree"@
}

/// The words for a path at which something stands.
pub open spec fn occupied_text(path: Seq<char>) -> Seq<char> {
    "path already exists: "@ + path
}

/// How the making of a plan goes on.
pub open spec fn planning_next(state: PlanningView, reply: ReplyView) -> StepView<
    PlanningView,
    PlanView,
> {
    match state {
        PlanningView::Validating(wish) => match name_verdict(wish.branch, reply->Ran_0) {
            Ok(_) => StepView::Next(PlanningView::Checking(wish)),
            Err(message) => StepView::Done(Err(message)),
        },
        PlanningView::Checking(wish) => match existence(reply->Ran_0) {
            Ok(true) => StepView::Next(PlanningView::Listing(wish)),
            Ok(false) => settled(drafted(wish, false)),
            Err(message) => StepView::Done(Err(message)),
        },
        PlanningView::Listing(wish) => match listed(reply->Ran_0) {
            Ok(worktrees) => if checked_out(worktrees, wish.branch) {
                StepView::Done(Err(checked_out_text(wish.branch)))
            } else {
                settled(drafted(wish, true))
            },
            Err(message) => StepView::Done(Err(message)),
        },
        PlanningView::Locating(draft) => match reply->Dir_0 {
            FoundView::Text(dir) => StepView::Next(
                PlanningView::Probing(PlanView { path: path_below(dir, draft.path), ..draft }),
            ),
            FoundView::Failed(failure) => StepView::Done(Err(failure.message)),
        },
        PlanningView::Probing(plan) => if reply->Flag_0 {
            StepView::Done(Err(occupied_text(plan.path)))
        } else {
            StepView::Done(Ok(plan))
        },
    }
}

/// How the making of a plan begins.
pub open spec fn planning_start(repo: RepoView, options: NewOptionsView) -> StepView<
    PlanningView,
    PlanView,
> {
    match options.branch {
        None => StepView::Done(Err("missing branch name"@)),
        Some(branch) => StepView::Next(
            PlanningView::Validating(
                WishView { repo, branch, base: options.base, path: options.path },
            ),
        ),
    }
}

/// Begins to make a plan for a new worktree.
pub fn build_new_worktree_plan(repo: &Repo, options: NewOptions) -> (r: Step<
    Planning,
    NewWorktreePlan,
>)
    ensures
        r.deep_view() == planning_start(repo.deep_view(), options.deep_view()),
{
    match options.branch {
        None => Step::Done(Err(AppError::new("missing branch name"))),
        Some(branch) => Step::Next(
            Planning::Validating(
                Wish { repo: repo.clone(), branch, base: options.base, path: options.path },
            ),
        ),
    }
}

fn draft(wish: Wish, branch_exists: bool) -> (r: Step<Planning, NewWorktreePlan>)
    ensures
        r.deep_view() == settled(drafted(wish.deep_view(), branch_exists)),
{
    let base: Option<String> = if branch_exists {
        None
    } else {
        match wish.base {
            Some(base) => Some(base),
            None => Some("HEAD".to_owned()),
        }
    };
    let path: String = match wish.path {
        Some(path) => path,
        None => default_worktree_path(&wish.repo, wish.branch.as_str()),
    };
    let settled: bool = is_absolute(path.as_str());
    let plan: NewWorktreePlan = NewWorktreePlan { branch: wish.branch, base, path, branch_exists };
    if settled {
        Step::Next(Planning::Probing(plan))
    } else {
        Step::Next(Planning::Locating(plan))
    }
}

impl Planning {
    /// What the making of the plan waits for.
    pub fn effect(&self) -> (r: Effect)
        ensures
            r.deep_view() == planning_effect(self.deep_view()),
    {
        match self {
            Planning::Validating(wish) => Effect::Run(
                validate_branch_name(&wish.repo, wish.branch.as_str()),
            ),
            Planning::Checking(wish) => Effect::Run(
                local_branch_exists(&wish.repo, wish.branch.as_str()),
            ),
            Planning::Listing(wish) => Effect::Run(list_worktrees(&wish.repo)),
            Planning::Locating(_) => Effect::CurrentDir,
            Planning::Probing(plan) => Effect::PathExists(plan.path.clone()),
        }
    }

    /// Goes on with the reply.
    pub fn resume(self, reply: Reply) -> (r: Step<Planning, NewWorktreePlan>)
        requires
            answers(reply.deep_view(), planning_effect(self.deep_view())),
        ensures
            r.deep_view() == planning_next(self.deep_view(), reply.deep_view()),
    {
        match self {
            Planning::Validating(wish) => match reply.ran() {
                Ran::Failed(failure) => Step::Done(Err(AppError::from_message(failure.message))),
                Ran::Exited(exit) => if exit.success {
                    Step::Next(Planning::Checking(wish))
                } else {
                    Step::Done(
                        Err(
                            AppError::from_message(
                                cat3("invalid branch name `", wish.branch.as_str(), "`"),
                            ),
                        ),
                    )
                },
            },
            Planning::Checking(wish) => match reply.ran() {
                Ran::Failed(failure) => Step::Done(Err(AppError::from_message(failure.message))),
                Ran::Exited(exit) => match status_to_bool(&exit, "git show-ref") {
                    Err(error) => Step::Done(Err(error)),
                    Ok(exists) => if exists {
                        Step::Next(Planning::Listing(wish))
                    } else {
                        draft(wish, false)
                    },
                },
            },
            Planning::Listing(wish) => match worktrees_listed(reply.ran()) {
                Err(error) => Step::Done(Err(error)),
                Ok(worktrees) => if branch_is_checked_out(&worktrees, wish.branch.as_str()) {
                    Step::Done(
                        Err(
                            AppError::from_message(
                                cat3(
                                    "branch `",
                                    wish.branch.as_str(),
                                    "` is already checked out in another worktree",
                                ),
                            ),
                        ),
                    )
                } else {
                    draft(wish, true)
                },
            },
            Planning::Locating(plan) => match reply.dir() {
                Found::Failed(failure) => Step::Done(Err(AppError::from_message(failure.message))),
                Found::Text(dir) => {
                    let path: String = join(dir.as_str(), plan.path.as_str());
                    Step::Next(
                        Planning::Probing(
                            NewWorktreePlan {
                                branch: plan.branch,
                                base: plan.base,
                                path,
                                branch_exists: plan.branch_exists,
                            },
                        ),
                    )
                },
            },
            Planning::Probing(plan) => if reply.flag() {
                Step::Done(
                    Err(
                        AppError::from_message(
                            cat("path already exists: ", plan.path.as_str()),
                        ),
                    ),
                )
            } else {
                Step::Done(Ok(plan))
            },
        }
    }
}

/// The arguments for Git to make the worktree of a plan.
pub open spec fn add_args(plan: PlanView) -> Seq<Seq<char>> {
    if plan.branch_exists {
        seq!["worktree"@, "add"@, plan.path, plan.branch]
    } else {
        seq![
            "worktree"@,
            "add"@,
            "-b"@,
            plan.branch,
            plan.path,
            match plan.base {
                Some(base) => base,
                None => "HEAD"@,
            },
        ]
    }
}

fn add_words(plan: &NewWorktreePlan) -> (r: Vec<String>)
    ensures
        r.deep_view() == add_args(plan.deep_view()),
{
    if plan.branch_exists {
        return words(&vec!["worktree", "add", plan.path.as_str(), plan.branch.as_str()]);
    }
    let base: &str = match &plan.base {
        Some(base) => base.as_str(),
        None => "HEAD",
    };
    words(&vec!["worktree", "add", "-b", plan.branch.as_str(), plan.path.as_str(), base])
}

/// How far the creation of a worktree has come.
#[derive(Debug, PartialEq, Eq)]
pub enum Creation {
    /// The directory above the worktree is made.
    MakingParent { root: String, plan: NewWorktreePlan, parent: String },
    /// Git is told to make the worktree.
    Adding { root: String, plan: NewWorktreePlan },
}

/// The view of a [`Creation`].
#[verifier::ext_equal]
pub enum CreationView {
    MakingParent { root: Seq<char>, plan: PlanView, parent: Seq<char> },
    Adding { root: Seq<char>, plan: PlanView },
}

impl DeepView for Creation {
    type V = CreationView;

    open spec fn deep_view(&self) -> CreationView {
        match self {
            Creation::MakingParent { root, plan, parent } => CreationView::MakingParent {
                root: root@,
                plan: plan.deep_view(),
                parent: parent@,
            },
            Creation::Adding { root, plan } => CreationView::Adding {
                root: root@,
                plan: plan.deep_view(),
            },
        }
    }
}

/// How a creation begins: with the directory above the worktree, where there is one.
pub open spec fn creation_start(repo: RepoView, plan: PlanView) -> CreationView {
    match parent_of(plan.path) {
        Some(parent) => CreationView::MakingParent { root: repo.root, plan, parent },
        None => CreationView::Adding { root: repo.root, plan },
    }
}

/// What a creation waits for.
pub open spec fn creation_effect(state: CreationView) -> EffectView {
    match state {
        CreationView::MakingParent { parent, .. } => EffectView::CreateDirAll(parent),
        CreationView::Adding { root, plan } => EffectView::Run(git_run(add_args(plan), Some(root))),
    }
}

/// How a creation goes on.
pub open spec fn creation_next(state: CreationView, reply: ReplyView) -> StepView<
    CreationView,
    (),
> {
    match state {
        CreationView::MakingParent { root, plan, .. } => match reply->Created_0 {
            Some(failure) => StepView::Done(Err(failure.message)),
            None => StepView::Next(CreationView::Adding { root, plan }),
        },
        CreationView::Adding { plan, .. } => StepView::Done(
            git_result(add_args(plan), reply->Ran_0),
        ),
    }
}

/// Begins to make the worktree of a plan.
pub fn create_worktree(repo: &Repo, plan: &NewWorktreePlan) -> (r: Creation)
    ensures
        r.deep_view() == creation_start(repo.deep_view(), plan.deep_view()),
{
    match parent(plan.path.as_str()) {
        Some(parent) => Creation::MakingParent {
            root: repo.root.clone(),
            plan: plan.clone(),
            parent,
        },
        None => Creation::Adding { root: repo.root.clone(), plan: plan.clone() },
    }
}

impl Creation {
    /// What the creation waits for.
    pub fn effect(&self) -> (r: Effect)
        ensures
            r.deep_view() == creation_effect(self.deep_view()),
    {
        match self {
            Creation::MakingParent { parent, .. } => Effect::CreateDirAll(parent.clone()),
            Creation::Adding { root, plan } => Effect::Run(
                git(add_words(plan), Some(root.clone())),
            ),
        }
    }

    /// Goes on with the reply.
    pub fn resume(self, reply: Reply) -> (r: Step<Creation, ()>)
        requires
            answers(reply.deep_view(), creation_effect(self.deep_view())),
        ensures
            r.deep_view() == creation_next(self.deep_view(), reply.deep_view()),
    {
        match self {
            Creation::MakingParent { root, plan, .. } => match reply.created() {
                Some(failure) => Step::Done(Err(AppError::from_message(failure.message))),
                None => Step::Next(Creation::Adding { root, plan }),
            },
            Creation::Adding { plan, .. } => Step::Done(run_git(&add_words(&plan), reply.ran())),
        }
    }
}

/// What the world outside has to say to the making of one plan.
pub struct PlanFacts {
    /// How the check of the branch's name ends.
    pub name: RanView,
    /// How the question whether the branch exists ends.
    pub branch: RanView,
    /// How the listing of the worktrees ends.
    pub worktrees: RanView,
    /// The current directory.
    pub dir: FoundView,
    /// Whether anything stands at the path.
    pub occupied: bool,
}

/// The reply that the facts give to a plan in the making.
pub open spec fn fact_for(state: PlanningView, facts: PlanFacts) -> ReplyView {
    match state {
        PlanningView::Validating(_) => ReplyView::Ran(facts.name),
        PlanningView::Checking(_) => ReplyView::Ran(facts.branch),
        PlanningView::Listing(_) => ReplyView::Ran(facts.worktrees),
        PlanningView::Locating(_) => ReplyView::Dir(facts.dir),
        PlanningView::Probing(_) => ReplyView::Flag(facts.occupied),
    }
}

/// What a plan comes to when it goes on for up to `n` replies, each as the facts give it.
pub open spec fn planning_run(
    step: StepView<PlanningView, PlanView>,
    facts: PlanFacts,
    n: nat,
) -> Option<Result<PlanView, Seq<char>>>
    decreases n,
{
    match step {
        StepView::Done(result) => Some(result),
        StepView::Next(state) => if n == 0 {
            None
        } else {
            planning_run(planning_next(state, fact_for(state, facts)), facts, (n - 1) as nat)
        },
    }
}

/// Why there is no plan for a wish, whatever its path; or else whether the branch exists.
pub open spec fn branch_status(branch: Seq<char>, facts: PlanFacts) -> Result<bool, Seq<char>> {
    if let Err(message) = name_verdict(branch, facts.name) {
        Err(message)
    } else if existence(facts.branch) != Ok::<bool, Seq<char>>(true) {
        existence(facts.branch)
    } else {
        match listed(facts.worktrees) {
            Err(message) => Err(message),
            Ok(worktrees) => if checked_out(worktrees, branch) {
                Err(checked_out_text(branch))
            } else {
                Ok(true)
            },
        }
    }
}

/// The path of a draft as seen from the current directory.
pub open spec fn located(draft: PlanView, facts: PlanFacts) -> Result<PlanView, Seq<char>> {
    if absolute(draft.path) {
        Ok(draft)
    } else {
        match facts.dir {
            FoundView::Failed(failure) => Err(failure.message),
            FoundView::Text(dir) => Ok(PlanView { path: path_below(dir, draft.path), ..draft }),
        }
    }
}

/// The plan that options come to.
pub open spec fn planned(repo: RepoView, options: NewOptionsView, facts: PlanFacts) -> Result<
    PlanView,
    Seq<char>,
> {
    match options.branch {
        None => Err("missing branch name"@),
        Some(branch) => match branch_status(branch, facts) {
            Err(message) => Err(message),
            Ok(exists) => {
                let wish = WishView { repo, branch, base: options.base, path: options.path };
                match located(drafted(wish, exists), facts) {
                    Err(message) => Err(message),
                    Ok(plan) => if facts.occupied {
                        Err(occupied_text(plan.path))
                    } else {
                        Ok(plan)
                    },
                }
            },
        },
    }
}

/// The making of a plan ends within five replies, in the plan that the options come to.
pub proof fn law_planning_ends_in_plan(repo: RepoView, options: NewOptionsView, facts: PlanFacts)
    ensures
        planning_run(planning_start(repo, options), facts, 5) == Some(
            planned(repo, options, facts),
        ),
{
    reveal_with_fuel(planning_run, 6);
}

/// A plan is for the branch that was asked for. It has a base exactly when the branch is new. A
/// branch that exists is planned for only where no worktree has it checked out. Nothing stands
/// at the plan's path, which is absolute if the current directory is.
pub proof fn law_plan_can_be_carried_out(
    repo: RepoView,
    options: NewOptionsView,
    facts: PlanFacts,
)
    ensures
        planned(repo, options, facts) matches Ok(plan) ==> {
            &&& options.branch == Some(plan.branch)
            &&& plan.base is Some <==> !plan.branch_exists
            &&& existence(facts.branch) == Ok::<bool, Seq<char>>(plan.branch_exists)
            &&& plan.branch_exists ==> (listed(facts.worktrees) matches Ok(worktrees)
                && !checked_out(worktrees, plan.branch))
            &&& !facts.occupied
            &&& (facts.dir matches FoundView::Text(dir) && absolute(dir)) ==> absolute(plan.path)
        },
{
}

/// Without options for them, a new branch begins at `HEAD` and its worktree goes to the default
/// path.
pub proof fn law_plan_defaults(repo: RepoView, options: NewOptionsView, facts: PlanFacts)
    requires
        options.base is None,
        options.path is None,
        absolute(repo.default_worktree_parent),
    ensures
        planned(repo, options, facts) matches Ok(plan) ==> {
            &&& !plan.branch_exists ==> plan.base == Some("HEAD"@)
            &&& plan.path == default_path_of(repo, plan.branch)
        },
{
    if let Some(branch) = options.branch {
        let dir = dir_name_of(branch);
        law_dir_name_is_plain(branch);
        assert(!absolute(dir)) by {
            if dir.len() > 0 {
                assert(dir[0] != '/');
            }
        }
        assert(absolute(default_path_of(repo, branch)));
    }
}

/// Whether an effect only asks, and changes nothing.
pub open spec fn only_asks(effect: EffectView) -> bool {
    match effect {
        EffectView::Run(invocation) => invocation.program == Program::Git && (invocation.args[0]
            == "check-ref-format"@ || invocation.args[0] == "show-ref"@ || invocation.args
            == list_args()),
        EffectView::CreateDirAll(_) => false,
        EffectView::Ask(_) => false,
        _ => true,
    }
}

/// Making a plan changes nothing.
pub proof fn law_planning_only_asks(state: PlanningView)
    ensures
        only_asks(planning_effect(state)),
{
}

/// Git is told to make a branch exactly when the plan says that it does not exist.
pub proof fn law_branch_is_made_when_missing(plan: PlanView)
    ensures
        add_args(plan)[2] == "-b"@ && add_args(plan).len() == 6 <==> !plan.branch_exists,
{
}

/// The creation of a worktree succeeds exactly when the directory above it is there or can be
/// made, and Git then makes it.
pub proof fn law_creation_outcome(
    repo: RepoView,
    plan: PlanView,
    created: Option<IoFailureView>,
    ran: RanView,
)
    ensures
        ({
            let start = creation_start(repo, plan);
            let made = if parent_of(plan.path) is Some {
                creation_next(start, ReplyView::Created(created))
            } else {
                StepView::Next(start)
            };
            match made {
                StepView::Done(result) => created is Some && result == Err::<(), Seq<char>>(
                    created->Some_0.message,
                ),
                StepView::Next(state) => creation_next(state, ReplyView::Ran(ran))
                    == StepView::<CreationView, ()>::Done(git_result(add_args(plan), ran))
                    && creation_effect(state) == EffectView::Run(
                    git_run(add_args(plan), Some(repo.root)),
                ),
            }
        }),
{
}

/// What Git is told to make the worktree of a plan: to check out the branch at the path where the
/// branch exists, and otherwise to make the branch from its base, and check it out at the path.
pub proof fn law_git_adds_branch_at_path(plan: PlanView)
    ensures
        plan.branch_exists ==> add_args(plan) == seq![
            "worktree"@,
            "add"@,
            plan.path,
            plan.branch,
        ],
        !plan.branch_exists && plan.base is Some ==> add_args(plan) == seq![
            "worktree"@,
            "add"@,
            "-b"@,
            plan.branch,
            plan.path,
            plan.base->Some_0,
        ],
        !plan.branch_exists && plan.base is None ==> add_args(plan) == seq![
            "worktree"@,
            "add"@,
            "-b"@,
            plan.branch,
            plan.path,
            "HEAD"@,
        ],
{
}

/// The creation of a worktree makes the directory above it first, where there is one, and then has
/// Git add the worktree, in the repository. It fails in the words of the system or of Git, and
/// otherwise succeeds.
pub proof fn law_worktree_is_added_below_its_parent(
    repo: RepoView,
    plan: PlanView,
    above: Seq<char>,
    name: Seq<char>,
    failure: IoFailureView,
    exit: ExitView,
)
    requires
        is_file_name(name),
        ends_in_step(above),
        plan.path == above + seq!['/'] + name,
        exit.success,
    ensures
        ({
            let start = creation_start(repo, plan);
            let args = if plan.branch_exists {
                seq!["worktree"@, "add"@, plan.path, plan.branch]
            } else {
                seq![
                    "worktree"@,
                    "add"@,
                    "-b"@,
                    plan.branch,
                    plan.path,
                    match plan.base {
                        Some(base) => base,
                        None => "HEAD"@,
                    },
                ]
            };
            &&& creation_effect(start) == EffectView::CreateDirAll(above)
            &&& creation_next(start, ReplyView::Created(Some(failure))) == StepView::<
                CreationView,
                (),
            >::Done(Err(failure.message))
            &&& creation_next(start, ReplyView::Created(None)) matches StepView::Next(adding) && {
                &&& creation_effect(adding) == EffectView::Run(
                    InvocationView {
                        program: Program::Git,
                        args,
                        cwd: Some(repo.root),
                        streams: Streams::Captured,
                    },
                )
                &&& creation_next(
                    adding,
                    ReplyView::Ran(RanView::Exited(exit)),
                ) == StepView::<CreationView, ()>::Done(Ok(()))
                &&& creation_next(
                    adding,
                    ReplyView::Ran(RanView::Failed(failure)),
                ) == StepView::<CreationView, ()>::Done(Err(failure.message))
                &&& creation_next(
                    adding,
                    ReplyView::Ran(RanView::Exited(ExitView { success: false, ..exit })),
                ) is Done
                &&& creation_next(
                    adding,
                    ReplyView::Ran(RanView::Exited(ExitView { success: false, ..exit })),
                )->Done_0 is Err
            }
        }),
{
    law_parent_is_before_last_slash(above, name);
}

/// A creation begins with the directory above the plan's path, whatever that path looks like, and
/// with Git itself where there is none above.
pub proof fn law_creation_begins_above_path(repo: RepoView, plan: PlanView, above: Seq<char>)
    ensures
        parent_of(plan.path) == Some(above) ==> creation_effect(creation_start(repo, plan))
            == EffectView::CreateDirAll(above),
        parent_of(plan.path) is None ==> creation_effect(creation_start(repo, plan))
            == EffectView::Run(git_run(add_args(plan), Some(repo.root))),
{
}

/// Git is asked about a branch in the repository: whether the name can be one, whether there is
/// such a branch, and which are checked out. A relative path is seen from the current directory,
/// and whether anything stands at the path is asked last.
pub proof fn law_planning_asks_about_branch_and_path(wish: WishView, draft: PlanView)
    ensures
        planning_effect(PlanningView::Validating(wish)) == EffectView::Run(
            InvocationView {
                program: Program::Git,
                args: seq!["check-ref-format"@, "--branch"@, wish.branch],
                cwd: Some(wish.repo.root),
                streams: Streams::Captured,
            },
        ),
        planning_effect(PlanningView::Checking(wish)) == EffectView::Run(
            InvocationView {
                program: Program::Git,
                args: seq!["show-ref"@, "--verify"@, "--quiet"@, "refs/heads/"@ + wish.branch],
                cwd: Some(wish.repo.root),
                streams: Streams::Inherited,
            },
        ),
        planning_effect(PlanningView::Listing(wish)) == EffectView::Run(
            InvocationView {
                program: Program::Git,
                args: seq!["worktree"@, "list"@, "--porcelain"@],
                cwd: Some(wish.repo.root),
                streams: Streams::Captured,
            },
        ),
        planning_effect(PlanningView::Locating(draft)) == EffectView::CurrentDir,
        planning_effect(PlanningView::Probing(draft)) == EffectView::PathExists(draft.path),
{
}

/// Whether Git says of a branch that its name is a good one, and whether it is there: a new one,
/// or one that exists and that no worktree has.
pub open spec fn branch_can_be_used(branch: Seq<char>, facts: PlanFacts, exists: bool) -> bool {
    &&& facts.name matches RanView::Exited(name)
    &&& name.success
    &&& facts.branch matches RanView::Exited(found)
    &&& found.success == exists
    &&& exists || found.code == Some(1i32)
    &&& exists ==> (listed(facts.worktrees) matches Ok(worktrees) && forall|i: int|
        0 <= i < worktrees.len() ==> (#[trigger] worktrees[i]).branch != Some(branch))
}

/// A plan is for the branch that was asked for. An existing branch has no base; a new one has the
/// base that was asked for, and else `HEAD`. Its path is the one that was asked for, seen from the
/// current directory where it is relative, and else the default one.
pub proof fn law_plan_is_what_was_asked_for(
    repo: RepoView,
    options: NewOptionsView,
    facts: PlanFacts,
    branch: Seq<char>,
    dir: Seq<char>,
    exists: bool,
)
    requires
        options.branch == Some(branch),
        branch_can_be_used(branch, facts, exists),
        facts.dir == FoundView::Text(dir),
        dir.len() > 0,
        !facts.occupied,
    ensures
        ({
            let asked = match options.path {
                Some(path) => path,
                None => default_path_of(repo, branch),
            };
            planning_run(planning_start(repo, options), facts, 5) == Some(
                Ok::<PlanView, Seq<char>>(
                    PlanView {
                        branch,
                        base: if exists {
                            None
                        } else if options.base is Some {
                            options.base
                        } else {
                            Some("HEAD"@)
                        },
                        path: if asked.len() > 0 && asked[0] == '/' {
                            asked
                        } else if dir.last() == '/' {
                            dir + asked
                        } else {
                            dir + seq!['/'] + asked
                        },
                        branch_exists: exists,
                    },
                ),
            )
        }),
{
    reveal_with_fuel(planning_run, 6);
    let asked = match options.path {
        Some(path) => path,
        None => default_path_of(repo, branch),
    };
    law_path_below_is_put_behind(dir, asked);
    if dir.len() > 0 && dir.last() == '/' {
        law_path_below_is_put_behind(dir.drop_last(), asked);
        assert(dir.drop_last() + seq!['/'] =~= dir);
    }
    if exists {
        let worktrees = listed(facts.worktrees)->Ok_0;
        assert(!checked_out(worktrees, branch));
    }
}

/// Why there is no plan: no branch, a branch with a bad name, one that a worktree has checked out,
/// and a path at which something stands. Each is told in words, and so is a question that Git
/// could not answer.
pub proof fn law_plan_is_refused_with_reason(
    repo: RepoView,
    options: NewOptionsView,
    facts: PlanFacts,
    branch: Seq<char>,
    dir: Seq<char>,
    exists: bool,
    i: int,
)
    ensures
        options.branch is None ==> planning_run(planning_start(repo, options), facts, 5) == Some(
            Err::<PlanView, Seq<char>>("missing branch name"@),
        ),
        options.branch == Some(branch) && (facts.name matches RanView::Exited(name)
            && !name.success) ==> planning_run(planning_start(repo, options), facts, 5) == Some(
            Err::<PlanView, Seq<char>>("invalid branch name `"@ + branch + "`"@),
        ),
        options.branch == Some(branch) && (facts.name matches RanView::Exited(name) && name.success)
            && (facts.branch matches RanView::Exited(found) && found.success) && (listed(
            facts.worktrees,
        ) matches Ok(worktrees) && 0 <= i < worktrees.len() && worktrees[i].branch == Some(branch))
            ==> planning_run(planning_start(repo, options), facts, 5) == Some(
            Err::<PlanView, Seq<char>>(
                "branch `"@ + branch + "` is already checked out in another worktree"@,
            ),
        ),
        options.branch == Some(branch) && (facts.name matches RanView::Exited(name) && name.success)
            && (facts.branch matches RanView::Exited(found) && !found.success && found.code != Some(
            1i32,
        )) ==> planning_run(planning_start(repo, options), facts, 5) == Some(
            Err::<PlanView, Seq<char>>(
                "git show-ref"@ + " failed with status "@ + facts.branch->Exited_0.status,
            ),
        ),
        options.branch == Some(branch) && branch_can_be_used(branch, facts, exists)
            && facts.dir == FoundView::Text(dir) && dir.len() > 0 && facts.occupied ==> {
            let asked = match options.path {
                Some(path) => path,
                None => default_path_of(repo, branch),
            };
            planning_run(planning_start(repo, options), facts, 5) == Some(
                Err::<PlanView, Seq<char>>(
                    "path already exists: "@ + if asked.len() > 0 && asked[0] == '/' {
                        asked
                    } else if dir.last() == '/' {
                        dir + asked
                    } else {
                        dir + seq!['/'] + asked
                    },
                ),
            )
        },
{
    reveal_with_fuel(planning_run, 6);
    let asked = match options.path {
        Some(path) => path,
        None => default_path_of(repo, branch),
    };
    law_path_below_is_put_behind(dir, asked);
    if dir.len() > 0 && dir.last() == '/' {
        law_path_below_is_put_behind(dir.drop_last(), asked);
        assert(dir.drop_last() + seq!['/'] =~= dir);
    }
    assert(branch_can_be_used(branch, facts, true) ==> !checked_out(
        listed(facts.worktrees)->Ok_0,
        branch,
    ));
    if let Ok(worktrees) = listed(facts.worktrees) {
        if 0 <= i < worktrees.len() && worktrees[i].branch == Some(branch) {
            assert(checked_out(worktrees, branch));
        }
    }
}

/// What the system could not do ends the making of a plan, in the system's words: a Git that could
/// not be run, and a current directory that could not be read where a relative path needs it.
pub proof fn law_system_failure_ends_planning(
    wish: WishView,
    draft: PlanView,
    failure: IoFailureView,
)
    ensures
        ({
            let failed = ReplyView::Ran(RanView::Failed(failure));
            let told = StepView::<PlanningView, PlanView>::Done(Err(failure.message));
            &&& planning_next(PlanningView::Validating(wish), failed) == told
            &&& planning_next(PlanningView::Checking(wish), failed) == told
            &&& planning_next(PlanningView::Listing(wish), failed) == told
            &&& planning_next(
                PlanningView::Locating(draft),
                ReplyView::Dir(FoundView::Failed(failure)),
            ) == told
        }),
{
}

} // verus!
