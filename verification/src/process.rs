//! What the library asks of the world outside, and how it takes the answers. Nothing here runs:
//! an [`Effect`] is a request in plain values, and a [`Reply`] is what came back for it.
use vstd::prelude::*;
use vstd::string::*;

use crate::error::{outcome, AppError, AppResult};
use crate::text::{
    cat3, decode_lossy, is_space, join_from, joined, law_trim_takes_white_space_off, lossy_text,
    trim, trimmed_space,
};

verus! {

/// A program that is run as a child process.
#[derive(Debug, Clone, Copy, PartialEq, Eq, Structural)]
pub enum Program {
    Git,
    Tmux,
    Shell,
}

impl DeepView for Program {
    type V = Program;

    open spec fn deep_view(&self) -> Program {
        *self
    }
}

/// What becomes of a child's input and output.
#[derive(Debug, Clone, Copy, PartialEq, Eq, Structural)]
pub enum Streams {
    /// Output and errors are collected.
    Captured,
    /// The child uses the terminal of this process.
    Inherited,
    /// Output and errors are thrown away.
    Discarded,
}

/// A child process to run.
#[derive(Debug, PartialEq, Eq)]
pub struct Invocation {
    pub program: Program,
    pub args: Vec<String>,
    pub cwd: Option<String>,
    pub streams: Streams,
}

/// The view of an [`Invocation`].
#[verifier::ext_equal]
pub struct InvocationView {
    pub program: Program,
    pub args: Seq<Seq<char>>,
    pub cwd: Option<Seq<char>>,
    pub streams: Streams,
}

impl DeepView for Invocation {
    type V = InvocationView;

    open spec fn deep_view(&self) -> InvocationView {
        InvocationView {
            program: self.program,
            args: self.args.deep_view(),
            cwd: self.cwd.deep_view(),
            streams: self.streams,
        }
    }
}

/// The texts of a list, each on its own.
pub fn words(list: &Vec<&str>) -> (r: Vec<String>)
    ensures
        r.deep_view() == list.deep_view(),
{
    let mut r: Vec<String> = Vec::new();
    let mut i: usize = 0;
    while i < list.len()
        invariant
            i <= list@.len(),
            r.deep_view() == list.deep_view().take(i as int),
        decreases list.len() - i,
    {
        let ghost before = r.deep_view();
        r.push(list[i].to_owned());
        assert(r.deep_view() =~= before.push(list@[i as int]@));
        assert(list.deep_view().take(i + 1) =~= before.push(list.deep_view()[i as int]));
        i += 1;
    }
    assert(list.deep_view().take(i as int) =~= list.deep_view());
    r
}

/// Why a request to the system failed.
#[derive(Debug, PartialEq, Eq)]
pub struct IoFailure {
    /// Whether what was asked for does not exist.
    pub not_found: bool,
    pub message: String,
}

/// The view of an [`IoFailure`].
#[verifier::ext_equal]
pub struct IoFailureView {
    pub not_found: bool,
    pub message: Seq<char>,
}

impl DeepView for IoFailure {
    type V = IoFailureView;

    open spec fn deep_view(&self) -> IoFailureView {
        IoFailureView { not_found: self.not_found, message: self.message@ }
    }
}

/// How a child process ended.
#[derive(Debug, PartialEq, Eq)]
pub struct Exit {
    pub success: bool,
    /// The exit code; a child that a signal ended has none.
    pub code: Option<i32>,
    /// The exit status in words.
    pub status: String,
    pub stdout: Vec<u8>,
    pub stderr: Vec<u8>,
}

/// The view of an [`Exit`].
#[verifier::ext_equal]
pub struct ExitView {
    pub success: bool,
    pub code: Option<i32>,
    pub status: Seq<char>,
    pub stdout: Seq<u8>,
    pub stderr: Seq<u8>,
}

impl DeepView for Exit {
    type V = ExitView;

    open spec fn deep_view(&self) -> ExitView {
        ExitView {
            success: self.success,
            code: self.code,
            status: self.status@,
            stdout: self.stdout@,
            stderr: self.stderr@,
        }
    }
}

/// What came of running a child process.
#[derive(Debug, PartialEq, Eq)]
pub enum Ran {
    Exited(Exit),
    Failed(IoFailure),
}

/// The view of a [`Ran`].
#[verifier::ext_equal]
pub enum RanView {
    Exited(ExitView),
    Failed(IoFailureView),
}

impl DeepView for Ran {
    type V = RanView;

    open spec fn deep_view(&self) -> RanView {
        match self {
            Ran::Exited(exit) => RanView::Exited(exit.deep_view()),
            Ran::Failed(failure) => RanView::Failed(failure.deep_view()),
        }
    }
}

/// A text that was read, or why it could not be.
#[derive(Debug, PartialEq, Eq)]
pub enum Found {
    Text(String),
    Failed(IoFailure),
}

/// The view of a [`Found`].
#[verifier::ext_equal]
pub enum FoundView {
    Text(Seq<char>),
    Failed(IoFailureView),
}

impl DeepView for Found {
    type V = FoundView;

    open spec fn deep_view(&self) -> FoundView {
        match self {
            Found::Text(text) => FoundView::Text(text@),
            Found::Failed(failure) => FoundView::Failed(failure.deep_view()),
        }
    }
}

/// A request to the world outside.
#[derive(Debug, PartialEq, Eq)]
pub enum Effect {
    /// Run a child process to its end.
    Run(Invocation),
    /// Name the directory that this process works in.
    CurrentDir,
    /// Tell whether anything stands at a path.
    PathExists(String),
    /// Tell whether a path leads to a directory.
    IsDirectory(String),
    /// Make a directory, and those above it that are missing.
    CreateDirAll(String),
    /// Tell whether this process runs inside tmux.
    InsideTmux,
    /// Read the agent command that the environment sets.
    AgentSetting,
    /// Show a text without ending the line, and read a line.
    Ask(String),
}

/// The view of an [`Effect`].
#[verifier::ext_equal]
pub enum EffectView {
    Run(InvocationView),
    CurrentDir,
    PathExists(Seq<char>),
    IsDirectory(Seq<char>),
    CreateDirAll(Seq<char>),
    InsideTmux,
    AgentSetting,
    Ask(Seq<char>),
}

impl DeepView for Effect {
    type V = EffectView;

    open spec fn deep_view(&self) -> EffectView {
        match self {
            Effect::Run(invocation) => EffectView::Run(invocation.deep_view()),
            Effect::CurrentDir => EffectView::CurrentDir,
            Effect::PathExists(path) => EffectView::PathExists(path@),
            Effect::IsDirectory(path) => EffectView::IsDirectory(path@),
            Effect::CreateDirAll(path) => EffectView::CreateDirAll(path@),
            Effect::InsideTmux => EffectView::InsideTmux,
            Effect::AgentSetting => EffectView::AgentSetting,
            Effect::Ask(text) => EffectView::Ask(text@),
        }
    }
}

/// What came back for an [`Effect`].
#[derive(Debug, PartialEq, Eq)]
pub enum Reply {
    Ran(Ran),
    Dir(Found),
    Flag(bool),
    /// The failure, where there was one.
    Created(Option<IoFailure>),
    Setting(Option<String>),
    Line(Found),
}

/// The view of a [`Reply`].
#[verifier::ext_equal]
pub enum ReplyView {
    Ran(RanView),
    Dir(FoundView),
    Flag(bool),
    Created(Option<IoFailureView>),
    Setting(Option<Seq<char>>),
    Line(FoundView),
}

impl DeepView for Reply {
    type V = ReplyView;

    open spec fn deep_view(&self) -> ReplyView {
        match self {
            Reply::Ran(ran) => ReplyView::Ran(ran.deep_view()),
            Reply::Dir(found) => ReplyView::Dir(found.deep_view()),
            Reply::Flag(flag) => ReplyView::Flag(*flag),
            Reply::Created(failure) => ReplyView::Created(failure.deep_view()),
            Reply::Setting(text) => ReplyView::Setting(text.deep_view()),
            Reply::Line(found) => ReplyView::Line(found.deep_view()),
        }
    }
}

/// Whether a reply is one to the given request.
pub open spec fn answers(reply: ReplyView, effect: EffectView) -> bool {
    match effect {
        EffectView::Run(_) => reply is Ran,
        EffectView::CurrentDir => reply is Dir,
        EffectView::PathExists(_) => reply is Flag,
        EffectView::IsDirectory(_) => reply is Flag,
        EffectView::CreateDirAll(_) => reply is Created,
        EffectView::InsideTmux => reply is Flag,
        EffectView::AgentSetting => reply is Setting,
        EffectView::Ask(_) => reply is Line,
    }
}

impl Reply {
    pub fn ran(self) -> (r: Ran)
        requires
            self.deep_view() is Ran,
        ensures
            self.deep_view() == ReplyView::Ran(r.deep_view()),
    {
        match self {
            Reply::Ran(ran) => ran,
            _ => vstd::pervasive::unreached(),
        }
    }

    pub fn dir(self) -> (r: Found)
        requires
            self.deep_view() is Dir,
        ensures
            self.deep_view() == ReplyView::Dir(r.deep_view()),
    {
        match self {
            Reply::Dir(found) => found,
            _ => vstd::pervasive::unreached(),
        }
    }

    pub fn flag(self) -> (r: bool)
        requires
            self.deep_view() is Flag,
        ensures
            self.deep_view() == ReplyView::Flag(r),
    {
        match self {
            Reply::Flag(flag) => flag,
            _ => vstd::pervasive::unreached(),
        }
    }

    pub fn created(self) -> (r: Option<IoFailure>)
        requires
            self.deep_view() is Created,
        ensures
            self.deep_view() == ReplyView::Created(r.deep_view()),
    {
        match self {
            Reply::Created(failure) => failure,
            _ => vstd::pervasive::unreached(),
        }
    }

    pub fn setting(self) -> (r: Option<String>)
        requires
            self.deep_view() is Setting,
        ensures
            self.deep_view() == ReplyView::Setting(r.deep_view()),
    {
        match self {
            Reply::Setting(text) => text,
            _ => vstd::pervasive::unreached(),
        }
    }

    pub fn line(self) -> (r: Found)
        requires
            self.deep_view() is Line,
        ensures
            self.deep_view() == ReplyView::Line(r.deep_view()),
    {
        match self {
            Reply::Line(found) => found,
            _ => vstd::pervasive::unreached(),
        }
    }
}

/// Where a task stands: it goes on from a state that waits for a reply, or it is done.
#[derive(Debug, PartialEq, Eq)]
pub enum Step<S, T> {
    Next(S),
    Done(AppResult<T>),
}

/// The view of a [`Step`].
#[verifier::ext_equal]
pub enum StepView<S, T> {
    Next(S),
    Done(Result<T, Seq<char>>),
}

impl<S: DeepView, T: DeepView> DeepView for Step<S, T> {
    type V = StepView<S::V, T::V>;

    open spec fn deep_view(&self) -> StepView<S::V, T::V> {
        match self {
            Step::Next(state) => StepView::Next(state.deep_view()),
            Step::Done(result) => StepView::Done(outcome(*result)),
        }
    }
}

/// `git` with the given arguments, in the directory `cwd`, with its output collected.
pub open spec fn git_run(args: Seq<Seq<char>>, cwd: Option<Seq<char>>) -> InvocationView {
    InvocationView { program: Program::Git, args, cwd, streams: Streams::Captured }
}

pub fn git(args: Vec<String>, cwd: Option<String>) -> (r: Invocation)
    ensures
        r.deep_view() == git_run(args.deep_view(), cwd.deep_view()),
{
    Invocation { program: Program::Git, args, cwd, streams: Streams::Captured }
}

/// The words for a `git` command that ended without success.
pub open spec fn git_failure_text(args: Seq<Seq<char>>, stderr: Seq<u8>) -> Seq<char> {
    "git "@ + joined(args, " "@) + " failed: "@ + trimmed_space(lossy_text(stderr))
}

/// The error for a `git` command that ended without success.
pub fn git_failure(args: &Vec<String>, stderr: &Vec<u8>) -> (r: AppError)
    ensures
        r.deep_view() == git_failure_text(args.deep_view(), stderr@),
{
    let words: String = join_from(args.as_slice(), 0, " ");
    assert(args.deep_view().skip(0) =~= args.deep_view());
    let shown: String = trim(decode_lossy(stderr.as_slice()).as_str());
    let mut message: String = cat3("git ", words.as_str(), " failed: ");
    message.append(shown.as_str());
    AppError::from_message(message)
}

/// What a `git` command that is run for its effect comes to.
pub open spec fn git_result(args: Seq<Seq<char>>, ran: RanView) -> Result<(), Seq<char>> {
    match ran {
        RanView::Failed(failure) => Err(failure.message),
        RanView::Exited(exit) => if exit.success {
            Ok(())
        } else {
            Err(git_failure_text(args, exit.stderr))
        },
    }
}

/// Takes the end of a `git` command that was run for its effect.
pub fn run_git(args: &Vec<String>, ran: Ran) -> (r: AppResult<()>)
    ensures
        outcome(r) == git_result(args.deep_view(), ran.deep_view()),
{
    match ran {
        Ran::Failed(failure) => Err(AppError::from_message(failure.message)),
        Ran::Exited(exit) => if exit.success {
            Ok(())
        } else {
            Err(git_failure(args, &exit.stderr))
        },
    }
}

/// What a `git` command that is run for its output comes to: the output without the white space
/// around it.
pub open spec fn git_output(args: Seq<Seq<char>>, ran: RanView) -> Result<Seq<char>, Seq<char>> {
    match ran {
        RanView::Failed(failure) => Err(failure.message),
        RanView::Exited(exit) => if exit.success {
            Ok(trimmed_space(lossy_text(exit.stdout)))
        } else {
            Err(git_failure_text(args, exit.stderr))
        },
    }
}

/// Takes the output of a `git` command.
pub fn capture_git(args: &Vec<String>, ran: Ran) -> (r: AppResult<String>)
    ensures
        outcome(r) == git_output(args.deep_view(), ran.deep_view()),
{
    match ran {
        Ran::Failed(failure) => Err(AppError::from_message(failure.message)),
        Ran::Exited(exit) => if exit.success {
            Ok(trim(decode_lossy(exit.stdout.as_slice()).as_str()))
        } else {
            Err(git_failure(args, &exit.stderr))
        },
    }
}

/// The words for a command that ended in a status that says neither yes nor no.
pub open spec fn status_failure_text(command: Seq<char>, status: Seq<char>) -> Seq<char> {
    command + " failed with status "@ + status
}

/// The answer that an exit status gives: success is yes, the code one is no.
pub open spec fn status_answer(exit: ExitView, command: Seq<char>) -> Result<bool, Seq<char>> {
    if exit.success {
        Ok(true)
    } else if exit.code == Some(1i32) {
        Ok(false)
    } else {
        Err(status_failure_text(command, exit.status))
    }
}

/// Takes an exit status for an answer.
pub fn status_to_bool(exit: &Exit, command: &str) -> (r: AppResult<bool>)
    ensures
        outcome(r) == status_answer(exit.deep_view(), command@),
{
    if exit.success {
        return Ok(true);
    }
    match exit.code {
        Some(code) => if code == 1 {
            return Ok(false);
        },
        None => {},
    }
    Err(AppError::from_message(cat3(command, " failed with status ", exit.status.as_str())))
}

/// The words for a tmux that could not be started.
pub open spec fn tmux_io_text(failure: IoFailureView) -> Seq<char> {
    if failure.not_found {
        "tmux is required but was not found in PATH"@
    } else {
        failure.message
    }
}

/// The error for a tmux that could not be started.
pub fn tmux_io_error(failure: IoFailure) -> (r: AppError)
    ensures
        r.deep_view() == tmux_io_text(failure.deep_view()),
{
    if failure.not_found {
        AppError::new("tmux is required but was not found in PATH")
    } else {
        AppError::from_message(failure.message)
    }
}

/// What a tmux command that is run for its effect comes to.
pub open spec fn tmux_result(ran: RanView, description: Seq<char>) -> Result<(), Seq<char>> {
    match ran {
        RanView::Failed(failure) => Err(tmux_io_text(failure)),
        RanView::Exited(exit) => if exit.success {
            Ok(())
        } else {
            Err(status_failure_text(description, exit.status))
        },
    }
}

/// Takes the end of a tmux command that was run for its effect.
pub fn run_tmux(ran: Ran, description: &str) -> (r: AppResult<()>)
    ensures
        outcome(r) == tmux_result(ran.deep_view(), description@),
{
    match ran {
        Ran::Failed(failure) => Err(tmux_io_error(failure)),
        Ran::Exited(exit) => if exit.success {
            Ok(())
        } else {
            Err(
                AppError::from_message(
                    cat3(description, " failed with status ", exit.status.as_str()),
                ),
            )
        },
    }
}

/// Git is run with the arguments that it is given and no others, where it is told, and with its
/// output collected.
pub proof fn law_git_is_run_as_told(args: Seq<Seq<char>>, cwd: Option<Seq<char>>)
    ensures
        git_run(args, cwd).program == Program::Git,
        git_run(args, cwd).args == args,
        git_run(args, cwd).cwd == cwd,
        git_run(args, cwd).streams == Streams::Captured,
{
}

/// A command of Git comes to nothing but its success, or to words: those of the system where it
/// could not be run, and otherwise its arguments, with blanks between them, and what it had to
/// say of the failure, without the white space around that.
pub proof fn law_git_fails_in_words(
    args: Seq<Seq<char>>,
    exit: ExitView,
    failure: IoFailureView,
    before: Seq<char>,
    words: Seq<char>,
    behind: Seq<char>,
)
    requires
        forall|i: int| 0 <= i < before.len() ==> is_space(#[trigger] before[i]),
        forall|i: int| 0 <= i < behind.len() ==> is_space(#[trigger] behind[i]),
        words.len() > 0 ==> !is_space(words[0]) && !is_space(words.last()),
    ensures
        git_result(args, RanView::Failed(failure)) == Err::<(), Seq<char>>(failure.message),
        git_output(args, RanView::Failed(failure)) == Err::<Seq<char>, Seq<char>>(failure.message),
        exit.success ==> git_result(args, RanView::Exited(exit)) == Ok::<(), Seq<char>>(()),
        !exit.success && lossy_text(exit.stderr) == before + words + behind ==> {
            let told = "git "@ + joined(args, " "@) + " failed: "@ + words;
            &&& git_result(args, RanView::Exited(exit)) == Err::<(), Seq<char>>(told)
            &&& git_output(args, RanView::Exited(exit)) == Err::<Seq<char>, Seq<char>>(told)
        },
{
    law_trim_takes_white_space_off(before, words, behind);
}

/// The output of a command of Git that succeeds is what it printed, without the white space
/// around that.
pub proof fn law_git_output_is_what_was_printed(
    args: Seq<Seq<char>>,
    exit: ExitView,
    before: Seq<char>,
    words: Seq<char>,
    behind: Seq<char>,
)
    requires
        exit.success,
        forall|i: int| 0 <= i < before.len() ==> is_space(#[trigger] before[i]),
        forall|i: int| 0 <= i < behind.len() ==> is_space(#[trigger] behind[i]),
        words.len() > 0 ==> !is_space(words[0]) && !is_space(words.last()),
    ensures
        lossy_text(exit.stdout) == before + words + behind ==> git_output(
            args,
            RanView::Exited(exit),
        ) == Ok::<Seq<char>, Seq<char>>(words),
{
    law_trim_takes_white_space_off(before, words, behind);
}

/// A status says yes by success and no by the code one. Any other ending is told, with the command
/// and the status in words, and so is a tmux that fails.
pub proof fn law_status_answers(exit: ExitView, command: Seq<char>)
    ensures
        exit.success ==> status_answer(exit, command) == Ok::<bool, Seq<char>>(true)
            && tmux_result(RanView::Exited(exit), command) == Ok::<(), Seq<char>>(()),
        !exit.success && exit.code == Some(1i32) ==> status_answer(exit, command) == Ok::<
            bool,
            Seq<char>,
        >(false),
        !exit.success && exit.code != Some(1i32) ==> status_answer(exit, command) == Err::<
            bool,
            Seq<char>,
        >(command + " failed with status "@ + exit.status),
        !exit.success ==> tmux_result(RanView::Exited(exit), command) == Err::<(), Seq<char>>(
            command + " failed with status "@ + exit.status,
        ),
{
}

/// A tmux that is not there is named; any other reason that it could not be run is told in the
/// words of the system.
pub proof fn law_missing_tmux_is_named(failure: IoFailureView, command: Seq<char>)
    ensures
        failure.not_found ==> tmux_result(RanView::Failed(failure), command) == Err::<
            (),
            Seq<char>,
        >("tmux is required but was not found in PATH"@),
        !failure.not_found ==> tmux_result(RanView::Failed(failure), command) == Err::<
            (),
            Seq<char>,
        >(failure.message),
        tmux_result(RanView::Failed(failure), command) == Err::<(), Seq<char>>(
            tmux_io_text(failure),
        ),
{
}

} // verus!
