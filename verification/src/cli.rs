//! The command line: which command it names, and which options the command gets.
use vstd::prelude::*;
use vstd::string::*;

use crate::error::{outcome, AppError, AppResult};
use crate::git::{NewOptions, NewOptionsView, OpenOptions};
use crate::text::{cat, cat3, join_from, joined, same, starts_with, strip_prefix, without_prefix};

verus! {

pub open spec fn is_help_word(word: Seq<char>) -> bool {
    word == "-h"@ || word == "--help"@
}

/// Whether the arguments ask for help, at whatever place.
pub open spec fn asks_for_help(args: Seq<Seq<char>>) -> bool {
    exists|i: int| 0 <= i < args.len() && is_help_word(#[trigger] args[i])
}

/// Tells whether the arguments ask for help.
pub fn is_help_request(args: &[String]) -> (r: bool)
    ensures
        r == asks_for_help(args.deep_view()),
{
    let mut i: usize = 0;
    while i < args.len()
        invariant
            i <= args@.len(),
            forall|k: int| 0 <= k < i ==> !is_help_word(#[trigger] args.deep_view()[k]),
        decreases args.len() - i,
    {
        let word: &str = args[i].as_str();
        assert(args.deep_view()[i as int] == word@);
        if same(word, "-h") || same(word, "--help") {
            return true;
        }
        i += 1;
    }
    false
}

/// The help for the program.
pub open spec fn help_of() -> Seq<char> {
    "lazytrees\n\nInteractive TUI for Git worktrees, with scriptable CLI commands.\n\nUsage:\n  lazytrees                         open the TUI\n  lazytrees tui                     open the TUI\n  lazytrees new [branch] [options]  create a worktree\n  lazytrees list                    list worktrees\n  lazytrees launch [options]        launch an agent in a worktree\n  lazytrees remove [path]           remove a worktree\n  lazytrees prune                   prune stale worktree metadata\n\nOptions for new:\n  --base <ref>        base ref for a new branch, defaults to HEAD\n  --path <path>       worktree path, defaults to ../<repo>-worktrees/<branch>\n  --agent <command>   command to run inside the new worktree\n\nOptions for launch:\n  --path <path>       existing worktree path\n  --agent <command>   command to run, defaults to WT_AGENT_CMD or opencode\n\nOptions for remove:\n  --path <path>       existing worktree path\n\nExamples:\n  lazytrees\n  lazytrees new feature/search --base main --agent opencode\n  lazytrees launch --agent \"opencode\"\n  lazytrees remove ../repo-worktrees/feature-search\n"@
}

/// The help for the program, ready to be printed.
pub fn help_text() -> (r: &'static str)
    ensures
        r@ == help_of(),
{
    "lazytrees\n\nInteractive TUI for Git worktrees, with scriptable CLI commands.\n\nUsage:\n  lazytrees                         open the TUI\n  lazytrees tui                     open the TUI\n  lazytrees new [branch] [options]  create a worktree\n  lazytrees list                    list worktrees\n  lazytrees launch [options]        launch an agent in a worktree\n  lazytrees remove [path]           remove a worktree\n  lazytrees prune                   prune stale worktree metadata\n\nOptions for new:\n  --base <ref>        base ref for a new branch, defaults to HEAD\n  --path <path>       worktree path, defaults to ../<repo>-worktrees/<branch>\n  --agent <command>   command to run inside the new worktree\n\nOptions for launch:\n  --path <path>       existing worktree path\n  --agent <command>   command to run, defaults to WT_AGENT_CMD or opencode\n\nOptions for remove:\n  --path <path>       existing worktree path\n\nExamples:\n  lazytrees\n  lazytrees new feature/search --base main --agent opencode\n  lazytrees launch --agent \"opencode\"\n  lazytrees remove ../repo-worktrees/feature-search\n"
}

/// What the program is told to do.
#[derive(Debug, Clone, Copy, PartialEq, Eq, Structural)]
pub enum Command {
    Tui,
    New,
    List,
    Launch,
    Open,
    Remove,
    Prune,
    Help,
}

impl DeepView for Command {
    type V = Command;

    open spec fn deep_view(&self) -> Command {
        *self
    }
}

/// The command that the first argument names; without one it is the terminal interface.
pub open spec fn command_in(args: Seq<Seq<char>>) -> Result<Command, Seq<char>> {
    if args.len() == 0 || args[0] == "tui"@ {
        Ok(Command::Tui)
    } else if args[0] == "new"@ {
        Ok(Command::New)
    } else if args[0] == "list"@ {
        Ok(Command::List)
    } else if args[0] == "launch"@ {
        Ok(Command::Launch)
    } else if args[0] == "open"@ {
        Ok(Command::Open)
    } else if args[0] == "remove"@ || args[0] == "rm"@ {
        Ok(Command::Remove)
    } else if args[0] == "prune"@ {
        Ok(Command::Prune)
    } else if args[0] == "help"@ {
        Ok(Command::Help)
    } else {
        Err("unknown command `"@ + args[0] + "`. Run `lazytrees --help`."@)
    }
}

/// Finds the command that the arguments name.
pub fn command_of(args: &[String]) -> (r: AppResult<Command>)
    ensures
        outcome(r) == command_in(args.deep_view()),
{
    if args.len() == 0 {
        return Ok(Command::Tui);
    }
    let word: &str = args[0].as_str();
    assert(args.deep_view()[0] == word@);
    if same(word, "tui") {
        Ok(Command::Tui)
    } else if same(word, "new") {
        Ok(Command::New)
    } else if same(word, "list") {
        Ok(Command::List)
    } else if same(word, "launch") {
        Ok(Command::Launch)
    } else if same(word, "open") {
        Ok(Command::Open)
    } else if same(word, "remove") || same(word, "rm") {
        Ok(Command::Remove)
    } else if same(word, "prune") {
        Ok(Command::Prune)
    } else if same(word, "help") {
        Ok(Command::Help)
    } else {
        Err(
            AppError::from_message(
                cat3("unknown command `", word, "`. Run `lazytrees --help`."),
            ),
        )
    }
}

/// Which worktree an agent is launched in, and which agent.
#[derive(Debug, PartialEq, Eq)]
pub struct LaunchOptions {
    pub path: Option<String>,
    pub agent_command: Option<String>,
}

/// The view of [`LaunchOptions`].
#[verifier::ext_equal]
pub struct LaunchOptionsView {
    pub path: Option<Seq<char>>,
    pub agent_command: Option<Seq<char>>,
}

impl DeepView for LaunchOptions {
    type V = LaunchOptionsView;

    open spec fn deep_view(&self) -> LaunchOptionsView {
        LaunchOptionsView {
            path: self.path.deep_view(),
            agent_command: self.agent_command.deep_view(),
        }
    }
}

impl Default for LaunchOptions {
    fn default() -> (r: LaunchOptions)
        ensures
            r.deep_view() == (LaunchOptionsView { path: None, agent_command: None }),
    {
        LaunchOptions { path: None, agent_command: None }
    }
}

/// Which worktree is to be removed.
#[derive(Debug, PartialEq, Eq)]
pub struct RemoveOptions {
    pub path: Option<String>,
}

impl DeepView for RemoveOptions {
    type V = Option<Seq<char>>;

    open spec fn deep_view(&self) -> Option<Seq<char>> {
        self.path.deep_view()
    }
}

/// The words for an option whose value is missing.
pub open spec fn missing_value_text(option: Seq<char>) -> Seq<char> {
    option + " requires a value"@
}

/// The words for an agent option without a command.
pub open spec fn missing_command_text() -> Seq<char> {
    "--agent requires a command"@
}

/// The words for an option that the command does not have.
pub open spec fn unknown_option_text(word: Seq<char>) -> Seq<char> {
    "unknown option `"@ + word + "`"@
}

/// The words for an argument for which there is no use.
pub open spec fn extra_argument_text(word: Seq<char>) -> Seq<char> {
    "unexpected extra argument `"@ + word + "`"@
}

/// Whether an argument has the form of an option.
pub open spec fn is_dashed(word: Seq<char>) -> bool {
    "-"@.is_prefix_of(word)
}

/// The argument at a place, which an option needs.
pub fn required_arg<'a>(args: &'a [String], index: usize, option: &str) -> (r: AppResult<&'a str>)
    ensures
        outcome(r) == if index < args@.len() {
            Ok(args.deep_view()[index as int])
        } else {
            Err(missing_value_text(option@))
        },
{
    if index < args.len() {
        Ok(args[index].as_str())
    } else {
        Err(AppError::from_message(cat(option, " requires a value")))
    }
}

fn unknown_option(word: &str) -> (r: AppError)
    ensures
        r.deep_view() == unknown_option_text(word@),
{
    AppError::from_message(cat3("unknown option `", word, "`"))
}

fn extra_argument(word: &str) -> (r: AppError)
    ensures
        r.deep_view() == extra_argument_text(word@),
{
    AppError::from_message(cat3("unexpected extra argument `", word, "`"))
}

/// The options that arguments come to, on top of those that are known already. An agent's command
/// is all that follows `--agent`.
pub open spec fn new_options_from(options: NewOptionsView, args: Seq<Seq<char>>) -> Result<
    NewOptionsView,
    Seq<char>,
>
    decreases args.len(),
{
    if args.len() == 0 {
        Ok(options)
    } else if args[0] == "--base"@ {
        if args.len() < 2 {
            Err(missing_value_text("--base"@))
        } else {
            new_options_from(NewOptionsView { base: Some(args[1]), ..options }, args.skip(2))
        }
    } else if args[0] == "--path"@ {
        if args.len() < 2 {
            Err(missing_value_text("--path"@))
        } else {
            new_options_from(NewOptionsView { path: Some(args[1]), ..options }, args.skip(2))
        }
    } else if args[0] == "--agent"@ {
        if args.len() < 2 {
            Err(missing_command_text())
        } else {
            Ok(NewOptionsView { agent_command: Some(joined(args.skip(1), " "@)), ..options })
        }
    } else if without_prefix(args[0], "--base="@) is Some {
        new_options_from(
            NewOptionsView { base: without_prefix(args[0], "--base="@), ..options },
            args.skip(1),
        )
    } else if without_prefix(args[0], "--path="@) is Some {
        new_options_from(
            NewOptionsView { path: without_prefix(args[0], "--path="@), ..options },
            args.skip(1),
        )
    } else if without_prefix(args[0], "--agent="@) is Some {
        new_options_from(
            NewOptionsView { agent_command: without_prefix(args[0], "--agent="@), ..options },
            args.skip(1),
        )
    } else if is_dashed(args[0]) {
        Err(unknown_option_text(args[0]))
    } else if options.branch is Some {
        Err(extra_argument_text(args[0]))
    } else {
        new_options_from(NewOptionsView { branch: Some(args[0]), ..options }, args.skip(1))
    }
}

/// No options for a new worktree.
pub open spec fn no_new_options() -> NewOptionsView {
    NewOptionsView { branch: None, base: None, path: None, agent_command: None }
}

/// Reads the options for a new worktree.
pub fn parse_new_options(args: &[String]) -> (r: AppResult<NewOptions>)
    ensures
        outcome(r) == new_options_from(no_new_options(), args.deep_view()),
{
    let mut options: NewOptions = NewOptions::default();
    let mut index: usize = 0;
    let ghost all = args.deep_view();
    assert(all.skip(0) =~= all);
    while index < args.len()
        invariant
            index <= args@.len(),
            all == args.deep_view(),
            new_options_from(no_new_options(), all) == new_options_from(
                options.deep_view(),
                all.skip(index as int),
            ),
        decreases args.len() - index,
    {
        let word: &str = args[index].as_str();
        let ghost rest = all.skip(index as int);
        proof {
            assert(rest[0] == word@);
            assert(rest.skip(1) =~= all.skip(index + 1));
            if rest.len() >= 2 {
                assert(rest[1] == all[index + 1]);
                assert(rest.skip(2) =~= all.skip(index + 2));
            }
        }
        if same(word, "--base") {
            index += 1;
            match required_arg(args, index, "--base") {
                Ok(value) => {
                    options.base = Some(value.to_owned());
                },
                Err(error) => {
                    return Err(error);
                },
            }
        } else if same(word, "--path") {
            index += 1;
            match required_arg(args, index, "--path") {
                Ok(value) => {
                    options.path = Some(value.to_owned());
                },
                Err(error) => {
                    return Err(error);
                },
            }
        } else if same(word, "--agent") {
            index += 1;
            if index >= args.len() {
                return Err(AppError::new("--agent requires a command"));
            }
            options.agent_command = Some(join_from(args, index, " "));
            return Ok(options);
        } else if let Some(base) = strip_prefix(word, "--base=") {
            options.base = Some(base);
        } else if let Some(path) = strip_prefix(word, "--path=") {
            options.path = Some(path);
        } else if let Some(command) = strip_prefix(word, "--agent=") {
            options.agent_command = Some(command);
        } else if starts_with(word, "-") {
            return Err(unknown_option(word));
        } else if options.branch.is_some() {
            return Err(extra_argument(word));
        } else {
            options.branch = Some(word.to_owned());
        }
        index += 1;
    }
    Ok(options)
}

/// The options that arguments come to for a launch, on top of those that are known already.
pub open spec fn launch_options_from(options: LaunchOptionsView, args: Seq<Seq<char>>) -> Result<
    LaunchOptionsView,
    Seq<char>,
>
    decreases args.len(),
{
    if args.len() == 0 {
        Ok(options)
    } else if args[0] == "--path"@ {
        if args.len() < 2 {
            Err(missing_value_text("--path"@))
        } else {
            launch_options_from(LaunchOptionsView { path: Some(args[1]), ..options }, args.skip(2))
        }
    } else if args[0] == "--agent"@ {
        if args.len() < 2 {
            Err(missing_command_text())
        } else {
            Ok(LaunchOptionsView { agent_command: Some(joined(args.skip(1), " "@)), ..options })
        }
    } else if without_prefix(args[0], "--path="@) is Some {
        launch_options_from(
            LaunchOptionsView { path: without_prefix(args[0], "--path="@), ..options },
            args.skip(1),
        )
    } else if without_prefix(args[0], "--agent="@) is Some {
        launch_options_from(
            LaunchOptionsView { agent_command: without_prefix(args[0], "--agent="@), ..options },
            args.skip(1),
        )
    } else if is_dashed(args[0]) {
        Err(unknown_option_text(args[0]))
    } else if options.path is Some {
        Err(extra_argument_text(args[0]))
    } else {
        launch_options_from(LaunchOptionsView { path: Some(args[0]), ..options }, args.skip(1))
    }
}

/// No options for a launch.
pub open spec fn no_launch_options() -> LaunchOptionsView {
    LaunchOptionsView { path: None, agent_command: None }
}

/// Reads the options for a launch.
pub fn parse_launch_options(args: &[String]) -> (r: AppResult<LaunchOptions>)
    ensures
        outcome(r) == launch_options_from(no_launch_options(), args.deep_view()),
{
    let mut options: LaunchOptions = LaunchOptions::default();
    let mut index: usize = 0;
    let ghost all = args.deep_view();
    assert(all.skip(0) =~= all);
    while index < args.len()
        invariant
            index <= args@.len(),
            all == args.deep_view(),
            launch_options_from(no_launch_options(), all) == launch_options_from(
                options.deep_view(),
                all.skip(index as int),
            ),
        decreases args.len() - index,
    {
        let word: &str = args[index].as_str();
        let ghost rest = all.skip(index as int);
        proof {
            assert(rest[0] == word@);
            assert(rest.skip(1) =~= all.skip(index + 1));
            if rest.len() >= 2 {
                assert(rest[1] == all[index + 1]);
                assert(rest.skip(2) =~= all.skip(index + 2));
            }
        }
        if same(word, "--path") {
            index += 1;
            match required_arg(args, index, "--path") {
                Ok(value) => {
                    options.path = Some(value.to_owned());
                },
                Err(error) => {
                    return Err(error);
                },
            }
        } else if same(word, "--agent") {
            index += 1;
            if index >= args.len() {
                return Err(AppError::new("--agent requires a command"));
            }
            options.agent_command = Some(join_from(args, index, " "));
            return Ok(options);
        } else if let Some(path) = strip_prefix(word, "--path=") {
            options.path = Some(path);
        } else if let Some(command) = strip_prefix(word, "--agent=") {
            options.agent_command = Some(command);
        } else if starts_with(word, "-") {
            return Err(unknown_option(word));
        } else if options.path.is_some() {
            return Err(extra_argument(word));
        } else {
            options.path = Some(word.to_owned());
        }
        index += 1;
    }
    Ok(options)
}

/// The path that arguments come to, where a path is all that the command takes, on top of what is
/// known already.
pub open spec fn path_option_from(path: Option<Seq<char>>, args: Seq<Seq<char>>) -> Result<
    Option<Seq<char>>,
    Seq<char>,
>
    decreases args.len(),
{
    if args.len() == 0 {
        Ok(path)
    } else if args[0] == "--path"@ {
        if args.len() < 2 {
            Err(missing_value_text("--path"@))
        } else {
            path_option_from(Some(args[1]), args.skip(2))
        }
    } else if without_prefix(args[0], "--path="@) is Some {
        path_option_from(without_prefix(args[0], "--path="@), args.skip(1))
    } else if is_dashed(args[0]) {
        Err(unknown_option_text(args[0]))
    } else if path is Some {
        Err(extra_argument_text(args[0]))
    } else {
        path_option_from(Some(args[0]), args.skip(1))
    }
}

fn parse_path_option(args: &[String]) -> (r: AppResult<Option<String>>)
    ensures
        outcome(r) == path_option_from(None, args.deep_view()),
{
    let mut path: Option<String> = None;
    let mut index: usize = 0;
    let ghost all = args.deep_view();
    assert(all.skip(0) =~= all);
    while index < args.len()
        invariant
            index <= args@.len(),
            all == args.deep_view(),
            path_option_from(None, all) == path_option_from(
                path.deep_view(),
                all.skip(index as int),
            ),
        decreases args.len() - index,
    {
        let word: &str = args[index].as_str();
        let ghost rest = all.skip(index as int);
        proof {
            assert(rest[0] == word@);
            assert(rest.skip(1) =~= all.skip(index + 1));
            if rest.len() >= 2 {
                assert(rest[1] == all[index + 1]);
                assert(rest.skip(2) =~= all.skip(index + 2));
            }
        }
        if same(word, "--path") {
            index += 1;
            match required_arg(args, index, "--path") {
                Ok(value) => {
                    path = Some(value.to_owned());
                },
                Err(error) => {
                    return Err(error);
                },
            }
        } else if let Some(value) = strip_prefix(word, "--path=") {
            path = Some(value);
        } else if starts_with(word, "-") {
            return Err(unknown_option(word));
        } else if path.is_some() {
            return Err(extra_argument(word));
        } else {
            path = Some(word.to_owned());
        }
        index += 1;
    }
    Ok(path)
}

/// Reads the options for a removal.
pub fn parse_remove_options(args: &[String]) -> (r: AppResult<RemoveOptions>)
    ensures
        outcome(r) == path_option_from(None, args.deep_view()),
{
    match parse_path_option(args) {
        Ok(path) => Ok(RemoveOptions { path }),
        Err(error) => Err(error),
    }
}

/// Reads the options for the opening of a worktree.
pub fn parse_open_options(args: &[String]) -> (r: AppResult<OpenOptions>)
    ensures
        outcome(r) == path_option_from(None, args.deep_view()),
{
    match parse_path_option(args) {
        Ok(path) => Ok(OpenOptions { path }),
        Err(error) => Err(error),
    }
}

/// The agent's command: the one that the environment sets, and else `opencode`.
pub open spec fn agent_command_of(setting: Option<Seq<char>>) -> Seq<char> {
    match setting {
        Some(command) => command,
        None => "opencode"@,
    }
}

/// The agent's command, given what the environment sets.
pub fn default_agent_command(setting: Option<String>) -> (r: String)
    ensures
        r@ == agent_command_of(setting.deep_view()),
{
    match setting {
        Some(command) => command,
        None => "opencode".to_owned(),
    }
}

/// An option and its value come to the same in one argument as in two.
pub proof fn law_option_forms_agree(
    options: NewOptionsView,
    value: Seq<char>,
    rest: Seq<Seq<char>>,
)
    ensures
        new_options_from(options, seq!["--base="@ + value] + rest) == new_options_from(
            options,
            seq!["--base"@, value] + rest,
        ),
        new_options_from(options, seq!["--path="@ + value] + rest) == new_options_from(
            options,
            seq!["--path"@, value] + rest,
        ),
{
    lemma_option_words(value);
    assert((seq!["--base="@ + value] + rest).skip(1) =~= rest);
    assert((seq!["--base"@, value] + rest).skip(2) =~= rest);
    assert((seq!["--path="@ + value] + rest).skip(1) =~= rest);
    assert((seq!["--path"@, value] + rest).skip(2) =~= rest);
}

/// The same holds for a launch.
pub proof fn law_launch_option_forms_agree(
    options: LaunchOptionsView,
    value: Seq<char>,
    rest: Seq<Seq<char>>,
)
    ensures
        launch_options_from(options, seq!["--path="@ + value] + rest) == launch_options_from(
            options,
            seq!["--path"@, value] + rest,
        ),
{
    lemma_option_words(value);
    assert((seq!["--path="@ + value] + rest).skip(1) =~= rest);
    assert((seq!["--path"@, value] + rest).skip(2) =~= rest);
}

/// And for a command that takes a path alone; a path that stands by itself comes to the same,
/// unless it looks like an option.
pub proof fn law_path_forms_agree(value: Seq<char>, rest: Seq<Seq<char>>)
    ensures
        path_option_from(None, seq!["--path="@ + value] + rest) == path_option_from(
            None,
            seq!["--path"@, value] + rest,
        ),
        !is_dashed(value) ==> path_option_from(None, seq![value] + rest) == path_option_from(
            None,
            seq!["--path"@, value] + rest,
        ),
{
    lemma_option_words(value);
    assert((seq!["--path="@ + value] + rest).skip(1) =~= rest);
    assert((seq!["--path"@, value] + rest).skip(2) =~= rest);
    assert((seq![value] + rest).skip(1) =~= rest);
}

/// All that follows `--agent` is the agent's command, options among it.
pub proof fn law_agent_takes_the_rest(
    options: NewOptionsView,
    launch: LaunchOptionsView,
    words: Seq<Seq<char>>,
)
    requires
        words.len() > 0,
    ensures
        new_options_from(options, seq!["--agent"@] + words) == Ok::<NewOptionsView, Seq<char>>(
            NewOptionsView { agent_command: Some(joined(words, " "@)), ..options },
        ),
        launch_options_from(launch, seq!["--agent"@] + words) == Ok::<
            LaunchOptionsView,
            Seq<char>,
        >(LaunchOptionsView { agent_command: Some(joined(words, " "@)), ..launch }),
{
    lemma_option_words(seq![]);
    assert((seq!["--agent"@] + words).skip(1) =~= words);
}

/// What the words for options have in common, and what sets them apart.
proof fn lemma_option_words(value: Seq<char>)
    ensures
        "--base="@ + value != "--base"@,
        "--base="@ + value != "--path"@,
        "--base="@ + value != "--agent"@,
        "--path="@ + value != "--base"@,
        "--path="@ + value != "--path"@,
        "--path="@ + value != "--agent"@,
        "--path"@ != "--base"@,
        "--agent"@ != "--base"@,
        "--agent"@ != "--path"@,
        without_prefix("--base="@ + value, "--base="@) == Some(value),
        without_prefix("--path="@ + value, "--path="@) == Some(value),
        without_prefix("--path="@ + value, "--base="@) is None,
        !is_dashed(value) ==> value != "--path"@ && without_prefix(value, "--path="@) is None,
{
    reveal_strlit("-");
    reveal_strlit("--base");
    reveal_strlit("--path");
    reveal_strlit("--agent");
    reveal_strlit("--base=");
    reveal_strlit("--path=");
    let base = "--base="@ + value;
    let path = "--path="@ + value;
    assert(base[2] == 'b' && path[2] == 'p');
    assert(base[6] == '=' && path[6] == '=');
    assert("--base="@[2] == 'b' && "--path="@[2] == 'p');
    assert("--base"@[2] == 'b' && "--path"@[2] == 'p' && "--agent"@[2] == 'a');
    assert("--base="@.is_prefix_of(base));
    assert("--path="@.is_prefix_of(path));
    assert(base.skip("--base="@.len() as int) =~= value);
    assert(path.skip("--path="@.len() as int) =~= value);
    if !is_dashed(value) {
        if value.len() > 0 && value[0] == '-' {
            assert("-"@.is_prefix_of(value));
        }
        assert("--path"@[0] == '-');
        assert("--path="@[0] == '-');
    }
}

/// Help is asked for by `-h` or `--help` at any place, and by nothing else.
pub proof fn law_help_is_asked_for_by_its_words(
    before: Seq<Seq<char>>,
    word: Seq<char>,
    behind: Seq<Seq<char>>,
)
    ensures
        !asks_for_help(seq![]),
        asks_for_help(before + seq![word] + behind) <==> (word == "-h"@ || word == "--help"@
            || asks_for_help(before) || asks_for_help(behind)),
{
    let all = before + seq![word] + behind;
    let n = before.len() as int;
    assert(all[n] == word);
    if asks_for_help(before) {
        let i = choose|i: int| 0 <= i < before.len() && is_help_word(before[i]);
        assert(all[i] == before[i]);
    }
    if asks_for_help(behind) {
        let i = choose|i: int| 0 <= i < behind.len() && is_help_word(behind[i]);
        assert(all[n + 1 + i] == behind[i]);
    }
    if asks_for_help(all) {
        let i = choose|i: int| 0 <= i < all.len() && is_help_word(all[i]);
        if i < n {
            assert(before[i] == all[i]);
        } else if i > n {
            assert(behind[i - n - 1] == all[i]);
        }
    }
}

/// The first word names the command, whatever follows it; without one the terminal interface is
/// opened. A word that names none is told.
pub proof fn law_first_word_names_command(word: Seq<char>, rest: Seq<Seq<char>>)
    ensures
        command_in(seq![]) == Ok::<Command, Seq<char>>(Command::Tui),
        command_in(seq!["tui"@] + rest) == Ok::<Command, Seq<char>>(Command::Tui),
        command_in(seq!["new"@] + rest) == Ok::<Command, Seq<char>>(Command::New),
        command_in(seq!["list"@] + rest) == Ok::<Command, Seq<char>>(Command::List),
        command_in(seq!["launch"@] + rest) == Ok::<Command, Seq<char>>(Command::Launch),
        command_in(seq!["open"@] + rest) == Ok::<Command, Seq<char>>(Command::Open),
        command_in(seq!["remove"@] + rest) == Ok::<Command, Seq<char>>(Command::Remove),
        command_in(seq!["rm"@] + rest) == Ok::<Command, Seq<char>>(Command::Remove),
        command_in(seq!["prune"@] + rest) == Ok::<Command, Seq<char>>(Command::Prune),
        command_in(seq!["help"@] + rest) == Ok::<Command, Seq<char>>(Command::Help),
        word != "tui"@ && word != "new"@ && word != "list"@ && word != "launch"@ && word != "open"@
            && word != "remove"@ && word != "rm"@ && word != "prune"@ && word != "help"@
            ==> command_in(seq![word] + rest) == Err::<Command, Seq<char>>(
            "unknown command `"@ + word + "`. Run `lazytrees --help`."@,
        ),
{
    reveal_strlit("tui");
    reveal_strlit("new");
    reveal_strlit("list");
    reveal_strlit("launch");
    reveal_strlit("open");
    reveal_strlit("remove");
    reveal_strlit("rm");
    reveal_strlit("prune");
    reveal_strlit("help");
    assert("tui"@.len() == 3 && "tui"@[0] == 't' && "new"@.len() == 3 && "new"@[0] == 'n');
    assert("list"@.len() == 4 && "list"@[0] == 'l' && "open"@.len() == 4 && "open"@[0] == 'o');
    assert("launch"@.len() == 6 && "launch"@[0] == 'l');
    assert("remove"@.len() == 6 && "remove"@[0] == 'r' && "rm"@.len() == 2);
    assert("prune"@.len() == 5 && "help"@.len() == 4 && "help"@[0] == 'h');
}

/// Whether a word of the command line stands for itself, and names no option.
pub open spec fn stands_alone(word: Seq<char>) -> bool {
    word.len() == 0 || word[0] != '-'
}

/// Each argument for a new worktree sets its own option, and leaves the others as they are: the
/// base, the path and the agent's command by their options, and the branch by a word that stands
/// alone.
pub proof fn law_new_argument_sets_its_own_option(
    options: NewOptionsView,
    value: Seq<char>,
    rest: Seq<Seq<char>>,
)
    ensures
        new_options_from(options, seq![]) == Ok::<NewOptionsView, Seq<char>>(options),
        new_options_from(options, seq!["--base"@, value] + rest) == new_options_from(
            NewOptionsView { base: Some(value), ..options },
            rest,
        ),
        new_options_from(options, seq!["--path"@, value] + rest) == new_options_from(
            NewOptionsView { path: Some(value), ..options },
            rest,
        ),
        new_options_from(options, seq!["--agent="@ + value] + rest) == new_options_from(
            NewOptionsView { agent_command: Some(value), ..options },
            rest,
        ),
        stands_alone(value) && options.branch is None ==> new_options_from(
            options,
            seq![value] + rest,
        ) == new_options_from(NewOptionsView { branch: Some(value), ..options }, rest),
        no_new_options().branch is None,
        no_new_options().base is None,
        no_new_options().path is None,
        no_new_options().agent_command is None,
{
    lemma_option_words(value);
    lemma_agent_words(value);
    assert((seq!["--base"@, value] + rest).skip(2) =~= rest);
    assert((seq!["--path"@, value] + rest).skip(2) =~= rest);
    assert((seq!["--agent="@ + value] + rest).skip(1) =~= rest);
    assert((seq![value] + rest).skip(1) =~= rest);
}

/// Each argument for a launch sets its own option, and leaves the other as it is: the agent's
/// command by its option, and the path by its option or by a word that stands alone. So the two
/// can be given in either order.
pub proof fn law_launch_argument_sets_its_own_option(
    options: LaunchOptionsView,
    value: Seq<char>,
    command: Seq<char>,
    rest: Seq<Seq<char>>,
)
    ensures
        launch_options_from(options, seq![]) == Ok::<LaunchOptionsView, Seq<char>>(options),
        launch_options_from(options, seq!["--path"@, value] + rest) == launch_options_from(
            LaunchOptionsView { path: Some(value), ..options },
            rest,
        ),
        launch_options_from(options, seq!["--agent="@ + value] + rest) == launch_options_from(
            LaunchOptionsView { agent_command: Some(value), ..options },
            rest,
        ),
        stands_alone(value) && options.path is None ==> launch_options_from(
            options,
            seq![value] + rest,
        ) == launch_options_from(LaunchOptionsView { path: Some(value), ..options }, rest),
        stands_alone(value) && options.path is None ==> launch_options_from(
            options,
            seq!["--agent="@ + command, value],
        ) == Ok::<LaunchOptionsView, Seq<char>>(
            LaunchOptionsView { path: Some(value), agent_command: Some(command) },
        ),
        stands_alone(value) && options.path is None ==> launch_options_from(
            options,
            seq![value, "--agent="@ + command],
        ) == Ok::<LaunchOptionsView, Seq<char>>(
            LaunchOptionsView { path: Some(value), agent_command: Some(command) },
        ),
        no_launch_options().path is None,
        no_launch_options().agent_command is None,
{
    lemma_option_words(value);
    lemma_agent_words(value);
    lemma_agent_words(command);
    reveal_with_fuel(launch_options_from, 4);
    assert((seq!["--path"@, value] + rest).skip(2) =~= rest);
    assert((seq!["--agent="@ + value] + rest).skip(1) =~= rest);
    assert((seq![value] + rest).skip(1) =~= rest);
    let agent = "--agent="@ + command;
    assert(seq![agent, value].skip(1) =~= seq![value]);
    assert(seq![value, agent].skip(1) =~= seq![agent]);
    assert(seq![value].skip(1) =~= seq![]);
    assert(seq![agent].skip(1) =~= seq![]);
}

/// Where a command takes a path alone, it is the one behind its option, or a word that stands
/// alone.
pub proof fn law_path_argument_is_the_path(
    known: Option<Seq<char>>,
    value: Seq<char>,
    rest: Seq<Seq<char>>,
)
    ensures
        path_option_from(known, seq![]) == Ok::<Option<Seq<char>>, Seq<char>>(known),
        path_option_from(known, seq!["--path"@, value] + rest) == path_option_from(
            Some(value),
            rest,
        ),
        path_option_from(known, seq!["--path="@ + value] + rest) == path_option_from(
            Some(value),
            rest,
        ),
        stands_alone(value) && known is None ==> path_option_from(known, seq![value] + rest)
            == path_option_from(Some(value), rest),
{
    lemma_option_words(value);
    lemma_agent_words(value);
    assert((seq!["--path"@, value] + rest).skip(2) =~= rest);
    assert((seq!["--path="@ + value] + rest).skip(1) =~= rest);
    assert((seq![value] + rest).skip(1) =~= rest);
}

/// An option at the end of the arguments lacks its value, and that is told by its name.
pub proof fn law_missing_value_is_told(
    options: NewOptionsView,
    launch: LaunchOptionsView,
    known: Option<Seq<char>>,
)
    ensures
        new_options_from(options, seq!["--base"@]) == Err::<NewOptionsView, Seq<char>>(
            "--base"@ + " requires a value"@,
        ),
        new_options_from(options, seq!["--path"@]) == Err::<NewOptionsView, Seq<char>>(
            "--path"@ + " requires a value"@,
        ),
        new_options_from(options, seq!["--agent"@]) == Err::<NewOptionsView, Seq<char>>(
            "--agent requires a command"@,
        ),
        launch_options_from(launch, seq!["--path"@]) == Err::<LaunchOptionsView, Seq<char>>(
            "--path"@ + " requires a value"@,
        ),
        launch_options_from(launch, seq!["--agent"@]) == Err::<LaunchOptionsView, Seq<char>>(
            "--agent requires a command"@,
        ),
        path_option_from(known, seq!["--path"@]) == Err::<Option<Seq<char>>, Seq<char>>(
            "--path"@ + " requires a value"@,
        ),
{
    lemma_option_words(seq![]);
}

/// A second word that stands alone is one too many, and is told.
pub proof fn law_extra_argument_is_told(
    options: NewOptionsView,
    launch: LaunchOptionsView,
    path: Seq<char>,
    word: Seq<char>,
    rest: Seq<Seq<char>>,
)
    requires
        stands_alone(word),
        options.branch is Some,
        launch.path is Some,
    ensures
        new_options_from(options, seq![word] + rest) == Err::<NewOptionsView, Seq<char>>(
            "unexpected extra argument `"@ + word + "`"@,
        ),
        launch_options_from(launch, seq![word] + rest) == Err::<LaunchOptionsView, Seq<char>>(
            "unexpected extra argument `"@ + word + "`"@,
        ),
        path_option_from(Some(path), seq![word] + rest) == Err::<Option<Seq<char>>, Seq<char>>(
            "unexpected extra argument `"@ + word + "`"@,
        ),
{
    lemma_option_words(word);
    lemma_agent_words(word);
}

/// A word that begins with a dash, and that is none of the options, is told as an unknown option.
pub proof fn law_unknown_option_is_told(
    options: NewOptionsView,
    launch: LaunchOptionsView,
    known: Option<Seq<char>>,
    word: Seq<char>,
    rest: Seq<Seq<char>>,
)
    requires
        word.len() > 0,
        word[0] == '-',
        word != "--path"@,
        !"--path="@.is_prefix_of(word),
    ensures
        ({
            let told = "unknown option `"@ + word + "`"@;
            let no_agent = word != "--agent"@ && !"--agent="@.is_prefix_of(word);
            let no_base = word != "--base"@ && !"--base="@.is_prefix_of(word);
            &&& no_agent && no_base ==> new_options_from(options, seq![word] + rest) == Err::<
                NewOptionsView,
                Seq<char>,
            >(told)
            &&& no_agent ==> launch_options_from(launch, seq![word] + rest) == Err::<
                LaunchOptionsView,
                Seq<char>,
            >(told)
            &&& path_option_from(known, seq![word] + rest) == Err::<Option<Seq<char>>, Seq<char>>(
                told,
            )
        }),
{
    reveal_strlit("-");
    assert("-"@[0] == '-');
    assert("-"@.is_prefix_of(word));
}

/// The agent is the one that the environment sets, and else `opencode`.
pub proof fn law_agent_is_set_or_opencode(command: Seq<char>)
    ensures
        agent_command_of(Some(command)) == command,
        agent_command_of(None) == "opencode"@,
{
}

/// What sets the words for an agent apart from the other options, and a word that stands alone
/// from all of them.
proof fn lemma_agent_words(value: Seq<char>)
    ensures
        "--agent="@ + value != "--base"@,
        "--agent="@ + value != "--path"@,
        "--agent="@ + value != "--agent"@,
        without_prefix("--agent="@ + value, "--base="@) is None,
        without_prefix("--agent="@ + value, "--path="@) is None,
        without_prefix("--agent="@ + value, "--agent="@) == Some(value),
        stands_alone(value) ==> {
            &&& !is_dashed(value)
            &&& value != "--base"@
            &&& value != "--path"@
            &&& value != "--agent"@
            &&& without_prefix(value, "--base="@) is None
            &&& without_prefix(value, "--path="@) is None
            &&& without_prefix(value, "--agent="@) is None
        },
{
    reveal_strlit("-");
    reveal_strlit("--base");
    reveal_strlit("--path");
    reveal_strlit("--agent");
    reveal_strlit("--base=");
    reveal_strlit("--path=");
    reveal_strlit("--agent=");
    let agent = "--agent="@ + value;
    assert(agent[2] == 'a' && agent[7] == '=');
    assert("--base="@[2] == 'b' && "--path="@[2] == 'p');
    assert("--base"@[2] == 'b' && "--path"@[2] == 'p' && "--agent"@.len() == 7);
    assert("--agent="@.is_prefix_of(agent));
    assert(agent.skip("--agent="@.len() as int) =~= value);
    assert("-"@[0] == '-' && "--base"@[0] == '-' && "--path"@[0] == '-' && "--agent"@[0] == '-');
    assert("--base="@[0] == '-' && "--path="@[0] == '-' && "--agent="@[0] == '-');
}

/// The help tells what the program is, how each command is used, which options there are and what
/// they default to, and gives examples.
#[verifier::rlimit(100)]
pub proof fn law_help_has_its_parts()
    ensures
        help_of() == "lazytrees\n\nInteractive TUI for Git worktrees, with scriptable CLI commands.\n\n"@
            + "Usage:\n  lazytrees                         open the TUI\n  lazytrees tui                     open the TUI\n  lazytrees new [branch] [options]  create a worktree\n  lazytrees list                    list worktrees\n  lazytrees launch [options]        launch an agent in a worktree\n  lazytrees remove [path]           remove a worktree\n  lazytrees prune                   prune stale worktree metadata\n\n"@
            + "Options for new:\n  --base <ref>        base ref for a new branch, defaults to HEAD\n  --path <path>       worktree path, defaults to ../<repo>-worktrees/<branch>\n  --agent <command>   command to run inside the new worktree\n\n"@
            + "Options for launch:\n  --path <path>       existing worktree path\n  --agent <command>   command to run, defaults to WT_AGENT_CMD or opencode\n\n"@
            + "Options for remove:\n  --path <path>       existing worktree path\n\n"@
            + "Examples:\n  lazytrees\n  lazytrees new feature/search --base main --agent opencode\n  lazytrees launch --agent \"opencode\"\n  lazytrees remove ../repo-worktrees/feature-search\n"@,
{
    reveal_strlit("lazytrees\n\nInteractive TUI for Git worktrees, with scriptable CLI commands.\n\nUsage:\n  lazytrees                         open the TUI\n  lazytrees tui                     open the TUI\n  lazytrees new [branch] [options]  create a worktree\n  lazytrees list                    list worktrees\n  lazytrees launch [options]        launch an agent in a worktree\n  lazytrees remove [path]           remove a worktree\n  lazytrees prune                   prune stale worktree metadata\n\nOptions for new:\n  --base <ref>        base ref for a new branch, defaults to HEAD\n  --path <path>       worktree path, defaults to ../<repo>-worktrees/<branch>\n  --agent <command>   command to run inside the new worktree\n\nOptions for launch:\n  --path <path>       existing worktree path\n  --agent <command>   command to run, defaults to WT_AGENT_CMD or opencode\n\nOptions for remove:\n  --path <path>       existing worktree path\n\nExamples:\n  lazytrees\n  lazytrees new feature/search --base main --agent opencode\n  lazytrees launch --agent \"opencode\"\n  lazytrees remove ../repo-worktrees/feature-search\n");
    reveal_strlit("lazytrees\n\nInteractive TUI for Git worktrees, with scriptable CLI commands.\n\n");
    reveal_strlit("Usage:\n  lazytrees                         open the TUI\n  lazytrees tui                     open the TUI\n  lazytrees new [branch] [options]  create a worktree\n  lazytrees list                    list worktrees\n  lazytrees launch [options]        launch an agent in a worktree\n  lazytrees remove [path]           remove a worktree\n  lazytrees prune                   prune stale worktree metadata\n\n");
    reveal_strlit("Options for new:\n  --base <ref>        base ref for a new branch, defaults to HEAD\n  --path <path>       worktree path, defaults to ../<repo>-worktrees/<branch>\n  --agent <command>   command to run inside the new worktree\n\n");
    reveal_strlit("Options for launch:\n  --path <path>       existing worktree path\n  --agent <command>   command to run, defaults to WT_AGENT_CMD or opencode\n\n");
    reveal_strlit("Options for remove:\n  --path <path>       existing worktree path\n\n");
    reveal_strlit("Examples:\n  lazytrees\n  lazytrees new feature/search --base main --agent opencode\n  lazytrees launch --agent \"opencode\"\n  lazytrees remove ../repo-worktrees/feature-search\n");
    assert(help_of() =~= "lazytrees\n\nInteractive TUI for Git worktrees, with scriptable CLI commands.\n\n"@
        + "Usage:\n  lazytrees                         open the TUI\n  lazytrees tui                     open the TUI\n  lazytrees new [branch] [options]  create a worktree\n  lazytrees list                    list worktrees\n  lazytrees launch [options]        launch an agent in a worktree\n  lazytrees remove [path]           remove a worktree\n  lazytrees prune                   prune stale worktree metadata\n\n"@
        + "Options for new:\n  --base <ref>        base ref for a new branch, defaults to HEAD\n  --path <path>       worktree path, defaults to ../<repo>-worktrees/<branch>\n  --agent <command>   command to run inside the new worktree\n\n"@
        + "Options for launch:\n  --path <path>       existing worktree path\n  --agent <command>   command to run, defaults to WT_AGENT_CMD or opencode\n\n"@
        + "Options for remove:\n  --path <path>       existing worktree path\n\n"@
        + "Examples:\n  lazytrees\n  lazytrees new feature/search --base main --agent opencode\n  lazytrees launch --agent \"opencode\"\n  lazytrees remove ../repo-worktrees/feature-search\n"@);
}

} // verus!
