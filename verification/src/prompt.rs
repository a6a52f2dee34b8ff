//! Questions to the user on the command line, and what their answers mean.
use vstd::prelude::*;
use vstd::string::*;

use crate::error::{outcome, AppError, AppResult};
use crate::git::{
    format_worktree, list_args, list_worktrees, listed, worktree_line, worktrees_listed, Repo,
    RepoView, Worktree, WorktreeView,
};
use crate::process::{
    answers, git_run, Effect, EffectView, Found, FoundView, IoFailureView, Reply, ReplyView, Step,
    StepView,
};
use crate::text::{
    cat, cat3, decimal, is_space, law_trim_takes_white_space_off, lowered, number_of, parse_number,
    same, to_ascii_lowercase, to_decimal, trim, trimmed_space,
};

verus! {

/// Lines to print, and where the command stands behind them.
#[derive(Debug, PartialEq, Eq)]
pub struct Turn<S, T> {
    pub say: Vec<String>,
    pub step: Step<S, T>,
}

/// The view of a [`Turn`].
#[verifier::ext_equal]
pub struct TurnView<S, T> {
    pub say: Seq<Seq<char>>,
    pub step: StepView<S, T>,
}

impl<S: DeepView, T: DeepView> DeepView for Turn<S, T> {
    type V = TurnView<S::V, T::V>;

    open spec fn deep_view(&self) -> TurnView<S::V, T::V> {
        TurnView { say: self.say.deep_view(), step: self.step.deep_view() }
    }
}

/// A turn without lines to print.
pub open spec fn quietly<S, T>(step: StepView<S, T>) -> TurnView<S, T> {
    TurnView { say: seq![], step }
}

pub fn quiet<S: DeepView, T: DeepView>(step: Step<S, T>) -> (r: Turn<S, T>)
    ensures
        r.deep_view() == quietly(step.deep_view()),
{
    let say: Vec<String> = Vec::new();
    assert(say.deep_view() =~= seq![]);
    Turn { say, step }
}

/// A turn with one line to print.
pub fn saying<S: DeepView, T: DeepView>(line: String, step: Step<S, T>) -> (r: Turn<S, T>)
    ensures
        r.deep_view() == (TurnView { say: seq![line@], step: step.deep_view() }),
{
    let say: Vec<String> = vec![line];
    assert(say.deep_view() =~= seq![line@]);
    Turn { say, step }
}

/// What a question looks like: its label, and the answer that an empty line stands for.
pub open spec fn prompt_text(label: Seq<char>, default: Option<Seq<char>>) -> Seq<char> {
    match default {
        Some(value) => label + " ["@ + value + "]: "@,
        None => label + ": "@,
    }
}

/// Writes a question.
pub fn prompt(label: &str, default: Option<&str>) -> (r: Effect)
    ensures
        r.deep_view() == EffectView::Ask(prompt_text(label@, default.deep_view())),
{
    match default {
        Some(value) => {
            let mut text: String = cat3(label, " [", value);
            text.append("]: ");
            Effect::Ask(text)
        },
        None => Effect::Ask(cat(label, ": ")),
    }
}

/// What the answer to a question is: the line without the white space around it, and for an
/// empty one the default, or nothing.
pub open spec fn prompt_answer(default: Option<Seq<char>>, line: FoundView) -> Result<
    Seq<char>,
    Seq<char>,
> {
    match line {
        FoundView::Failed(failure) => Err(failure.message),
        FoundView::Text(text) => {
            let input = trimmed_space(text);
            if input.len() > 0 {
                Ok(input)
            } else {
                match default {
                    Some(value) => Ok(value),
                    None => Ok(seq![]),
                }
            }
        },
    }
}

/// Takes the answer to a question.
pub fn answer(default: Option<&str>, line: Found) -> (r: AppResult<String>)
    ensures
        outcome(r) == prompt_answer(default.deep_view(), line.deep_view()),
{
    match line {
        Found::Failed(failure) => Err(AppError::from_message(failure.message)),
        Found::Text(text) => {
            let input: String = trim(text.as_str());
            if !input.as_str().is_empty() {
                return Ok(input);
            }
            match default {
                Some(value) => Ok(value.to_owned()),
                None => Ok(String::new()),
            }
        },
    }
}

/// What stands for the answer to a yes-or-no question that an empty line gives.
pub open spec fn confirm_hint(default: bool) -> Seq<char> {
    if default {
        "Y/n"@
    } else {
        "y/N"@
    }
}

pub fn hint_for(default: bool) -> (r: &'static str)
    ensures
        r@ == confirm_hint(default),
{
    if default {
        "Y/n"
    } else {
        "y/N"
    }
}

/// What the answer to a yes-or-no question means, where it means anything.
pub open spec fn confirmed(default: bool, input: Seq<char>) -> Option<bool> {
    let word = lowered(input);
    if input == confirm_hint(default) {
        Some(default)
    } else if word == "y"@ || word == "yes"@ {
        Some(true)
    } else if word == "n"@ || word == "no"@ {
        Some(false)
    } else {
        None
    }
}

/// What comes of a line that is typed for a yes-or-no question.
pub open spec fn confirm_answer(default: bool, line: FoundView) -> Result<
    Option<bool>,
    Seq<char>,
> {
    match prompt_answer(Some(confirm_hint(default)), line) {
        Err(message) => Err(message),
        Ok(input) => Ok(confirmed(default, input)),
    }
}

/// Takes the answer to a yes-or-no question.
pub fn confirm(default: bool, line: Found) -> (r: AppResult<Option<bool>>)
    ensures
        outcome(r) == confirm_answer(default, line.deep_view()),
{
    match answer(Some(hint_for(default)), line) {
        Err(error) => Err(error),
        Ok(input) => {
            let word: String = to_ascii_lowercase(input.as_str());
            if same(input.as_str(), hint_for(default)) {
                Ok(Some(default))
            } else if same(word.as_str(), "y") || same(word.as_str(), "yes") {
                Ok(Some(true))
            } else if same(word.as_str(), "n") || same(word.as_str(), "no") {
                Ok(Some(false))
            } else {
                Ok(None)
            }
        },
    }
}

/// What is printed when an answer was neither yes nor no.
pub open spec fn yes_or_no_text() -> Seq<char> {
    "Please answer yes or no."@
}

/// How far the choice of a worktree has come.
#[derive(Debug, PartialEq, Eq)]
pub enum Selection {
    /// Git is asked for the worktrees.
    Listing { repo: Repo },
    /// The user is asked for one of them.
    Choosing { worktrees: Vec<Worktree> },
}

/// The view of a [`Selection`].
#[verifier::ext_equal]
pub enum SelectionView {
    Listing { repo: RepoView },
    Choosing { worktrees: Seq<WorktreeView> },
}

impl DeepView for Selection {
    type V = SelectionView;

    open spec fn deep_view(&self) -> SelectionView {
        match self {
            Selection::Listing { repo } => SelectionView::Listing { repo: repo.deep_view() },
            Selection::Choosing { worktrees } => SelectionView::Choosing {
                worktrees: worktrees.deep_view(),
            },
        }
    }
}

/// What a choice waits for.
pub open spec fn selection_effect(state: SelectionView) -> EffectView {
    match state {
        SelectionView::Listing { repo } => EffectView::Run(git_run(list_args(), Some(repo.root))),
        SelectionView::Choosing { .. } => EffectView::Ask(
            prompt_text("Choose worktree"@, Some("1"@)),
        ),
    }
}

/// The line that offers a worktree under its number.
pub open spec fn numbered_line(number: nat, worktree: WorktreeView) -> Seq<char> {
    "  "@ + decimal(number) + ") "@ + worktree_line(worktree)
}

/// The lines that offer worktrees, numbered from one on.
pub open spec fn offer(worktrees: Seq<WorktreeView>) -> Seq<Seq<char>> {
    seq!["Worktrees:"@] + Seq::new(
        worktrees.len(),
        |i: int| numbered_line((i + 1) as nat, worktrees[i]),
    )
}

/// The place of the worktree that an answer chooses, where it chooses one.
pub open spec fn chosen(count: nat, input: Seq<char>) -> Option<int> {
    match number_of(input) {
        Some(number) => if 1 <= number <= count {
            Some(number - 1)
        } else {
            None
        },
        None => None,
    }
}

/// What is printed when an answer chose no worktree.
pub open spec fn choose_again_text(count: nat) -> Seq<char> {
    "Enter a number between 1 and "@ + decimal(count) + "."@
}

/// How a choice goes on. It ends in the path of a worktree.
pub open spec fn selection_next(state: SelectionView, reply: ReplyView) -> TurnView<
    SelectionView,
    Seq<char>,
> {
    match state {
        SelectionView::Listing { .. } => match listed(reply->Ran_0) {
            Err(message) => quietly(StepView::Done(Err(message))),
            Ok(worktrees) => if worktrees.len() == 0 {
                quietly(StepView::Done(Err("no worktrees found"@)))
            } else {
                TurnView {
                    say: offer(worktrees),
                    step: StepView::Next(SelectionView::Choosing { worktrees }),
                }
            },
        },
        SelectionView::Choosing { worktrees } => match prompt_answer(Some("1"@), reply->Line_0) {
            Err(message) => quietly(StepView::Done(Err(message))),
            Ok(input) => match chosen(worktrees.len(), input) {
                Some(place) => quietly(StepView::Done(Ok(worktrees[place].path))),
                None => TurnView {
                    say: seq![choose_again_text(worktrees.len())],
                    step: StepView::Next(state),
                },
            },
        },
    }
}

fn offer_lines(worktrees: &Vec<Worktree>) -> (r: Vec<String>)
    ensures
        r.deep_view() == offer(worktrees.deep_view()),
{
    let mut r: Vec<String> = vec!["Worktrees:".to_owned()];
    assert(r.deep_view() =~= seq!["Worktrees:"@]);
    let mut i: usize = 0;
    while i < worktrees.len()
        invariant
            i <= worktrees@.len(),
            r.deep_view() =~= offer(worktrees.deep_view()).take(i + 1),
        decreases worktrees.len() - i,
    {
        let ghost before = r.deep_view();
        let number: String = to_decimal(i as u64 + 1);
        let mut line: String = cat3("  ", number.as_str(), ") ");
        line.append(format_worktree(&worktrees[i]).as_str());
        assert(line@ == offer(worktrees.deep_view())[i + 1]);
        r.push(line);
        assert(r.deep_view() =~= before.push(line@));
        i += 1;
    }
    r
}

/// Begins to let the user choose a worktree.
pub fn select_worktree(repo: &Repo) -> (r: Selection)
    ensures
        r.deep_view() == (SelectionView::Listing { repo: repo.deep_view() }),
{
    Selection::Listing { repo: repo.clone() }
}

impl Selection {
    /// What the choice waits for.
    pub fn effect(&self) -> (r: Effect)
        ensures
            r.deep_view() == selection_effect(self.deep_view()),
    {
        match self {
            Selection::Listing { repo } => Effect::Run(list_worktrees(repo)),
            Selection::Choosing { .. } => prompt("Choose worktree", Some("1")),
        }
    }

    /// Goes on with the reply.
    pub fn resume(self, reply: Reply) -> (r: Turn<Selection, String>)
        requires
            answers(reply.deep_view(), selection_effect(self.deep_view())),
        ensures
            r.deep_view() == selection_next(self.deep_view(), reply.deep_view()),
    {
        match self {
            Selection::Listing { .. } => match worktrees_listed(reply.ran()) {
                Err(error) => quiet(Step::Done(Err(error))),
                Ok(worktrees) => if worktrees.len() == 0 {
                    quiet(Step::Done(Err(AppError::new("no worktrees found"))))
                } else {
                    let say: Vec<String> = offer_lines(&worktrees);
                    Turn { say, step: Step::Next(Selection::Choosing { worktrees }) }
                },
            },
            Selection::Choosing { worktrees } => match answer(Some("1"), reply.line()) {
                Err(error) => quiet(Step::Done(Err(error))),
                Ok(input) => {
                    match parse_number(input.as_str()) {
                        Some(number) => if 1 <= number && number <= worktrees.len() {
                            let path: String = worktrees[number - 1].path.clone();
                            assert(path@ == worktrees.deep_view()[number - 1].path);
                            return quiet(Step::Done(Ok(path)));
                        },
                        None => {},
                    }
                    let count: String = to_decimal(worktrees.len() as u64);
                    saying(
                        cat3("Enter a number between 1 and ", count.as_str(), "."),
                        Step::Next(Selection::Choosing { worktrees }),
                    )
                },
            },
        }
    }
}

/// The number under which a worktree is offered chooses it.
pub proof fn law_offered_number_chooses(worktrees: Seq<WorktreeView>, place: usize)
    requires
        place < worktrees.len() <= usize::MAX,
    ensures
        chosen(worktrees.len(), decimal((place + 1) as nat)) == Some(place as int),
        offer(worktrees)[place + 1] == numbered_line((place + 1) as nat, worktrees[place as int]),
{
    crate::text::law_decimal_reads_back((place + 1) as usize);
}

/// An empty line chooses the first worktree, and nothing but a worktree that was offered is ever
/// chosen.
pub proof fn law_choice_is_offered(worktrees: Seq<WorktreeView>, reply: ReplyView)
    requires
        worktrees.len() > 0,
    ensures
        selection_next(
            SelectionView::Choosing { worktrees },
            ReplyView::Line(FoundView::Text(seq![])),
        ) == quietly::<SelectionView, Seq<char>>(StepView::Done(Ok(worktrees[0].path))),
        selection_next(SelectionView::Choosing { worktrees }, reply).step matches StepView::Done(
            Ok(path),
        ) ==> exists|i: int| 0 <= i < worktrees.len() && (#[trigger] worktrees[i]).path == path,
{
    let none: Seq<char> = seq![];
    reveal_strlit("1");
    assert("1"@ =~= decimal(1));
    crate::text::law_decimal_reads_back(1);
    assert(trimmed_space(none) == none);
}

/// Without an answer, a yes-or-no question is answered by its default.
pub proof fn law_empty_answer_is_default(default: bool)
    ensures
        confirm_answer(default, FoundView::Text(seq![])) == Ok::<Option<bool>, Seq<char>>(
            Some(default),
        ),
{
    let none: Seq<char> = seq![];
    assert(trimmed_space(none) == none);
}

/// A question is its label, the default in brackets where there is one, a colon and a blank.
pub proof fn law_question_shows_default(label: Seq<char>, value: Seq<char>)
    ensures
        prompt_text(label, Some(value)) == label + " ["@ + value + "]: "@,
        prompt_text(label, None) == label + ": "@,
        confirm_hint(true) == "Y/n"@,
        confirm_hint(false) == "y/N"@,
{
}

/// An answer is the line that was typed without the white space around it. An empty one is the
/// default, and nothing where there is none. A line that could not be read is told.
pub proof fn law_answer_is_what_was_typed(
    before: Seq<char>,
    words: Seq<char>,
    behind: Seq<char>,
    default: Seq<char>,
    failure: IoFailureView,
)
    requires
        forall|i: int| 0 <= i < before.len() ==> is_space(#[trigger] before[i]),
        forall|i: int| 0 <= i < behind.len() ==> is_space(#[trigger] behind[i]),
        words.len() > 0 ==> !is_space(words[0]) && !is_space(words.last()),
    ensures
        ({
            let line = FoundView::Text(before + words + behind);
            &&& words.len() > 0 ==> prompt_answer(Some(default), line) == Ok::<
                Seq<char>,
                Seq<char>,
            >(words)
            &&& prompt_answer(None, line) == Ok::<Seq<char>, Seq<char>>(words)
            &&& words.len() == 0 ==> prompt_answer(Some(default), line) == Ok::<
                Seq<char>,
                Seq<char>,
            >(default)
        }),
        prompt_answer(Some(default), FoundView::Failed(failure)) == Err::<Seq<char>, Seq<char>>(
            failure.message,
        ),
        prompt_answer(None, FoundView::Failed(failure)) == Err::<Seq<char>, Seq<char>>(
            failure.message,
        ),
{
    law_trim_takes_white_space_off(before, words, behind);
    assert(words.len() == 0 ==> words =~= seq![]);
}

/// `y` and `yes` mean yes, `n` and `no` mean no, in capitals too; what stands for the default means
/// the default. Anything else means neither.
pub proof fn law_yes_and_no_are_understood(default: bool, input: Seq<char>)
    requires
        input != if default {
            "Y/n"@
        } else {
            "y/N"@
        },
    ensures
        lowered(input) == "y"@ || lowered(input) == "yes"@ ==> confirmed(default, input) == Some(
            true,
        ),
        lowered(input) == "n"@ || lowered(input) == "no"@ ==> confirmed(default, input) == Some(
            false,
        ),
        lowered(input) != "y"@ && lowered(input) != "yes"@ && lowered(input) != "n"@ && lowered(
            input,
        ) != "no"@ ==> confirmed(default, input) is None,
        confirmed(true, "Y/n"@) == Some(true),
        confirmed(false, "y/N"@) == Some(false),
{
    reveal_strlit("y");
    reveal_strlit("yes");
    reveal_strlit("n");
    reveal_strlit("no");
    assert("y"@[0] == 'y' && "yes"@[0] == 'y' && "n"@[0] == 'n' && "no"@[0] == 'n');
}

/// A line that is typed for a yes-or-no question counts by what it means, without the white space
/// around it; an empty one stands for the default.
pub proof fn law_confirmation_is_by_the_line(
    default: bool,
    before: Seq<char>,
    words: Seq<char>,
    behind: Seq<char>,
    failure: IoFailureView,
)
    requires
        forall|i: int| 0 <= i < before.len() ==> is_space(#[trigger] before[i]),
        forall|i: int| 0 <= i < behind.len() ==> is_space(#[trigger] behind[i]),
        words.len() > 0 ==> !is_space(words[0]) && !is_space(words.last()),
    ensures
        confirm_answer(default, FoundView::Text(before + words + behind)) == Ok::<
            Option<bool>,
            Seq<char>,
        >(
            if words.len() == 0 {
                Some(default)
            } else {
                confirmed(default, words)
            },
        ),
        confirm_answer(default, FoundView::Failed(failure)) == Err::<Option<bool>, Seq<char>>(
            failure.message,
        ),
{
    law_answer_is_what_was_typed(before, words, behind, confirm_hint(default), failure);
}

/// The worktrees are offered in a line each, in their order, under the numbers from one on.
pub proof fn law_worktrees_are_offered_in_order(worktrees: Seq<WorktreeView>, i: int)
    requires
        0 <= i < worktrees.len(),
    ensures
        offer(worktrees).len() == worktrees.len() + 1,
        offer(worktrees)[0] == "Worktrees:"@,
        offer(worktrees)[i + 1] == "  "@ + decimal((i + 1) as nat) + ") "@ + worktree_line(
            worktrees[i],
        ),
{
}

/// A number chooses the worktree that was offered under it. Any other answer is asked for again,
/// with the numbers that there are.
pub proof fn law_number_chooses_or_is_asked_again(
    worktrees: Seq<WorktreeView>,
    line: FoundView,
    input: Seq<char>,
    number: usize,
)
    requires
        prompt_answer(Some("1"@), line) == Ok::<Seq<char>, Seq<char>>(input),
    ensures
        ({
            let state = SelectionView::Choosing { worktrees };
            let turn = selection_next(state, ReplyView::Line(line));
            &&& number_of(input) == Some(number) && 1 <= number <= worktrees.len() ==> {
                &&& turn.say == Seq::<Seq<char>>::empty()
                &&& turn.step == StepView::<SelectionView, Seq<char>>::Done(
                    Ok(worktrees[number - 1].path),
                )
            }
            &&& number_of(input) is None || (number_of(input) == Some(number) && !(1 <= number
                <= worktrees.len())) ==> {
                &&& turn.say == seq![
                    "Enter a number between 1 and "@ + decimal(worktrees.len()) + "."@,
                ]
                &&& turn.step == StepView::<SelectionView, Seq<char>>::Next(state)
            }
        }),
{
}

/// The choice lists the worktrees of the repository first, and asks for a number then. Without
/// worktrees there is nothing to choose.
pub proof fn law_choice_begins_with_listing(
    repo: RepoView,
    worktrees: Seq<WorktreeView>,
    reply: ReplyView,
    message: Seq<char>,
)
    ensures
        ({
            let listing = SelectionView::Listing { repo };
            let choosing = SelectionView::Choosing { worktrees };
            let turn = selection_next(listing, reply);
            &&& selection_effect(listing) == EffectView::Run(
                git_run(seq!["worktree"@, "list"@, "--porcelain"@], Some(repo.root)),
            )
            &&& selection_effect(choosing) == EffectView::Ask("Choose worktree"@ + " ["@ + "1"@
                + "]: "@)
            &&& listed(reply->Ran_0) == Err::<Seq<WorktreeView>, Seq<char>>(message) ==> turn.step
                == StepView::<SelectionView, Seq<char>>::Done(Err(message))
            &&& listed(reply->Ran_0) == Ok::<Seq<WorktreeView>, Seq<char>>(worktrees)
                && worktrees.len() == 0 ==> turn.step == StepView::<SelectionView, Seq<char>>::Done(
                Err("no worktrees found"@),
            )
            &&& listed(reply->Ran_0) == Ok::<Seq<WorktreeView>, Seq<char>>(worktrees)
                && worktrees.len() > 0 ==> turn.step == StepView::<SelectionView, Seq<char>>::Next(
                choosing,
            ) && turn.say == offer(worktrees)
        }),
{
}

} // verus!
