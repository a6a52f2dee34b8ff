//! Sessions of tmux: their names, and how one is opened for a worktree.
use vstd::prelude::*;
use vstd::string::*;

use crate::error::{AppError, AppResult};
use crate::path::{file_name, is_file_name, law_name_is_behind_last_slash, name_of};
use crate::process::{
    answers, run_tmux, tmux_io_error, tmux_io_text, tmux_result, words, Effect, EffectView,
    ExitView, Invocation, InvocationView, IoFailureView, Program, Ran, RanView, Reply, ReplyView,
    Step, StepView, Streams,
};
use crate::text::{
    cat, cat3, decimal, law_trim_takes_dashes_off, law_trimmed_is_piece, lemma_decimal_is_own,
    lower, to_chars, to_decimal, to_lower, trim_dashes, trimmed_dashes,
};

verus! {

pub open spec fn is_letter_or_digit(c: char) -> bool {
    ('a' <= c <= 'z') || ('A' <= c <= 'Z') || ('0' <= c <= '9')
}

/// The character that stands for `c` in the name of a session.
pub open spec fn session_char(c: char) -> char {
    if is_letter_or_digit(c) {
        lower(c)
    } else if c == '-' || c == '_' {
        c
    } else {
        '-'
    }
}

/// A name in the characters of a session's name, with one dash in place of each row of dashes.
pub open spec fn squeezed(name: Seq<char>) -> Seq<char>
    decreases name.len(),
{
    if name.len() == 0 {
        seq![]
    } else {
        let front = squeezed(name.drop_last());
        let c = session_char(name.last());
        if c == '-' && front.len() > 0 && front.last() == '-' {
            front
        } else {
            front.push(c)
        }
    }
}

/// A name as a part of a session's name: without dashes at its ends, and never empty.
pub open spec fn sanitized(name: Seq<char>) -> Seq<char> {
    let s = trimmed_dashes(squeezed(name));
    if s.len() == 0 {
        "worktree"@
    } else {
        s
    }
}

/// Makes a part of a session's name from a name.
pub fn sanitize_tmux_session_name(name: &str) -> (r: String)
    ensures
        r@ == sanitized(name@),
{
    let v: Vec<char> = to_chars(name);
    let mut squeezed_name: String = String::new();
    let mut last_was_dash: bool = false;
    let mut i: usize = 0;
    assert(v@.take(0) =~= seq![]);
    while i < v.len()
        invariant
            i <= v@.len(),
            squeezed_name@ == squeezed(v@.take(i as int)),
            last_was_dash == (squeezed_name@.len() > 0 && squeezed_name@.last() == '-'),
        decreases v.len() - i,
    {
        let character: char = v[i];
        assert(v@.take(i + 1).drop_last() =~= v@.take(i as int));
        assert(v@.take(i + 1).last() == character);
        let letter_or_digit: bool = ('a' <= character && character <= 'z') || ('A' <= character
            && character <= 'Z') || ('0' <= character && character <= '9');
        let replacement: char = if letter_or_digit {
            to_lower(character)
        } else if character == '-' || character == '_' {
            character
        } else {
            '-'
        };
        if !(replacement == '-' && last_was_dash) {
            last_was_dash = replacement == '-';
            squeezed_name.push(replacement);
        }
        i += 1;
    }
    assert(v@.take(i as int) =~= v@);
    let trimmed: String = trim_dashes(squeezed_name.as_str());
    if trimmed.as_str().is_empty() {
        "worktree".to_owned()
    } else {
        trimmed
    }
}

/// The name of the session for a path: from the name that the path ends in.
pub open spec fn session_name_of(path: Seq<char>) -> Seq<char> {
    "lazytrees-"@ + sanitized(
        match name_of(path) {
            Some(name) => name,
            None => "worktree"@,
        },
    )
}

/// The name that the session for a path gets, unless it is taken.
pub fn tmux_session_name(path: &str) -> (r: String)
    ensures
        r@ == session_name_of(path@),
{
    let name: String = match file_name(path) {
        Some(name) => name,
        None => "worktree".to_owned(),
    };
    cat("lazytrees-", sanitize_tmux_session_name(name.as_str()).as_str())
}

/// The name under which tmux finds exactly one session.
pub open spec fn exact_target(name: Seq<char>) -> Seq<char> {
    "="@ + name
}

pub fn exact_tmux_target(name: &str) -> (r: String)
    ensures
        r@ == exact_target(name@),
{
    cat("=", name)
}

/// The name that is tried at the given attempt: the first one is the plain name, the others have
/// a number behind it.
pub open spec fn candidate(base: Seq<char>, attempt: nat) -> Seq<char> {
    if attempt <= 1 {
        base
    } else {
        base + "-"@ + decimal(attempt)
    }
}

fn candidate_name(base: &str, attempt: u64) -> (r: String)
    ensures
        r@ == candidate(base@, attempt as nat),
{
    if attempt <= 1 {
        base.to_owned()
    } else {
        cat3(base, "-", to_decimal(attempt).as_str())
    }
}

/// How far the opening of a session has come.
#[derive(Debug, PartialEq, Eq)]
pub enum Opening {
    /// Whether the path leads to a directory is asked for.
    CheckingPath { path: String },
    /// tmux is asked whether the name of this attempt is taken.
    Searching { path: String, base: String, attempt: u64 },
    /// Whether this process runs inside tmux is asked for.
    AskingClient { path: String, session: String },
    /// tmux is told to make the session on the side.
    CreatingDetached { path: String, session: String },
    /// tmux is told to show the session.
    Switching { session: String },
    /// tmux is told to make the session and show it.
    CreatingAttached { path: String, session: String },
}

/// The view of an [`Opening`].
#[verifier::ext_equal]
pub enum OpeningView {
    CheckingPath { path: Seq<char> },
    Searching { path: Seq<char>, base: Seq<char>, attempt: nat },
    AskingClient { path: Seq<char>, session: Seq<char> },
    CreatingDetached { path: Seq<char>, session: Seq<char> },
    Switching { session: Seq<char> },
    CreatingAttached { path: Seq<char>, session: Seq<char> },
}

impl DeepView for Opening {
    type V = OpeningView;

    open spec fn deep_view(&self) -> OpeningView {
        match self {
            Opening::CheckingPath { path } => OpeningView::CheckingPath { path: path@ },
            Opening::Searching { path, base, attempt } => OpeningView::Searching {
                path: path@,
                base: base@,
                attempt: *attempt as nat,
            },
            Opening::AskingClient { path, session } => OpeningView::AskingClient {
                path: path@,
                session: session@,
            },
            Opening::CreatingDetached { path, session } => OpeningView::CreatingDetached {
                path: path@,
                session: session@,
            },
            Opening::Switching { session } => OpeningView::Switching { session: session@ },
            Opening::CreatingAttached { path, session } => OpeningView::CreatingAttached {
                path: path@,
                session: session@,
            },
        }
    }
}

/// `tmux` with the given arguments.
pub open spec fn tmux_run(args: Seq<Seq<char>>, streams: Streams) -> InvocationView {
    InvocationView { program: Program::Tmux, args, cwd: None, streams }
}

fn tmux(args: Vec<String>, streams: Streams) -> (r: Invocation)
    ensures
        r.deep_view() == tmux_run(args.deep_view(), streams),
{
    Invocation { program: Program::Tmux, args, cwd: None, streams }
}

/// What the opening of a session waits for.
pub open spec fn opening_effect(state: OpeningView) -> EffectView {
    match state {
        OpeningView::CheckingPath { path } => EffectView::IsDirectory(path),
        OpeningView::Searching { base, attempt, .. } => EffectView::Run(
            tmux_run(
                seq!["has-session"@, "-t"@, exact_target(candidate(base, attempt))],
                Streams::Discarded,
            ),
        ),
        OpeningView::AskingClient { .. } => EffectView::InsideTmux,
        OpeningView::CreatingDetached { path, session } => EffectView::Run(
            tmux_run(
                seq!["new-session"@, "-d"@, "-s"@, session, "-c"@, path],
                Streams::Inherited,
            ),
        ),
        OpeningView::Switching { session } => EffectView::Run(
            tmux_run(seq!["switch-client"@, "-t"@, exact_target(session)], Streams::Inherited),
        ),
        OpeningView::CreatingAttached { path, session } => EffectView::Run(
            tmux_run(seq!["new-session"@, "-s"@, session, "-c"@, path], Streams::Inherited),
        ),
    }
}

/// The words for a path that leads to no directory.
pub open spec fn no_directory_text(path: Seq<char>) -> Seq<char> {
    "not a directory: "@ + path
}

/// What tmux's answer to whether a session exists comes to.
pub open spec fn session_exists(ran: RanView) -> Result<bool, Seq<char>> {
    match ran {
        RanView::Failed(failure) => Err(tmux_io_text(failure)),
        RanView::Exited(exit) => Ok(exit.success),
    }
}

fn tmux_session_exists(ran: Ran) -> (r: AppResult<bool>)
    ensures
        crate::error::outcome(r) == session_exists(ran.deep_view()),
{
    match ran {
        Ran::Failed(failure) => Err(tmux_io_error(failure)),
        Ran::Exited(exit) => Ok(exit.success),
    }
}

/// How the opening of a session goes on.
pub open spec fn opening_next(state: OpeningView, reply: ReplyView) -> StepView<OpeningView, ()> {
    match state {
        OpeningView::CheckingPath { path } => if reply->Flag_0 {
            StepView::Next(
                OpeningView::Searching { path, base: session_name_of(path), attempt: 1 },
            )
        } else {
            StepView::Done(Err(no_directory_text(path)))
        },
        OpeningView::Searching { path, base, attempt } => match session_exists(reply->Ran_0) {
            Err(message) => StepView::Done(Err(message)),
            Ok(true) => StepView::Next(OpeningView::Searching { path, base, attempt: attempt + 1 }),
            Ok(false) => StepView::Next(
                OpeningView::AskingClient { path, session: candidate(base, attempt) },
            ),
        },
        OpeningView::AskingClient { path, session } => if reply->Flag_0 {
            StepView::Next(OpeningView::CreatingDetached { path, session })
        } else {
            StepView::Next(OpeningView::CreatingAttached { path, session })
        },
        OpeningView::CreatingDetached { session, .. } => match tmux_result(
            reply->Ran_0,
            "tmux new-session"@,
        ) {
            Err(message) => StepView::Done(Err(message)),
            Ok(_) => StepView::Next(OpeningView::Switching { session }),
        },
        OpeningView::Switching { .. } => StepView::Done(
            tmux_result(reply->Ran_0, "tmux switch-client"@),
        ),
        OpeningView::CreatingAttached { .. } => StepView::Done(
            tmux_result(reply->Ran_0, "tmux new-session"@),
        ),
    }
}

/// Whether the search for a free name has a number left to go on with, where it has to go on.
pub open spec fn has_attempts_left(state: OpeningView, reply: ReplyView) -> bool {
    state matches OpeningView::Searching { attempt, .. } ==> attempt < i32::MAX || session_exists(
        reply->Ran_0,
    ) != Ok::<bool, Seq<char>>(true)
}

/// Begins to open a session for the worktree at a path.
pub fn open_tmux_session(path: &str) -> (r: Opening)
    ensures
        r.deep_view() == (OpeningView::CheckingPath { path: path@ }),
{
    Opening::CheckingPath { path: path.to_owned() }
}

/// Goes on with the search for a free name: the name of this attempt is taken, or it is not.
fn available_tmux_session_name(path: String, base: String, attempt: u64, ran: Ran) -> (r: Step<
    Opening,
    (),
>)
    requires
        attempt < i32::MAX || session_exists(ran.deep_view()) != Ok::<bool, Seq<char>>(true),
    ensures
        r.deep_view() == opening_next(
            OpeningView::Searching { path: path@, base: base@, attempt: attempt as nat },
            ReplyView::Ran(ran.deep_view()),
        ),
{
    match tmux_session_exists(ran) {
        Err(error) => Step::Done(Err(error)),
        Ok(exists) => if exists {
            Step::Next(Opening::Searching { path, base, attempt: attempt + 1 })
        } else {
            let session: String = candidate_name(base.as_str(), attempt);
            Step::Next(Opening::AskingClient { path, session })
        },
    }
}

impl Opening {
    /// What the opening waits for.
    pub fn effect(&self) -> (r: Effect)
        ensures
            r.deep_view() == opening_effect(self.deep_view()),
    {
        match self {
            Opening::CheckingPath { path } => Effect::IsDirectory(path.clone()),
            Opening::Searching { base, attempt, .. } => {
                let name: String = candidate_name(base.as_str(), *attempt);
                let target: String = exact_tmux_target(name.as_str());
                Effect::Run(
                    tmux(
                        words(&vec!["has-session", "-t", target.as_str()]),
                        Streams::Discarded,
                    ),
                )
            },
            Opening::AskingClient { .. } => Effect::InsideTmux,
            Opening::CreatingDetached { path, session } => Effect::Run(
                tmux(
                    words(
                        &vec!["new-session", "-d", "-s", session.as_str(), "-c", path.as_str()],
                    ),
                    Streams::Inherited,
                ),
            ),
            Opening::Switching { session } => {
                let target: String = exact_tmux_target(session.as_str());
                Effect::Run(
                    tmux(
                        words(&vec!["switch-client", "-t", target.as_str()]),
                        Streams::Inherited,
                    ),
                )
            },
            Opening::CreatingAttached { path, session } => Effect::Run(
                tmux(
                    words(&vec!["new-session", "-s", session.as_str(), "-c", path.as_str()]),
                    Streams::Inherited,
                ),
            ),
        }
    }

    /// Goes on with the reply.
    pub fn resume(self, reply: Reply) -> (r: Step<Opening, ()>)
        requires
            answers(reply.deep_view(), opening_effect(self.deep_view())),
            has_attempts_left(self.deep_view(), reply.deep_view()),
        ensures
            r.deep_view() == opening_next(self.deep_view(), reply.deep_view()),
    {
        match self {
            Opening::CheckingPath { path } => if reply.flag() {
                let base: String = tmux_session_name(path.as_str());
                Step::Next(Opening::Searching { path, base, attempt: 1 })
            } else {
                Step::Done(
                    Err(AppError::from_message(cat("not a directory: ", path.as_str()))),
                )
            },
            Opening::Searching { path, base, attempt } => available_tmux_session_name(
                path,
                base,
                attempt,
                reply.ran(),
            ),
            Opening::AskingClient { path, session } => if reply.flag() {
                Step::Next(Opening::CreatingDetached { path, session })
            } else {
                Step::Next(Opening::CreatingAttached { path, session })
            },
            Opening::CreatingDetached { session, .. } => match run_tmux(
                reply.ran(),
                "tmux new-session",
            ) {
                Err(error) => Step::Done(Err(error)),
                Ok(_) => Step::Next(Opening::Switching { session }),
            },
            Opening::Switching { .. } => Step::Done(run_tmux(reply.ran(), "tmux switch-client")),
            Opening::CreatingAttached { .. } => Step::Done(
                run_tmux(reply.ran(), "tmux new-session"),
            ),
        }
    }
}

/// A character that a session's name is made of.
pub open spec fn is_session_char(c: char) -> bool {
    ('a' <= c <= 'z') || ('0' <= c <= '9') || c == '-' || c == '_'
}

/// A name that is fit to be a part of a session's name: lower case letters, digits, underscores
/// and single dashes between them.
pub open spec fn is_plain(s: Seq<char>) -> bool {
    &&& s.len() > 0
    &&& s[0] != '-'
    &&& s.last() != '-'
    &&& forall|i: int| 0 <= i < s.len() ==> is_session_char(#[trigger] s[i])
    &&& no_double_dash(s)
}

pub open spec fn no_double_dash(s: Seq<char>) -> bool {
    forall|i: int, j: int|
        0 <= i < s.len() && j == i + 1 && j < s.len() && #[trigger] s[i] == '-' ==> #[trigger] s[j]
            != '-'
}

proof fn lemma_squeezed(name: Seq<char>)
    ensures
        forall|i: int|
            0 <= i < squeezed(name).len() ==> is_session_char(#[trigger] squeezed(name)[i]),
        no_double_dash(squeezed(name)),
    decreases name.len(),
{
    if name.len() > 0 {
        lemma_squeezed(name.drop_last());
        let c = name.last();
        assert(is_session_char(session_char(c)));
    }
}

/// What a name is sanitized to is plain, whatever the name.
pub proof fn law_sanitized_is_plain(name: Seq<char>)
    ensures
        is_plain(sanitized(name)),
{
    let s = squeezed(name);
    lemma_squeezed(name);
    reveal_strlit("worktree");
    let (a, b) = law_trimmed_is_piece(s, |c: char| c == '-');
    let t = trimmed_dashes(s);
    assert(t =~= s.subrange(a, b));
    if t.len() > 0 {
        assert forall|i: int| 0 <= i < t.len() implies is_session_char(#[trigger] t[i]) by {
            assert(t[i] == s[a + i]);
        }
        assert forall|i: int, j: int|
            0 <= i < t.len() && j == i + 1 && j < t.len() && #[trigger] t[i]
                == '-' implies #[trigger] t[j] != '-' by {
            assert(t[i] == s[a + i] && t[j] == s[a + j]);
        }
    }
}

/// A plain name is left as it is; so sanitizing a second time changes nothing.
pub proof fn law_plain_name_is_kept(name: Seq<char>)
    requires
        is_plain(name),
    ensures
        sanitized(name) == name,
{
    lemma_squeezed_keeps(name);
    let (a, b) = law_trimmed_is_piece(name, |c: char| c == '-');
    assert(name[0] != '-');
    assert(a == 0);
    assert(b == name.len()) by {
        if b < name.len() {
            assert(name[name.len() - 1] == '-');
        }
    }
    assert(name.subrange(a, b) =~= name);
}

proof fn lemma_squeezed_keeps(name: Seq<char>)
    requires
        forall|i: int| 0 <= i < name.len() ==> is_session_char(#[trigger] name[i]),
        no_double_dash(name),
    ensures
        squeezed(name) == name,
    decreases name.len(),
{
    if name.len() > 0 {
        let front = name.drop_last();
        lemma_squeezed_keeps(front);
        assert(is_session_char(name[name.len() - 1]));
        assert(session_char(name.last()) == name.last());
        if front.len() > 0 && front.last() == '-' {
            assert(name[name.len() - 2] == '-');
            assert(name[name.len() - 1] != '-');
        }
        assert(front.push(name.last()) =~= name);
    } else {
        assert(name =~= seq![]);
    }
}

/// No two attempts try the same name.
pub proof fn law_candidates_differ(base: Seq<char>, a: nat, b: nat)
    requires
        1 <= a < b,
    ensures
        candidate(base, a) != candidate(base, b),
{
    lemma_decimal_is_own(a, b);
    reveal_strlit("-");
    if a == 1 {
        assert(candidate(base, b).len() > base.len());
    } else {
        let x = candidate(base, a);
        let y = candidate(base, b);
        assert(x.skip(base.len() as int + 1) =~= decimal(a));
        assert(y.skip(base.len() as int + 1) =~= decimal(b));
    }
}

/// Where a search comes to in `n` replies, when tmux says of exactly the names in `taken` that
/// they are taken.
pub open spec fn search_run(
    state: OpeningView,
    taken: spec_fn(Seq<char>) -> bool,
    exit: ExitView,
    n: nat,
) -> StepView<OpeningView, ()>
    decreases n,
{
    match state {
        OpeningView::Searching { base, attempt, .. } => {
            let success = taken(candidate(base, attempt));
            let reply = ReplyView::Ran(
                RanView::Exited(ExitView { success, ..exit }),
            );
            match opening_next(state, reply) {
                StepView::Next(next) => if n == 0 {
                    StepView::Next(state)
                } else {
                    search_run(next, taken, exit, (n - 1) as nat)
                },
                done => done,
            }
        },
        _ => StepView::Next(state),
    }
}

/// The search takes the first of its names that is free.
pub proof fn law_search_takes_first_free_name(
    path: Seq<char>,
    base: Seq<char>,
    taken: spec_fn(Seq<char>) -> bool,
    exit: ExitView,
    from: nat,
    free: nat,
)
    requires
        1 <= from <= free,
        forall|k: nat| from <= k < free ==> taken(#[trigger] candidate(base, k)),
        !taken(candidate(base, free)),
    ensures
        search_run(
            OpeningView::Searching { path, base, attempt: from },
            taken,
            exit,
            (free - from + 1) as nat,
        ) == StepView::<OpeningView, ()>::Next(
            OpeningView::AskingClient { path, session: candidate(base, free) },
        ),
    decreases free - from,
{
    reveal_with_fuel(search_run, 2);
    if from < free {
        assert(taken(candidate(base, from)));
        law_search_takes_first_free_name(path, base, taken, exit, from + 1, free);
    }
}

/// Two names with the same session characters, place by place, are squeezed to the same.
proof fn lemma_squeezed_by_characters(a: Seq<char>, b: Seq<char>)
    requires
        a.len() == b.len(),
        forall|i: int| 0 <= i < a.len() ==> session_char(#[trigger] a[i]) == session_char(b[i]),
    ensures
        squeezed(a) == squeezed(b),
    decreases a.len(),
{
    if a.len() > 0 {
        let (x, y) = (a.drop_last(), b.drop_last());
        assert forall|i: int| 0 <= i < x.len() implies session_char(#[trigger] x[i])
            == session_char(y[i]) by {
            assert(session_char(a[i]) == session_char(b[i]));
        }
        lemma_squeezed_by_characters(x, y);
        assert(session_char(a[a.len() - 1]) == session_char(b[a.len() - 1]));
    }
}

/// Two names that are squeezed to the same still are with the same text behind them.
proof fn lemma_squeezed_with_more(a: Seq<char>, b: Seq<char>, more: Seq<char>)
    requires
        squeezed(a) == squeezed(b),
    ensures
        squeezed(a + more) == squeezed(b + more),
    decreases more.len(),
{
    if more.len() == 0 {
        assert(a + more =~= a);
        assert(b + more =~= b);
    } else {
        lemma_squeezed_with_more(a, b, more.drop_last());
        assert((a + more).drop_last() =~= a + more.drop_last());
        assert((b + more).drop_last() =~= b + more.drop_last());
        assert((a + more).last() == more.last());
        assert((b + more).last() == more.last());
    }
}

/// A name with a character replaced stands for the same part of a session's name where the two
/// characters do.
proof fn lemma_character_in_name(before: Seq<char>, c: char, d: char, behind: Seq<char>)
    requires
        session_char(c) == session_char(d),
    ensures
        squeezed(before + seq![c] + behind) == squeezed(before + seq![d] + behind),
{
    let (a, b) = (before + seq![c], before + seq![d]);
    assert forall|i: int| 0 <= i < a.len() implies session_char(#[trigger] a[i]) == session_char(
        b[i],
    ) by {}
    lemma_squeezed_by_characters(a, b);
    lemma_squeezed_with_more(a, b, behind);
}

/// In a session's name a capital letter counts as the small one, and a character that is neither a
/// letter, a digit, a dash nor an underscore counts as a dash.
pub proof fn law_session_name_is_folded(
    before: Seq<char>,
    c: char,
    small: char,
    behind: Seq<char>,
)
    requires
        'a' <= small <= 'z',
    ensures
        'A' <= c <= 'Z' && small as u32 == c as u32 + 32 ==> sanitized(
            before + seq![c] + behind,
        ) == sanitized(before + seq![small] + behind),
        !('a' <= c <= 'z') && !('A' <= c <= 'Z') && !('0' <= c <= '9') && c != '_' ==> sanitized(
            before + seq![c] + behind,
        ) == sanitized(before + seq!['-'] + behind),
{
    if 'A' <= c <= 'Z' && small as u32 == c as u32 + 32 {
        assert(lower(c) == small);
        lemma_character_in_name(before, c, small, behind);
    }
    if !('a' <= c <= 'z') && !('A' <= c <= 'Z') && !('0' <= c <= '9') && c != '_' {
        lemma_character_in_name(before, c, '-', behind);
    }
}

/// In a session's name a row of dashes counts as one, and dashes at either end do not count. Where
/// nothing else is left, the name is `worktree`.
pub proof fn law_session_name_has_single_dashes(before: Seq<char>, behind: Seq<char>)
    ensures
        sanitized(before + seq!['-', '-'] + behind) == sanitized(before + seq!['-'] + behind),
        sanitized(seq!['-'] + behind) == sanitized(behind),
        sanitized(before + seq!['-']) == sanitized(before),
        sanitized(seq![]) == "worktree"@,
{
    let one = before + seq!['-'];
    let two = before + seq!['-', '-'];
    assert(one.drop_last() =~= before);
    assert(two.drop_last() =~= one);
    assert(one.last() == '-' && two.last() == '-');
    assert(squeezed(two) == squeezed(one));
    lemma_squeezed_with_more(two, one, behind);
    lemma_dash_in_front(behind);
    let front = squeezed(before);
    if !(front.len() > 0 && front.last() == '-') {
        assert(squeezed(one) == front.push('-'));
        lemma_trim_one_dash_behind(front);
    }
    let none: Seq<char> = seq![];
    assert(squeezed(none) == none);
    assert(trimmed_dashes(none) == none);
}

proof fn lemma_trim_one_dash_behind(s: Seq<char>)
    ensures
        trimmed_dashes(s.push('-')) == trimmed_dashes(s),
{
    let (a, b) = law_trimmed_is_piece(s, |c: char| c == '-');
    let core = s.subrange(a, b);
    let behind = s.skip(b).push('-');
    assert forall|i: int| 0 <= i < behind.len() implies behind[i] == '-' by {
        if i < s.len() - b {
            assert(behind[i] == s[b + i]);
        }
    }
    assert(s.push('-') =~= s.take(a) + core + behind);
    if core.len() > 0 {
        assert(core[0] == s[a] && core.last() == s[b - 1]);
    }
    law_trim_takes_dashes_off(s.take(a), core, behind);
}

proof fn lemma_trim_one_dash_before(s: Seq<char>)
    ensures
        trimmed_dashes(seq!['-'] + s) == trimmed_dashes(s),
{
    let (a, b) = law_trimmed_is_piece(s, |c: char| c == '-');
    let core = s.subrange(a, b);
    let before = seq!['-'] + s.take(a);
    assert forall|i: int| 0 <= i < before.len() implies before[i] == '-' by {
        if i > 0 {
            assert(before[i] == s[i - 1]);
        }
    }
    let behind = s.skip(b);
    assert forall|i: int| 0 <= i < behind.len() implies behind[i] == '-' by {
        assert(behind[i] == s[b + i]);
    }
    assert(seq!['-'] + s =~= before + core + behind);
    if core.len() > 0 {
        assert(core[0] == s[a] && core.last() == s[b - 1]);
    }
    law_trim_takes_dashes_off(before, core, behind);
}

proof fn lemma_dash_in_front(name: Seq<char>)
    ensures
        squeezed(seq!['-'] + name) == squeezed(name) && name.len() > 0 || squeezed(
            seq!['-'] + name,
        ) == seq!['-'] + squeezed(name),
        trimmed_dashes(squeezed(seq!['-'] + name)) == trimmed_dashes(squeezed(name)),
    decreases name.len(),
{
    let dashed = seq!['-'] + name;
    let none: Seq<char> = seq![];
    if name.len() == 0 {
        assert(dashed.drop_last() =~= none);
        assert(squeezed(none) == none);
        assert(squeezed(dashed) =~= seq!['-'] + squeezed(name));
    } else {
        lemma_dash_in_front(name.drop_last());
        assert(dashed.drop_last() =~= seq!['-'] + name.drop_last());
        assert(dashed.last() == name.last());
        let front = squeezed(name.drop_last());
        let c = session_char(name.last());
        if squeezed(dashed.drop_last()) == seq!['-'] + front {
            if front.len() == 0 {
                assert(seq!['-'] + front =~= seq!['-']);
                if c == '-' {
                    assert(squeezed(name) =~= seq!['-']);
                } else {
                    assert(squeezed(dashed) =~= seq!['-'] + squeezed(name));
                }
            } else {
                assert((seq!['-'] + front).last() == front.last());
                assert((seq!['-'] + front).push(c) =~= seq!['-'] + front.push(c));
            }
        }
    }
    lemma_trim_one_dash_before(squeezed(name));
}

/// A session is named after the name that the path ends in, and a path without one is taken for
/// one that ends in `worktree`.
pub proof fn law_session_is_named_after_path(above: Seq<char>, name: Seq<char>, path: Seq<char>)
    requires
        is_file_name(name),
    ensures
        session_name_of(above + seq!['/'] + name) == "lazytrees-"@ + sanitized(name),
        name_of(path) == Some(name) ==> session_name_of(path) == "lazytrees-"@ + sanitized(name),
        name_of(path) is None ==> session_name_of(path) == "lazytrees-"@ + sanitized("worktree"@),
{
    law_name_is_behind_last_slash(above, name);
}

/// The first name that is tried is the plain one. The others have a dash and the number of the
/// attempt behind it. tmux is asked for exactly one session by an equals sign.
pub proof fn law_attempts_are_numbered(base: Seq<char>, attempt: nat)
    requires
        attempt >= 2,
    ensures
        candidate(base, 1) == base,
        candidate(base, attempt) == base + "-"@ + decimal(attempt),
        exact_target(base) == "="@ + base,
{
}

/// A session is opened for a directory, under a name that tmux does not know yet. Outside of tmux
/// it is made and attached to; inside it is made on the side, and the client switched over to it.
pub proof fn law_session_is_opened_in_steps(
    path: Seq<char>,
    base: Seq<char>,
    session: Seq<char>,
    attempt: nat,
    exit: ExitView,
)
    requires
        exit.success,
    ensures
        ({
            let taken = ReplyView::Ran(RanView::Exited(exit));
            let free = ReplyView::Ran(RanView::Exited(ExitView { success: false, ..exit }));
            let checking = OpeningView::CheckingPath { path };
            let searching = OpeningView::Searching { path, base, attempt };
            let asking = OpeningView::AskingClient { path, session };
            let attached = OpeningView::CreatingAttached { path, session };
            let detached = OpeningView::CreatingDetached { path, session };
            let switching = OpeningView::Switching { session };
            let done = StepView::<OpeningView, ()>::Done(Ok(()));
            &&& opening_effect(checking) == EffectView::IsDirectory(path)
            &&& opening_next(checking, ReplyView::Flag(false)) == StepView::<
                OpeningView,
                (),
            >::Done(Err("not a directory: "@ + path))
            &&& opening_next(checking, ReplyView::Flag(true)) == StepView::<OpeningView, ()>::Next(
                OpeningView::Searching { path, base: session_name_of(path), attempt: 1 },
            )
            &&& opening_effect(searching) == EffectView::Run(
                InvocationView {
                    program: Program::Tmux,
                    args: seq!["has-session"@, "-t"@, "="@ + candidate(base, attempt)],
                    cwd: None,
                    streams: Streams::Discarded,
                },
            )
            &&& opening_next(searching, taken) == StepView::<OpeningView, ()>::Next(
                OpeningView::Searching { path, base, attempt: attempt + 1 },
            )
            &&& opening_next(searching, free) == StepView::<OpeningView, ()>::Next(
                OpeningView::AskingClient { path, session: candidate(base, attempt) },
            )
            &&& opening_effect(asking) == EffectView::InsideTmux
            &&& opening_next(asking, ReplyView::Flag(false)) == StepView::<OpeningView, ()>::Next(
                attached,
            )
            &&& opening_next(asking, ReplyView::Flag(true)) == StepView::<OpeningView, ()>::Next(
                detached,
            )
            &&& opening_effect(attached) == EffectView::Run(
                InvocationView {
                    program: Program::Tmux,
                    args: seq!["new-session"@, "-s"@, session, "-c"@, path],
                    cwd: None,
                    streams: Streams::Inherited,
                },
            )
            &&& opening_next(attached, taken) == done
            &&& opening_effect(detached) == EffectView::Run(
                InvocationView {
                    program: Program::Tmux,
                    args: seq!["new-session"@, "-d"@, "-s"@, session, "-c"@, path],
                    cwd: None,
                    streams: Streams::Inherited,
                },
            )
            &&& opening_next(detached, taken) == StepView::<OpeningView, ()>::Next(switching)
            &&& opening_effect(switching) == EffectView::Run(
                InvocationView {
                    program: Program::Tmux,
                    args: seq!["switch-client"@, "-t"@, "="@ + session],
                    cwd: None,
                    streams: Streams::Inherited,
                },
            )
            &&& opening_next(switching, taken) == done
        }),
{
}

/// A tmux that cannot be run, or that fails to make the session or to switch over to it, ends the
/// opening, and is told with the command that failed.
pub proof fn law_failing_tmux_ends_opening(
    path: Seq<char>,
    base: Seq<char>,
    session: Seq<char>,
    attempt: nat,
    exit: ExitView,
    failure: IoFailureView,
)
    requires
        !exit.success,
    ensures
        ({
            let failed = ReplyView::Ran(RanView::Exited(exit));
            let missing = ReplyView::Ran(RanView::Failed(failure));
            let reason = if failure.not_found {
                "tmux is required but was not found in PATH"@
            } else {
                failure.message
            };
            let attached = OpeningView::CreatingAttached { path, session };
            let detached = OpeningView::CreatingDetached { path, session };
            let switching = OpeningView::Switching { session };
            let unmade = StepView::<OpeningView, ()>::Done(
                Err("tmux new-session"@ + " failed with status "@ + exit.status),
            );
            let absent = StepView::<OpeningView, ()>::Done(Err(reason));
            &&& opening_next(OpeningView::Searching { path, base, attempt }, missing) == absent
            &&& opening_next(attached, failed) == unmade
            &&& opening_next(attached, missing) == absent
            &&& opening_next(detached, failed) == unmade
            &&& opening_next(detached, missing) == absent
            &&& opening_next(switching, failed) == StepView::<OpeningView, ()>::Done(
                Err("tmux switch-client"@ + " failed with status "@ + exit.status),
            )
            &&& opening_next(switching, missing) == absent
        }),
{
}

} // verus!
