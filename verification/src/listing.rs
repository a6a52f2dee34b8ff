//! The listing of worktrees that Git prints for programs to read.
use vstd::prelude::*;
use vstd::string::*;

use crate::git::{listed, Worktree, WorktreeView};
use crate::process::{ExitView, RanView};
use crate::text::{
    is_line, is_space, law_last_feed_may_be_missing, law_lines_read_back, lemma_unlines_add, lines,
    lines_of, lossy_text, same, starts_with, strip_prefix, trimmed_back, trimmed_front,
    trimmed_space, unlines, without_prefix,
};

verus! {

/// A worktree of which only the path is known.
pub open spec fn fresh_record(path: Seq<char>) -> WorktreeView {
    WorktreeView { path, head: None, branch: None, bare: false, detached: false, prunable: false }
}

/// A worktree with what one more line says of it.
pub open spec fn with_field(worktree: WorktreeView, line: Seq<char>) -> WorktreeView {
    if without_prefix(line, "HEAD "@) is Some {
        WorktreeView { head: without_prefix(line, "HEAD "@), ..worktree }
    } else if without_prefix(line, "branch refs/heads/"@) is Some {
        WorktreeView { branch: without_prefix(line, "branch refs/heads/"@), ..worktree }
    } else if line == "bare"@ {
        WorktreeView { bare: true, ..worktree }
    } else if line == "detached"@ {
        WorktreeView { detached: true, ..worktree }
    } else if "prunable"@.is_prefix_of(line) {
        WorktreeView { prunable: true, ..worktree }
    } else {
        worktree
    }
}

/// A list that is being read: the worktrees that are complete, and the one that is not yet.
#[verifier::ext_equal]
pub struct Reading {
    pub done: Seq<WorktreeView>,
    pub current: Option<WorktreeView>,
}

/// The worktrees read so far, the last one as it stands.
pub open spec fn finished(reading: Reading) -> Seq<WorktreeView> {
    match reading.current {
        Some(worktree) => reading.done.push(worktree),
        None => reading.done,
    }
}

/// A list with one more line read: an empty line ends a worktree, a `worktree` line begins one,
/// and any other tells of the one that was begun.
pub open spec fn read_line(reading: Reading, line: Seq<char>) -> Reading {
    if line.len() == 0 {
        Reading { done: finished(reading), current: None }
    } else {
        match without_prefix(line, "worktree "@) {
            Some(path) => Reading { done: finished(reading), current: Some(fresh_record(path)) },
            None => match reading.current {
                Some(worktree) => Reading {
                    done: reading.done,
                    current: Some(with_field(worktree, line)),
                },
                None => reading,
            },
        }
    }
}

/// A list with lines read one after the other.
pub open spec fn read_lines(reading: Reading, lines: Seq<Seq<char>>) -> Reading
    decreases lines.len(),
{
    if lines.len() == 0 {
        reading
    } else {
        read_line(read_lines(reading, lines.drop_last()), lines.last())
    }
}

/// A list of which nothing has been read.
pub open spec fn unread() -> Reading {
    Reading { done: seq![], current: None }
}

/// The worktrees that a listing of Git tells of.
pub open spec fn parsed(output: Seq<char>) -> Seq<WorktreeView> {
    finished(read_lines(unread(), lines_of(output)))
}

/// Reads what Git lists of its worktrees, line by line.
pub fn parse_worktree_list(output: &str) -> (r: Vec<Worktree>)
    ensures
        r.deep_view() == parsed(output@),
{
    let all: Vec<String> = lines(output);
    let ghost texts = lines_of(output@);
    let mut worktrees: Vec<Worktree> = Vec::new();
    let mut current: Option<Worktree> = None;
    assert(texts.take(0) =~= seq![]);
    assert(worktrees.deep_view() =~= seq![]);
    let mut i: usize = 0;
    while i < all.len()
        invariant
            i <= all@.len(),
            texts == all.deep_view(),
            (Reading { done: worktrees.deep_view(), current: current.deep_view() }) == read_lines(
                unread(),
                texts.take(i as int),
            ),
        decreases all.len() - i,
    {
        let line: &str = all[i].as_str();
        proof {
            let more = texts.take(i + 1);
            assert(more.drop_last() =~= texts.take(i as int));
            assert(more.last() == line@);
        }
        if line.is_empty() {
            finish_current_worktree(&mut current, &mut worktrees);
        } else if let Some(path) = strip_prefix(line, "worktree ") {
            finish_current_worktree(&mut current, &mut worktrees);
            current = Some(new_worktree(path));
        } else {
            match current.take() {
                Some(worktree) => {
                    let mut worktree: Worktree = worktree;
                    apply_worktree_field(&mut worktree, line);
                    current = Some(worktree);
                },
                None => {},
            }
        }
        i += 1;
    }
    assert(texts.take(i as int) =~= texts);
    finish_current_worktree(&mut current, &mut worktrees);
    worktrees
}

/// Puts the worktree that is being read with those that are complete.
pub fn finish_current_worktree(current: &mut Option<Worktree>, worktrees: &mut Vec<Worktree>)
    ensures
        final(current).deep_view() is None,
        final(worktrees).deep_view() == finished(
            Reading { done: old(worktrees).deep_view(), current: old(current).deep_view() },
        ),
{
    let ghost before = worktrees.deep_view();
    match current.take() {
        Some(worktree) => {
            worktrees.push(worktree);
            assert(worktrees.deep_view() =~= before.push(worktree.deep_view()));
        },
        None => {},
    }
}

/// A worktree of which only the path is known.
pub fn new_worktree(path: String) -> (r: Worktree)
    ensures
        r.deep_view() == fresh_record(path@),
{
    Worktree {
        path,
        head: None,
        branch: None,
        bare: false,
        detached: false,
        prunable: false,
    }
}

/// Takes up what a line says of a worktree.
pub fn apply_worktree_field(worktree: &mut Worktree, line: &str)
    ensures
        final(worktree).deep_view() == with_field(old(worktree).deep_view(), line@),
{
    if let Some(head) = strip_prefix(line, "HEAD ") {
        worktree.head = Some(head);
    } else if let Some(branch) = strip_prefix(line, "branch refs/heads/") {
        worktree.branch = Some(branch);
    } else if same(line, "bare") {
        worktree.bare = true;
    } else if same(line, "detached") {
        worktree.detached = true;
    } else if starts_with(line, "prunable") {
        worktree.prunable = true;
    }
}

/// The lines in which Git lists a worktree. `reason` follows the word that says that it can be
/// pruned.
pub open spec fn record_lines(worktree: WorktreeView, reason: Seq<char>) -> Seq<Seq<char>> {
    seq!["worktree "@ + worktree.path] + (match worktree.head {
        Some(head) => seq!["HEAD "@ + head],
        None => seq![],
    }) + (match worktree.branch {
        Some(branch) => seq!["branch refs/heads/"@ + branch],
        None => seq![],
    }) + (if worktree.bare {
        seq!["bare"@]
    } else {
        seq![]
    }) + (if worktree.detached {
        seq!["detached"@]
    } else {
        seq![]
    }) + (if worktree.prunable {
        seq!["prunable"@ + reason]
    } else {
        seq![]
    }) + seq![seq![]]
}

/// The lines in which Git lists worktrees.
pub open spec fn listing_lines(worktrees: Seq<WorktreeView>, reason: Seq<char>) -> Seq<Seq<char>>
    decreases worktrees.len(),
{
    if worktrees.len() == 0 {
        seq![]
    } else {
        listing_lines(worktrees.drop_last(), reason) + record_lines(worktrees.last(), reason)
    }
}

/// Whether what a worktree holds can be written in lines.
pub open spec fn can_be_listed(worktree: WorktreeView) -> bool {
    &&& is_line(worktree.path)
    &&& worktree.head matches Some(head) ==> is_line(head)
    &&& worktree.branch matches Some(branch) ==> is_line(branch)
}

proof fn lemma_read_lines_add(reading: Reading, a: Seq<Seq<char>>, b: Seq<Seq<char>>)
    ensures
        read_lines(reading, a + b) == read_lines(read_lines(reading, a), b),
    decreases b.len(),
{
    if b.len() == 0 {
        assert(a + b =~= a);
    } else {
        assert((a + b).drop_last() =~= a + b.drop_last());
        assert((a + b).last() == b.last());
        lemma_read_lines_add(reading, a, b.drop_last());
    }
}

proof fn lemma_read_one(reading: Reading, line: Seq<char>)
    ensures
        read_lines(reading, seq![line]) == read_line(reading, line),
        read_lines(reading, seq![]) == reading,
{
    reveal_with_fuel(read_lines, 2);
    assert(seq![line].drop_last() =~= seq![]);
}

/// What each line of a record does to the worktree that is being read.
proof fn lemma_fields(worktree: WorktreeView, text: Seq<char>)
    ensures
        with_field(worktree, "HEAD "@ + text) == (WorktreeView { head: Some(text), ..worktree }),
        with_field(worktree, "branch refs/heads/"@ + text) == (WorktreeView {
            branch: Some(text),
            ..worktree
        }),
        with_field(worktree, "bare"@) == (WorktreeView { bare: true, ..worktree }),
        with_field(worktree, "detached"@) == (WorktreeView { detached: true, ..worktree }),
        with_field(worktree, "prunable"@ + text) == (WorktreeView { prunable: true, ..worktree }),
        without_prefix("worktree "@ + text, "worktree "@) == Some(text),
        without_prefix("HEAD "@ + text, "worktree "@) is None,
        without_prefix("branch refs/heads/"@ + text, "worktree "@) is None,
        without_prefix("bare"@, "worktree "@) is None,
        without_prefix("detached"@, "worktree "@) is None,
        without_prefix("prunable"@ + text, "worktree "@) is None,
        "worktree "@.len() > 0,
        "HEAD "@.len() > 0,
        "branch refs/heads/"@.len() > 0,
        "bare"@.len() > 0,
        "detached"@.len() > 0,
        "prunable"@.len() > 0,
{
    reveal_strlit("worktree ");
    reveal_strlit("HEAD ");
    reveal_strlit("branch refs/heads/");
    reveal_strlit("bare");
    reveal_strlit("detached");
    reveal_strlit("prunable");
    let tree = "worktree "@ + text;
    let head = "HEAD "@ + text;
    let branch = "branch refs/heads/"@ + text;
    let prunable = "prunable"@ + text;
    assert(tree.skip("worktree "@.len() as int) =~= text);
    assert(head.skip("HEAD "@.len() as int) =~= text);
    assert(branch.skip("branch refs/heads/"@.len() as int) =~= text);
    assert("worktree "@.is_prefix_of(tree));
    assert("HEAD "@.is_prefix_of(head));
    assert("branch refs/heads/"@.is_prefix_of(branch));
    assert("prunable"@.is_prefix_of(prunable));
    assert("worktree "@[0] == 'w');
    assert("HEAD "@[0] == 'H');
    assert("branch refs/heads/"@[0] == 'b' && "branch refs/heads/"@[1] == 'r');
    assert("bare"@[0] == 'b' && "bare"@[1] == 'a');
    assert("detached"@[0] == 'd');
    assert(head[0] == 'H' && branch[0] == 'b' && branch[1] == 'r' && prunable[0] == 'p');
    assert("prunable"@[0] == 'p');
}

proof fn lemma_read_record(done: Seq<WorktreeView>, worktree: WorktreeView, reason: Seq<char>)
    ensures
        read_lines(Reading { done, current: None }, record_lines(worktree, reason)) == (Reading {
            done: done.push(worktree),
            current: None,
        }),
{
    let a = seq!["worktree "@ + worktree.path];
    let b: Seq<Seq<char>> = match worktree.head {
        Some(head) => seq!["HEAD "@ + head],
        None => seq![],
    };
    let c: Seq<Seq<char>> = match worktree.branch {
        Some(branch) => seq!["branch refs/heads/"@ + branch],
        None => seq![],
    };
    let d: Seq<Seq<char>> = if worktree.bare {
        seq!["bare"@]
    } else {
        seq![]
    };
    let e: Seq<Seq<char>> = if worktree.detached {
        seq!["detached"@]
    } else {
        seq![]
    };
    let f: Seq<Seq<char>> = if worktree.prunable {
        seq!["prunable"@ + reason]
    } else {
        seq![]
    };
    let last: Seq<Seq<char>> = seq![seq![]];
    let r0 = Reading { done, current: None };
    let w1 = fresh_record(worktree.path);
    let w2 = WorktreeView { head: worktree.head, ..w1 };
    let w3 = WorktreeView { branch: worktree.branch, ..w2 };
    let w4 = WorktreeView { bare: worktree.bare, ..w3 };
    let w5 = WorktreeView { detached: worktree.detached, ..w4 };
    let r1 = Reading { done, current: Some(w1) };
    let r2 = Reading { done, current: Some(w2) };
    let r3 = Reading { done, current: Some(w3) };
    let r4 = Reading { done, current: Some(w4) };
    let r5 = Reading { done, current: Some(w5) };
    let r6 = Reading { done, current: Some(worktree) };
    lemma_read_lines_add(r0, a + b + c + d + e + f, last);
    lemma_read_lines_add(r0, a + b + c + d + e, f);
    lemma_read_lines_add(r0, a + b + c + d, e);
    lemma_read_lines_add(r0, a + b + c, d);
    lemma_read_lines_add(r0, a + b, c);
    lemma_read_lines_add(r0, a, b);
    assert(read_lines(r0, a) == r1) by {
        lemma_fields(w1, worktree.path);
        lemma_read_one(r0, a[0]);
    }
    assert(read_lines(r1, b) == r2) by {
        if let Some(head) = worktree.head {
            lemma_fields(w1, head);
            lemma_read_one(r1, b[0]);
        } else {
            lemma_read_one(r1, seq![]);
        }
    }
    assert(read_lines(r2, c) == r3) by {
        if let Some(branch) = worktree.branch {
            lemma_fields(w2, branch);
            lemma_read_one(r2, c[0]);
        } else {
            lemma_read_one(r2, seq![]);
        }
    }
    assert(read_lines(r3, d) == r4) by {
        lemma_fields(w3, reason);
        lemma_read_one(r3, "bare"@);
    }
    assert(read_lines(r4, e) == r5) by {
        lemma_fields(w4, reason);
        lemma_read_one(r4, "detached"@);
    }
    assert(read_lines(r5, f) == r6) by {
        lemma_fields(w5, reason);
        lemma_read_one(r5, "prunable"@ + reason);
    }
    lemma_read_one(r6, seq![]);
}

proof fn lemma_read_listing(worktrees: Seq<WorktreeView>, reason: Seq<char>)
    ensures
        read_lines(unread(), listing_lines(worktrees, reason)) == (Reading {
            done: worktrees,
            current: None,
        }),
    decreases worktrees.len(),
{
    if worktrees.len() == 0 {
        assert(worktrees =~= seq![]);
    } else {
        let front = worktrees.drop_last();
        lemma_read_listing(front, reason);
        lemma_read_lines_add(
            unread(),
            listing_lines(front, reason),
            record_lines(worktrees.last(), reason),
        );
        lemma_read_record(front, worktrees.last(), reason);
        assert(front.push(worktrees.last()) =~= worktrees);
    }
}

proof fn lemma_listing_is_lines(worktrees: Seq<WorktreeView>, reason: Seq<char>)
    requires
        is_line(reason),
        forall|i: int| 0 <= i < worktrees.len() ==> can_be_listed(#[trigger] worktrees[i]),
    ensures
        forall|i: int|
            0 <= i < listing_lines(worktrees, reason).len() ==> is_line(
                #[trigger] listing_lines(worktrees, reason)[i],
            ),
    decreases worktrees.len(),
{
    if worktrees.len() > 0 {
        let front = worktrees.drop_last();
        assert forall|i: int| 0 <= i < front.len() implies can_be_listed(#[trigger] front[i]) by {
            assert(can_be_listed(worktrees[i]));
        }
        lemma_listing_is_lines(front, reason);
        let w = worktrees[worktrees.len() - 1];
        assert(can_be_listed(w));
        reveal_strlit("worktree ");
        reveal_strlit("HEAD ");
        reveal_strlit("branch refs/heads/");
        reveal_strlit("bare");
        reveal_strlit("detached");
        reveal_strlit("prunable");
        lemma_line_add("worktree "@, w.path);
        if let Some(head) = w.head {
            lemma_line_add("HEAD "@, head);
        }
        if let Some(branch) = w.branch {
            lemma_line_add("branch refs/heads/"@, branch);
        }
        lemma_line_add("prunable"@, reason);
        let a = listing_lines(front, reason);
        let b = record_lines(w, reason);
        assert forall|i: int| 0 <= i < b.len() implies is_line(#[trigger] b[i]) by {}
        assert forall|i: int| 0 <= i < (a + b).len() implies is_line(#[trigger] (a + b)[i]) by {
            if i < a.len() {
                assert(is_line(a[i]));
            } else {
                assert(is_line(b[i - a.len()]));
            }
        }
    }
}

proof fn lemma_line_add(a: Seq<char>, b: Seq<char>)
    requires
        is_line(a),
        is_line(b),
    ensures
        is_line(a + b),
{
    let s = a + b;
    assert forall|i: int| 0 <= i < s.len() implies s[i] != '\n' by {
        if i < a.len() {
            assert(s[i] == a[i]);
        } else {
            assert(s[i] == b[i - a.len()]);
        }
    }
    if s.len() > 0 {
        if b.len() > 0 {
            assert(s.last() == b.last());
        } else {
            assert(s =~= a);
        }
    }
}

/// Worktrees that are listed the way Git lists them are read back as they were.
pub proof fn law_listing_reads_back(worktrees: Seq<WorktreeView>, reason: Seq<char>)
    requires
        is_line(reason),
        forall|i: int| 0 <= i < worktrees.len() ==> can_be_listed(#[trigger] worktrees[i]),
    ensures
        parsed(unlines(listing_lines(worktrees, reason))) == worktrees,
{
    lemma_listing_is_lines(worktrees, reason);
    law_lines_read_back(listing_lines(worktrees, reason));
    lemma_read_listing(worktrees, reason);
}

/// Worktrees are read back from the output of a listing as well, although white space is taken
/// off the ends of that, as long as the last of its lines does not end in white space.
pub proof fn law_listed_output_reads_back(
    worktrees: Seq<WorktreeView>,
    reason: Seq<char>,
    exit: ExitView,
)
    requires
        exit.success,
        is_line(reason),
        forall|i: int| 0 <= i < worktrees.len() ==> can_be_listed(#[trigger] worktrees[i]),
        worktrees.len() > 0 ==> {
            let last = listing_lines(worktrees, reason).drop_last().last();
            last.len() > 0 && !is_space(last.last())
        },
    ensures
        lossy_text(exit.stdout) == unlines(listing_lines(worktrees, reason)) ==> listed(
            RanView::Exited(exit),
        ) == Ok::<Seq<WorktreeView>, Seq<char>>(worktrees),
{
    let lines = listing_lines(worktrees, reason);
    let text = unlines(lines);
    lemma_listing_is_lines(worktrees, reason);
    lemma_read_listing(worktrees, reason);
    if worktrees.len() == 0 {
        assert(text =~= seq![]);
        assert(worktrees =~= seq![]);
    } else {
        let front = lines.drop_last();
        let none: Seq<char> = seq![];
        assert(lines =~= front + seq![none]) by {
            assert(record_lines(worktrees.last(), reason).last() == none);
        }
        assert forall|i: int| 0 <= i < front.len() implies is_line(#[trigger] front[i]) by {
            assert(is_line(lines[i]));
        }
        lemma_first_line(worktrees, reason);
        law_last_feed_may_be_missing(front);
        lemma_unlines_add(front, seq![none]);
        let body = unlines(front).drop_last();
        assert(unlines(seq![none]) =~= seq!['\n']) by {
            reveal_with_fuel(unlines, 2);
            assert(seq![none].drop_first() =~= seq![]);
        }
        lemma_body_ends(front);
        assert(text =~= body + seq!['\n', '\n']);
        assert(body[0] == 'w') by {
            reveal_strlit("worktree ");
            assert(text[0] == lines[0][0]);
        }
        lemma_trim_two_feeds(body);
        assert(read_lines(unread(), lines) == read_line(read_lines(unread(), front), none));
    }
}

/// Where the text of lines ends, when the last line is not empty.
proof fn lemma_body_ends(lines: Seq<Seq<char>>)
    requires
        lines.len() > 0,
        lines.last().len() > 0,
    ensures
        unlines(lines).len() >= 2,
        unlines(lines).last() == '\n',
        unlines(lines).drop_last().last() == lines.last().last(),
{
    let front = lines.drop_last();
    let last = lines.last();
    lemma_unlines_add(front, seq![last]);
    assert(front + seq![last] =~= lines);
    reveal_with_fuel(unlines, 2);
    assert(seq![last].drop_first() =~= seq![]);
    assert(unlines(lines) =~= unlines(front) + last + seq!['\n']);
}

proof fn lemma_trim_two_feeds(body: Seq<char>)
    requires
        body.len() > 0,
        !is_space(body[0]),
        !is_space(body.last()),
    ensures
        trimmed_space(body + seq!['\n', '\n']) == body,
{
    let text = body + seq!['\n', '\n'];
    let drop = |c: char| is_space(c);
    assert(trimmed_front(text, drop) == text);
    assert(text.drop_last().drop_last() =~= body);
    assert(trimmed_back(text, drop) == trimmed_back(text.drop_last(), drop));
    assert(trimmed_back(text.drop_last(), drop) == trimmed_back(body, drop));
}

proof fn lemma_first_line(worktrees: Seq<WorktreeView>, reason: Seq<char>)
    requires
        worktrees.len() > 0,
    ensures
        listing_lines(worktrees, reason).len() >= 2,
        listing_lines(worktrees, reason)[0] == "worktree "@ + worktrees[0].path,
    decreases worktrees.len(),
{
    if worktrees.len() > 1 {
        lemma_first_line(worktrees.drop_last(), reason);
    } else {
        reveal_with_fuel(listing_lines, 2);
        assert(worktrees.last() == worktrees[0]);
        assert(listing_lines(worktrees, reason) =~= record_lines(worktrees[0], reason));
    }
}

/// A line sets the one thing of a worktree that it tells, and leaves the rest: the commit, the
/// branch, and whether the worktree is bare, detached or can be pruned. Any other line changes
/// nothing.
pub proof fn law_line_sets_its_own_field(worktree: WorktreeView, text: Seq<char>, line: Seq<char>)
    ensures
        with_field(worktree, "HEAD "@ + text) == (WorktreeView { head: Some(text), ..worktree }),
        with_field(worktree, "branch refs/heads/"@ + text) == (WorktreeView {
            branch: Some(text),
            ..worktree
        }),
        with_field(worktree, "bare"@) == (WorktreeView { bare: true, ..worktree }),
        with_field(worktree, "detached"@) == (WorktreeView { detached: true, ..worktree }),
        with_field(worktree, "prunable"@ + text) == (WorktreeView { prunable: true, ..worktree }),
        !"HEAD "@.is_prefix_of(line) && !"branch refs/heads/"@.is_prefix_of(line) && line
            != "bare"@ && line != "detached"@ && !"prunable"@.is_prefix_of(line) ==> with_field(
            worktree,
            line,
        ) == worktree,
{
    lemma_fields(worktree, text);
}

/// Lines are read one after the other. A line that begins with `worktree` begins a worktree at the
/// path behind that; an empty line, and the next worktree, end it; every other line tells of the
/// worktree that was begun, and counts for nothing where none was.
pub proof fn law_lines_are_read_in_turn(
    done: Seq<WorktreeView>,
    worktree: WorktreeView,
    path: Seq<char>,
    line: Seq<char>,
)
    requires
        line.len() > 0,
        !"worktree "@.is_prefix_of(line),
    ensures
        ({
            let idle = Reading { done, current: None };
            let busy = Reading { done, current: Some(worktree) };
            let begun = WorktreeView {
                path,
                head: None,
                branch: None,
                bare: false,
                detached: false,
                prunable: false,
            };
            &&& read_line(idle, seq![]) == idle
            &&& read_line(busy, seq![]) == (Reading { done: done.push(worktree), current: None })
            &&& read_line(idle, "worktree "@ + path) == (Reading { done, current: Some(begun) })
            &&& read_line(busy, "worktree "@ + path) == (Reading {
                done: done.push(worktree),
                current: Some(begun),
            })
            &&& read_line(idle, line) == idle
            &&& read_line(busy, line) == (Reading {
                done,
                current: Some(with_field(worktree, line)),
            })
            &&& finished(idle) == done
            &&& finished(busy) == done.push(worktree)
        }),
{
    lemma_fields(worktree, path);
}

/// A listing is read line by line to its end, and the worktree that was begun last counts too.
pub proof fn law_listing_is_read_to_its_end(
    output: Seq<char>,
    reading: Reading,
    lines: Seq<Seq<char>>,
    line: Seq<char>,
)
    ensures
        read_lines(reading, seq![]) == reading,
        read_lines(reading, lines.push(line)) == read_line(read_lines(reading, lines), line),
        parsed(output) == finished(
            read_lines(Reading { done: seq![], current: None }, lines_of(output)),
        ),
{
    assert(lines.push(line).drop_last() =~= lines);
}

} // verus!
