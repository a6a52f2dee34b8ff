//! Paths as words of a shell command.
use vstd::prelude::*;
use vstd::string::*;

use crate::text::to_chars;

verus! {

/// A character that means nothing but itself to a shell.
pub open spec fn is_bare(c: char) -> bool {
    ('a' <= c <= 'z') || ('A' <= c <= 'Z') || ('0' <= c <= '9') || c == '/' || c == '.' || c == '_'
        || c == '-'
}

fn check_bare(c: char) -> (r: bool)
    ensures
        r == is_bare(c),
{
    ('a' <= c && c <= 'z') || ('A' <= c && c <= 'Z') || ('0' <= c && c <= '9') || c == '/' || c
        == '.' || c == '_' || c == '-'
}

pub open spec fn all_bare(s: Seq<char>) -> bool {
    forall|i: int| 0 <= i < s.len() ==> is_bare(#[trigger] s[i])
}

/// A text as it is written between single quotes: a single quote ends them, stands behind a
/// backslash, and begins them again.
pub open spec fn escaped(s: Seq<char>) -> Seq<char>
    decreases s.len(),
{
    if s.len() == 0 {
        seq![]
    } else if s.last() == '\'' {
        escaped(s.drop_last()) + seq!['\'', '\\', '\'', '\'']
    } else {
        escaped(s.drop_last()).push(s.last())
    }
}

/// A path as one word for a shell: as it is where that is safe, in single quotes otherwise.
pub open spec fn quoted(path: Seq<char>) -> Seq<char> {
    if path.len() > 0 && all_bare(path) {
        path
    } else {
        seq!['\''] + escaped(path) + seq!['\'']
    }
}

/// Writes a path as one word for a shell.
pub fn shell_quote_path(path: &str) -> (r: String)
    ensures
        r@ == quoted(path@),
{
    let v: Vec<char> = to_chars(path);
    let mut bare: bool = v.len() > 0;
    let mut r: String = String::new();
    r.push('\'');
    let mut i: usize = 0;
    assert(v@.take(0) =~= seq![]);
    while i < v.len()
        invariant
            i <= v@.len(),
            v@ == path@,
            bare == (v@.len() > 0 && all_bare(v@.take(i as int))),
            r@ == seq!['\''] + escaped(v@.take(i as int)),
        decreases v.len() - i,
    {
        let c: char = v[i];
        let ghost more = v@.take(i + 1);
        assert(more.drop_last() =~= v@.take(i as int));
        assert(more.last() == c);
        let fits: bool = check_bare(c);
        proof {
            assert(more[i as int] == c);
            assert(all_bare(more) <==> all_bare(v@.take(i as int)) && is_bare(c)) by {
                if all_bare(more) {
                    assert forall|k: int| 0 <= k < i implies is_bare(
                        #[trigger] v@.take(i as int)[k],
                    ) by {
                        assert(is_bare(more[k]));
                    }
                }
                if all_bare(v@.take(i as int)) && is_bare(c) {
                    assert forall|k: int| 0 <= k < more.len() implies is_bare(
                        #[trigger] more[k],
                    ) by {
                        if k < i {
                            assert(is_bare(v@.take(i as int)[k]));
                        }
                    }
                }
            }
        }
        bare = bare && fits;
        if c == '\'' {
            r.push('\'');
            r.push('\\');
            r.push('\'');
            r.push('\'');
        } else {
            r.push(c);
        }
        assert(r@ =~= seq!['\''] + escaped(more));
        i += 1;
    }
    assert(v@.take(i as int) =~= v@);
    if bare {
        return path.to_owned();
    }
    r.push('\'');
    assert(r@ =~= quoted(path@));
    r
}

/// What a shell reads a word as, as far as bare characters, single quotes and backslashes go.
pub open spec fn shell_reads(word: Seq<char>, quoted: bool) -> Option<Seq<char>>
    decreases word.len(),
{
    if word.len() == 0 {
        if quoted {
            None
        } else {
            Some(seq![])
        }
    } else if word[0] == '\'' {
        shell_reads(word.drop_first(), !quoted)
    } else if quoted || is_bare(word[0]) {
        match shell_reads(word.drop_first(), quoted) {
            Some(rest) => Some(seq![word[0]] + rest),
            None => None,
        }
    } else if word[0] == '\\' && word.len() > 1 {
        match shell_reads(word.skip(2), false) {
            Some(rest) => Some(seq![word[1]] + rest),
            None => None,
        }
    } else {
        None
    }
}

proof fn lemma_escaped_front(s: Seq<char>)
    requires
        s.len() > 0,
    ensures
        escaped(s) == (if s[0] == '\'' {
            seq!['\'', '\\', '\'', '\'']
        } else {
            seq![s[0]]
        }) + escaped(s.drop_first()),
    decreases s.len(),
{
    if s.len() == 1 {
        reveal_with_fuel(escaped, 2);
        assert(s.drop_last() =~= seq![]);
        assert(s.drop_first() =~= seq![]);
        assert(escaped(s) =~= (if s[0] == '\'' {
            seq!['\'', '\\', '\'', '\'']
        } else {
            seq![s[0]]
        }) + escaped(s.drop_first()));
    } else {
        lemma_escaped_front(s.drop_last());
        assert(s.drop_last().drop_first() =~= s.drop_first().drop_last());
        assert(escaped(s) =~= (if s[0] == '\'' {
            seq!['\'', '\\', '\'', '\'']
        } else {
            seq![s[0]]
        }) + escaped(s.drop_first()));
    }
}

proof fn lemma_escaped_reads_back(s: Seq<char>)
    ensures
        shell_reads(escaped(s) + seq!['\''], true) == Some(s),
    decreases s.len(),
{
    let word = escaped(s) + seq!['\''];
    if s.len() == 0 {
        reveal_with_fuel(shell_reads, 2);
        assert(word.drop_first() =~= seq![]);
        assert(s =~= seq![]);
    } else {
        let rest = s.drop_first();
        let tail = escaped(rest) + seq!['\''];
        lemma_escaped_front(s);
        lemma_escaped_reads_back(rest);
        assert(s =~= seq![s[0]] + rest);
        if s[0] == '\'' {
            let one = word.drop_first();
            let three = one.skip(2);
            assert(word[0] == '\'' && one[0] == '\\' && one[1] == '\'' && three[0] == '\'');
            assert(three.drop_first() =~= tail);
            assert(shell_reads(three, false) == Some(rest));
            assert(shell_reads(one, false) == Some(s));
        } else {
            assert(word[0] == s[0]);
            assert(word.drop_first() =~= tail);
        }
    }
}

proof fn lemma_bare_reads_back(s: Seq<char>)
    requires
        all_bare(s),
    ensures
        shell_reads(s, false) == Some(s),
    decreases s.len(),
{
    if s.len() > 0 {
        let rest = s.drop_first();
        assert(is_bare(s[0]));
        assert forall|i: int| 0 <= i < rest.len() implies is_bare(#[trigger] rest[i]) by {
            assert(is_bare(s[i + 1]));
        }
        lemma_bare_reads_back(rest);
        assert(s =~= seq![s[0]] + rest);
    } else {
        assert(s =~= seq![]);
    }
}

/// A shell reads a quoted path as the path.
pub proof fn law_quoted_path_reads_back(path: Seq<char>)
    ensures
        shell_reads(quoted(path), false) == Some(path),
{
    if path.len() > 0 && all_bare(path) {
        lemma_bare_reads_back(path);
    } else {
        lemma_escaped_reads_back(path);
        assert(quoted(path).drop_first() =~= escaped(path) + seq!['\'']);
    }
}

/// A path that is written for a shell holds nothing that a shell could take for more than itself:
/// it is made of letters, digits, slashes, dots, underscores and dashes, or it stands between
/// single quotes.
pub proof fn law_quoted_path_is_safe(path: Seq<char>)
    ensures
        ({
            let word = quoted(path);
            &&& word.len() > 0
            &&& (word.len() >= 2 && word[0] == '\'' && word.last() == '\'') || forall|i: int|
                0 <= i < word.len() ==> {
                    let c = #[trigger] word[i];
                    ('a' <= c <= 'z') || ('A' <= c <= 'Z') || ('0' <= c <= '9') || c == '/' || c
                        == '.' || c == '_' || c == '-'
                }
        }),
        path.len() > 0 && (forall|i: int|
            0 <= i < path.len() ==> {
                let c = #[trigger] path[i];
                ('a' <= c <= 'z') || ('A' <= c <= 'Z') || ('0' <= c <= '9') || c == '/' || c == '.'
                    || c == '_' || c == '-'
            }) ==> quoted(path) == path,
{
    if path.len() > 0 && all_bare(path) {
        assert forall|i: int| 0 <= i < path.len() implies is_bare(#[trigger] path[i]) by {}
    }
    if path.len() > 0 && (forall|i: int|
        0 <= i < path.len() ==> {
            let c = #[trigger] path[i];
            ('a' <= c <= 'z') || ('A' <= c <= 'Z') || ('0' <= c <= '9') || c == '/' || c == '.' || c
                == '_' || c == '-'
        }) {
        assert forall|i: int| 0 <= i < path.len() implies is_bare(#[trigger] path[i]) by {}
        assert(all_bare(path));
    }
}

} // verus!
