//! Text as a sequence of characters: what the other modules cut out of it, put together and
//! read from it.
use vstd::prelude::*;
use vstd::string::*;
use vstd::utf8::*;

verus! {

/// `String::push` adds one character at the end.
pub assume_specification[ String::push ](s: &mut String, c: char)
    ensures
        final(s)@ == old(s)@.push(c),
;

/// `String::pop` takes the last character off, and leaves an empty text as it is.
pub assume_specification[ String::pop ](s: &mut String) -> (r: Option<char>)
    ensures
        old(s)@.len() == 0 ==> r is None && final(s)@ == old(s)@,
        old(s)@.len() > 0 ==> r == Some(old(s)@.last()) && final(s)@ == old(s)@.drop_last(),
;

/// The text that `String::from_utf8_lossy` makes of bytes.
pub uninterp spec fn lossy_text(bytes: Seq<u8>) -> Seq<char>;

/// `String::from_utf8_lossy`: bytes that are UTF-8 come out as the text that they encode. What
/// comes out for other bytes has a name, and nothing more is said of it.
#[verifier::external_body]
pub(crate) fn decode_lossy(bytes: &[u8]) -> (r: String)
    ensures
        r@ == lossy_text(bytes@),
        valid_utf8(bytes@) ==> r@ == decode_utf8(bytes@),
{
    String::from_utf8_lossy(bytes).into_owned()
}

/// The characters of a text, one by one.
pub fn to_chars(s: &str) -> (v: Vec<char>)
    ensures
        v@ == s@,
{
    let mut v: Vec<char> = Vec::new();
    for c in it: s.chars()
        invariant
            it.seq() == s@,
            v@ == s@.take(it.index()),
    {
        v.push(c);
    }
    v
}

/// The text made of the characters of `v` from `from` up to `to`.
pub fn from_chars(v: &Vec<char>, from: usize, to: usize) -> (r: String)
    requires
        from <= to <= v@.len(),
    ensures
        r@ == v@.subrange(from as int, to as int),
{
    let mut r: String = String::new();
    let mut i: usize = from;
    while i < to
        invariant
            from <= i <= to <= v@.len(),
            r@ == v@.subrange(from as int, i as int),
        decreases to - i,
    {
        r.push(v[i]);
        i += 1;
    }
    r
}

/// Whether two texts have the same characters.
pub fn same(a: &str, b: &str) -> (r: bool)
    ensures
        r == (a@ == b@),
{
    a.to_owned() == b.to_owned()
}

/// `a` followed by `b`.
pub fn cat(a: &str, b: &str) -> (r: String)
    ensures
        r@ == a@ + b@,
{
    let mut r: String = a.to_owned();
    r.append(b);
    r
}

/// `a`, `b` and `c`, one after the other.
pub fn cat3(a: &str, b: &str, c: &str) -> (r: String)
    ensures
        r@ == a@ + b@ + c@,
{
    let mut r: String = a.to_owned();
    r.append(b);
    r.append(c);
    r
}

/// Whether `s` begins with `prefix`.
pub fn starts_with(s: &str, prefix: &str) -> (r: bool)
    ensures
        r == prefix@.is_prefix_of(s@),
{
    let n: usize = prefix.unicode_len();
    let m: usize = s.unicode_len();
    n <= m && same(s.substring_char(0, n), prefix)
}

/// What follows `prefix` in `s`, where `s` begins with it.
pub open spec fn without_prefix(s: Seq<char>, prefix: Seq<char>) -> Option<Seq<char>> {
    if prefix.is_prefix_of(s) {
        Some(s.skip(prefix.len() as int))
    } else {
        None
    }
}

/// Takes `prefix` off the front of `s`.
pub fn strip_prefix(s: &str, prefix: &str) -> (r: Option<String>)
    ensures
        r.deep_view() == without_prefix(s@, prefix@),
{
    let n: usize = prefix.unicode_len();
    let m: usize = s.unicode_len();
    if starts_with(s, prefix) {
        Some(s.substring_char(n, m).to_owned())
    } else {
        None
    }
}

/// The place of the first `c` in `s`, or the length of `s` where it has none.
pub open spec fn first_place(s: Seq<char>, c: char) -> nat
    decreases s.len(),
{
    if s.len() == 0 || s[0] == c {
        0
    } else {
        1 + first_place(s.drop_first(), c)
    }
}

/// A line without the carriage return that ended it.
pub open spec fn without_return(s: Seq<char>) -> Seq<char> {
    if s.len() > 0 && s.last() == '\r' {
        s.drop_last()
    } else {
        s
    }
}

/// The lines of a text. A line ends at a line feed, or at a carriage return with a line feed
/// behind it; the last one may end with the text, and what follows a last line feed is no line.
pub open spec fn lines_of(s: Seq<char>) -> Seq<Seq<char>>
    decreases s.len(),
{
    let n = first_place(s, '\n') as int;
    if s.len() == 0 {
        seq![]
    } else if n >= s.len() {
        seq![s]
    } else {
        seq![without_return(s.take(n))] + lines_of(s.skip(n + 1))
    }
}

proof fn lemma_first_place(s: Seq<char>, c: char, n: nat)
    requires
        n <= s.len(),
        forall|i: int| 0 <= i < n ==> s[i] != c,
        n < s.len() ==> s[n as int] == c,
    ensures
        first_place(s, c) == n,
    decreases s.len(),
{
    if n > 0 {
        assert forall|i: int| 0 <= i < n - 1 implies s.drop_first()[i] != c by {
            assert(s.drop_first()[i] == s[i + 1]);
        }
        lemma_first_place(s.drop_first(), c, (n - 1) as nat);
    }
}

/// Splits a text into its lines.
pub fn lines(s: &str) -> (r: Vec<String>)
    ensures
        r.deep_view() == lines_of(s@),
{
    let v: Vec<char> = to_chars(s);
    let mut r: Vec<String> = Vec::new();
    let mut start: usize = 0;
    let mut i: usize = 0;
    assert(s@.skip(0) =~= s@);
    assert(r.deep_view() + lines_of(s@) =~= lines_of(s@));
    while i < v.len()
        invariant
            0 <= start <= i <= v@.len(),
            v@ == s@,
            forall|k: int| start <= k < i ==> v@[k] != '\n',
            lines_of(s@) == r.deep_view() + lines_of(s@.skip(start as int)),
        decreases v.len() - i,
    {
        if v[i] == '\n' {
            let end: usize = if i > start && v[i - 1] == '\r' { i - 1 } else { i };
            let line: String = from_chars(&v, start, end);
            proof {
                let rest = s@.skip(start as int);
                let n = (i - start) as nat;
                lemma_first_place(rest, '\n', n);
                assert(without_return(rest.take(n as int)) =~= line@);
                assert(rest.skip(n as int + 1) =~= s@.skip(i + 1));
            }
            let ghost before = r.deep_view();
            r.push(line);
            assert(r.deep_view() =~= before.push(line@));
            assert(before + (seq![line@] + lines_of(s@.skip(i + 1)))
                =~= r.deep_view() + lines_of(s@.skip(i + 1)));
            start = i + 1;
        }
        i += 1;
    }
    let ghost rest = s@.skip(start as int);
    proof {
        lemma_first_place(rest, '\n', rest.len());
    }
    if start < v.len() {
        let line: String = from_chars(&v, start, v.len());
        assert(line@ =~= rest);
        let ghost before = r.deep_view();
        r.push(line);
        assert(r.deep_view() =~= before + seq![rest]);
    }
    assert(r.deep_view() =~= lines_of(s@));
    r
}

/// Whether a text can be one line: no line feed stands in it and no carriage return at its end.
pub open spec fn is_line(s: Seq<char>) -> bool {
    &&& forall|i: int| 0 <= i < s.len() ==> s[i] != '\n'
    &&& s.len() > 0 ==> s.last() != '\r'
}

/// Lines as a text, each with a line feed behind it.
pub open spec fn unlines(lines: Seq<Seq<char>>) -> Seq<char>
    decreases lines.len(),
{
    if lines.len() == 0 {
        seq![]
    } else {
        lines[0] + seq!['\n'] + unlines(lines.drop_first())
    }
}

/// Lines that are written as a text are the lines of that text.
pub proof fn law_lines_read_back(lines: Seq<Seq<char>>)
    requires
        forall|i: int| 0 <= i < lines.len() ==> is_line(#[trigger] lines[i]),
    ensures
        lines_of(unlines(lines)) == lines,
    decreases lines.len(),
{
    let s = unlines(lines);
    if lines.len() > 0 {
        let first = lines[0];
        let n = first.len();
        assert(is_line(lines[0]));
        assert forall|i: int| 0 <= i < lines.len() - 1 implies is_line(
            #[trigger] lines.drop_first()[i],
        ) by {
            assert(is_line(lines[i + 1]));
        }
        law_lines_read_back(lines.drop_first());
        assert(s[n as int] == '\n');
        assert forall|i: int| 0 <= i < n implies s[i] != '\n' by {
            assert(s[i] == first[i]);
        }
        lemma_first_place(s, '\n', n);
        assert(s.take(n as int) =~= first);
        assert(s.skip(n as int + 1) =~= unlines(lines.drop_first()));
        assert(lines =~= seq![first] + lines.drop_first());
    } else {
        assert(lines =~= seq![]);
    }
}

/// Lines read back as well from a text without the last line feed, unless the last line is
/// empty.
pub proof fn law_last_feed_may_be_missing(lines: Seq<Seq<char>>)
    requires
        forall|i: int| 0 <= i < lines.len() ==> is_line(#[trigger] lines[i]),
        lines.len() > 0,
        lines.last().len() > 0,
    ensures
        unlines(lines).len() > 0,
        lines_of(unlines(lines).drop_last()) == lines,
    decreases lines.len(),
{
    let first = lines[0];
    let n = first.len();
    let rest = lines.drop_first();
    assert(is_line(lines[0]));
    assert forall|i: int| 0 <= i < rest.len() implies is_line(#[trigger] rest[i]) by {
        assert(is_line(lines[i + 1]));
    }
    let s = unlines(lines).drop_last();
    if rest.len() == 0 {
        assert(s =~= first);
        lemma_first_place(s, '\n', n);
        assert(lines =~= seq![first]);
    } else {
        assert(rest.last() == lines.last());
        law_last_feed_may_be_missing(rest);
        assert(s =~= first + seq!['\n'] + unlines(rest).drop_last());
        assert(s[n as int] == '\n');
        assert forall|i: int| 0 <= i < n implies s[i] != '\n' by {
            assert(s[i] == first[i]);
        }
        lemma_first_place(s, '\n', n);
        assert(s.take(n as int) =~= first);
        assert(s.skip(n as int + 1) =~= unlines(rest).drop_last());
        assert(lines =~= seq![first] + rest);
    }
}

/// The text of more lines is that of the first ones, followed by that of the others.
pub proof fn lemma_unlines_add(a: Seq<Seq<char>>, b: Seq<Seq<char>>)
    ensures
        unlines(a + b) == unlines(a) + unlines(b),
    decreases a.len(),
{
    if a.len() == 0 {
        assert(a + b =~= b);
        assert(unlines(a) + unlines(b) =~= unlines(b));
    } else {
        assert((a + b).drop_first() =~= a.drop_first() + b);
        lemma_unlines_add(a.drop_first(), b);
        assert(unlines(a + b) =~= unlines(a) + unlines(b));
    }
}

/// Texts put together with `sep` between each two of them.
pub open spec fn joined(parts: Seq<Seq<char>>, sep: Seq<char>) -> Seq<char>
    decreases parts.len(),
{
    if parts.len() == 0 {
        seq![]
    } else if parts.len() == 1 {
        parts[0]
    } else {
        joined(parts.drop_last(), sep) + sep + parts.last()
    }
}

/// Puts the texts from place `from` on together, with `sep` between each two of them.
pub fn join_from(parts: &[String], from: usize, sep: &str) -> (r: String)
    requires
        from <= parts@.len(),
    ensures
        r@ == joined(parts.deep_view().skip(from as int), sep@),
{
    let mut r: String = String::new();
    let mut i: usize = from;
    let ghost all = parts.deep_view().skip(from as int);
    while i < parts.len()
        invariant
            from <= i <= parts@.len(),
            all == parts.deep_view().skip(from as int),
            r@ == joined(all.take(i - from), sep@),
        decreases parts.len() - i,
    {
        proof {
            let more = all.take(i - from + 1);
            assert(more.drop_last() =~= all.take(i - from));
            assert(more.last() == parts@[i as int]@);
        }
        if i > from {
            r.append(sep);
        }
        r.append(parts[i].as_str());
        proof {
            let more = all.take(i - from + 1);
            assert(r@ =~= joined(more, sep@));
        }
        i += 1;
    }
    assert(all.take(i - from) =~= all);
    r
}

/// Whether a character has the Unicode property `White_Space`.
pub open spec fn is_space(c: char) -> bool {
    let n = c as u32;
    ||| 0x09 <= n <= 0x0d
    ||| n == 0x20
    ||| n == 0x85
    ||| n == 0xa0
    ||| n == 0x1680
    ||| 0x2000 <= n <= 0x200a
    ||| n == 0x2028
    ||| n == 0x2029
    ||| n == 0x202f
    ||| n == 0x205f
    ||| n == 0x3000
}

pub fn check_space(c: char) -> (r: bool)
    ensures
        r == is_space(c),
{
    let n: u32 = c as u32;
    (0x09 <= n && n <= 0x0d) || n == 0x20 || n == 0x85 || n == 0xa0 || n == 0x1680 || (0x2000 <= n
        && n <= 0x200a) || n == 0x2028 || n == 0x2029 || n == 0x202f || n == 0x205f || n == 0x3000
}

pub fn check_dash(c: char) -> (r: bool)
    ensures
        r == (c == '-'),
{
    c == '-'
}

/// `s` without the characters at its front that `drop` holds of.
pub open spec fn trimmed_front(s: Seq<char>, drop: spec_fn(char) -> bool) -> Seq<char>
    decreases s.len(),
{
    if s.len() > 0 && drop(s[0]) {
        trimmed_front(s.drop_first(), drop)
    } else {
        s
    }
}

/// `s` without the characters at its back that `drop` holds of.
pub open spec fn trimmed_back(s: Seq<char>, drop: spec_fn(char) -> bool) -> Seq<char>
    decreases s.len(),
{
    if s.len() > 0 && drop(s.last()) {
        trimmed_back(s.drop_last(), drop)
    } else {
        s
    }
}

/// `s` without the characters at either end that `drop` holds of.
pub open spec fn trimmed(s: Seq<char>, drop: spec_fn(char) -> bool) -> Seq<char> {
    trimmed_back(trimmed_front(s, drop), drop)
}

/// `s` without the white space at either end.
pub open spec fn trimmed_space(s: Seq<char>) -> Seq<char> {
    trimmed(s, |c: char| is_space(c))
}

/// `s` without the dashes at either end.
pub open spec fn trimmed_dashes(s: Seq<char>) -> Seq<char> {
    trimmed(s, |c: char| c == '-')
}

/// What is left of a trimmed text is one piece of it: all that stands before and behind it is
/// dropped, and its own ends are not.
pub proof fn law_trimmed_is_piece(s: Seq<char>, drop: spec_fn(char) -> bool) -> (r: (int, int))
    ensures
        0 <= r.0 <= r.1 <= s.len(),
        trimmed(s, drop) == s.subrange(r.0, r.1),
        forall|i: int| 0 <= i < r.0 || r.1 <= i < s.len() ==> drop(#[trigger] s[i]),
        r.0 < r.1 ==> !drop(s[r.0]) && !drop(s[r.1 - 1]),
{
    let a = lemma_trimmed_front(s, drop);
    let rest = s.skip(a);
    let b = a + lemma_trimmed_back(rest, drop);
    assert(s.subrange(a, b) =~= rest.take(b - a));
    assert forall|i: int| 0 <= i < a || b <= i < s.len() implies drop(#[trigger] s[i]) by {
        if b <= i {
            assert(s[i] == rest[i - a]);
        }
    }
    if a < b {
        assert(rest[0] == s[a]);
        assert(rest[b - a - 1] == s[b - 1]);
    }
    (a, b)
}

proof fn lemma_trimmed_front(s: Seq<char>, drop: spec_fn(char) -> bool) -> (n: int)
    ensures
        0 <= n <= s.len(),
        trimmed_front(s, drop) == s.skip(n),
        forall|i: int| 0 <= i < n ==> drop(#[trigger] s[i]),
        n < s.len() ==> !drop(s[n]),
    decreases s.len(),
{
    if s.len() > 0 && drop(s[0]) {
        let n = 1 + lemma_trimmed_front(s.drop_first(), drop);
        assert(s.drop_first().skip(n - 1) =~= s.skip(n));
        assert forall|i: int| 0 <= i < n implies drop(#[trigger] s[i]) by {
            if i > 0 {
                assert(s[i] == s.drop_first()[i - 1]);
            }
        }
        n
    } else {
        assert(s.skip(0) =~= s);
        0
    }
}

proof fn lemma_trimmed_back(s: Seq<char>, drop: spec_fn(char) -> bool) -> (n: int)
    ensures
        0 <= n <= s.len(),
        trimmed_back(s, drop) == s.take(n),
        forall|i: int| n <= i < s.len() ==> drop(#[trigger] s[i]),
        n > 0 ==> !drop(s[n - 1]),
    decreases s.len(),
{
    if s.len() > 0 && drop(s.last()) {
        let n = lemma_trimmed_back(s.drop_last(), drop);
        assert(s.drop_last().take(n) =~= s.take(n));
        assert forall|i: int| n <= i < s.len() implies drop(#[trigger] s[i]) by {
            if i < s.len() - 1 {
                assert(s[i] == s.drop_last()[i]);
            }
        }
        n
    } else {
        assert(s.take(s.len() as int) =~= s);
        s.len() as int
    }
}

/// Takes the characters that `f` holds of off both ends of a text.
fn trim_where(s: &str, f: impl Fn(char) -> bool, Ghost(drop): Ghost<spec_fn(char) -> bool>) -> (r:
    String)
    requires
        forall|c: char| f.requires((c,)),
        forall|c: char, b: bool| f.ensures((c,), b) ==> b == drop(c),
    ensures
        r@ == trimmed(s@, drop),
{
    let v: Vec<char> = to_chars(s);
    let mut from: usize = 0;
    assert(v@.skip(0) =~= v@);
    while from < v.len() && f(v[from])
        invariant
            from <= v@.len(),
            forall|c: char| f.requires((c,)),
            forall|c: char, b: bool| f.ensures((c,), b) ==> b == drop(c),
            trimmed_front(v@, drop) == trimmed_front(v@.skip(from as int), drop),
        decreases v.len() - from,
    {
        assert(v@.skip(from as int).drop_first() =~= v@.skip(from + 1));
        from += 1;
    }
    let mut to: usize = v.len();
    assert(v@.subrange(from as int, to as int) =~= v@.skip(from as int));
    while from < to && f(v[to - 1])
        invariant
            from <= to <= v@.len(),
            forall|c: char| f.requires((c,)),
            forall|c: char, b: bool| f.ensures((c,), b) ==> b == drop(c),
            trimmed_back(v@.skip(from as int), drop) == trimmed_back(
                v@.subrange(from as int, to as int),
                drop,
            ),
        decreases to,
    {
        assert(v@.subrange(from as int, to as int).drop_last() =~= v@.subrange(
            from as int,
            to - 1,
        ));
        to -= 1;
    }
    from_chars(&v, from, to)
}

/// Takes the white space off both ends of a text.
pub fn trim(s: &str) -> (r: String)
    ensures
        r@ == trimmed_space(s@),
{
    trim_where(s, check_space, Ghost(|c: char| is_space(c)))
}

/// Takes the dashes off both ends of a text.
pub fn trim_dashes(s: &str) -> (r: String)
    ensures
        r@ == trimmed_dashes(s@),
{
    trim_where(s, check_dash, Ghost(|c: char| c == '-'))
}

/// An upper case ASCII letter in lower case, and any other character as it is.
pub open spec fn lower(c: char) -> char {
    if 'A' <= c <= 'Z' {
        ((c as u8) + 32) as char
    } else {
        c
    }
}

pub fn to_lower(c: char) -> (r: char)
    ensures
        r == lower(c),
{
    if 'A' <= c && c <= 'Z' {
        ((c as u8) + 32) as char
    } else {
        c
    }
}

/// The text `s` with its ASCII letters in lower case.
pub open spec fn lowered(s: Seq<char>) -> Seq<char> {
    s.map_values(|c: char| lower(c))
}

pub fn to_ascii_lowercase(s: &str) -> (r: String)
    ensures
        r@ == lowered(s@),
{
    let mut r: String = String::new();
    for c in it: s.chars()
        invariant
            it.seq() == s@,
            r@ == lowered(s@).take(it.index()),
    {
        r.push(to_lower(c));
    }
    r
}

/// `c`, `n` times over.
pub fn repeated(c: char, n: usize) -> (r: String)
    ensures
        r@ == Seq::new(n as nat, |i: int| c),
{
    let mut r: String = String::new();
    let mut i: usize = 0;
    while i < n
        invariant
            i <= n,
            r@ == Seq::new(i as nat, |k: int| c),
        decreases n - i,
    {
        r.push(c);
        i += 1;
    }
    r
}

/// The decimal digit for `d`.
pub open spec fn digit(d: nat) -> char {
    (48 + d) as char
}

/// A number in decimal digits, without leading zeros.
pub open spec fn decimal(n: nat) -> Seq<char>
    decreases n,
{
    if n < 10 {
        seq![digit(n)]
    } else {
        decimal(n / 10).push(digit(n % 10))
    }
}

pub fn to_decimal(n: u64) -> (r: String)
    ensures
        r@ == decimal(n as nat),
    decreases n,
{
    let d: u8 = (n % 10) as u8;
    let c: char = (48u8 + d) as char;
    let mut r: String = if n < 10 {
        String::new()
    } else {
        to_decimal(n / 10)
    };
    r.push(c);
    r
}

pub open spec fn is_digit(c: char) -> bool {
    '0' <= c <= '9'
}

/// The number that a row of decimal digits stands for.
pub open spec fn value(s: Seq<char>) -> nat
    decreases s.len(),
{
    if s.len() == 0 {
        0
    } else {
        value(s.drop_last()) * 10 + (s.last() as u32 - 48) as nat
    }
}

pub open spec fn all_digits(s: Seq<char>) -> bool {
    forall|i: int| 0 <= i < s.len() ==> is_digit(s[i])
}

/// A number's digits, without the plus sign that may stand in front.
pub open spec fn unsigned(s: Seq<char>) -> Seq<char> {
    if s.len() > 0 && s[0] == '+' {
        s.drop_first()
    } else {
        s
    }
}

/// The number that a text reads as: one or more decimal digits, with or without a plus sign in
/// front, that together fit a `usize`.
pub open spec fn number_of(s: Seq<char>) -> Option<usize> {
    let digits = unsigned(s);
    if digits.len() > 0 && all_digits(digits) && value(digits) <= usize::MAX {
        Some(value(digits) as usize)
    } else {
        None
    }
}

proof fn lemma_value_grows(s: Seq<char>, n: int)
    requires
        0 <= n <= s.len(),
        all_digits(s),
    ensures
        value(s.take(n)) <= value(s),
    decreases s.len(),
{
    if n < s.len() {
        lemma_value_grows(s.drop_last(), n);
        assert(s.drop_last().take(n) =~= s.take(n));
    } else {
        assert(s.take(n) =~= s);
    }
}

/// Reads a text as a number.
pub fn parse_number(s: &str) -> (r: Option<usize>)
    ensures
        r == number_of(s@),
{
    let v: Vec<char> = to_chars(s);
    let start: usize = if v.len() > 0 && v[0] == '+' {
        1
    } else {
        0
    };
    let ghost digits = v@.skip(start as int);
    assert(digits =~= unsigned(s@));
    if start == v.len() {
        return None;
    }
    let mut n: usize = 0;
    let mut i: usize = start;
    while i < v.len()
        invariant
            start <= i <= v@.len(),
            digits == v@.skip(start as int),
            digits == unsigned(s@),
            forall|k: int| 0 <= k < i - start ==> is_digit(digits[k]),
            n == value(digits.take(i - start)),
        decreases v.len() - i,
    {
        let c: char = v[i];
        assert(c == digits[i - start]);
        if !('0' <= c && c <= '9') {
            assert(!is_digit(digits[i - start]));
            return None;
        }
        let d: usize = (c as u32 - 48) as usize;
        proof {
            let more = digits.take(i - start + 1);
            assert(more.drop_last() =~= digits.take(i - start));
            assert(value(more) == n * 10 + d);
            if number_of(s@) is Some {
                lemma_value_grows(digits, i - start + 1);
                assert(n * 10 + d <= usize::MAX);
            }
        }
        match n.checked_mul(10) {
            None => {
                return None;
            },
            Some(tens) => match tens.checked_add(d) {
                None => {
                    return None;
                },
                Some(sum) => {
                    n = sum;
                },
            },
        }
        i += 1;
    }
    assert(digits.take(i - start) =~= digits);
    Some(n)
}

/// A number that was written out in decimal reads back as the same number.
pub proof fn law_decimal_reads_back(n: usize)
    ensures
        number_of(decimal(n as nat)) == Some(n),
{
    lemma_decimal(n as nat);
}

/// Two numbers are not written the same.
pub proof fn lemma_decimal_is_own(a: nat, b: nat)
    requires
        a != b,
    ensures
        decimal(a) != decimal(b),
        decimal(a).len() > 0,
        decimal(b).len() > 0,
{
    lemma_decimal(a);
    lemma_decimal(b);
}

proof fn lemma_decimal(n: nat)
    ensures
        decimal(n).len() > 0,
        all_digits(decimal(n)),
        value(decimal(n)) == n,
    decreases n,
{
    reveal_with_fuel(value, 2);
    if n >= 10 {
        lemma_decimal(n / 10);
        assert(decimal(n).drop_last() =~= decimal(n / 10));
    } else {
        assert(decimal(n).drop_last() =~= seq![]);
    }
}

/// What is left of a text without a prefix, put behind that prefix, is the text again; nothing is
/// left exactly where the text does not begin with the prefix.
pub proof fn law_prefix_comes_off(s: Seq<char>, prefix: Seq<char>, rest: Seq<char>)
    ensures
        without_prefix(s, prefix) == Some(rest) <==> s == prefix + rest,
{
    if s == prefix + rest {
        assert(s.skip(prefix.len() as int) =~= rest);
        assert(prefix.is_prefix_of(s));
    }
    if without_prefix(s, prefix) == Some(rest) {
        assert(s =~= prefix + rest);
    }
}

/// A text without a line feed is one line, unless it is empty; then it is none.
pub proof fn law_text_without_feed_is_one_line(s: Seq<char>)
    requires
        forall|i: int| 0 <= i < s.len() ==> s[i] != '\n',
    ensures
        lines_of(s) == if s.len() == 0 {
            Seq::<Seq<char>>::empty()
        } else {
            seq![s]
        },
{
    lemma_first_place(s, '\n', s.len());
}

/// What stands before the first line feed is the first line, and the lines of what stands behind
/// it follow. One carriage return right before the line feed belongs to neither.
pub proof fn law_feed_ends_line(line: Seq<char>, rest: Seq<char>)
    requires
        forall|i: int| 0 <= i < line.len() ==> line[i] != '\n',
    ensures
        line.len() > 0 && line.last() == '\r' ==> lines_of(line + seq!['\n'] + rest) == seq![
            line.drop_last(),
        ] + lines_of(rest),
        line.len() == 0 || line.last() != '\r' ==> lines_of(line + seq!['\n'] + rest) == seq![line]
            + lines_of(rest),
{
    let s = line + seq!['\n'] + rest;
    let n = line.len();
    assert(s[n as int] == '\n');
    assert forall|i: int| 0 <= i < n implies s[i] != '\n' by {
        assert(s[i] == line[i]);
    }
    lemma_first_place(s, '\n', n);
    assert(s.take(n as int) =~= line);
    assert(s.skip(n as int + 1) =~= rest);
}

/// One text put together alone is itself, and nothing put together is empty. Two rows of texts put
/// together have one separator between them.
pub proof fn law_joined_has_separators_between(
    a: Seq<Seq<char>>,
    b: Seq<Seq<char>>,
    one: Seq<char>,
    sep: Seq<char>,
)
    ensures
        joined(seq![], sep) == Seq::<char>::empty(),
        joined(seq![one], sep) == one,
        a.len() > 0 && b.len() > 0 ==> joined(a + b, sep) == joined(a, sep) + sep + joined(b, sep),
    decreases b.len(),
{
    if a.len() > 0 && b.len() > 0 {
        let front = b.drop_last();
        assert((a + b).drop_last() =~= a + front);
        assert((a + b).last() == b.last());
        if front.len() == 0 {
            assert(a + front =~= a);
        } else {
            law_joined_has_separators_between(a, front, one, sep);
            assert(joined(a + b, sep) =~= joined(a, sep) + sep + joined(b, sep));
        }
    }
}

/// White space around a text goes, and what stands between stays, white space among it.
pub proof fn law_trim_takes_white_space_off(before: Seq<char>, core: Seq<char>, behind: Seq<char>)
    requires
        forall|i: int| 0 <= i < before.len() ==> is_space(#[trigger] before[i]),
        forall|i: int| 0 <= i < behind.len() ==> is_space(#[trigger] behind[i]),
        core.len() > 0 ==> !is_space(core[0]) && !is_space(core.last()),
    ensures
        trimmed_space(before + core + behind) == core,
{
    lemma_trimmed_is_core(before, core, behind, |c: char| is_space(c));
}

/// Dashes around a text go, and what stands between stays, dashes among it.
pub proof fn law_trim_takes_dashes_off(before: Seq<char>, core: Seq<char>, behind: Seq<char>)
    requires
        forall|i: int| 0 <= i < before.len() ==> before[i] == '-',
        forall|i: int| 0 <= i < behind.len() ==> behind[i] == '-',
        core.len() > 0 ==> core[0] != '-' && core.last() != '-',
    ensures
        trimmed_dashes(before + core + behind) == core,
{
    lemma_trimmed_is_core(before, core, behind, |c: char| c == '-');
}

proof fn lemma_trimmed_is_core(
    before: Seq<char>,
    core: Seq<char>,
    behind: Seq<char>,
    drop: spec_fn(char) -> bool,
)
    requires
        forall|i: int| 0 <= i < before.len() ==> drop(#[trigger] before[i]),
        forall|i: int| 0 <= i < behind.len() ==> drop(#[trigger] behind[i]),
        core.len() > 0 ==> !drop(core[0]) && !drop(core.last()),
    ensures
        trimmed(before + core + behind, drop) == core,
{
    let s = before + core + behind;
    let (a, b) = law_trimmed_is_piece(s, drop);
    let (m, n) = (before.len() as int, (before.len() + core.len()) as int);
    if core.len() > 0 {
        assert(s[m] == core[0] && s[n - 1] == core.last());
        assert(a <= m && n <= b);
        if a < m {
            assert(s[a] == before[a]);
        }
        if n < b {
            assert(s[b - 1] == behind[b - 1 - n]);
        }
        assert(s.subrange(m, n) =~= core);
    } else {
        if a < b {
            if a < m {
                assert(s[a] == before[a]);
            } else {
                assert(s[a] == behind[a - m]);
            }
        }
        assert(s.subrange(a, b) =~= core);
    }
}

/// In lower case a text has the same length. At each place with one of the letters A to Z it has
/// the small letter, and at each other place the same character.
pub proof fn law_lower_case_keeps_the_rest(s: Seq<char>, i: int)
    requires
        0 <= i < s.len(),
    ensures
        lowered(s).len() == s.len(),
        'A' <= s[i] <= 'Z' ==> lowered(s)[i] as u32 == s[i] as u32 + 32,
        !('A' <= s[i] <= 'Z') ==> lowered(s)[i] == s[i],
{
}

/// A number is written as its tens, where it has any, with its ones behind them.
pub proof fn law_decimal_adds_a_digit(tens: nat, ones: nat)
    requires
        ones < 10,
    ensures
        decimal(ones).len() == 1,
        decimal(ones)[0] as u32 == '0' as u32 + ones,
        tens > 0 ==> decimal(10 * tens + ones) == decimal(tens) + decimal(ones),
{
    if tens > 0 {
        assert((10 * tens + ones) / 10 == tens && (10 * tens + ones) % 10 == ones);
        assert(decimal(10 * tens + ones) =~= decimal(tens) + decimal(ones));
    }
}

/// A digit alone reads as itself. One more digit makes a number ten times as large and adds the
/// digit, as long as that fits. A plus sign in front of digits changes nothing.
pub proof fn law_digits_read_as_number(s: Seq<char>, c: char)
    requires
        '0' <= c <= '9',
        s.len() > 0,
        forall|i: int| 0 <= i < s.len() ==> '0' <= #[trigger] s[i] <= '9',
    ensures
        number_of(seq![c]) == Some((c as u32 - '0' as u32) as usize),
        number_of(seq!['+'] + s) == number_of(s),
        number_of(s.push(c)) == match number_of(s) {
            None => None,
            Some(n) => if 10 * n + (c as u32 - '0' as u32) <= usize::MAX {
                Some((10 * n + (c as u32 - '0' as u32)) as usize)
            } else {
                None
            },
        },
{
    let one = seq![c];
    reveal_with_fuel(value, 2);
    assert(one.drop_last() =~= seq![]);
    assert(all_digits(one));
    assert(unsigned(one) == one);
    assert((seq!['+'] + s).drop_first() =~= s);
    assert(unsigned(seq!['+'] + s) == s);
    assert(s[0] != '+');
    assert(unsigned(s) == s);
    assert(all_digits(s)) by {
        assert forall|i: int| 0 <= i < s.len() implies is_digit(s[i]) by {
            assert('0' <= s[i] <= '9');
        }
    }
    let more = s.push(c);
    assert(more[0] == s[0]);
    assert(unsigned(more) == more);
    assert(all_digits(more)) by {
        assert forall|i: int| 0 <= i < more.len() implies is_digit(more[i]) by {
            if i < s.len() {
                assert(more[i] == s[i]);
                assert('0' <= s[i] <= '9');
            }
        }
    }
    assert(more.drop_last() =~= s);
}

/// Nothing, a plus sign alone, and a text with anything but digits behind its plus sign are no
/// number.
pub proof fn law_other_texts_are_no_number(s: Seq<char>, i: int)
    ensures
        number_of(seq![]) is None,
        number_of(seq!['+']) is None,
        0 <= i < s.len() && !('0' <= s[i] <= '9') && (i > 0 || s[i] != '+') ==> number_of(s)
            is None,
{
    assert(seq!['+'].drop_first() =~= seq![]);
    if 0 <= i < s.len() && !('0' <= s[i] <= '9') && (i > 0 || s[i] != '+') {
        let digits = unsigned(s);
        if s[0] == '+' {
            assert(digits[i - 1] == s[i]);
            assert(!is_digit(digits[i - 1]));
        } else {
            assert(!is_digit(digits[i]));
        }
    }
}

} // verus!
