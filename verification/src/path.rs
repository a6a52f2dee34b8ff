//! Paths as text. A path is made of segments with slashes between them; two paths are the same
//! path when they have the same components, however many slashes and dots stand in the text.
use vstd::prelude::*;

use vstd::string::*;

use crate::text::{from_chars, same, to_chars};

verus! {

/// A step of a path.
#[derive(Debug, PartialEq, Eq)]
pub enum Component {
    RootDir,
    CurDir,
    ParentDir,
    Normal(String),
}

/// The view of a [`Component`].
pub enum Part {
    RootDir,
    CurDir,
    ParentDir,
    Normal(Seq<char>),
}

impl DeepView for Component {
    type V = Part;

    open spec fn deep_view(&self) -> Part {
        match self {
            Component::RootDir => Part::RootDir,
            Component::CurDir => Part::CurDir,
            Component::ParentDir => Part::ParentDir,
            Component::Normal(name) => Part::Normal(name@),
        }
    }
}

/// Where the last segment of a path begins.
pub open spec fn last_start(s: Seq<char>) -> int
    decreases s.len(),
{
    if s.len() == 0 {
        0
    } else if s.last() == '/' {
        s.len() as int
    } else {
        last_start(s.drop_last())
    }
}

/// Where the last segment begins, a slash stands before it and none in it.
pub proof fn lemma_last_start(s: Seq<char>)
    ensures
        0 <= last_start(s) <= s.len(),
        last_start(s) > 0 ==> s[last_start(s) - 1] == '/',
        forall|i: int| last_start(s) <= i < s.len() ==> s[i] != '/',
    decreases s.len(),
{
    if s.len() > 0 && s.last() != '/' {
        lemma_last_start(s.drop_last());
        assert forall|i: int| last_start(s) <= i < s.len() implies s[i] != '/' by {
            if i < s.len() - 1 {
                assert(s.drop_last()[i] == s[i]);
            }
        }
    }
}

/// The segments of a path: what stands between its slashes.
pub open spec fn segments(s: Seq<char>) -> Seq<Seq<char>>
    decreases s.len(),
{
    proof {
        lemma_last_start(s);
    }
    let k = last_start(s);
    if k == 0 {
        seq![s]
    } else {
        segments(s.take(k - 1)).push(s.skip(k))
    }
}

/// What one segment is: an empty one and a dot are nothing.
pub open spec fn step_of(segment: Seq<char>) -> Option<Part> {
    if segment.len() == 0 || segment == seq!['.'] {
        None
    } else if segment == seq!['.', '.'] {
        Some(Part::ParentDir)
    } else {
        Some(Part::Normal(segment))
    }
}

pub open spec fn absolute(s: Seq<char>) -> bool {
    s.len() > 0 && s[0] == '/'
}

/// Whether the path begins with a dot segment.
pub open spec fn begins_with_dot(s: Seq<char>) -> bool {
    s.len() > 0 && s[0] == '.' && (s.len() == 1 || s[1] == '/')
}

/// The step that a path begins with before its segments are looked at.
pub open spec fn lead(s: Seq<char>) -> Seq<Part> {
    if absolute(s) {
        seq![Part::RootDir]
    } else if begins_with_dot(s) {
        seq![Part::CurDir]
    } else {
        seq![]
    }
}

/// The steps that segments stand for.
pub open spec fn steps(segments: Seq<Seq<char>>) -> Seq<Part>
    decreases segments.len(),
{
    if segments.len() == 0 {
        seq![]
    } else {
        match step_of(segments.last()) {
            Some(step) => steps(segments.drop_last()).push(step),
            None => steps(segments.drop_last()),
        }
    }
}

/// The components of a path.
pub open spec fn components_of(s: Seq<char>) -> Seq<Part> {
    lead(s) + steps(segments(s))
}

/// Whether two texts are the same path.
pub open spec fn same_path(a: Seq<char>, b: Seq<char>) -> bool {
    components_of(a) == components_of(b)
}

/// The name that a path ends in, where its last component is a name.
pub open spec fn name_of(s: Seq<char>) -> Option<Seq<char>> {
    let c = components_of(s);
    if c.len() > 0 {
        match c.last() {
            Part::Normal(name) => Some(name),
            _ => None,
        }
    } else {
        None
    }
}

/// The text of a path before its last segment and the slash in front of that.
pub open spec fn before_last(s: Seq<char>) -> Seq<char> {
    let k = last_start(s);
    let n = lead(s).len() as int;
    if k > n {
        s.take(k - 1)
    } else {
        s.take(n)
    }
}

/// The text of a path without the segments at its end that are nothing.
pub open spec fn trim_tail(s: Seq<char>) -> Seq<char>
    decreases s.len(),
{
    proof {
        lemma_last_start(s);
    }
    if s.len() <= lead(s).len() || step_of(s.skip(last_start(s))) is Some {
        s
    } else {
        trim_tail(before_last(s))
    }
}

/// The path without its last component; a root and an empty path have none.
pub open spec fn parent_of(s: Seq<char>) -> Option<Seq<char>> {
    let t = trim_tail(s);
    if t.len() > lead(t).len() {
        Some(trim_tail(before_last(t)))
    } else if begins_with_dot(t) {
        Some(seq![])
    } else {
        None
    }
}

/// The path `b` as seen from `a`: itself when it is absolute, and below `a` otherwise.
pub open spec fn path_below(a: Seq<char>, b: Seq<char>) -> Seq<char> {
    if absolute(b) {
        b
    } else if a.len() == 0 || a.last() == '/' {
        a + b
    } else {
        a.push('/') + b
    }
}

proof fn lemma_last_start_is(s: Seq<char>, k: int)
    requires
        0 <= k <= s.len(),
        k > 0 ==> s[k - 1] == '/',
        forall|i: int| k <= i < s.len() ==> s[i] != '/',
    ensures
        last_start(s) == k,
{
    lemma_last_start(s);
    let m = last_start(s);
    if m > k {
        assert(s[m - 1] == '/');
    } else if m < k {
        assert(s[k - 1] != '/');
    }
}

/// Where the last segment of the first `to` characters begins.
fn segment_start(v: &Vec<char>, to: usize) -> (k: usize)
    requires
        to <= v@.len(),
    ensures
        k == last_start(v@.take(to as int)),
        k <= to,
{
    let mut k: usize = to;
    while k > 0 && v[k - 1] != '/'
        invariant
            k <= to <= v@.len(),
            forall|i: int| k <= i < to ==> v@[i] != '/',
        decreases k,
    {
        k -= 1;
    }
    proof {
        lemma_last_start_is(v@.take(to as int), k as int);
    }
    k
}

/// Splits a path at its slashes.
pub fn split_segments(s: &str) -> (r: Vec<String>)
    ensures
        r.deep_view() == segments(s@),
{
    let v: Vec<char> = to_chars(s);
    let mut r: Vec<String> = Vec::new();
    let mut start: usize = 0;
    let mut i: usize = 0;
    while i < v.len()
        invariant
            start <= i <= v@.len(),
            start > 0 ==> v@[start - 1] == '/',
            forall|k: int| start <= k < i ==> v@[k] != '/',
            r.deep_view() == if start == 0 {
                seq![]
            } else {
                segments(v@.take(start - 1))
            },
        decreases v.len() - i,
    {
        if v[i] == '/' {
            let ghost before = r.deep_view();
            let segment: String = from_chars(&v, start, i);
            proof {
                let whole = v@.take(i as int);
                lemma_last_start_is(whole, start as int);
                assert(segment@ =~= whole.skip(start as int));
                assert(start > 0 ==> whole.take(start - 1) =~= v@.take(start - 1));
                assert(start == 0 ==> segment@ =~= whole);
            }
            r.push(segment);
            assert(r.deep_view() =~= before.push(segment@));
            assert(r.deep_view() =~= segments(v@.take(i as int)));
            start = i + 1;
        }
        i += 1;
    }
    let ghost before = r.deep_view();
    let segment: String = from_chars(&v, start, v.len());
    proof {
        lemma_last_start_is(v@, start as int);
        assert(segment@ =~= v@.skip(start as int));
        assert(start == 0 ==> segment@ =~= v@);
    }
    r.push(segment);
    assert(r.deep_view() =~= before.push(segment@));
    assert(r.deep_view() =~= segments(v@));
    r
}

/// Whether a path begins at the root.
pub fn is_absolute(s: &str) -> (r: bool)
    ensures
        r == absolute(s@),
{
    let v: Vec<char> = to_chars(s);
    v.len() > 0 && v[0] == '/'
}

fn check_dot(v: &Vec<char>) -> (r: bool)
    ensures
        r == begins_with_dot(v@),
{
    v.len() > 0 && v[0] == '.' && (v.len() == 1 || v[1] == '/')
}

/// Tells what a segment is.
pub fn classify(segment: &str) -> (r: Option<Component>)
    ensures
        r.deep_view() == step_of(segment@),
{
    proof {
        reveal_strlit(".");
        reveal_strlit("..");
        assert("."@ =~= seq!['.']);
        assert(".."@ =~= seq!['.', '.']);
    }
    if segment.is_empty() || same(segment, ".") {
        None
    } else if same(segment, "..") {
        Some(Component::ParentDir)
    } else {
        Some(Component::Normal(segment.to_owned()))
    }
}

/// Takes a path apart.
pub fn components(s: &str) -> (r: Vec<Component>)
    ensures
        r.deep_view() == components_of(s@),
{
    let v: Vec<char> = to_chars(s);
    let mut r: Vec<Component> = Vec::new();
    if v.len() > 0 && v[0] == '/' {
        r.push(Component::RootDir);
    } else if check_dot(&v) {
        r.push(Component::CurDir);
    }
    assert(r.deep_view() =~= lead(s@));
    let parts: Vec<String> = split_segments(s);
    let ghost all = segments(s@);
    assert(all.take(0) =~= seq![]);
    assert(lead(s@) + steps(all.take(0)) =~= lead(s@));
    let mut i: usize = 0;
    while i < parts.len()
        invariant
            i <= parts@.len(),
            all == parts.deep_view(),
            r.deep_view() == lead(s@) + steps(all.take(i as int)),
        decreases parts.len() - i,
    {
        let ghost before = r.deep_view();
        proof {
            let more = all.take(i + 1);
            assert(more.drop_last() =~= all.take(i as int));
            assert(more.last() == parts@[i as int]@);
        }
        if let Some(component) = classify(parts[i].as_str()) {
            let ghost step = component.deep_view();
            r.push(component);
            assert(r.deep_view() =~= before.push(step));
        }
        assert(r.deep_view() =~= lead(s@) + steps(all.take(i + 1)));
        i += 1;
    }
    assert(all.take(i as int) =~= all);
    r
}

fn same_component(a: &Component, b: &Component) -> (r: bool)
    ensures
        r == (a.deep_view() == b.deep_view()),
{
    match (a, b) {
        (Component::RootDir, Component::RootDir) => true,
        (Component::CurDir, Component::CurDir) => true,
        (Component::ParentDir, Component::ParentDir) => true,
        (Component::Normal(x), Component::Normal(y)) => same(x.as_str(), y.as_str()),
        _ => false,
    }
}

/// Tells whether two texts are the same path.
pub fn path_eq(a: &str, b: &str) -> (r: bool)
    ensures
        r == same_path(a@, b@),
{
    let x: Vec<Component> = components(a);
    let y: Vec<Component> = components(b);
    if x.len() != y.len() {
        assert(x.deep_view().len() != y.deep_view().len());
        return false;
    }
    let mut i: usize = 0;
    while i < x.len()
        invariant
            i <= x@.len() == y@.len(),
            x.deep_view() == components_of(a@),
            y.deep_view() == components_of(b@),
            forall|k: int| 0 <= k < i ==> x.deep_view()[k] == y.deep_view()[k],
        decreases x.len() - i,
    {
        if !same_component(&x[i], &y[i]) {
            assert(x.deep_view()[i as int] != y.deep_view()[i as int]);
            return false;
        }
        i += 1;
    }
    assert(x.deep_view() =~= y.deep_view());
    true
}

/// The name that a path ends in.
pub fn file_name(s: &str) -> (r: Option<String>)
    ensures
        r.deep_view() == name_of(s@),
{
    let mut parts: Vec<Component> = components(s);
    let ghost all = parts.deep_view();
    match parts.pop() {
        Some(last) => {
            assert(last.deep_view() == all.last());
            match last {
                Component::Normal(name) => Some(name),
                _ => None,
            }
        },
        None => None,
    }
}

/// Puts `b` below `a`.
pub fn join(a: &str, b: &str) -> (r: String)
    ensures
        r@ == path_below(a@, b@),
{
    if is_absolute(b) {
        return b.to_owned();
    }
    let v: Vec<char> = to_chars(a);
    let mut r: String = a.to_owned();
    if v.len() > 0 && v[v.len() - 1] != '/' {
        r.push('/');
    }
    r.append(b);
    r
}

proof fn lemma_before_last(s: Seq<char>)
    requires
        s.len() > lead(s).len(),
    ensures
        before_last(s).len() < s.len(),
        lead(before_last(s)) == lead(s),
        components_of(s) == match step_of(s.skip(last_start(s))) {
            Some(step) => components_of(before_last(s)).push(step),
            None => components_of(before_last(s)),
        },
{
    lemma_last_start(s);
    let k = last_start(s);
    let n = lead(s).len() as int;
    let b = before_last(s);
    if absolute(s) {
        assert(k > 0);
    } else if begins_with_dot(s) {
        assert(s[1] == '/');
        assert(k >= 2);
    }
    assert(lead(b) =~= lead(s));
    assert(segments(s).last() == s.skip(k)) by {
        assert(s.skip(0) =~= s);
    }
    assert(steps(segments(s).drop_last()) =~= steps(segments(b))) by {
        if k > n {
            assert(segments(s).drop_last() =~= segments(b));
        } else if n == 0 {
            assert(k == 0);
            assert(segments(s).drop_last() =~= seq![]);
            lemma_empty_steps();
            assert(b =~= seq![]);
        } else {
            assert(k == 1);
            assert(b =~= seq!['/']);
            assert(s.take(0) =~= seq![]);
            assert(segments(s).drop_last() =~= segments(seq![]));
            lemma_empty_steps();
        }
    }
    assert(components_of(s) =~= match step_of(s.skip(k)) {
        Some(step) => components_of(b).push(step),
        None => components_of(b),
    });
}

proof fn lemma_empty_steps()
    ensures
        steps(segments(seq![])) == Seq::<Part>::empty(),
        steps(segments(seq!['/'])) == Seq::<Part>::empty(),
{
    let none: Seq<char> = seq![];
    let root: Seq<char> = seq!['/'];
    reveal_with_fuel(steps, 3);
    assert(segments(none) =~= seq![none]);
    assert(segments(none).drop_last() =~= seq![]);
    assert(last_start(root) == 1);
    assert(root.take(0) =~= none);
    assert(root.skip(1) =~= none);
    assert(segments(root) =~= seq![none, none]);
    assert(segments(root).drop_last() =~= seq![none]);
    assert(seq![none].drop_last() =~= seq![]);
    assert(step_of(none) is None);
}

proof fn lemma_trim_tail(s: Seq<char>)
    ensures
        trim_tail(s).len() <= s.len(),
        trim_tail(s) == s.take(trim_tail(s).len() as int),
        lead(trim_tail(s)) == lead(s),
        components_of(trim_tail(s)) == components_of(s),
        trim_tail(s).len() > lead(s).len() ==> step_of(
            trim_tail(s).skip(last_start(trim_tail(s))),
        ) is Some,
    decreases s.len(),
{
    assert(s.take(s.len() as int) =~= s);
    if s.len() > lead(s).len() && step_of(s.skip(last_start(s))) is None {
        lemma_before_last(s);
        lemma_last_start(s);
        lemma_trim_tail(before_last(s));
        let n = trim_tail(s).len() as int;
        assert(before_last(s).take(n) =~= s.take(n));
    }
}

/// The path that is left when the last component goes has all the other components.
pub proof fn law_parent_drops_last_component(s: Seq<char>)
    ensures
        parent_of(s) is Some <==> components_of(s).len() > 0 && components_of(s).last()
            != Part::RootDir,
        parent_of(s) matches Some(p) ==> components_of(p) == components_of(s).drop_last(),
{
    lemma_trim_tail(s);
    let t = trim_tail(s);
    if t.len() > lead(t).len() {
        lemma_before_last(t);
        lemma_trim_tail(before_last(t));
        assert(components_of(before_last(t)) =~= components_of(t).drop_last());
    } else if absolute(t) {
        assert(t =~= seq!['/']);
        lemma_empty_steps();
        assert(components_of(t) =~= seq![Part::RootDir]);
    } else if begins_with_dot(t) {
        let none: Seq<char> = seq![];
        assert(t =~= seq!['.']);
        reveal_with_fuel(steps, 2);
        reveal_with_fuel(last_start, 2);
        assert(segments(t) =~= seq![t]);
        assert(segments(t).drop_last() =~= seq![]);
        assert(components_of(t) =~= seq![Part::CurDir]);
        lemma_empty_steps();
        assert(components_of(none) =~= seq![]);
    } else {
        assert(t =~= seq![]);
        lemma_empty_steps();
    }
}

/// A name that can stand as a segment of a path.
pub open spec fn is_name(s: Seq<char>) -> bool {
    &&& step_of(s) == Some(Part::Normal(s))
    &&& forall|i: int| 0 <= i < s.len() ==> s[i] != '/'
}

/// What is put below a path under a name has the path's components and that name.
pub proof fn law_join_adds_name(a: Seq<char>, name: Seq<char>)
    requires
        is_name(name),
    ensures
        components_of(path_below(a, name)) == components_of(a).push(Part::Normal(name)),
        name_of(path_below(a, name)) == Some(name),
        parent_of(path_below(a, name)) matches Some(p) && same_path(p, a),
{
    let b = path_below(a, name);
    if a.len() == 0 {
        assert(b =~= name);
        lemma_last_start_is(b, 0);
        assert(segments(b) =~= seq![b]);
        assert(segments(b).drop_last() =~= seq![]);
        lemma_empty_steps();
        assert(a =~= seq![]);
        assert(lead(b) =~= seq![]) by {
            if begins_with_dot(b) {
                assert(b =~= seq!['.']);
            }
        }
        reveal_with_fuel(steps, 2);
    } else {
        let k = if a.last() == '/' {
            a.len() as int
        } else {
            a.len() as int + 1
        };
        lemma_last_start_is(b, k);
        assert(b.skip(k) =~= name);
        assert(segments(b).drop_last() =~= segments(b.take(k - 1)));
        assert(lead(b) =~= lead(a)) by {
            if a.len() == 1 && begins_with_dot(b) && !begins_with_dot(a) {
                assert(a[0] == '/');
            }
        }
        if a.last() == '/' {
            lemma_last_start_is(a, k);
            assert(b.take(k - 1) =~= a.take(k - 1));
            assert(a.skip(k) =~= seq![]);
            assert(segments(a).drop_last() =~= segments(a.take(k - 1)));
        } else {
            assert(b.take(k - 1) =~= a);
        }
    }
    assert(components_of(b) =~= components_of(a).push(Part::Normal(name)));
    law_parent_drops_last_component(b);
    assert(components_of(b).drop_last() =~= components_of(a));
}

/// How many of the first `to` characters are left without the segments at the end that are
/// nothing.
fn trim_tail_to(v: &Vec<char>, to: usize, lead_len: usize) -> (r: usize)
    requires
        to <= v@.len(),
        lead_len == lead(v@.take(to as int)).len(),
    ensures
        r <= to,
        v@.take(r as int) == trim_tail(v@.take(to as int)),
    decreases to,
{
    let k: usize = segment_start(v, to);
    if to <= lead_len {
        return to;
    }
    let ghost s = v@.take(to as int);
    proof {
        lemma_before_last(s);
        lemma_last_start(s);
    }
    let segment: String = from_chars(v, k, to);
    assert(segment@ =~= s.skip(k as int));
    if classify(segment.as_str()).is_some() {
        return to;
    }
    let less: usize = before_last_to(k, lead_len);
    assert(v@.take(less as int) =~= before_last(s));
    trim_tail_to(v, less, lead_len)
}

/// How many characters stand before the last segment, which begins at `k`, and its slash.
fn before_last_to(k: usize, lead_len: usize) -> (r: usize)
    ensures
        r == if k > lead_len {
            k - 1
        } else {
            lead_len as int
        },
{
    if k > lead_len {
        k - 1
    } else {
        lead_len
    }
}

/// The path without its last component.
pub fn parent(s: &str) -> (r: Option<String>)
    ensures
        r.deep_view() == parent_of(s@),
{
    let v: Vec<char> = to_chars(s);
    let dot: bool = check_dot(&v);
    let lead_len: usize = if dot || (v.len() > 0 && v[0] == '/') {
        1
    } else {
        0
    };
    assert(v@.take(v@.len() as int) =~= v@);
    let t: usize = trim_tail_to(&v, v.len(), lead_len);
    let ghost trimmed = v@.take(t as int);
    proof {
        lemma_trim_tail(v@);
    }
    if t > lead_len {
        proof {
            lemma_before_last(trimmed);
            lemma_last_start(trimmed);
        }
        let k: usize = segment_start(&v, t);
        let less: usize = before_last_to(k, lead_len);
        assert(v@.take(less as int) =~= before_last(trimmed));
        let end: usize = trim_tail_to(&v, less, lead_len);
        let r: String = from_chars(&v, 0, end);
        assert(r@ =~= v@.take(end as int));
        Some(r)
    } else if dot {
        Some(String::new())
    } else {
        None
    }
}

proof fn lemma_segments_have_no_slash(s: Seq<char>)
    ensures
        forall|i: int, j: int|
            0 <= i < segments(s).len() && 0 <= j < segments(s)[i].len()
                ==> #[trigger] segments(s)[i][j] != '/',
    decreases s.len(),
{
    lemma_last_start(s);
    let k = last_start(s);
    if k > 0 {
        let front = segments(s.take(k - 1));
        lemma_segments_have_no_slash(s.take(k - 1));
        assert forall|i: int, j: int|
            0 <= i < segments(s).len() && 0 <= j < segments(s)[i].len() implies #[trigger] segments(
            s,
        )[i][j] != '/' by {
            if i < front.len() {
                assert(segments(s)[i] == front[i]);
                assert(front[i][j] != '/');
            } else {
                assert(s.skip(k)[j] == s[k + j]);
            }
        }
    }
}

proof fn lemma_last_step_is_name(parts: Seq<Seq<char>>)
    requires
        forall|i: int, j: int|
            0 <= i < parts.len() && 0 <= j < parts[i].len() ==> #[trigger] parts[i][j] != '/',
        steps(parts).len() > 0,
    ensures
        steps(parts).last() matches Part::Normal(name) ==> is_name(name),
    decreases parts.len(),
{
    if step_of(parts.last()) is None {
        lemma_last_step_is_name(parts.drop_last());
    } else {
        assert forall|j: int| 0 <= j < parts.last().len() implies parts.last()[j] != '/' by {
            assert(parts[parts.len() - 1][j] != '/');
        }
    }
}

/// The name that a path ends in can stand as a segment of a path.
pub proof fn law_name_can_stand_in_path(s: Seq<char>)
    ensures
        name_of(s) matches Some(name) ==> is_name(name),
{
    if name_of(s) is Some {
        lemma_segments_have_no_slash(s);
        assert(steps(segments(s)).len() > 0);
        assert(components_of(s).last() == steps(segments(s)).last());
        lemma_last_step_is_name(segments(s));
    }
}

/// A path without a slash has one component: the current directory for a dot, the one above for
/// two dots, and a name otherwise. An empty path has none.
pub proof fn law_path_of_one_segment(segment: Seq<char>)
    requires
        forall|i: int| 0 <= i < segment.len() ==> segment[i] != '/',
    ensures
        components_of(segment) == if segment.len() == 0 {
            Seq::<Part>::empty()
        } else if segment == seq!['.'] {
            seq![Part::CurDir]
        } else if segment == seq!['.', '.'] {
            seq![Part::ParentDir]
        } else {
            seq![Part::Normal(segment)]
        },
{
    lemma_last_start_is(segment, 0);
    assert(segments(segment) =~= seq![segment]);
    assert(segments(segment).drop_last() =~= seq![]);
    reveal_with_fuel(steps, 2);
    if segment.len() == 1 && segment[0] == '.' {
        assert(segment =~= seq!['.']);
    }
    if segment.len() == 2 && segment[0] == '.' && segment[1] == '.' {
        assert(segment =~= seq!['.', '.']);
    }
    assert(components_of(segment) =~= if segment.len() == 0 {
        Seq::<Part>::empty()
    } else if segment == seq!['.'] {
        seq![Part::CurDir]
    } else if segment == seq!['.', '.'] {
        seq![Part::ParentDir]
    } else {
        seq![Part::Normal(segment)]
    });
}

/// One more segment behind a slash adds one more component: the directory above for two dots, and
/// a name otherwise. A dot, and nothing at all, add none. A slash in front is the root.
pub proof fn law_path_grows_by_segment(a: Seq<char>, segment: Seq<char>)
    requires
        forall|i: int| 0 <= i < segment.len() ==> segment[i] != '/',
    ensures
        ({
            let before = if a.len() == 0 {
                seq![Part::RootDir]
            } else {
                components_of(a)
            };
            components_of(a + seq!['/'] + segment) == if segment.len() == 0 || segment
                == seq!['.'] {
                before
            } else if segment == seq!['.', '.'] {
                before.push(Part::ParentDir)
            } else {
                before.push(Part::Normal(segment))
            }
        }),
{
    let b = a + seq!['/'] + segment;
    let k = a.len() as int + 1;
    lemma_last_start_is(b, k);
    assert(b.take(k - 1) =~= a);
    assert(b.skip(k) =~= segment);
    assert(segments(b) == segments(a).push(segment));
    assert(segments(b).drop_last() =~= segments(a));
    let before = if a.len() == 0 {
        seq![Part::RootDir]
    } else {
        components_of(a)
    };
    if a.len() == 0 {
        assert(b[0] == '/');
        assert(a =~= seq![]);
        lemma_empty_steps();
        assert(lead(b) + steps(segments(a)) =~= before);
    } else {
        assert(b[0] == a[0]);
        if a.len() == 1 {
            assert(b[1] == '/');
        } else {
            assert(b[1] == a[1]);
        }
        assert(lead(b) =~= lead(a));
    }
    assert(components_of(b) =~= if segment.len() == 0 || segment == seq!['.'] {
        before
    } else if segment == seq!['.', '.'] {
        before.push(Part::ParentDir)
    } else {
        before.push(Part::Normal(segment))
    });
}

/// Whether a text is the name of a file or a directory: it is not empty, not one or two dots, and
/// no slash stands in it.
pub open spec fn is_file_name(s: Seq<char>) -> bool {
    &&& s.len() > 0
    &&& s != seq!['.']
    &&& s != seq!['.', '.']
    &&& forall|i: int| 0 <= i < s.len() ==> s[i] != '/'
}

/// A path that ends in a slash and a name has that name, also with more slashes behind it, and so
/// has the name alone. One that ends in two dots has no name, nor has the root.
pub proof fn law_name_is_behind_last_slash(a: Seq<char>, name: Seq<char>)
    requires
        is_file_name(name),
    ensures
        name_of(name) == Some(name),
        name_of(a + seq!['/'] + name) == Some(name),
        name_of(a + seq!['/'] + name + seq!['/']) == Some(name),
        name_of(a + seq!['/'] + seq!['.', '.']) is None,
        name_of(seq!['/']) is None,
        name_of(seq!['.', '.']) is None,
        name_of(seq!['.']) is None,
        name_of(seq![]) is None,
{
    let none: Seq<char> = seq![];
    let up = seq!['.', '.'];
    law_path_of_one_segment(name);
    law_path_grows_by_segment(a, name);
    law_path_grows_by_segment(a + seq!['/'] + name, none);
    assert(a + seq!['/'] + name + seq!['/'] + none =~= a + seq!['/'] + name + seq!['/']);
    assert(up[0] == '.' && up[1] == '.');
    law_path_grows_by_segment(a, up);
    law_path_grows_by_segment(none, none);
    assert(none + seq!['/'] + none =~= seq!['/']);
    law_path_of_one_segment(up);
    law_path_of_one_segment(seq!['.']);
    law_path_of_one_segment(none);
}

/// Whether a path ends in a name or in two dots, so that none of its characters is there for
/// nothing at its end.
pub open spec fn ends_in_step(a: Seq<char>) -> bool {
    &&& a.len() > 0
    &&& a.last() != '/'
    &&& a.last() != '.' || (a.len() >= 2 && a[a.len() - 2] != '/')
}

/// The path above a path that ends in a slash and a name is what stands before that slash, and the
/// root where nothing does. Above a name alone is the empty path, and above the root is nothing.
pub proof fn law_parent_is_before_last_slash(a: Seq<char>, name: Seq<char>)
    requires
        is_file_name(name),
    ensures
        ends_in_step(a) ==> parent_of(a + seq!['/'] + name) == Some(a),
        parent_of(seq!['/'] + name) == Some(seq!['/']),
        parent_of(name) == Some(Seq::<char>::empty()),
        parent_of(seq!['/']) is None,
        parent_of(seq![]) is None,
{
    let none: Seq<char> = seq![];
    let root = seq!['/'];
    assert(trim_tail(root) =~= root);
    assert(trim_tail(none) =~= none);
    let b = a + seq!['/'] + name;
    let k = a.len() as int + 1;
    lemma_last_start_is(b, k);
    assert(b.skip(k) =~= name);
    if ends_in_step(a) {
        assert(trim_tail(b) == b);
        assert(b[0] == a[0]);
        assert(lead(b).len() <= 1);
        assert(before_last(b) =~= a);
        lemma_last_start(a);
        let k = last_start(a);
        let last = a.skip(k);
        if a.len() > lead(a).len() {
            if k == a.len() {
                assert(a[k - 1] == '/');
            }
            assert(last.last() == a.last());
            assert(last != seq!['.']) by {
                if last == seq!['.'] {
                    assert(last.len() == 1 && last[0] == '.');
                    assert(k == a.len() - 1);
                    assert(a[k - 1] == '/');
                }
            }
            assert(step_of(last) is Some);
        }
        assert(trim_tail(a) == a);
    }
    let c = root + name;
    lemma_last_start_is(c, 1);
    assert(c.skip(1) =~= name);
    assert(trim_tail(c) == c);
    assert(before_last(c) =~= root);
    lemma_last_start_is(name, 0);
    assert(name.skip(0) =~= name);
    assert(lead(name) =~= seq![]) by {
        if begins_with_dot(name) {
            assert(name =~= seq!['.']);
        }
    }
    assert(trim_tail(name) == name);
    assert(before_last(name) =~= none);
}

/// An absolute path is one that begins with a slash. It stays as it is below any other; a relative
/// one is put behind the other, with one slash between them.
pub proof fn law_path_below_is_put_behind(a: Seq<char>, b: Seq<char>)
    ensures
        absolute(seq!['/'] + b),
        b.len() == 0 || b[0] != '/' ==> !absolute(b),
        path_below(a, seq!['/'] + b) == seq!['/'] + b,
        b.len() == 0 || b[0] != '/' ==> {
            &&& path_below(seq![], b) == b
            &&& path_below(a + seq!['/'], b) == a + seq!['/'] + b
            &&& a.len() > 0 && a.last() != '/' ==> path_below(a, b) == a + seq!['/'] + b
        },
{
    let root = a + seq!['/'];
    assert(root.last() == '/');
    assert(a.push('/') =~= a + seq!['/']);
    assert(Seq::<char>::empty() + b =~= b);
}

/// Two texts are the same path exactly where they lead through the same components.
pub proof fn law_slashes_and_dots_do_not_matter(a: Seq<char>, b: Seq<char>)
    ensures
        same_path(a, b) <==> components_of(a) == components_of(b),
        a.len() > 0 ==> same_path(a, a + seq!['/']) && same_path(a, a + seq!['/', '.']),
{
    let none: Seq<char> = seq![];
    law_path_grows_by_segment(a, none);
    law_path_grows_by_segment(a, seq!['.']);
    assert(a + seq!['/'] + none =~= a + seq!['/']);
    assert(a + seq!['/'] + seq!['.'] =~= a + seq!['/', '.']);
}

/// The name of a path is its last component, where that is a name, and nothing else is.
pub proof fn law_name_is_last_component(s: Seq<char>, name: Seq<char>)
    ensures
        name_of(s) == Some(name) <==> components_of(s).len() > 0 && components_of(s).last()
            == Part::Normal(name),
{
}

} // verus!
