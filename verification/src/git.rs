//! Worktrees and their repository: what Git lists, what is shown of it, and which names and
//! paths come from a branch.
use vstd::prelude::*;
use vstd::string::*;
use vstd::utf8::*;

use crate::error::{outcome, AppError, AppResult};
use crate::listing::{parse_worktree_list, parsed};
use crate::path::{
    components_of, ends_in_step, file_name, is_file_name, is_name, join, law_join_adds_name,
    law_name_can_stand_in_path, law_name_is_behind_last_slash, law_parent_drops_last_component,
    law_parent_is_before_last_slash, law_path_below_is_put_behind, name_of, parent, parent_of,
    path_below, step_of, Part,
};
use crate::process::{
    answers, capture_git, git, git_output, git_result, git_run, run_git, words, Effect, EffectView,
    Invocation, Ran, RanView, Reply, ReplyView, Step, StepView,
};
use crate::text::{cat, same};

verus! {

/// A repository, and where its worktrees go unless told otherwise.
#[derive(Debug, PartialEq, Eq)]
pub struct Repo {
    pub root: String,
    pub default_worktree_parent: String,
}

/// The view of a [`Repo`].
#[verifier::ext_equal]
pub struct RepoView {
    pub root: Seq<char>,
    pub default_worktree_parent: Seq<char>,
}

impl DeepView for Repo {
    type V = RepoView;

    open spec fn deep_view(&self) -> RepoView {
        RepoView { root: self.root@, default_worktree_parent: self.default_worktree_parent@ }
    }
}

impl Clone for Repo {
    fn clone(&self) -> (r: Repo)
        ensures
            r.deep_view() == self.deep_view(),
    {
        Repo {
            root: self.root.clone(),
            default_worktree_parent: self.default_worktree_parent.clone(),
        }
    }
}

/// One worktree, as Git lists it.
#[derive(Debug, PartialEq, Eq)]
pub struct Worktree {
    pub path: String,
    pub head: Option<String>,
    pub branch: Option<String>,
    pub bare: bool,
    pub detached: bool,
    pub prunable: bool,
}

/// The view of a [`Worktree`].
#[verifier::ext_equal]
pub struct WorktreeView {
    pub path: Seq<char>,
    pub head: Option<Seq<char>>,
    pub branch: Option<Seq<char>>,
    pub bare: bool,
    pub detached: bool,
    pub prunable: bool,
}

impl DeepView for Worktree {
    type V = WorktreeView;

    open spec fn deep_view(&self) -> WorktreeView {
        WorktreeView {
            path: self.path@,
            head: self.head.deep_view(),
            branch: self.branch.deep_view(),
            bare: self.bare,
            detached: self.detached,
            prunable: self.prunable,
        }
    }
}

impl Clone for Worktree {
    fn clone(&self) -> (r: Worktree)
        ensures
            r.deep_view() == self.deep_view(),
    {
        Worktree {
            path: self.path.clone(),
            head: self.head.clone(),
            branch: self.branch.clone(),
            bare: self.bare,
            detached: self.detached,
            prunable: self.prunable,
        }
    }
}

/// What a new worktree is asked to be.
#[derive(Debug, PartialEq, Eq)]
pub struct NewOptions {
    pub branch: Option<String>,
    pub base: Option<String>,
    pub path: Option<String>,
    /// The command to run in the worktree once it is there.
    pub agent_command: Option<String>,
}

/// The view of [`NewOptions`].
#[verifier::ext_equal]
pub struct NewOptionsView {
    pub branch: Option<Seq<char>>,
    pub base: Option<Seq<char>>,
    pub path: Option<Seq<char>>,
    pub agent_command: Option<Seq<char>>,
}

impl DeepView for NewOptions {
    type V = NewOptionsView;

    open spec fn deep_view(&self) -> NewOptionsView {
        NewOptionsView {
            branch: self.branch.deep_view(),
            base: self.base.deep_view(),
            path: self.path.deep_view(),
            agent_command: self.agent_command.deep_view(),
        }
    }
}

impl Default for NewOptions {
    fn default() -> (r: NewOptions)
        ensures
            r.deep_view() == (NewOptionsView {
                branch: None,
                base: None,
                path: None,
                agent_command: None,
            }),
    {
        NewOptions { branch: None, base: None, path: None, agent_command: None }
    }
}

impl Clone for NewOptions {
    fn clone(&self) -> (r: NewOptions)
        ensures
            r.deep_view() == self.deep_view(),
    {
        NewOptions {
            branch: self.branch.clone(),
            base: self.base.clone(),
            path: self.path.clone(),
            agent_command: self.agent_command.clone(),
        }
    }
}

/// Which worktree is to be opened.
#[derive(Debug, PartialEq, Eq)]
pub struct OpenOptions {
    pub path: Option<String>,
}

impl DeepView for OpenOptions {
    type V = Option<Seq<char>>;

    open spec fn deep_view(&self) -> Option<Seq<char>> {
        self.path.deep_view()
    }
}

impl Default for OpenOptions {
    fn default() -> (r: OpenOptions)
        ensures
            r.deep_view() is None,
    {
        OpenOptions { path: None }
    }
}

impl Clone for OpenOptions {
    fn clone(&self) -> (r: OpenOptions)
        ensures
            r.deep_view() == self.deep_view(),
    {
        OpenOptions { path: self.path.clone() }
    }
}

/// The character that stands for `c` in the name of a directory.
pub open spec fn dir_char(c: char) -> char {
    if c == '/' || c == '\\' || c == ':' || c == ' ' || c == '\t' {
        '-'
    } else {
        c
    }
}

/// The name of the directory for a branch.
pub open spec fn dir_name_of(branch: Seq<char>) -> Seq<char> {
    branch.map_values(|c: char| dir_char(c))
}

/// Makes the name of a directory from that of a branch.
pub fn branch_to_dir_name(branch: &str) -> (r: String)
    ensures
        r@ == dir_name_of(branch@),
{
    let mut r: String = String::new();
    for c in it: branch.chars()
        invariant
            it.seq() == branch@,
            r@ == dir_name_of(branch@).take(it.index()),
    {
        if c == '/' || c == '\\' || c == ':' || c == ' ' || c == '\t' {
            r.push('-');
        } else {
            r.push(c);
        }
    }
    r
}

/// Where the worktree of a branch goes unless told otherwise.
pub open spec fn default_path_of(repo: RepoView, branch: Seq<char>) -> Seq<char> {
    path_below(repo.default_worktree_parent, dir_name_of(branch))
}

/// The path that a branch's worktree gets unless told otherwise.
pub fn default_worktree_path(repo: &Repo, branch: &str) -> (r: String)
    ensures
        r@ == default_path_of(repo.deep_view(), branch@),
{
    join(repo.default_worktree_parent.as_str(), branch_to_dir_name(branch).as_str())
}

/// What is shown for a worktree's branch.
pub open spec fn label_of(worktree: WorktreeView) -> Seq<char> {
    match worktree.branch {
        Some(branch) => branch,
        None => if worktree.detached {
            "detached"@
        } else if worktree.bare {
            "bare"@
        } else {
            "unknown"@
        },
    }
}

/// The first seven bytes of a commit's name, where they are whole characters; all of it
/// otherwise.
pub open spec fn short_of(head: Seq<char>) -> Seq<char> {
    let bytes = encode_utf8(head);
    if is_char_boundary(bytes, 7) {
        decode_utf8(bytes.subrange(0, 7))
    } else {
        head
    }
}

impl Worktree {
    pub fn branch_label(&self) -> (r: &str)
        ensures
            r@ == label_of(self.deep_view()),
    {
        match &self.branch {
            Some(branch) => branch.as_str(),
            None => if self.detached {
                "detached"
            } else if self.bare {
                "bare"
            } else {
                "unknown"
            },
        }
    }

    /// The commit that is checked out, cut short.
    pub fn short_head(&self) -> (r: &str)
        ensures
            r@ == match self.deep_view().head {
                Some(head) => short_of(head),
                None => "-"@,
            },
    {
        broadcast use encode_utf8_decode_utf8;

        match &self.head {
            Some(head) => {
                let text: &str = head.as_str();
                if text.is_char_boundary(7) {
                    let (front, _back) = text.split_at(7);
                    assert(decode_utf8(encode_utf8(front@)) == front@);
                    front
                } else {
                    text
                }
            },
            None => "-",
        }
    }
}

/// A worktree in one line: its path, its branch, and whether it can be pruned.
pub open spec fn worktree_line(worktree: WorktreeView) -> Seq<char> {
    worktree.path + "  ["@ + label_of(worktree) + (if worktree.prunable {
        " prunable"@
    } else {
        ""@
    }) + "]"@
}

/// Writes a worktree in one line.
pub fn format_worktree(worktree: &Worktree) -> (r: String)
    ensures
        r@ == worktree_line(worktree.deep_view()),
{
    let prunable: &str = if worktree.prunable {
        " prunable"
    } else {
        ""
    };
    let mut r: String = cat(worktree.path.as_str(), "  [");
    r.append(worktree.branch_label());
    r.append(prunable);
    r.append("]");
    r
}

/// The arguments for Git to list its worktrees.
pub open spec fn list_args() -> Seq<Seq<char>> {
    seq!["worktree"@, "list"@, "--porcelain"@]
}

fn list_words() -> (r: Vec<String>)
    ensures
        r.deep_view() == list_args(),
{
    words(&vec!["worktree", "list", "--porcelain"])
}

/// The command that lists the worktrees of a repository.
pub fn list_worktrees(repo: &Repo) -> (r: Invocation)
    ensures
        r.deep_view() == git_run(list_args(), Some(repo.deep_view().root)),
{
    git(list_words(), Some(repo.root.clone()))
}

/// The command that lists the worktrees of the repository that this process works in.
pub fn list_worktrees_from_cwd() -> (r: Invocation)
    ensures
        r.deep_view() == git_run(list_args(), None),
{
    git(list_words(), None)
}

/// The worktrees that a listing came to.
pub open spec fn listed(ran: RanView) -> Result<Seq<WorktreeView>, Seq<char>> {
    match git_output(list_args(), ran) {
        Ok(output) => Ok(parsed(output)),
        Err(message) => Err(message),
    }
}

/// Takes the end of a listing.
pub fn worktrees_listed(ran: Ran) -> (r: AppResult<Vec<Worktree>>)
    ensures
        outcome(r) == listed(ran.deep_view()),
{
    match capture_git(&list_words(), ran) {
        Ok(output) => Ok(parse_worktree_list(output.as_str())),
        Err(error) => Err(error),
    }
}

/// The arguments for Git to forget the worktrees that are gone.
pub open spec fn prune_args() -> Seq<Seq<char>> {
    seq!["worktree"@, "prune"@]
}

/// The command that makes a repository forget the worktrees that are gone.
pub fn prune_worktrees(repo: &Repo) -> (r: Invocation)
    ensures
        r.deep_view() == git_run(prune_args(), Some(repo.deep_view().root)),
{
    git(words(&vec!["worktree", "prune"]), Some(repo.root.clone()))
}

/// Takes the end of a pruning.
pub fn worktrees_pruned(ran: Ran) -> (r: AppResult<()>)
    ensures
        outcome(r) == git_result(prune_args(), ran.deep_view()),
{
    let args: Vec<String> = words(&vec!["worktree", "prune"]);
    assert(args.deep_view() =~= prune_args());
    run_git(&args, ran)
}

/// The arguments for Git to remove the worktree at a path.
pub open spec fn remove_args(path: Seq<char>) -> Seq<Seq<char>> {
    seq!["worktree"@, "remove"@, path]
}

/// The command that removes the worktree at a path.
pub fn remove_worktree(repo: &Repo, path: &str) -> (r: Invocation)
    ensures
        r.deep_view() == git_run(remove_args(path@), Some(repo.deep_view().root)),
{
    git(words(&vec!["worktree", "remove", path]), Some(repo.root.clone()))
}

/// Takes the end of a removal.
pub fn worktree_removed(path: &str, ran: Ran) -> (r: AppResult<()>)
    ensures
        outcome(r) == git_result(remove_args(path@), ran.deep_view()),
{
    let args: Vec<String> = words(&vec!["worktree", "remove", path]);
    assert(args.deep_view() =~= remove_args(path@));
    run_git(&args, ran)
}

/// Whether a branch is checked out in one of the worktrees.
pub open spec fn checked_out(worktrees: Seq<WorktreeView>, branch: Seq<char>) -> bool {
    exists|i: int| 0 <= i < worktrees.len() && (#[trigger] worktrees[i]).branch == Some(branch)
}

/// Tells whether a branch is checked out in one of the worktrees.
pub fn branch_is_checked_out(worktrees: &Vec<Worktree>, branch: &str) -> (r: bool)
    ensures
        r == checked_out(worktrees.deep_view(), branch@),
{
    let mut i: usize = 0;
    while i < worktrees.len()
        invariant
            i <= worktrees@.len(),
            forall|k: int|
                0 <= k < i ==> (#[trigger] worktrees.deep_view()[k]).branch != Some(branch@),
        decreases worktrees.len() - i,
    {
        match &worktrees[i].branch {
            Some(name) => if same(name.as_str(), branch) {
                assert(worktrees.deep_view()[i as int].branch == Some(branch@));
                return true;
            },
            None => {},
        }
        assert(worktrees.deep_view()[i as int].branch != Some(branch@));
        i += 1;
    }
    false
}

/// The main checkout: the first worktree that Git lists, or else the root that was found.
pub open spec fn primary_of(root: Seq<char>, worktrees: Seq<WorktreeView>) -> Seq<char> {
    if worktrees.len() > 0 {
        worktrees[0].path
    } else {
        root
    }
}

/// The repository with the given root and worktrees: new worktrees go next to the main checkout,
/// into a directory with its name and `-worktrees` behind it.
pub open spec fn repo_of(root: Seq<char>, worktrees: Seq<WorktreeView>) -> Result<
    RepoView,
    Seq<char>,
> {
    let primary = primary_of(root, worktrees);
    match name_of(primary) {
        None => Err("could not determine repository name"@),
        Some(name) => match parent_of(primary) {
            None => Err("could not determine repository parent directory"@),
            Some(above) => Ok(
                RepoView {
                    root,
                    default_worktree_parent: path_below(above, name + "-worktrees"@),
                },
            ),
        },
    }
}

/// Finds where new worktrees go.
pub fn repo_at(root: String, worktrees: &Vec<Worktree>) -> (r: AppResult<Repo>)
    ensures
        outcome(r) == repo_of(root@, worktrees.deep_view()),
{
    let primary: &str = if worktrees.len() > 0 {
        worktrees[0].path.as_str()
    } else {
        root.as_str()
    };
    assert(primary@ == primary_of(root@, worktrees.deep_view()));
    match file_name(primary) {
        None => Err(AppError::new("could not determine repository name")),
        Some(name) => match parent(primary) {
            None => Err(AppError::new("could not determine repository parent directory")),
            Some(above) => {
                let dir: String = cat(name.as_str(), "-worktrees");
                let default_worktree_parent: String = join(above.as_str(), dir.as_str());
                Ok(Repo { root, default_worktree_parent })
            },
        },
    }
}

/// The search for the repository that this process works in.
#[derive(Debug, PartialEq, Eq)]
pub enum Discovery {
    /// Git is asked for the root.
    Rooting,
    /// Git is asked for the worktrees.
    Listing(String),
}

/// The view of a [`Discovery`].
#[verifier::ext_equal]
pub enum DiscoveryView {
    Rooting,
    Listing(Seq<char>),
}

impl DeepView for Discovery {
    type V = DiscoveryView;

    open spec fn deep_view(&self) -> DiscoveryView {
        match self {
            Discovery::Rooting => DiscoveryView::Rooting,
            Discovery::Listing(root) => DiscoveryView::Listing(root@),
        }
    }
}

/// The arguments for Git to name the root of the repository.
pub open spec fn root_args() -> Seq<Seq<char>> {
    seq!["rev-parse"@, "--show-toplevel"@]
}

/// What a search waits for.
pub open spec fn discovery_effect(state: DiscoveryView) -> EffectView {
    match state {
        DiscoveryView::Rooting => EffectView::Run(git_run(root_args(), None)),
        DiscoveryView::Listing(_) => EffectView::Run(git_run(list_args(), None)),
    }
}

/// How a search goes on. Without a root it fails; a listing that fails counts as an empty one.
pub open spec fn discovery_next(state: DiscoveryView, reply: ReplyView) -> StepView<
    DiscoveryView,
    RepoView,
> {
    match state {
        DiscoveryView::Rooting => match git_output(root_args(), reply->Ran_0) {
            Ok(root) => StepView::Next(DiscoveryView::Listing(root)),
            Err(message) => StepView::Done(Err(message)),
        },
        DiscoveryView::Listing(root) => match listed(reply->Ran_0) {
            Ok(worktrees) => StepView::Done(repo_of(root, worktrees)),
            Err(_) => StepView::Done(repo_of(root, seq![])),
        },
    }
}

/// Begins the search for the repository that this process works in.
pub fn discover_repo() -> (r: Discovery)
    ensures
        r.deep_view() == DiscoveryView::Rooting,
{
    Discovery::Rooting
}

impl Discovery {
    /// What the search waits for.
    pub fn effect(&self) -> (r: Effect)
        ensures
            r.deep_view() == discovery_effect(self.deep_view()),
    {
        match self {
            Discovery::Rooting => Effect::Run(
                git(words(&vec!["rev-parse", "--show-toplevel"]), None),
            ),
            Discovery::Listing(_) => Effect::Run(list_worktrees_from_cwd()),
        }
    }

    /// Goes on with the reply.
    pub fn resume(self, reply: Reply) -> (r: Step<Discovery, Repo>)
        requires
            answers(reply.deep_view(), discovery_effect(self.deep_view())),
        ensures
            r.deep_view() == discovery_next(self.deep_view(), reply.deep_view()),
    {
        let ran: Ran = reply.ran();
        match self {
            Discovery::Rooting => {
                let args: Vec<String> = words(&vec!["rev-parse", "--show-toplevel"]);
                assert(args.deep_view() =~= root_args());
                match capture_git(&args, ran) {
                    Ok(root) => Step::Next(Discovery::Listing(root)),
                    Err(error) => Step::Done(Err(error)),
                }
            },
            Discovery::Listing(root) => {
                let worktrees: Vec<Worktree> = match worktrees_listed(ran) {
                    Ok(worktrees) => worktrees,
                    Err(_) => {
                        let none: Vec<Worktree> = Vec::new();
                        assert(none.deep_view() =~= seq![]);
                        none
                    },
                };
                Step::Done(repo_at(root, &worktrees))
            },
        }
    }
}

/// A directory's name has as many characters as the branch's name, none of them one that parts
/// paths or words, and is its own directory's name.
pub proof fn law_dir_name_is_plain(branch: Seq<char>)
    ensures
        dir_name_of(branch).len() == branch.len(),
        forall|i: int|
            0 <= i < branch.len() ==> {
                let c = #[trigger] dir_name_of(branch)[i];
                c != '/' && c != '\\' && c != ':' && c != ' ' && c != '\t'
            },
        dir_name_of(dir_name_of(branch)) == dir_name_of(branch),
{
    assert(dir_name_of(dir_name_of(branch)) =~= dir_name_of(branch));
}

/// Whether the name of a branch's directory is one that a path can hold: it is not empty, nor
/// one or two dots.
pub open spec fn has_dir_name(branch: Seq<char>) -> bool {
    step_of(dir_name_of(branch)) == Some(Part::Normal(dir_name_of(branch)))
}

/// A worktree goes right below the parent of all worktrees, under its directory's name.
pub proof fn law_default_path_is_below_parent(repo: RepoView, branch: Seq<char>)
    requires
        has_dir_name(branch),
    ensures
        components_of(default_path_of(repo, branch)) == components_of(
            repo.default_worktree_parent,
        ).push(Part::Normal(dir_name_of(branch))),
        name_of(default_path_of(repo, branch)) == Some(dir_name_of(branch)),
{
    law_dir_name_is_plain(branch);
    law_join_adds_name(repo.default_worktree_parent, dir_name_of(branch));
}

/// Worktrees go next to the main checkout: from its directory, into one with the main checkout's
/// name and `-worktrees`, and there into one with the name of the branch's directory.
pub proof fn law_default_path_is_next_to_main_checkout(
    root: Seq<char>,
    worktrees: Seq<WorktreeView>,
    branch: Seq<char>,
)
    requires
        repo_of(root, worktrees) is Ok,
        has_dir_name(branch),
    ensures
        ({
            let primary = primary_of(root, worktrees);
            let name = name_of(primary)->Some_0;
            components_of(default_path_of(repo_of(root, worktrees)->Ok_0, branch))
                == components_of(primary).drop_last().push(
                Part::Normal(name + "-worktrees"@),
            ).push(Part::Normal(dir_name_of(branch)))
        }),
{
    let primary = primary_of(root, worktrees);
    let name = name_of(primary)->Some_0;
    let dir = name + "-worktrees"@;
    law_name_can_stand_in_path(primary);
    reveal_strlit("-worktrees");
    assert(is_name(dir)) by {
        assert forall|i: int| 0 <= i < dir.len() implies dir[i] != '/' by {
            if i < name.len() {
                assert(dir[i] == name[i]);
            }
        }
    }
    law_parent_drops_last_component(primary);
    law_join_adds_name(parent_of(primary)->Some_0, dir);
    law_default_path_is_below_parent(repo_of(root, worktrees)->Ok_0, branch);
}

/// A repository is found whenever the main checkout has a name.
pub proof fn law_named_checkout_has_repo(root: Seq<char>, worktrees: Seq<WorktreeView>)
    ensures
        repo_of(root, worktrees) is Ok <==> name_of(primary_of(root, worktrees)) is Some,
{
    law_parent_drops_last_component(primary_of(root, worktrees));
}

/// The short name of a commit that is written in ASCII, as commits are, is its first seven
/// characters, or all of it where it has fewer.
pub proof fn law_short_head_of_ascii(head: Seq<char>)
    requires
        is_ascii_chars(head),
    ensures
        short_of(head) == head.take(if head.len() < 7 {
            head.len() as int
        } else {
            7
        }),
{
    let bytes = encode_utf8(head);
    is_ascii_chars_encode_utf8(head);
    encode_utf8_valid_utf8(head);
    if head.len() >= 7 {
        let front = head.take(7);
        is_ascii_chars_encode_utf8(front);
        assert(encode_utf8(front) =~= bytes.subrange(0, 7));
        encode_utf8_decode_utf8(front);
        if head.len() == 7 {
            is_char_boundary_start_end_of_seq(bytes);
        } else {
            is_char_boundary_iff_not_is_continuation_byte(bytes, 7);
            assert(bytes[7] == head[7] as u8);
        }
    } else {
        assert(head.take(head.len() as int) =~= head);
        reveal_with_fuel(is_char_boundary, 2);
    }
}

/// The name of a branch's directory has the branch's characters, each at its place; only slashes,
/// backslashes, colons, blanks and tabs are dashes in it.
pub proof fn law_dir_name_has_branch_characters(branch: Seq<char>, i: int)
    requires
        0 <= i < branch.len(),
    ensures
        dir_name_of(branch).len() == branch.len(),
        branch[i] == '/' || branch[i] == '\\' || branch[i] == ':' || branch[i] == ' ' || branch[i]
            == '\t' ==> dir_name_of(branch)[i] == '-',
        branch[i] != '/' && branch[i] != '\\' && branch[i] != ':' && branch[i] != ' ' && branch[i]
            != '\t' ==> dir_name_of(branch)[i] == branch[i],
{
}

/// Two branches get the same directory only where they differ in nothing but the characters that
/// become dashes.
pub proof fn law_dir_names_tell_branches_apart(a: Seq<char>, b: Seq<char>)
    requires
        dir_name_of(a) == dir_name_of(b),
    ensures
        a.len() == b.len(),
        forall|i: int|
            #![trigger a[i]]
            #![trigger b[i]]
            0 <= i < a.len() && a[i] != b[i] ==> {
                &&& a[i] == '-' || a[i] == '/' || a[i] == '\\' || a[i] == ':' || a[i] == ' ' || a[i]
                    == '\t'
                &&& b[i] == '-' || b[i] == '/' || b[i] == '\\' || b[i] == ':' || b[i] == ' ' || b[i]
                    == '\t'
            },
{
    law_dir_name_is_plain(a);
    law_dir_name_is_plain(b);
    assert forall|i: int| 0 <= i < a.len() && a[i] != b[i] implies {
        &&& a[i] == '-' || a[i] == '/' || a[i] == '\\' || a[i] == ':' || a[i] == ' ' || a[i] == '\t'
        &&& b[i] == '-' || b[i] == '/' || b[i] == '\\' || b[i] == ':' || b[i] == ' ' || b[i] == '\t'
    } by {
        law_dir_name_has_branch_characters(a, i);
        law_dir_name_has_branch_characters(b, i);
    }
}

/// A branch's worktree goes into the parent of all worktrees: its path is the parent's, a slash,
/// and the branch with dashes for what parts paths and words.
pub proof fn law_default_path_is_parent_and_branch(repo: RepoView, branch: Seq<char>, i: int)
    requires
        repo.default_worktree_parent.len() > 0,
        repo.default_worktree_parent.last() != '/',
        0 <= i < branch.len(),
    ensures
        ({
            let above = repo.default_worktree_parent + seq!['/'];
            let path = default_path_of(repo, branch);
            let c = branch[i];
            &&& path.len() == above.len() + branch.len()
            &&& path.take(above.len() as int) == above
            &&& path[above.len() + i] == if c == '/' || c == '\\' || c == ':' || c == ' ' || c
                == '\t' {
                '-'
            } else {
                c
            }
        }),
{
    let dir = dir_name_of(branch);
    let above = repo.default_worktree_parent + seq!['/'];
    law_dir_name_is_plain(branch);
    law_dir_name_has_branch_characters(branch, i);
    assert(dir[0] != '/');
    law_path_below_is_put_behind(repo.default_worktree_parent, dir);
    let path = default_path_of(repo, branch);
    assert(path == above + dir);
    assert(path.take(above.len() as int) =~= above);
    assert(path[above.len() + i] == dir[i]);
}

/// New worktrees go next to the main checkout, which is the first that Git lists, and the root
/// where it lists none: into the directory with its name and `-worktrees`. The root stays what
/// Git said.
pub proof fn law_worktrees_go_next_to_first_checkout(
    root: Seq<char>,
    worktrees: Seq<WorktreeView>,
    above: Seq<char>,
    name: Seq<char>,
)
    requires
        is_file_name(name),
        above.len() == 0 || ends_in_step(above),
        worktrees.len() > 0 ==> worktrees[0].path == above + seq!['/'] + name,
        worktrees.len() == 0 ==> root == above + seq!['/'] + name,
    ensures
        repo_of(root, worktrees) == Ok::<RepoView, Seq<char>>(
            RepoView {
                root,
                default_worktree_parent: above + seq!['/'] + name + "-worktrees"@,
            },
        ),
{
    law_name_is_behind_last_slash(above, name);
    law_parent_is_before_last_slash(above, name);
    let dir = name + "-worktrees"@;
    assert(dir[0] == name[0]);
    law_path_below_is_put_behind(above, dir);
    if above.len() == 0 {
        assert(above + seq!['/'] =~= seq!['/']);
        assert(above + seq!['/'] + name =~= seq!['/'] + name);
        law_path_below_is_put_behind(seq![], dir);
        assert(seq!['/'].last() == '/');
    }
    assert(above + seq!['/'] + dir =~= above + seq!['/'] + name + "-worktrees"@);
}

/// Whatever the path of the main checkout looks like, new worktrees go into the directory above
/// it, below one with its name and `-worktrees`.
pub proof fn law_worktrees_go_below_parent_of_checkout(
    root: Seq<char>,
    worktrees: Seq<WorktreeView>,
    primary: Seq<char>,
    above: Seq<char>,
    name: Seq<char>,
)
    requires
        primary == if worktrees.len() > 0 {
            worktrees[0].path
        } else {
            root
        },
        name_of(primary) == Some(name),
        parent_of(primary) == Some(above),
    ensures
        repo_of(root, worktrees) == Ok::<RepoView, Seq<char>>(
            RepoView { root, default_worktree_parent: path_below(above, name + "-worktrees"@) },
        ),
{
}

/// Whatever the parent of all worktrees looks like, a branch's worktree goes below it.
pub proof fn law_default_path_is_below_any_parent(repo: RepoView, branch: Seq<char>)
    ensures
        default_path_of(repo, branch) == path_below(
            repo.default_worktree_parent,
            dir_name_of(branch),
        ),
{
}

/// Without a name for the main checkout there is no repository, and the reason says so.
pub proof fn law_nameless_checkout_is_refused(root: Seq<char>, worktrees: Seq<WorktreeView>)
    requires
        worktrees.len() > 0 ==> name_of(worktrees[0].path) is None,
        worktrees.len() == 0 ==> name_of(root) is None,
    ensures
        repo_of(root, worktrees) == Err::<RepoView, Seq<char>>(
            "could not determine repository name"@,
        ),
{
}

/// A worktree is shown by its branch. One without a branch is shown as detached, as bare, or as
/// unknown, the first of these that holds.
pub proof fn law_label_is_branch(worktree: WorktreeView, branch: Seq<char>)
    ensures
        worktree.branch == Some(branch) ==> label_of(worktree) == branch,
        worktree.branch is None && worktree.detached ==> label_of(worktree) == "detached"@,
        worktree.branch is None && !worktree.detached && worktree.bare ==> label_of(worktree)
            == "bare"@,
        worktree.branch is None && !worktree.detached && !worktree.bare ==> label_of(worktree)
            == "unknown"@,
{
}

/// In one line a worktree is its path, two blanks, and its label in brackets, with a word more
/// where it can be pruned.
pub proof fn law_line_has_path_and_label(worktree: WorktreeView)
    ensures
        !worktree.prunable ==> worktree_line(worktree) == worktree.path + "  ["@ + label_of(
            worktree,
        ) + "]"@,
        worktree.prunable ==> worktree_line(worktree) == worktree.path + "  ["@ + label_of(
            worktree,
        ) + " prunable]"@,
{
    reveal_strlit("");
    reveal_strlit("]");
    reveal_strlit(" prunable");
    reveal_strlit(" prunable]");
    assert(" prunable"@ + "]"@ =~= " prunable]"@);
    let front = worktree.path + "  ["@ + label_of(worktree);
    assert(front + " prunable"@ + "]"@ =~= front + (" prunable"@ + "]"@));
    assert(front + ""@ =~= front);
}

/// What Git is told to do: to list worktrees, to prune them, to remove the one at a path, and to
/// name the root.
pub proof fn law_git_is_told_what_to_do(path: Seq<char>)
    ensures
        list_args() == seq!["worktree"@, "list"@, "--porcelain"@],
        prune_args() == seq!["worktree"@, "prune"@],
        remove_args(path) == seq!["worktree"@, "remove"@, path],
        root_args() == seq!["rev-parse"@, "--show-toplevel"@],
{
}

/// A branch is checked out where one of the worktrees has it, and nowhere else.
pub proof fn law_checked_out_branch_has_worktree(
    before: Seq<WorktreeView>,
    worktree: WorktreeView,
    behind: Seq<WorktreeView>,
    branch: Seq<char>,
)
    ensures
        !checked_out(seq![], branch),
        checked_out(before + seq![worktree] + behind, branch) <==> (worktree.branch == Some(branch)
            || checked_out(before, branch) || checked_out(behind, branch)),
{
    let all = before + seq![worktree] + behind;
    let n = before.len() as int;
    assert(all[n] == worktree);
    if checked_out(before, branch) {
        let i = choose|i: int| 0 <= i < before.len() && before[i].branch == Some(branch);
        assert(all[i] == before[i]);
    }
    if checked_out(behind, branch) {
        let i = choose|i: int| 0 <= i < behind.len() && behind[i].branch == Some(branch);
        assert(all[n + 1 + i] == behind[i]);
    }
    if checked_out(all, branch) {
        let i = choose|i: int| 0 <= i < all.len() && all[i].branch == Some(branch);
        if i < n {
            assert(before[i] == all[i]);
        } else if i > n {
            assert(behind[i - n - 1] == all[i]);
        }
    }
}

/// The search for a repository asks Git for the root, and then for the worktrees, each from where
/// the program was started. Without a root it fails in Git's words; without a listing it goes on
/// as if there were no worktrees.
pub proof fn law_discovery_asks_for_root_and_worktrees(
    root: Seq<char>,
    reply: ReplyView,
    worktrees: Seq<WorktreeView>,
    message: Seq<char>,
)
    ensures
        discovery_effect(DiscoveryView::Rooting) == EffectView::Run(
            git_run(seq!["rev-parse"@, "--show-toplevel"@], None),
        ),
        discovery_effect(DiscoveryView::Listing(root)) == EffectView::Run(
            git_run(seq!["worktree"@, "list"@, "--porcelain"@], None),
        ),
        git_output(seq!["rev-parse"@, "--show-toplevel"@], reply->Ran_0) == Ok::<
            Seq<char>,
            Seq<char>,
        >(root) ==> discovery_next(DiscoveryView::Rooting, reply) == StepView::<
            DiscoveryView,
            RepoView,
        >::Next(DiscoveryView::Listing(root)),
        git_output(seq!["rev-parse"@, "--show-toplevel"@], reply->Ran_0) == Err::<
            Seq<char>,
            Seq<char>,
        >(message) ==> discovery_next(DiscoveryView::Rooting, reply) == StepView::<
            DiscoveryView,
            RepoView,
        >::Done(Err(message)),
        listed(reply->Ran_0) == Ok::<Seq<WorktreeView>, Seq<char>>(worktrees) ==> discovery_next(
            DiscoveryView::Listing(root),
            reply,
        ) == StepView::<DiscoveryView, RepoView>::Done(repo_of(root, worktrees)),
        listed(reply->Ran_0) is Err ==> discovery_next(DiscoveryView::Listing(root), reply)
            == StepView::<DiscoveryView, RepoView>::Done(repo_of(root, seq![])),
{
}

/// A listing comes to the worktrees that its output tells of, and fails as the command does.
pub proof fn law_listing_comes_to_its_output(ran: RanView, output: Seq<char>, message: Seq<char>)
    ensures
        git_output(seq!["worktree"@, "list"@, "--porcelain"@], ran) == Ok::<Seq<char>, Seq<char>>(
            output,
        ) ==> listed(ran) == Ok::<Seq<WorktreeView>, Seq<char>>(parsed(output)),
        git_output(seq!["worktree"@, "list"@, "--porcelain"@], ran) == Err::<Seq<char>, Seq<char>>(
            message,
        ) ==> listed(ran) == Err::<Seq<WorktreeView>, Seq<char>>(message),
{
}

/// The text of two texts is written in the bytes of both, one after the other, and what stands
/// between them is no part of a character.
proof fn lemma_encode_two(front: Seq<char>, back: Seq<char>)
    ensures
        encode_utf8(front + back) == encode_utf8(front) + encode_utf8(back),
        is_char_boundary(encode_utf8(front + back), encode_utf8(front).len() as int),
    decreases front.len(),
{
    let all = front + back;
    let bytes = encode_utf8(all);
    encode_utf8_valid_utf8(all);
    if front.len() == 0 {
        assert(all =~= back);
        assert(encode_utf8(front) + encode_utf8(back) =~= encode_utf8(back));
    } else {
        let rest = front.drop_first();
        lemma_encode_two(rest, back);
        assert(all.drop_first() =~= rest + back);
        assert(all[0] == front[0]);
        encode_utf8_first_scalar(all);
        assert(bytes =~= encode_utf8(front) + encode_utf8(back));
        assert(pop_first_scalar(bytes) =~= encode_utf8(rest + back));
    }
}

/// The short name of a commit is the beginning of the name that is seven bytes long, where there
/// is one, and otherwise all of the name.
pub proof fn law_short_head_has_seven_bytes(head: Seq<char>, front: Seq<char>, back: Seq<char>)
    ensures
        encode_utf8(front).len() == 7 ==> short_of(front + back) == front,
        short_of(head) == head || (short_of(head).is_prefix_of(head) && encode_utf8(
            short_of(head),
        ).len() == 7),
{
    if encode_utf8(front).len() == 7 {
        lemma_encode_two(front, back);
        encode_utf8_decode_utf8(front);
        assert(encode_utf8(front + back).subrange(0, 7) =~= encode_utf8(front));
    }
    let bytes = encode_utf8(head);
    encode_utf8_valid_utf8(head);
    if is_char_boundary(bytes, 7) {
        encode_utf8_decode_utf8(head);
        decode_utf8_split(bytes, 7);
        valid_utf8_split(bytes, 7);
        decode_utf8_encode_utf8(bytes.subrange(0, 7));
        assert(bytes.len() >= 7) by {
            lemma_boundary_is_inside(bytes, 7);
        }
        let rest = decode_utf8(bytes.subrange(7, bytes.len() as int));
        assert(head == short_of(head) + rest);
    }
}

proof fn lemma_boundary_is_inside(bytes: Seq<u8>, index: int)
    requires
        valid_utf8(bytes),
        is_char_boundary(bytes, index),
    ensures
        0 <= index <= bytes.len(),
{
}

} // verus!
