//! Repository discovery and branch resolution: an upward walk over
//! ancestor directories with memoized outcome, indirection-file
//! resolution, and HEAD parsing.

use vstd::prelude::*;

use crate::path::{
    components_of, join_path, join_r, joined, joined_r, normalize_path, normalized, split_path,
};
use crate::text::{is_prefix_of, starts_with_str, str_eq};

verus! {

/// What probing one `.git` candidate path showed: a metadata
/// directory, a directory whose path is not representable as text, a
/// regular file with its first line (none where the file is empty),
/// a regular file that could not be opened or read, or nothing
/// usable there. Read failures are transient filesystem conditions:
/// the walk swallows them and moves on to the next ancestor.
pub enum Probe {
    Dir,
    OpaqueDir,
    File(Option<String>),
    FileUnreadable,
    Missing,
}

/// A probe answer the walk moves past to the parent ancestor:
/// nothing usable at the candidate, or a file whose read failed.
pub open spec fn walk_past(p: Probe) -> bool {
    match p {
        Probe::Missing => true,
        Probe::FileUnreadable => true,
        _ => false,
    }
}

/// One entry of a directory model: a path and what probing it shows.
pub struct FsNode {
    pub path: String,
    pub entry: Probe,
}

/// A located repository: its metadata directory and the root of the
/// working tree it serves.
pub struct RepoLocation {
    pub metadata_dir: String,
    pub work_dir: String,
}

/// The mathematical value of a `RepoLocation`.
pub struct RepoLocationView {
    pub metadata_dir: Seq<char>,
    pub work_dir: Seq<char>,
}

impl View for RepoLocation {
    type V = RepoLocationView;

    open spec fn view(&self) -> RepoLocationView {
        RepoLocationView { metadata_dir: self.metadata_dir@, work_dir: self.work_dir@ }
    }
}

/// The mathematical value of an optional location.
pub open spec fn loc_view(o: Option<RepoLocation>) -> Option<RepoLocationView> {
    match o {
        Some(l) => Some(l@),
        None => None,
    }
}

/// What probing `path` shows under the model `fs`: the first entry
/// with that path decides; anything unlisted is missing.
pub open spec fn fs_lookup(fs: Seq<FsNode>, path: Seq<char>) -> Probe
    decreases fs.len(),
{
    if fs.len() == 0 {
        Probe::Missing
    } else if fs.first().path@ == path {
        fs.first().entry
    } else {
        fs_lookup(fs.drop_first(), path)
    }
}

/// The `.git` candidate path for the ancestor directory with the
/// given components.
pub open spec fn candidate_of(comps: Seq<Seq<char>>) -> Seq<char> {
    joined_r(comps) + "/.git"@
}

/// Where an indirection file's target points: absolute targets stand
/// alone; relative ones hang off the indirection file's own path.
/// Either way the result is normalized.
pub open spec fn resolved_target(cand: Seq<char>, target: Seq<char>) -> Seq<char> {
    if target.len() > 0 && target[0] == '/' {
        normalized(target)
    } else {
        normalized(cand + seq!['/'] + target)
    }
}

/// The outcome once a `.git` regular file was read at `cand` inside
/// the ancestor `dir`: its first line must carry the indirection
/// prefix, and the remainder names the real metadata directory. An
/// empty file (no first line) or a line without the prefix ends the
/// search with no repository.
pub open spec fn file_outcome(dir: Seq<char>, cand: Seq<char>, line: Option<String>) -> Option<
    RepoLocationView,
> {
    match line {
        None => None,
        Some(l) => if is_prefix_of("gitdir: "@, l@) {
            Some(
                RepoLocationView {
                    metadata_dir: resolved_target(cand, l@.skip("gitdir: "@.len() as int)),
                    work_dir: dir,
                },
            )
        } else {
            None
        },
    }
}

/// The search outcome from the ancestor with the given components
/// downward-to-root, under the directory model `fs`.
pub open spec fn locate_from(fs: Seq<FsNode>, comps: Seq<Seq<char>>) -> Option<RepoLocationView>
    decreases comps.len(),
{
    let cand = candidate_of(comps);
    match fs_lookup(fs, cand) {
        Probe::Dir => Some(RepoLocationView { metadata_dir: cand, work_dir: joined(comps) }),
        Probe::OpaqueDir => None,
        Probe::File(line) => file_outcome(joined(comps), cand, line),
        Probe::FileUnreadable => if comps.len() == 0 {
            None
        } else {
            locate_from(fs, comps.drop_last())
        },
        Probe::Missing => if comps.len() == 0 {
            None
        } else {
            locate_from(fs, comps.drop_last())
        },
    }
}

/// What one probe answer decides at the given ancestor: `Some` ends
/// the search with that outcome; `None` moves it one ancestor up.
pub open spec fn step_result(comps: Seq<Seq<char>>, probe: Probe) -> Option<
    Option<RepoLocationView>,
> {
    match probe {
        Probe::Dir => Some(
            Some(RepoLocationView { metadata_dir: candidate_of(comps), work_dir: joined(comps) }),
        ),
        Probe::OpaqueDir => Some(None),
        Probe::File(line) => Some(file_outcome(joined(comps), candidate_of(comps), line)),
        Probe::FileUnreadable => if comps.len() == 0 {
            Some(None)
        } else {
            None
        },
        Probe::Missing => if comps.len() == 0 {
            Some(None)
        } else {
            None
        },
    }
}

/// Feeding the search the model's own answer for the current
/// candidate agrees with `locate_from`.
pub proof fn lemma_step_locate(fs: Seq<FsNode>, comps: Seq<Seq<char>>)
    ensures
        ({
            let probe = fs_lookup(fs, candidate_of(comps));
            match step_result(comps, probe) {
                Some(o) => locate_from(fs, comps) == o,
                None => comps.len() > 0 && locate_from(fs, comps) == locate_from(
                    fs,
                    comps.drop_last(),
                ),
            }
        }),
{
}

/// Parses the first line of a `.git` indirection file found at
/// `cand` inside the ancestor `dir`, resolving where it points.
pub fn find_gitdir_from_file(dir: &String, cand: &String, line: &Option<String>) -> (r: Option<
    RepoLocation,
>)
    ensures
        loc_view(r) == file_outcome(dir@, cand@, *line),
{
    match line {
        None => None,
        Some(l) => {
            if starts_with_str(l.as_str(), "gitdir: ") {
                proof {
                    reveal_strlit("gitdir: ");
                }
                let llen = l.as_str().unicode_len();
                let rest = l.as_str().substring_char(8, llen);
                proof {
                    assert(rest@ =~= l@.skip("gitdir: "@.len() as int));
                }
                let metadata_dir = resolve_gitdir(cand, rest);
                Some(RepoLocation { metadata_dir, work_dir: dir.clone() })
            } else {
                None
            }
        },
    }
}

/// Resolves an indirection target against the indirection file's
/// path.
fn resolve_gitdir(cand: &String, target: &str) -> (r: String)
    ensures
        r@ == resolved_target(cand@, target@),
{
    let tlen = target.unicode_len();
    if tlen > 0 && target.get_char(0) == '/' {
        normalize_path(target)
    } else {
        let mut s = cand.clone();
        s.append("/");
        s.append(target);
        proof {
            reveal_strlit("/");
            assert(s@ =~= cand@ + seq!['/'] + target@);
        }
        normalize_path(s.as_str())
    }
}

/// An in-progress upward walk: the components of the ancestor
/// directory whose `.git` candidate is to be probed next.
pub struct GitSearch {
    comps: Vec<String>,
}

impl GitSearch {
    /// The components of the ancestor under examination.
    pub closed spec fn comps_view(&self) -> Seq<Seq<char>> {
        self.comps.deep_view()
    }

    /// Begins a search at the given working directory.
    pub fn start(cwd: &str) -> (r: GitSearch)
        ensures
            r.comps_view() == components_of(cwd@),
    {
        GitSearch { comps: split_path(cwd) }
    }

    /// The `.git` candidate path the caller should probe next.
    pub fn next_candidate(&self) -> (r: String)
        ensures
            r@ == candidate_of(self.comps_view()),
    {
        let mut s = join_r(&self.comps);
        s.append("/.git");
        s
    }

    /// Feeds the probe answer for the current candidate. `Some` ends
    /// the search with its outcome; `None` means the walk moved one
    /// ancestor up and the next candidate must be probed.
    pub fn advance(&mut self, probe: &Probe) -> (r: Option<Option<RepoLocation>>)
        ensures
            ({
                let comps = old(self).comps_view();
                match step_result(comps, *probe) {
                    Some(o) => final(self).comps_view() == comps && (match r {
                        Some(x) => loc_view(x) == o,
                        None => false,
                    }),
                    None => final(self).comps_view() == comps.drop_last() && r is None,
                }
            }),
    {
        match probe {
            Probe::Dir => {
                let metadata_dir = self.next_candidate();
                let work_dir = join_path(&self.comps);
                Some(Some(RepoLocation { metadata_dir, work_dir }))
            },
            Probe::OpaqueDir => Some(None),
            Probe::File(line) => {
                let cand = self.next_candidate();
                let dir = join_path(&self.comps);
                Some(find_gitdir_from_file(&dir, &cand, line))
            },
            Probe::FileUnreadable | Probe::Missing => {
                if self.comps.len() == 0 {
                    Some(None)
                } else {
                    let ghost dv = self.comps.deep_view();
                    let _ = self.comps.pop();
                    proof {
                        assert(self.comps.deep_view() =~= dv.drop_last());
                    }
                    None
                }
            },
        }
    }
}

/// Looks `path` up in the directory model.
fn fs_probe(fs: &Vec<FsNode>, path: &String) -> (r: Probe)
    ensures
        r == fs_lookup(fs@, path@),
{
    let mut i: usize = 0;
    proof {
        assert(fs@.skip(0) =~= fs@);
    }
    while i < fs.len()
        invariant
            i <= fs.len(),
            fs_lookup(fs@, path@) == fs_lookup(fs@.skip(i as int), path@),
        decreases fs.len() - i,
    {
        let node = &fs[i];
        proof {
            assert(fs@.skip(i as int).first() == fs@[i as int]);
        }
        if str_eq(node.path.as_str(), path.as_str()) {
            return clone_probe(&node.entry);
        }
        proof {
            assert(fs@.skip(i as int).drop_first() =~= fs@.skip((i + 1) as int));
        }
        i += 1;
    }
    Probe::Missing
}

/// Copies a probe answer.
fn clone_probe(p: &Probe) -> (r: Probe)
    ensures
        r == *p,
{
    match p {
        Probe::Dir => Probe::Dir,
        Probe::OpaqueDir => Probe::OpaqueDir,
        Probe::FileUnreadable => Probe::FileUnreadable,
        Probe::Missing => Probe::Missing,
        Probe::File(line) => Probe::File(
            match line {
                None => None,
                Some(s) => Some(s.clone()),
            },
        ),
    }
}

/// Runs the whole walk against a directory model.
fn walk(fs: &Vec<FsNode>, cwd: &String) -> (r: Option<RepoLocation>)
    ensures
        loc_view(r) == locate_from(fs@, components_of(cwd@)),
{
    let mut search = GitSearch::start(cwd.as_str());
    loop
        invariant
            locate_from(fs@, search.comps_view()) == locate_from(fs@, components_of(cwd@)),
        decreases search.comps_view().len(),
    {
        let cand = search.next_candidate();
        let probe = fs_probe(fs, &cand);
        let ghost comps_before = search.comps_view();
        proof {
            lemma_step_locate(fs@, comps_before);
        }
        match search.advance(&probe) {
            Some(outcome) => {
                return outcome;
            },
            None => {},
        }
    }
}

/// Memoized repository-search state: whether the search has run, and
/// what it found.
pub struct GitCtx {
    has_searched_gitdir: bool,
    location: Option<RepoLocation>,
}

/// The mathematical state of a `GitCtx`.
pub struct GitCtxView {
    pub searched: bool,
    pub location: Option<RepoLocationView>,
}

impl View for GitCtx {
    type V = GitCtxView;

    closed spec fn view(&self) -> GitCtxView {
        GitCtxView { searched: self.has_searched_gitdir, location: loc_view(self.location) }
    }
}

/// How one `find_gitdir` call moves the memoized state: a finished
/// search is never repeated; without a working directory nothing is
/// memoized; otherwise the walk's outcome is stored for good.
pub open spec fn locate_model(ctx: GitCtxView, fs: Seq<FsNode>, cwd: Option<String>) -> GitCtxView {
    if ctx.searched {
        ctx
    } else {
        match cwd {
            None => ctx,
            Some(c) => GitCtxView { searched: true, location: locate_from(fs, components_of(c@)) },
        }
    }
}

impl GitCtx {
    /// A fresh context: no search run yet.
    pub fn new() -> (r: GitCtx)
        ensures
            r@ == (GitCtxView { searched: false, location: None }),
    {
        GitCtx { has_searched_gitdir: false, location: None }
    }

    /// Whether the search must still be run.
    pub fn needs_search(&self) -> (r: bool)
        ensures
            r == !self@.searched,
    {
        !self.has_searched_gitdir
    }

    /// Memoizes the outcome of a finished search.
    pub fn record(&mut self, loc: Option<RepoLocation>)
        ensures
            final(self)@ == (GitCtxView { searched: true, location: loc_view(loc) }),
    {
        self.has_searched_gitdir = true;
        self.location = loc;
    }

    /// Finds the repository for `cwd` under the directory model `fs`:
    /// walks ancestors from the working directory to the root, the
    /// deepest first, and memoizes the outcome. A second call returns
    /// the memoized answer untouched, whatever model it is handed.
    pub fn find_gitdir(&mut self, fs: &Vec<FsNode>, cwd: &Option<String>) -> (r: bool)
        ensures
            final(self)@ == locate_model(old(self)@, fs@, *cwd),
            r == (final(self)@.location is Some),
    {
        if self.has_searched_gitdir {
            return self.location.is_some();
        }
        let cwd_str = match cwd {
            None => {
                return self.location.is_some();
            },
            Some(c) => c,
        };
        let outcome = walk(fs, cwd_str);
        self.has_searched_gitdir = true;
        self.location = outcome;
        self.location.is_some()
    }

    /// Whether a repository was found.
    pub fn has_git(&self) -> (r: bool)
        ensures
            r == (self@.location is Some),
    {
        self.location.is_some()
    }

    /// The located metadata directory.
    pub fn git_dir(&self) -> (r: Option<String>)
        ensures
            match self@.location {
                Some(l) => (match r {
                    Some(d) => d@ == l.metadata_dir,
                    None => false,
                }),
                None => r is None,
            },
    {
        match &self.location {
            Some(loc) => Some(loc.metadata_dir.clone()),
            None => None,
        }
    }

    /// The root of the located working tree.
    pub fn git_workdir(&self) -> (r: Option<String>)
        ensures
            match self@.location {
                Some(l) => (match r {
                    Some(d) => d@ == l.work_dir,
                    None => false,
                }),
                None => r is None,
            },
    {
        match &self.location {
            Some(loc) => Some(loc.work_dir.clone()),
            None => None,
        }
    }

    /// The path of the HEAD file under the located metadata
    /// directory.
    pub fn head_path(&self) -> (r: Option<String>)
        ensures
            match self@.location {
                Some(l) => (match r {
                    Some(p) => p@ == l.metadata_dir + "/HEAD"@,
                    None => false,
                }),
                None => r is None,
            },
    {
        match &self.location {
            Some(loc) => {
                let mut s = loc.metadata_dir.clone();
                s.append("/HEAD");
                Some(s)
            },
            None => None,
        }
    }
}

/// Branch identity: a named branch, a detached checkout identified by
/// a short hash, or nothing.
pub enum BranchRef {
    Named(String),
    Detached(String),
    Absent,
}

/// The mathematical value of a `BranchRef`.
pub enum BranchRefView {
    Named(Seq<char>),
    Detached(Seq<char>),
    Absent,
}

impl View for BranchRef {
    type V = BranchRefView;

    open spec fn view(&self) -> BranchRefView {
        match *self {
            BranchRef::Named(ref n) => BranchRefView::Named(n@),
            BranchRef::Detached(ref h) => BranchRefView::Detached(h@),
            BranchRef::Absent => BranchRefView::Absent,
        }
    }
}

/// What HEAD's first line means: a symbolic ref to a branch head
/// names that branch; anything else is read as a raw object id, whose
/// leading characters (at most eight) identify the detached checkout.
pub open spec fn branch_of(line: Seq<char>) -> BranchRefView {
    if is_prefix_of("ref: refs/heads/"@, line) {
        BranchRefView::Named(line.skip("ref: refs/heads/"@.len() as int))
    } else {
        BranchRefView::Detached(
            line.take(
                if line.len() < 8 {
                    line.len() as int
                } else {
                    8
                },
            ),
        )
    }
}

/// Parses the first line of a HEAD file.
pub fn parse_head_line(line: &str) -> (r: BranchRef)
    ensures
        r@ == branch_of(line@),
{
    proof {
        reveal_strlit("ref: refs/heads/");
    }
    let len = line.unicode_len();
    if starts_with_str(line, "ref: refs/heads/") {
        let name = String::from_str(line.substring_char(16, len));
        proof {
            assert(name@ =~= line@.skip("ref: refs/heads/"@.len() as int));
        }
        BranchRef::Named(name)
    } else {
        let n = if len < 8 {
            len
        } else {
            8
        };
        BranchRef::Detached(String::from_str(line.substring_char(0, n)))
    }
}

/// Branch identity for the located repository, given the first line
/// of its HEAD file; absent without a repository or a readable line.
pub fn git_branch(ctx: &GitCtx, head_line: &Option<String>) -> (r: BranchRef)
    ensures
        r@ == (match (ctx@.location, *head_line) {
            (Some(_), Some(l)) => branch_of(l@),
            _ => BranchRefView::Absent,
        }),
{
    if !ctx.has_git() {
        return BranchRef::Absent;
    }
    match head_line {
        Some(l) => parse_head_line(l.as_str()),
        None => BranchRef::Absent,
    }
}

impl BranchRef {
    /// The displayable branch text: the branch name or the short
    /// hash.
    pub fn text(&self) -> (r: Option<String>)
        ensures
            match self@ {
                BranchRefView::Named(n) => (match r {
                    Some(t) => t@ == n,
                    None => false,
                }),
                BranchRefView::Detached(h) => (match r {
                    Some(t) => t@ == h,
                    None => false,
                }),
                BranchRefView::Absent => r is None,
            },
    {
        match self {
            BranchRef::Named(n) => Some(n.clone()),
            BranchRef::Detached(h) => Some(h.clone()),
            BranchRef::Absent => None,
        }
    }
}

/// Locating is idempotent: after one `find_gitdir` call, a second —
/// against any directory model at all — leaves the state untouched
/// and so returns the identical result; in particular it depends on
/// no filesystem content.
pub proof fn lemma_locate_idempotent(
    ctx: GitCtxView,
    fs1: Seq<FsNode>,
    fs2: Seq<FsNode>,
    cwd: Option<String>,
)
    ensures
        ({
            let once = locate_model(ctx, fs1, cwd);
            locate_model(once, fs2, cwd) == once
        }),
{
}

/// The deepest ancestor holding a `.git` entry wins: if the candidate
/// at depth `k` is a metadata directory and every deeper candidate
/// holds nothing the walk stops at — no entry, or only a file whose
/// read failed — the search finds exactly that one.
pub proof fn lemma_deepest_match_wins(fs: Seq<FsNode>, comps: Seq<Seq<char>>, k: int)
    requires
        0 <= k <= comps.len(),
        fs_lookup(fs, candidate_of(comps.take(k))) is Dir,
        forall|j: int|
            k < j <= comps.len() ==> walk_past(fs_lookup(fs, candidate_of(#[trigger] comps.take(j)))),
    ensures
        locate_from(fs, comps) == Some(
            RepoLocationView {
                metadata_dir: candidate_of(comps.take(k)),
                work_dir: joined(comps.take(k)),
            },
        ),
    decreases comps.len(),
{
    if k == comps.len() {
        assert(comps.take(k) =~= comps);
    } else {
        assert(comps.take(comps.len() as int) =~= comps);
        assert(comps.drop_last() =~= comps.take(comps.len() - 1));
        assert forall|j: int|
            k < j <= comps.drop_last().len() implies walk_past(
            fs_lookup(fs, candidate_of(#[trigger] comps.drop_last().take(j))),
        ) by {
            assert(comps.drop_last().take(j) =~= comps.take(j));
        }
        assert(comps.drop_last().take(k) =~= comps.take(k));
        lemma_deepest_match_wins(fs, comps.drop_last(), k);
    }
}

/// With no usable `.git` entry at any ancestor — none at all, or
/// only files whose reads failed — the search finds nothing.
pub proof fn lemma_locate_no_repository(fs: Seq<FsNode>, comps: Seq<Seq<char>>)
    requires
        forall|j: int|
            0 <= j <= comps.len() ==> walk_past(fs_lookup(fs, candidate_of(#[trigger] comps.take(j)))),
    ensures
        locate_from(fs, comps) is None,
    decreases comps.len(),
{
    assert(comps.take(comps.len() as int) =~= comps);
    if comps.len() > 0 {
        assert(comps.drop_last() =~= comps.take(comps.len() - 1));
        assert forall|j: int|
            0 <= j <= comps.drop_last().len() implies walk_past(
            fs_lookup(fs, candidate_of(#[trigger] comps.drop_last().take(j))),
        ) by {
            assert(comps.drop_last().take(j) =~= comps.take(j));
        }
        lemma_locate_no_repository(fs, comps.drop_last());
    }
}

} // verus!
