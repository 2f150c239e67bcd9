use starstruck::git::{
    find_gitdir_from_file, git_branch, parse_head_line, BranchRef, FsNode, GitCtx, GitSearch,
    Probe,
};

fn s(x: &str) -> String {
    x.to_string()
}

fn node(path: &str, entry: Probe) -> FsNode {
    FsNode { path: s(path), entry }
}

#[test]
fn deepest_match_wins() {
    let fs = vec![node("/a/.git", Probe::Dir), node("/a/b/.git", Probe::Dir)];
    let mut ctx = GitCtx::new();
    assert!(ctx.find_gitdir(&fs, &Some(s("/a/b/c"))));
    assert_eq!(ctx.git_dir(), Some(s("/a/b/.git")));
    assert_eq!(ctx.git_workdir(), Some(s("/a/b")));
}

#[test]
fn indirection_resolves_relative_target() {
    let fs = vec![node(
        "/a/b/.git",
        Probe::File(Some(s("gitdir: ../../common/worktrees/b"))),
    )];
    let mut ctx = GitCtx::new();
    assert!(ctx.find_gitdir(&fs, &Some(s("/a/b"))));
    assert_eq!(ctx.git_dir(), Some(s("/a/common/worktrees/b")));
    assert_eq!(ctx.git_workdir(), Some(s("/a/b")));
}

#[test]
fn indirection_resolves_absolute_target() {
    let fs = vec![node("/a/.git", Probe::File(Some(s("gitdir: /srv/repos/a.git"))))];
    let mut ctx = GitCtx::new();
    assert!(ctx.find_gitdir(&fs, &Some(s("/a"))));
    assert_eq!(ctx.git_dir(), Some(s("/srv/repos/a.git")));
}

#[test]
fn locate_is_idempotent_and_reads_nothing_again() {
    let fs_first = vec![node("/a/b/.git", Probe::Dir)];
    let mut ctx = GitCtx::new();
    assert!(ctx.needs_search());
    assert!(ctx.find_gitdir(&fs_first, &Some(s("/a/b/c"))));
    // The memo is filled, so no caller has any reason to probe again.
    assert!(!ctx.needs_search());
    let first_dir = ctx.git_dir();

    // A second call is answered from the memo: even a model with
    // nothing in it (or with a contradicting entry) changes nothing.
    let fs_second = vec![node("/a/b/.git", Probe::Missing)];
    assert!(ctx.find_gitdir(&fs_second, &Some(s("/a/b/c"))));
    assert_eq!(ctx.git_dir(), first_dir);

    let fs_empty: Vec<FsNode> = Vec::new();
    assert!(ctx.find_gitdir(&fs_empty, &Some(s("/a/b/c"))));
    assert_eq!(ctx.git_dir(), first_dir);
}

#[test]
fn no_repository_anywhere() {
    let fs: Vec<FsNode> = Vec::new();
    let mut ctx = GitCtx::new();
    assert!(!ctx.find_gitdir(&fs, &Some(s("/x/y/z"))));
    assert!(!ctx.has_git());
    assert_eq!(ctx.git_dir(), None);
    assert_eq!(ctx.git_workdir(), None);
    let b = git_branch(&ctx, &None);
    assert!(matches!(b, BranchRef::Absent));
}

#[test]
fn repository_at_filesystem_root() {
    let fs = vec![node("/.git", Probe::Dir)];
    let mut ctx = GitCtx::new();
    assert!(ctx.find_gitdir(&fs, &Some(s("/"))));
    assert_eq!(ctx.git_dir(), Some(s("/.git")));
    assert_eq!(ctx.git_workdir(), Some(s("/")));
}

#[test]
fn missing_cwd_is_not_memoized() {
    let mut ctx = GitCtx::new();
    assert!(!ctx.find_gitdir(&Vec::new(), &None));
    assert!(ctx.needs_search());
    let fs = vec![node("/a/.git", Probe::Dir)];
    assert!(ctx.find_gitdir(&fs, &Some(s("/a"))));
    assert_eq!(ctx.git_dir(), Some(s("/a/.git")));
}

#[test]
fn git_file_without_indirection_prefix_stops_search() {
    let fs = vec![
        node("/a/b/.git", Probe::File(Some(s("not an indirection line")))),
        node("/a/.git", Probe::Dir),
    ];
    let mut ctx = GitCtx::new();
    assert!(!ctx.find_gitdir(&fs, &Some(s("/a/b"))));
    assert!(!ctx.has_git());
}

#[test]
fn unreadable_git_file_lets_the_walk_continue() {
    // A candidate file whose read failed is swallowed: the walk moves
    // on and finds the repository one ancestor up.
    let fs = vec![
        node("/a/b/.git", Probe::FileUnreadable),
        node("/a/.git", Probe::Dir),
    ];
    let mut ctx = GitCtx::new();
    assert!(ctx.find_gitdir(&fs, &Some(s("/a/b"))));
    assert_eq!(ctx.git_dir(), Some(s("/a/.git")));
    assert_eq!(ctx.git_workdir(), Some(s("/a")));
}

#[test]
fn unreadable_git_file_alone_finds_nothing() {
    let fs = vec![node("/a/.git", Probe::FileUnreadable)];
    let mut ctx = GitCtx::new();
    assert!(!ctx.find_gitdir(&fs, &Some(s("/a"))));
    assert!(!ctx.needs_search());
}

#[test]
fn empty_git_file_stops_search() {
    // A readable but empty file carries no indirection line: the
    // search ends with no repository, even with a shallower one.
    let fs = vec![node("/a/b/.git", Probe::File(None)), node("/a/.git", Probe::Dir)];
    let mut ctx = GitCtx::new();
    assert!(!ctx.find_gitdir(&fs, &Some(s("/a/b"))));
    assert!(!ctx.has_git());
}

#[test]
fn opaque_directory_is_treated_as_not_found() {
    let fs = vec![node("/a/.git", Probe::OpaqueDir)];
    let mut ctx = GitCtx::new();
    assert!(!ctx.find_gitdir(&fs, &Some(s("/a"))));
    assert!(!ctx.needs_search());
}

#[test]
fn head_path_hangs_off_metadata_dir() {
    let fs = vec![node("/a/b/.git", Probe::Dir)];
    let mut ctx = GitCtx::new();
    assert!(ctx.find_gitdir(&fs, &Some(s("/a/b"))));
    assert_eq!(ctx.head_path(), Some(s("/a/b/.git/HEAD")));
}

#[test]
fn branch_named_from_symbolic_ref() {
    let b = parse_head_line("ref: refs/heads/main");
    assert!(matches!(&b, BranchRef::Named(n) if n == "main"));
    assert_eq!(b.text(), Some(s("main")));
}

#[test]
fn branch_detached_from_raw_object_id() {
    let b = parse_head_line("abcdef0123456789abcdef0123456789abcdef01");
    assert!(matches!(&b, BranchRef::Detached(h) if h == "abcdef01"));
    assert_eq!(b.text(), Some(s("abcdef01")));
}

#[test]
fn branch_detached_clamps_short_content() {
    let b = parse_head_line("abc");
    assert_eq!(b.text(), Some(s("abc")));
    let b = parse_head_line("");
    assert_eq!(b.text(), Some(s("")));
}

#[test]
fn branch_named_may_be_empty() {
    let b = parse_head_line("ref: refs/heads/");
    assert_eq!(b.text(), Some(s("")));
}

#[test]
fn git_branch_through_context() {
    let fs = vec![node("/r/.git", Probe::Dir)];
    let mut ctx = GitCtx::new();
    assert!(ctx.find_gitdir(&fs, &Some(s("/r"))));
    let b = git_branch(&ctx, &Some(s("ref: refs/heads/dev")));
    assert_eq!(b.text(), Some(s("dev")));
    let b = git_branch(&ctx, &None);
    assert!(matches!(b, BranchRef::Absent));
}

#[test]
fn search_steps_walk_ancestors_deepest_first() {
    let mut search = GitSearch::start("/a/b");
    assert_eq!(search.next_candidate(), s("/a/b/.git"));
    assert!(search.advance(&Probe::Missing).is_none());
    assert_eq!(search.next_candidate(), s("/a/.git"));
    assert!(search.advance(&Probe::Missing).is_none());
    assert_eq!(search.next_candidate(), s("/.git"));
    let done = search.advance(&Probe::Missing);
    assert!(matches!(done, Some(None)));
}

#[test]
fn search_step_moves_past_an_unreadable_file() {
    let mut search = GitSearch::start("/a/b");
    assert!(search.advance(&Probe::FileUnreadable).is_none());
    assert_eq!(search.next_candidate(), s("/a/.git"));
}

#[test]
fn search_step_finds_directory() {
    let mut search = GitSearch::start("/w/t");
    let done = search.advance(&Probe::Dir);
    let loc = done.expect("probe answer decides").expect("found");
    assert_eq!(loc.metadata_dir, s("/w/t/.git"));
    assert_eq!(loc.work_dir, s("/w/t"));
}

#[test]
fn gitdir_file_line_parses_or_rejects() {
    let loc = find_gitdir_from_file(
        &s("/a/b"),
        &s("/a/b/.git"),
        &Some(s("gitdir: ../elsewhere")),
    );
    let loc = loc.expect("indirection line accepted");
    assert_eq!(loc.metadata_dir, s("/a/b/elsewhere"));
    assert_eq!(loc.work_dir, s("/a/b"));
    assert!(find_gitdir_from_file(&s("/a"), &s("/a/.git"), &Some(s("gitdir:missing space"))).is_none());
    assert!(find_gitdir_from_file(&s("/a"), &s("/a/.git"), &None).is_none());
}
