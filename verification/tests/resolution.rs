//! Scenario tests that drive the manual walker against an in-memory
//! filesystem: escapes, symlink loops, intra-subtree `..`, trailing-symlink
//! policy, create-new semantics, and parent decomposition.

use cap_primitives::divergence::FileId;
use cap_primitives::errors::ResolutionError;
use cap_primitives::options::OpenOptions;
use cap_primitives::parent::{check_same_capability, split_parent};
use cap_primitives::path::{parse_relative_path, parse_unrooted, Component};
use cap_primitives::reopen::reopen_plan;
use cap_primitives::walker::{WalkAction, Walker, MAX_SYMLINK_EXPANSIONS};

#[derive(Clone)]
enum FakeEntry {
    Dir,
    File,
    Link(Vec<u8>),
}

/// An in-memory tree: each entry is (path below the root, what it is).
/// Directories on the way to a listed entry must be listed themselves.
struct FakeFs {
    entries: Vec<(Vec<Vec<u8>>, FakeEntry)>,
}

fn fs_lookup<'a>(fs: &'a FakeFs, path: &[Vec<u8>]) -> Option<&'a FakeEntry> {
    for (p, e) in &fs.entries {
        if p.as_slice() == path {
            return Some(e);
        }
    }
    None
}

const ENOENT: i32 = 2;
const EEXIST: i32 = 17;
const ENOTDIR: i32 = 20;

fn io_err(errno: i32, message: &str) -> ResolutionError {
    ResolutionError::Io {
        errno: Some(errno),
        message: message.to_string(),
    }
}

/// Drive one resolution: the walker decides every step; this driver holds
/// the "handles" (the current path below the root) and reports what each
/// opened component turned out to be.
fn drive(
    fs: &FakeFs,
    path: &[u8],
    opts: OpenOptions,
    allow_ascent: bool,
) -> Result<Vec<Vec<u8>>, ResolutionError> {
    let comps = parse_relative_path(path)?;
    let mut w = Walker::new(comps, &opts, allow_ascent);
    let mut cur: Vec<Vec<u8>> = Vec::new();
    loop {
        match w.next_action() {
            WalkAction::Finished => return Ok(cur),
            WalkAction::Fail { error } => return Err(error),
            WalkAction::Ascend => {
                cur.pop();
                w.advance_ascend();
            }
            WalkAction::Descend { name } => {
                let mut probe = cur.clone();
                probe.push(name.clone());
                match fs_lookup(fs, &probe) {
                    Some(FakeEntry::Dir) => {
                        cur.push(name);
                        w.advance_descend();
                    }
                    Some(FakeEntry::Link(t)) => {
                        let t = t.clone();
                        w.expand_symlink(&t)?;
                    }
                    Some(FakeEntry::File) => return Err(io_err(ENOTDIR, "not a directory")),
                    None => return Err(io_err(ENOENT, "no such file or directory")),
                }
            }
            WalkAction::Final { name, follow } => {
                let mut probe = cur.clone();
                probe.push(name.clone());
                match fs_lookup(fs, &probe) {
                    Some(FakeEntry::Link(t)) if follow => {
                        let t = t.clone();
                        w.expand_symlink(&t)?;
                    }
                    Some(_) => {
                        if opts.create_new {
                            return Err(io_err(EEXIST, "file exists"));
                        }
                        return Ok(probe);
                    }
                    None => {
                        if opts.create || opts.create_new {
                            return Ok(probe);
                        }
                        return Err(io_err(ENOENT, "no such file or directory"));
                    }
                }
            }
        }
    }
}

fn names(parts: &[&str]) -> Vec<Vec<u8>> {
    parts.iter().map(|p| p.as_bytes().to_vec()).collect()
}

fn demo_fs() -> FakeFs {
    FakeFs {
        entries: vec![
            (names(&["x"]), FakeEntry::Dir),
            (names(&["x", "file.txt"]), FakeEntry::File),
            (names(&["a"]), FakeEntry::Dir),
            (names(&["a", "link"]), FakeEntry::Link(b"../../etc/passwd".to_vec())),
            (names(&["a", "abs"]), FakeEntry::Link(b"/etc/passwd".to_vec())),
            (names(&["a", "sideways"]), FakeEntry::Link(b"../x/file.txt".to_vec())),
        ],
    }
}

fn read_opts() -> OpenOptions {
    OpenOptions::new().read(true)
}

#[test]
fn dotdot_equivalence_within_subtree() {
    let fs = demo_fs();
    let direct = drive(&fs, b"x/file.txt", read_opts(), true).unwrap();
    let roundabout = drive(&fs, b"x/../x/file.txt", read_opts(), true).unwrap();
    assert_eq!(direct, roundabout);
    assert_eq!(direct, names(&["x", "file.txt"]));
}

#[test]
fn dotdot_past_root_is_escape() {
    let fs = demo_fs();
    let r = drive(&fs, b"../file.txt", read_opts(), true);
    assert!(matches!(r, Err(ResolutionError::EscapeAttempt)));
}

#[test]
fn dotdot_rejected_when_ascent_disallowed() {
    let fs = demo_fs();
    let r = drive(&fs, b"x/../x/file.txt", read_opts(), false);
    assert!(matches!(r, Err(ResolutionError::EscapeAttempt)));
}

#[test]
fn absolute_path_is_escape() {
    let fs = demo_fs();
    let r = drive(&fs, b"/etc/passwd", read_opts(), true);
    assert!(matches!(r, Err(ResolutionError::EscapeAttempt)));
}

#[test]
fn trailing_symlink_not_followed_by_default() {
    let fs = demo_fs();
    let r = drive(&fs, b"a/link", read_opts(), true).unwrap();
    assert_eq!(r, names(&["a", "link"]));
}

#[test]
fn trailing_symlink_escape_detected_when_followed() {
    let fs = demo_fs();
    let r = drive(&fs, b"a/link", read_opts().follow_trailing(true), true);
    assert!(matches!(r, Err(ResolutionError::EscapeAttempt)));
}

#[test]
fn absolute_symlink_target_is_escape() {
    let fs = demo_fs();
    let r = drive(&fs, b"a/abs", read_opts().follow_trailing(true), true);
    assert!(matches!(r, Err(ResolutionError::EscapeAttempt)));
}

#[test]
fn relative_symlink_inside_subtree_resolves() {
    let fs = demo_fs();
    let r = drive(&fs, b"a/sideways", read_opts().follow_trailing(true), true).unwrap();
    assert_eq!(r, names(&["x", "file.txt"]));
}

#[test]
fn dotdot_chain_past_root_is_escape_even_with_ascent() {
    let fs = demo_fs();
    let r = drive(&fs, b"x/../../x/file.txt", read_opts(), true);
    assert!(matches!(r, Err(ResolutionError::EscapeAttempt)));
}

#[test]
fn symlink_target_ascending_past_root_is_escape() {
    let fs = FakeFs {
        entries: vec![
            (names(&["a"]), FakeEntry::Dir),
            (names(&["a", "up"]), FakeEntry::Link(b"../../x".to_vec())),
        ],
    };
    let r = drive(&fs, b"a/up/file.txt", read_opts(), true);
    assert!(matches!(r, Err(ResolutionError::EscapeAttempt)));
}

#[test]
fn symlink_target_ascending_within_subtree_resolves() {
    let fs = FakeFs {
        entries: vec![
            (names(&["x"]), FakeEntry::Dir),
            (names(&["x", "file.txt"]), FakeEntry::File),
            (names(&["a"]), FakeEntry::Dir),
            (names(&["a", "back"]), FakeEntry::Link(b"../x".to_vec())),
        ],
    };
    let r = drive(&fs, b"a/back/file.txt", read_opts(), true).unwrap();
    assert_eq!(r, names(&["x", "file.txt"]));
}

#[test]
fn cur_dir_components_are_dropped_in_resolution() {
    let fs = demo_fs();
    let r = drive(&fs, b"./x/./file.txt", read_opts(), true).unwrap();
    assert_eq!(r, names(&["x", "file.txt"]));
}

fn chain_fs(len: usize) -> FakeFs {
    // link0 -> link1 -> ... -> link(len-1) -> target
    let mut entries = Vec::new();
    for i in 0..len {
        let target = if i + 1 == len {
            b"target".to_vec()
        } else {
            format!("link{}", i + 1).into_bytes()
        };
        entries.push((vec![format!("link{}", i).into_bytes()], FakeEntry::Link(target)));
    }
    entries.push((names(&["target"]), FakeEntry::File));
    FakeFs { entries }
}

#[test]
fn symlink_chain_below_ceiling_resolves() {
    let len = (MAX_SYMLINK_EXPANSIONS - 1) as usize;
    let fs = chain_fs(len);
    let r = drive(&fs, b"link0", read_opts().follow_trailing(true), true).unwrap();
    assert_eq!(r, names(&["target"]));
}

#[test]
fn symlink_chain_at_ceiling_resolves() {
    let len = MAX_SYMLINK_EXPANSIONS as usize;
    let fs = chain_fs(len);
    let r = drive(&fs, b"link0", read_opts().follow_trailing(true), true).unwrap();
    assert_eq!(r, names(&["target"]));
}

#[test]
fn symlink_chain_over_ceiling_is_loop() {
    let len = (MAX_SYMLINK_EXPANSIONS + 1) as usize;
    let fs = chain_fs(len);
    let r = drive(&fs, b"link0", read_opts().follow_trailing(true), true);
    assert!(matches!(r, Err(ResolutionError::SymlinkLoop)));
}

#[test]
fn self_referential_symlink_is_loop() {
    let fs = FakeFs {
        entries: vec![(names(&["cycle"]), FakeEntry::Link(b"cycle".to_vec()))],
    };
    let r = drive(&fs, b"cycle", read_opts().follow_trailing(true), true);
    assert!(matches!(r, Err(ResolutionError::SymlinkLoop)));
}

#[test]
fn intermediate_symlink_expanded_without_follow_option() {
    // A symlink in a non-final component is expanded whatever the trailing
    // policy says.
    let fs = FakeFs {
        entries: vec![
            (names(&["d"]), FakeEntry::Dir),
            (names(&["d", "f"]), FakeEntry::File),
            (names(&["via"]), FakeEntry::Link(b"d".to_vec())),
        ],
    };
    let r = drive(&fs, b"via/f", read_opts(), true).unwrap();
    assert_eq!(r, names(&["d", "f"]));
}

#[test]
fn create_new_fails_on_existing_target() {
    let fs = demo_fs();
    let opts = OpenOptions::new().write(true).create_new(true);
    let r = drive(&fs, b"x/file.txt", opts, true);
    assert!(matches!(
        r,
        Err(ResolutionError::Io { errno: Some(e), .. }) if e == EEXIST
    ));
    // ... and the second attempt fails identically: nothing was modified.
    let again = drive(&fs, b"x/file.txt", opts, true);
    assert!(matches!(
        again,
        Err(ResolutionError::Io { errno: Some(e), .. }) if e == EEXIST
    ));
}

#[test]
fn create_new_succeeds_on_missing_target() {
    let fs = demo_fs();
    let opts = OpenOptions::new().write(true).create_new(true);
    let r = drive(&fs, b"x/fresh.txt", opts, true).unwrap();
    assert_eq!(r, names(&["x", "fresh.txt"]));
}

#[test]
fn empty_path_resolves_to_the_root_itself() {
    let fs = demo_fs();
    let r = drive(&fs, b"", read_opts(), true).unwrap();
    assert_eq!(r, Vec::<Vec<u8>>::new());
}

#[test]
fn parse_drops_empty_and_cur_dir_components() {
    let comps = parse_relative_path(b"a//b/./c/").unwrap();
    let expect: Vec<&[u8]> = vec![b"a", b"b", b"c"];
    assert_eq!(comps.len(), expect.len());
    for (c, e) in comps.iter().zip(expect.iter()) {
        assert!(matches!(c, Component::Normal { name } if name.as_slice() == *e));
    }
}

#[test]
fn parse_keeps_parent_components() {
    let comps = parse_relative_path(b"..").unwrap();
    assert_eq!(comps.len(), 1);
    assert!(matches!(comps[0], Component::Parent));
}

#[test]
fn parse_rejects_absolute_paths() {
    let r = parse_relative_path(b"/etc/passwd");
    assert!(matches!(r, Err(ResolutionError::EscapeAttempt)));
}

#[test]
fn split_parent_yields_parent_and_leaf() {
    let comps = parse_relative_path(b"a/b/c.txt").unwrap();
    let (parent, leaf) = split_parent(comps).unwrap();
    assert_eq!(leaf, b"c.txt".to_vec());
    assert_eq!(parent.len(), 2);
    assert!(matches!(&parent[0], Component::Normal { name } if name.as_slice() == b"a"));
    assert!(matches!(&parent[1], Component::Normal { name } if name.as_slice() == b"b"));
}

#[test]
fn split_parent_rejects_empty_path() {
    let comps = parse_relative_path(b"").unwrap();
    let r = split_parent(comps);
    assert!(matches!(r, Err(ResolutionError::Io { errno: Some(22), .. })));
}

#[test]
fn split_parent_rejects_trailing_parent_step() {
    let comps = parse_relative_path(b"a/..").unwrap();
    let r = split_parent(comps);
    assert!(matches!(r, Err(ResolutionError::Io { errno: Some(22), .. })));
}

#[test]
fn cross_capability_pairs_are_rejected() {
    let a = FileId { dev: 1, ino: 10 };
    let b = FileId { dev: 1, ino: 11 };
    assert!(check_same_capability(a, a).is_ok());
    assert!(matches!(
        check_same_capability(a, b),
        Err(ResolutionError::EscapeAttempt)
    ));
}

#[test]
fn reopen_plan_without_recovery_is_distinguished_error() {
    let r = reopen_plan(None);
    match r {
        Err(ResolutionError::Io { errno, message }) => {
            assert_eq!(errno, None);
            assert_eq!(message, "could not reopen file");
        }
        _ => panic!("expected the distinguished reopen failure"),
    }
}

#[test]
fn reopen_plan_parses_recovered_path() {
    let comps = reopen_plan(Some(b"/tmp/work/data.bin")).unwrap();
    let expect: Vec<&[u8]> = vec![b"tmp", b"work", b"data.bin"];
    assert_eq!(comps.len(), expect.len());
    for (c, e) in comps.iter().zip(expect.iter()) {
        assert!(matches!(c, Component::Normal { name } if name.as_slice() == *e));
    }
}

#[test]
fn parse_unrooted_accepts_leading_separator() {
    let comps = parse_unrooted(b"/x/y");
    assert_eq!(comps.len(), 2);
}
