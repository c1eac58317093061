//! Classification of one directory child into a bucket, an optional error
//! and a tiered record.
//!
//! A child arrives as a `ChildEvent`: its name, the result of the
//! non-following metadata query, and — when the query reported a symlink
//! and the scan follows symlinks — the result of the query on the link's
//! target. Classification is a pure function of the event and of the scan
//! configuration; the functions here define it and build the record shapes.

use vstd::prelude::*;

use crate::def::{
    DirEntry, DirEntryExt, DirEntryFull, DirEntryFullSpec, EntryKind, RawMetadata, ReturnType,
    ScandirResult, ScandirResultSpec, Timestamp,
};
use crate::filter::{spec_allows_dir, spec_allows_file, FilterSpec};

verus! {

/// What the reader of a directory hands in for one child: the child's
/// name, the result of the lstat-like query, and, only when that query
/// reported a symlink and symlinks are followed, the result of the
/// following query on the target.
#[derive(Debug)]
pub struct ChildEvent {
    pub name: String,
    pub lstat: Result<RawMetadata, String>,
    pub target: Option<Result<RawMetadata, String>>,
}

/// The mathematical value of a `ChildEvent`.
pub struct ChildEventSpec {
    pub name: Seq<char>,
    pub lstat: Result<RawMetadata, Seq<char>>,
    pub target: Option<Result<RawMetadata, Seq<char>>>,
}

impl View for ChildEvent {
    type V = ChildEventSpec;

    open spec fn view(&self) -> ChildEventSpec {
        ChildEventSpec {
            name: self.name@,
            lstat: match self.lstat {
                Ok(m) => Ok(m),
                Err(ref s) => Err(s@),
            },
            target: match self.target {
                Some(Ok(m)) => Some(Ok(m)),
                Some(Err(ref s)) => Some(Err(s@)),
                None => None,
            },
        }
    }
}

/// The bucket a classified child lands in.
#[derive(Clone, Copy, Debug, PartialEq, Eq, Structural)]
pub enum Bucket {
    Dirs,
    Files,
    Symlinks,
    Other,
}

/// A name is hidden when it starts with a dot.
pub open spec fn spec_is_hidden(name: Seq<char>) -> bool {
    name.len() > 0 && name[0] == '.'
}

/// The path of a child relative to the scan root: the parent's relative
/// path and the name, joined by a separator; the root's relative path is
/// the empty string. An empty name stands for the directory itself — the
/// shape a reader uses to report that the directory could not be read —
/// and yields the directory's own path.
pub open spec fn spec_child_path(dir: Seq<char>, name: Seq<char>) -> Seq<char> {
    if name.len() == 0 {
        dir
    } else if dir.len() == 0 {
        name
    } else {
        dir + "/"@ + name
    }
}

/// Whether the scan looks at this child at all: hidden names are skipped
/// before any filtering or classification when `skip_hidden` is set.
pub open spec fn spec_considered(skip_hidden: bool, ev: ChildEventSpec) -> bool {
    !(skip_hidden && spec_is_hidden(ev.name))
}

/// Whether the child was reported as a symlink by the non-following query.
pub open spec fn spec_is_symlink(ev: ChildEventSpec) -> bool {
    ev.lstat matches Ok(m) && m.kind == EntryKind::Symlink
}

/// Whether the child is a symlink that was followed but whose target
/// could not be queried: such a child stays a symlink and also reports
/// one error.
pub open spec fn spec_broken_symlink(follow: bool, ev: ChildEventSpec) -> bool {
    follow && spec_is_symlink(ev) && ev.target matches Some(Err(_))
}

/// The metadata that describes the child for record building: the
/// target's metadata when a symlink was followed and resolved, otherwise
/// what the non-following query returned. Meaningful only when the
/// non-following query succeeded.
pub open spec fn spec_effective_meta(follow: bool, ev: ChildEventSpec) -> RawMetadata {
    match ev.target {
        Some(Ok(t)) => if follow && spec_is_symlink(ev) {
            t
        } else {
            ev.lstat->Ok_0
        },
        _ => ev.lstat->Ok_0,
    }
}

/// The kind the child is classified by: the resolved target's kind when a
/// symlink was followed and resolved, and `Symlink` when following failed
/// or was not attempted. Meaningful only when the non-following query
/// succeeded.
pub open spec fn spec_effective_kind(follow: bool, ev: ChildEventSpec) -> EntryKind {
    if spec_is_symlink(ev) {
        match ev.target {
            Some(Ok(t)) => if follow {
                t.kind
            } else {
                EntryKind::Symlink
            },
            _ => EntryKind::Symlink,
        }
    } else {
        ev.lstat->Ok_0.kind
    }
}

/// The bucket this child lands in, or `None` when it is skipped (hidden,
/// filtered out) or produced only an error. A directory rejected by the
/// directory filter and a file rejected by the file filter are omitted
/// everywhere; symlinks and other kinds pass no filter.
pub open spec fn spec_bucket_of(
    skip_hidden: bool,
    follow: bool,
    f: FilterSpec,
    dir: Seq<char>,
    ev: ChildEventSpec,
) -> Option<Bucket> {
    if !spec_considered(skip_hidden, ev) {
        None
    } else if ev.lstat is Err {
        None
    } else {
        let p = spec_child_path(dir, ev.name);
        match spec_effective_kind(follow, ev) {
            EntryKind::Directory => if spec_allows_dir(f, p) {
                Some(Bucket::Dirs)
            } else {
                None
            },
            EntryKind::File => if spec_allows_file(f, p) {
                Some(Bucket::Files)
            } else {
                None
            },
            EntryKind::Symlink => Some(Bucket::Symlinks),
            EntryKind::Other => Some(Bucket::Other),
        }
    }
}

/// Whether this child reports an error: its metadata query failed, or it
/// is a followed symlink with an unreachable target. An error never stops
/// the scan; it is recorded and traversal goes on.
pub open spec fn spec_emits_error(skip_hidden: bool, follow: bool, ev: ChildEventSpec) -> bool {
    spec_considered(skip_hidden, ev) && (ev.lstat is Err || spec_broken_symlink(follow, ev))
}

/// The message of the error this child reports.
pub open spec fn spec_error_message(ev: ChildEventSpec) -> Seq<char> {
    if ev.lstat is Err {
        ev.lstat->Err_0
    } else {
        ev.target->Some_0->Err_0
    }
}

/// The error bucket entry for this child: its path and the message,
/// joined as `path: message`.
pub open spec fn spec_error_string(dir: Seq<char>, ev: ChildEventSpec) -> Seq<char> {
    spec_child_path(dir, ev.name) + ": "@ + spec_error_message(ev)
}

/// The record a scan of tier `tier` emits for a classified child: type
/// flags under `Fast`, plus timestamps under `Base`, plus the stat block
/// under `Ext`, plus name and relative path under `Full`.
pub open spec fn spec_build_record(
    tier: ReturnType,
    is_symlink: bool,
    is_dir: bool,
    is_file: bool,
    m: RawMetadata,
    name: Seq<char>,
    path: Seq<char>,
) -> ScandirResultSpec {
    match tier {
        ReturnType::Fast => ScandirResultSpec::DirEntry(
            DirEntry {
                is_symlink,
                is_dir,
                is_file,
                st_ctime: Timestamp { seconds: 0, nanoseconds: 0 },
                st_mtime: Timestamp { seconds: 0, nanoseconds: 0 },
                st_atime: Timestamp { seconds: 0, nanoseconds: 0 },
            },
        ),
        ReturnType::Base => ScandirResultSpec::DirEntry(
            DirEntry {
                is_symlink,
                is_dir,
                is_file,
                st_ctime: m.st_ctime,
                st_mtime: m.st_mtime,
                st_atime: m.st_atime,
            },
        ),
        ReturnType::Ext => ScandirResultSpec::DirEntryExt(
            DirEntryExt {
                is_symlink,
                is_dir,
                is_file,
                st_ctime: m.st_ctime,
                st_mtime: m.st_mtime,
                st_atime: m.st_atime,
                st_mode: m.st_mode,
                st_ino: m.st_ino,
                st_dev: m.st_dev,
                st_nlink: m.st_nlink,
                st_size: m.st_size,
                st_blksize: m.st_blksize,
                st_blocks: m.st_blocks,
                st_uid: m.st_uid,
                st_gid: m.st_gid,
                st_rdev: m.st_rdev,
            },
        ),
        ReturnType::Full => ScandirResultSpec::DirEntryFull(
            DirEntryFullSpec {
                name,
                path,
                is_symlink,
                is_dir,
                is_file,
                st_ctime: m.st_ctime,
                st_mtime: m.st_mtime,
                st_atime: m.st_atime,
                st_mode: m.st_mode,
                st_ino: m.st_ino,
                st_dev: m.st_dev,
                st_nlink: m.st_nlink,
                st_size: m.st_size,
                st_blksize: m.st_blksize,
                st_blocks: m.st_blocks,
                st_uid: m.st_uid,
                st_gid: m.st_gid,
                st_rdev: m.st_rdev,
            },
        ),
    }
}

/// True exactly when `name` starts with a dot.
pub fn is_hidden_name(name: &str) -> (r: bool)
    ensures
        r == spec_is_hidden(name@),
{
    if name.unicode_len() == 0 {
        false
    } else {
        name.get_char(0) == '.'
    }
}

/// Joins a parent's relative path and a child name: see `spec_child_path`.
pub fn child_path(dir: &str, name: &str) -> (r: String)
    ensures
        r@ == spec_child_path(dir@, name@),
{
    if name.unicode_len() == 0 {
        String::from_str(dir)
    } else if dir.unicode_len() == 0 {
        String::from_str(name)
    } else {
        let mut s = String::from_str(dir);
        s.append("/");
        s.append(name);
        s
    }
}

/// Joins a path and an error message as `path: message`.
pub fn error_string(path: &str, message: &str) -> (r: String)
    ensures
        r@ == path@ + ": "@ + message@,
{
    let mut s = String::from_str(path);
    s.append(": ");
    s.append(message);
    s
}

/// Builds the record of the given tier for a classified entry: the
/// executable side of `spec_build_record`.
pub fn build_record(
    tier: ReturnType,
    is_symlink: bool,
    is_dir: bool,
    is_file: bool,
    m: &RawMetadata,
    name: &str,
    path: &str,
) -> (r: ScandirResult)
    ensures
        r@ == spec_build_record(tier, is_symlink, is_dir, is_file, *m, name@, path@),
{
    match tier {
        ReturnType::Fast => ScandirResult::DirEntry(
            DirEntry {
                is_symlink,
                is_dir,
                is_file,
                st_ctime: Timestamp::zero(),
                st_mtime: Timestamp::zero(),
                st_atime: Timestamp::zero(),
            },
        ),
        ReturnType::Base => ScandirResult::DirEntry(
            DirEntry {
                is_symlink,
                is_dir,
                is_file,
                st_ctime: m.st_ctime,
                st_mtime: m.st_mtime,
                st_atime: m.st_atime,
            },
        ),
        ReturnType::Ext => ScandirResult::DirEntryExt(
            DirEntryExt {
                is_symlink,
                is_dir,
                is_file,
                st_ctime: m.st_ctime,
                st_mtime: m.st_mtime,
                st_atime: m.st_atime,
                st_mode: m.st_mode,
                st_ino: m.st_ino,
                st_dev: m.st_dev,
                st_nlink: m.st_nlink,
                st_size: m.st_size,
                st_blksize: m.st_blksize,
                st_blocks: m.st_blocks,
                st_uid: m.st_uid,
                st_gid: m.st_gid,
                st_rdev: m.st_rdev,
            },
        ),
        ReturnType::Full => ScandirResult::DirEntryFull(
            DirEntryFull {
                name: String::from_str(name),
                path: String::from_str(path),
                is_symlink,
                is_dir,
                is_file,
                st_ctime: m.st_ctime,
                st_mtime: m.st_mtime,
                st_atime: m.st_atime,
                st_mode: m.st_mode,
                st_ino: m.st_ino,
                st_dev: m.st_dev,
                st_nlink: m.st_nlink,
                st_size: m.st_size,
                st_blksize: m.st_blksize,
                st_blocks: m.st_blocks,
                st_uid: m.st_uid,
                st_gid: m.st_gid,
                st_rdev: m.st_rdev,
            },
        ),
    }
}

} // verus!
