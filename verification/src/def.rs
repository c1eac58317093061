//! The data model of a scan: entry kinds, raw metadata, tiered entry records,
//! the per-directory table of contents and the statistics counters.

use vstd::prelude::*;

verus! {

/// The kind of a filesystem object, as a metadata query reports it.
#[derive(Clone, Copy, Debug, PartialEq, Eq, Structural)]
pub enum EntryKind {
    Directory,
    File,
    Symlink,
    Other,
}

/// The level of metadata detail attached to an emitted record.
/// The tiers are strictly ordered: each one carries every field of the
/// tier below it. `Fast` holds type flags only, `Base` adds timestamps,
/// `Ext` adds the full stat block, and `Full` adds the entry's name and
/// its path relative to the scan root.
#[derive(Clone, Copy, Debug, PartialEq, Eq, Structural)]
pub enum ReturnType {
    Fast,
    Base,
    Ext,
    Full,
}

/// The position of a tier in the `Fast < Base < Ext < Full` order.
pub open spec fn tier_level(t: ReturnType) -> int {
    match t {
        ReturnType::Fast => 0,
        ReturnType::Base => 1,
        ReturnType::Ext => 2,
        ReturnType::Full => 3,
    }
}

/// Seconds and nanoseconds of a filesystem timestamp.
#[derive(Clone, Copy, Debug, PartialEq, Eq, Structural)]
pub struct Timestamp {
    pub seconds: i64,
    pub nanoseconds: u32,
}

impl Timestamp {
    /// The zero timestamp, used by tiers that carry no time metadata.
    pub fn zero() -> (r: Timestamp)
        ensures
            r == (Timestamp { seconds: 0, nanoseconds: 0 }),
    {
        Timestamp { seconds: 0, nanoseconds: 0 }
    }
}

/// The normalized result of one metadata query: the object's kind plus the
/// stat block, with timestamps as integer seconds and nanoseconds.
#[derive(Clone, Copy, Debug, PartialEq, Eq, Structural)]
pub struct RawMetadata {
    pub kind: EntryKind,
    pub st_mode: u32,
    pub st_ino: u64,
    pub st_dev: u64,
    pub st_nlink: u64,
    pub st_size: u64,
    pub st_blksize: u64,
    pub st_blocks: u64,
    pub st_uid: u32,
    pub st_gid: u32,
    pub st_rdev: u64,
    pub st_ctime: Timestamp,
    pub st_mtime: Timestamp,
    pub st_atime: Timestamp,
}

/// A record of the `Fast` or `Base` tier: type flags, and for `Base` the
/// three timestamps (zero under `Fast`).
#[derive(Clone, Copy, Debug, PartialEq, Eq, Structural)]
pub struct DirEntry {
    pub is_symlink: bool,
    pub is_dir: bool,
    pub is_file: bool,
    pub st_ctime: Timestamp,
    pub st_mtime: Timestamp,
    pub st_atime: Timestamp,
}

impl DirEntry {
    /// A record of the plain shape from its fields.
    pub fn new(
        is_symlink: bool,
        is_dir: bool,
        is_file: bool,
        st_ctime: Timestamp,
        st_mtime: Timestamp,
        st_atime: Timestamp,
    ) -> (r: DirEntry)
        ensures
            r == (DirEntry { is_symlink, is_dir, is_file, st_ctime, st_mtime, st_atime }),
    {
        DirEntry { is_symlink, is_dir, is_file, st_ctime, st_mtime, st_atime }
    }
}

/// A record of the `Ext` tier: type flags, timestamps and the full stat block.
#[derive(Clone, Copy, Debug, PartialEq, Eq, Structural)]
pub struct DirEntryExt {
    pub is_symlink: bool,
    pub is_dir: bool,
    pub is_file: bool,
    pub st_ctime: Timestamp,
    pub st_mtime: Timestamp,
    pub st_atime: Timestamp,
    pub st_mode: u32,
    pub st_ino: u64,
    pub st_dev: u64,
    pub st_nlink: u64,
    pub st_size: u64,
    pub st_blksize: u64,
    pub st_blocks: u64,
    pub st_uid: u32,
    pub st_gid: u32,
    pub st_rdev: u64,
}

impl DirEntryExt {
    /// A record of the extended shape from its fields.
    pub fn new(
        is_symlink: bool,
        is_dir: bool,
        is_file: bool,
        st_ctime: Timestamp,
        st_mtime: Timestamp,
        st_atime: Timestamp,
        st_mode: u32,
        st_ino: u64,
        st_dev: u64,
        st_nlink: u64,
        st_size: u64,
        st_blksize: u64,
        st_blocks: u64,
        st_uid: u32,
        st_gid: u32,
        st_rdev: u64,
    ) -> (r: DirEntryExt)
        ensures
            r == (DirEntryExt {
                is_symlink,
                is_dir,
                is_file,
                st_ctime,
                st_mtime,
                st_atime,
                st_mode,
                st_ino,
                st_dev,
                st_nlink,
                st_size,
                st_blksize,
                st_blocks,
                st_uid,
                st_gid,
                st_rdev,
            }),
    {
        DirEntryExt {
            is_symlink,
            is_dir,
            is_file,
            st_ctime,
            st_mtime,
            st_atime,
            st_mode,
            st_ino,
            st_dev,
            st_nlink,
            st_size,
            st_blksize,
            st_blocks,
            st_uid,
            st_gid,
            st_rdev,
        }
    }
}

/// A record of the `Full` tier: everything of `Ext` plus the entry's name
/// and its path relative to the scan root.
#[derive(Clone, Debug)]
pub struct DirEntryFull {
    pub name: String,
    pub path: String,
    pub is_symlink: bool,
    pub is_dir: bool,
    pub is_file: bool,
    pub st_ctime: Timestamp,
    pub st_mtime: Timestamp,
    pub st_atime: Timestamp,
    pub st_mode: u32,
    pub st_ino: u64,
    pub st_dev: u64,
    pub st_nlink: u64,
    pub st_size: u64,
    pub st_blksize: u64,
    pub st_blocks: u64,
    pub st_uid: u32,
    pub st_gid: u32,
    pub st_rdev: u64,
}

impl DirEntryFull {
    /// A record of the full shape from its fields.
    pub fn new(
        name: String,
        path: String,
        is_symlink: bool,
        is_dir: bool,
        is_file: bool,
        st_ctime: Timestamp,
        st_mtime: Timestamp,
        st_atime: Timestamp,
        st_mode: u32,
        st_ino: u64,
        st_dev: u64,
        st_nlink: u64,
        st_size: u64,
        st_blksize: u64,
        st_blocks: u64,
        st_uid: u32,
        st_gid: u32,
        st_rdev: u64,
    ) -> (r: DirEntryFull)
        ensures
            r.name@ == name@,
            r.path@ == path@,
            r.is_symlink == is_symlink,
            r.is_dir == is_dir,
            r.is_file == is_file,
            r.st_ctime == st_ctime,
            r.st_mtime == st_mtime,
            r.st_atime == st_atime,
            r.st_mode == st_mode,
            r.st_ino == st_ino,
            r.st_dev == st_dev,
            r.st_nlink == st_nlink,
            r.st_size == st_size,
            r.st_blksize == st_blksize,
            r.st_blocks == st_blocks,
            r.st_uid == st_uid,
            r.st_gid == st_gid,
            r.st_rdev == st_rdev,
    {
        DirEntryFull {
            name,
            path,
            is_symlink,
            is_dir,
            is_file,
            st_ctime,
            st_mtime,
            st_atime,
            st_mode,
            st_ino,
            st_dev,
            st_nlink,
            st_size,
            st_blksize,
            st_blocks,
            st_uid,
            st_gid,
            st_rdev,
        }
    }
}

/// The mathematical value of a `DirEntryFull`: its strings as character
/// sequences, the rest as it stands.
pub struct DirEntryFullSpec {
    pub name: Seq<char>,
    pub path: Seq<char>,
    pub is_symlink: bool,
    pub is_dir: bool,
    pub is_file: bool,
    pub st_ctime: Timestamp,
    pub st_mtime: Timestamp,
    pub st_atime: Timestamp,
    pub st_mode: u32,
    pub st_ino: u64,
    pub st_dev: u64,
    pub st_nlink: u64,
    pub st_size: u64,
    pub st_blksize: u64,
    pub st_blocks: u64,
    pub st_uid: u32,
    pub st_gid: u32,
    pub st_rdev: u64,
}

impl View for DirEntryFull {
    type V = DirEntryFullSpec;

    open spec fn view(&self) -> DirEntryFullSpec {
        DirEntryFullSpec {
            name: self.name@,
            path: self.path@,
            is_symlink: self.is_symlink,
            is_dir: self.is_dir,
            is_file: self.is_file,
            st_ctime: self.st_ctime,
            st_mtime: self.st_mtime,
            st_atime: self.st_atime,
            st_mode: self.st_mode,
            st_ino: self.st_ino,
            st_dev: self.st_dev,
            st_nlink: self.st_nlink,
            st_size: self.st_size,
            st_blksize: self.st_blksize,
            st_blocks: self.st_blocks,
            st_uid: self.st_uid,
            st_gid: self.st_gid,
            st_rdev: self.st_rdev,
        }
    }
}

/// One result of a recursive scan: a tiered record for an accepted entry,
/// or an error, encoded as a `path: message` string.
#[derive(Clone, Debug)]
pub enum ScandirResult {
    DirEntry(DirEntry),
    DirEntryExt(DirEntryExt),
    DirEntryFull(DirEntryFull),
    Error(String),
}

/// The mathematical value of a `ScandirResult`.
pub enum ScandirResultSpec {
    DirEntry(DirEntry),
    DirEntryExt(DirEntryExt),
    DirEntryFull(DirEntryFullSpec),
    Error(Seq<char>),
}

impl View for ScandirResult {
    type V = ScandirResultSpec;

    open spec fn view(&self) -> ScandirResultSpec {
        match self {
            ScandirResult::DirEntry(e) => ScandirResultSpec::DirEntry(*e),
            ScandirResult::DirEntryExt(e) => ScandirResultSpec::DirEntryExt(*e),
            ScandirResult::DirEntryFull(e) => ScandirResultSpec::DirEntryFull(e@),
            ScandirResult::Error(s) => ScandirResultSpec::Error(s@),
        }
    }
}

/// The five ordered buckets of classified paths: directories, files,
/// symlinks, other object kinds, and `path: message` error strings.
/// A scanned path lands in exactly one of the first four buckets; it may
/// additionally stand in `errors` when a metadata query for it failed.
#[derive(Clone, Debug)]
pub struct Toc {
    pub dirs: Vec<String>,
    pub files: Vec<String>,
    pub symlinks: Vec<String>,
    pub other: Vec<String>,
    pub errors: Vec<String>,
}

/// The mathematical value of a `Toc`: five sequences of character sequences.
#[verifier::ext_equal]
pub struct TocSpec {
    pub dirs: Seq<Seq<char>>,
    pub files: Seq<Seq<char>>,
    pub symlinks: Seq<Seq<char>>,
    pub other: Seq<Seq<char>>,
    pub errors: Seq<Seq<char>>,
}

impl TocSpec {
    /// The table of contents with all five buckets empty.
    pub open spec fn empty() -> TocSpec {
        TocSpec {
            dirs: Seq::empty(),
            files: Seq::empty(),
            symlinks: Seq::empty(),
            other: Seq::empty(),
            errors: Seq::empty(),
        }
    }

    /// The number of entries over the four kind buckets, errors aside.
    pub open spec fn entry_count(self) -> int {
        self.dirs.len() + self.files.len() + self.symlinks.len() + self.other.len() as int
    }
}

impl View for Toc {
    type V = TocSpec;

    open spec fn view(&self) -> TocSpec {
        TocSpec {
            dirs: self.dirs.deep_view(),
            files: self.files.deep_view(),
            symlinks: self.symlinks.deep_view(),
            other: self.other.deep_view(),
            errors: self.errors.deep_view(),
        }
    }
}

impl Toc {
    /// A table of contents with all five buckets empty.
    pub fn new() -> (r: Toc)
        ensures
            r@ == TocSpec::empty(),
    {
        let r = Toc {
            dirs: Vec::new(),
            files: Vec::new(),
            symlinks: Vec::new(),
            other: Vec::new(),
            errors: Vec::new(),
        };
        proof {
            assert(r@.dirs =~= Seq::<Seq<char>>::empty());
            assert(r@.files =~= Seq::<Seq<char>>::empty());
            assert(r@.symlinks =~= Seq::<Seq<char>>::empty());
            assert(r@.other =~= Seq::<Seq<char>>::empty());
            assert(r@.errors =~= Seq::<Seq<char>>::empty());
        }
        r
    }

    /// Empties all five buckets. This is the only reset operation a `Toc`
    /// supports; it touches nothing besides the five buckets.
    pub fn clear(&mut self)
        ensures
            final(self)@ == TocSpec::empty(),
    {
        self.dirs.clear();
        self.files.clear();
        self.symlinks.clear();
        self.other.clear();
        self.errors.clear();
        proof {
            assert(self@.dirs =~= Seq::<Seq<char>>::empty());
            assert(self@.files =~= Seq::<Seq<char>>::empty());
            assert(self@.symlinks =~= Seq::<Seq<char>>::empty());
            assert(self@.other =~= Seq::<Seq<char>>::empty());
            assert(self@.errors =~= Seq::<Seq<char>>::empty());
        }
    }
}

/// One result of a directory walk: a visited directory's path together with
/// the table of contents of its immediate, filtered children.
#[derive(Clone, Debug)]
pub struct WalkEntry {
    pub path: String,
    pub toc: Toc,
}

/// Like `WalkEntry`; the extended shape, emitted when the configured tier
/// asks for more than the directory and file buckets.
#[derive(Clone, Debug)]
pub struct WalkEntryExt {
    pub path: String,
    pub toc: Toc,
}

/// One emission of the walk engine: a bare table of contents, or a
/// per-directory entry in its plain or extended shape.
#[derive(Clone, Debug)]
pub enum WalkResult {
    Toc(Toc),
    WalkEntry(WalkEntry),
    WalkEntryExt(WalkEntryExt),
}

/// The mathematical value of a `WalkResult`.
pub enum WalkResultSpec {
    Toc(TocSpec),
    WalkEntry(Seq<char>, TocSpec),
    WalkEntryExt(Seq<char>, TocSpec),
}

impl View for WalkResult {
    type V = WalkResultSpec;

    open spec fn view(&self) -> WalkResultSpec {
        match self {
            WalkResult::Toc(t) => WalkResultSpec::Toc(t@),
            WalkResult::WalkEntry(e) => WalkResultSpec::WalkEntry(e.path@, e.toc@),
            WalkResult::WalkEntryExt(e) => WalkResultSpec::WalkEntryExt(e.path@, e.toc@),
        }
    }
}

/// Monotonic progress counters of a scan, plus the elapsed duration in
/// nanoseconds. `total` counts the entries of the four kind buckets;
/// errors are counted apart.
#[derive(Clone, Copy, Debug, PartialEq, Eq, Structural)]
pub struct ScanStatistics {
    pub dirs: u64,
    pub files: u64,
    pub symlinks: u64,
    pub other: u64,
    pub errors: u64,
    pub total: u64,
    pub duration_nanoseconds: u64,
}

impl ScanStatistics {
    /// All counters and the duration at zero.
    pub open spec fn spec_zero() -> ScanStatistics {
        ScanStatistics {
            dirs: 0,
            files: 0,
            symlinks: 0,
            other: 0,
            errors: 0,
            total: 0,
            duration_nanoseconds: 0,
        }
    }

    /// All counters and the duration at zero.
    pub fn zero() -> (r: ScanStatistics)
        ensures
            r == ScanStatistics::spec_zero(),
    {
        ScanStatistics {
            dirs: 0,
            files: 0,
            symlinks: 0,
            other: 0,
            errors: 0,
            total: 0,
            duration_nanoseconds: 0,
        }
    }
}

/// Which of the four pattern sets of a filter an error speaks of.
#[derive(Clone, Copy, Debug, PartialEq, Eq, Structural)]
pub enum PatternSet {
    DirInclude,
    DirExclude,
    FileInclude,
    FileExclude,
}

/// A configuration or lifecycle error, reported before any work is done.
#[derive(Clone, Copy, Debug, PartialEq, Eq, Structural)]
pub enum ScanError {
    /// A glob pattern at `index` of the named set does not compile.
    InvalidPattern { set: PatternSet, index: usize },
    /// `start` was called while a scan is already active.
    AlreadyRunning,
}

} // verus!
