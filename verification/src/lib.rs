//! A filterable filesystem-tree scanner core.
//!
//! The library holds the verified logic of a directory-tree scan: glob-based
//! include/exclude filtering with subtree pruning, classification of entries
//! into tiered records, per-directory table-of-contents aggregation, and the
//! start/stop/pause/resume lifecycle of a scan with live statistics. The
//! operating-system calls that read directories and metadata live outside the
//! library; they hand in plain events and take plain values back.

pub mod classify;
pub mod control;
pub mod def;
pub mod engine;
pub mod filter;
pub mod laws;

pub use classify::ChildEvent;
pub use control::{Checkpoint, ScanController, ScanState};
pub use def::{
    DirEntry, DirEntryExt, DirEntryFull, DirEntryFullSpec, EntryKind, PatternSet, RawMetadata,
    ReturnType, ScanError, ScanStatistics, ScandirResult, ScandirResultSpec, Timestamp, Toc,
    TocSpec, WalkEntry, WalkEntryExt, WalkResult, WalkResultSpec,
};
pub use engine::{EngineVariant, PendingDir, ScanConfig, TraversalEngine};
pub use filter::{Filter, MatchConfig};
