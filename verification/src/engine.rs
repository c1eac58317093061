//! The traversal engine: an explicit work queue of pending directories,
//! visited one at a time.
//!
//! The engine never touches the operating system. A driver asks it which
//! directory is due next (`peek_next`), reads that directory outside the
//! library, and hands the children back as events (`visit_next`). The
//! engine classifies each child, applies the filter, feeds the sink of its
//! variant — statistics only, per-directory walk entries, or recursive
//! tiered records — and queues accepted subdirectories, pruning excluded
//! ones before they are ever read. One visit is a pure function of the
//! engine state and the events: `spec_after_visit` states it in closed
//! form, and `visit_next` is proved to meet it.

use vstd::prelude::*;

use crate::classify::{
    build_record, child_path, error_string, is_hidden_name, spec_broken_symlink, spec_bucket_of,
    spec_child_path, spec_considered, spec_effective_kind, spec_effective_meta, spec_emits_error,
    spec_error_string, spec_is_symlink, Bucket, ChildEvent, ChildEventSpec,
};
use crate::def::{
    tier_level, EntryKind, RawMetadata, ReturnType, ScanStatistics, ScandirResult,
    ScandirResultSpec, Toc, TocSpec, WalkEntry, WalkEntryExt, WalkResult, WalkResultSpec,
};
use crate::filter::{spec_allows_dir, Filter, FilterSpec};

verus! {

/// The configuration of one scan, immutable for its duration.
/// `max_depth` caps the depth of the directories visited: the root has
/// depth zero, and a directory of depth `d` is descended into only when
/// `d + 1 < max_depth`; a negative value means unlimited. `sorted` asks
/// the driver to present each directory's children in name order; it
/// changes emission order only, never membership.
pub struct ScanConfig {
    pub root_path: String,
    pub sorted: bool,
    pub skip_hidden: bool,
    pub max_depth: i64,
    pub follow_symlinks: bool,
    pub return_type: ReturnType,
    pub filter: Filter,
}

/// The mathematical value of a `ScanConfig`.
#[verifier::ext_equal]
pub struct ConfigSpec {
    pub root_path: Seq<char>,
    pub sorted: bool,
    pub skip_hidden: bool,
    pub max_depth: int,
    pub follow_symlinks: bool,
    pub return_type: ReturnType,
    pub filter: FilterSpec,
}

impl View for ScanConfig {
    type V = ConfigSpec;

    open spec fn view(&self) -> ConfigSpec {
        ConfigSpec {
            root_path: self.root_path@,
            sorted: self.sorted,
            skip_hidden: self.skip_hidden,
            max_depth: self.max_depth as int,
            follow_symlinks: self.follow_symlinks,
            return_type: self.return_type,
            filter: self.filter@,
        }
    }
}

/// A directory waiting to be visited: its path relative to the scan root
/// (the root itself is the empty path) and its depth below the root.
#[derive(Debug)]
pub struct PendingDir {
    pub path: String,
    pub depth: u32,
}

/// The mathematical value of a `PendingDir`.
#[verifier::ext_equal]
pub struct PendingDirSpec {
    pub path: Seq<char>,
    pub depth: int,
}

impl View for PendingDir {
    type V = PendingDirSpec;

    open spec fn view(&self) -> PendingDirSpec {
        PendingDirSpec { path: self.path@, depth: self.depth as int }
    }
}

/// Which sink the engine feeds: statistics only, one walk entry per
/// visited directory, or one tiered record per accepted entry.
#[derive(Clone, Copy, Debug, PartialEq, Eq, Structural)]
pub enum EngineVariant {
    Count,
    Walk,
    Scandir,
}

/// What one directory visit produces: the visited directory's table of
/// contents, the subdirectories queued for descent, the visited-identity
/// set after the visit, and the records a `Scandir` sink stores.
#[verifier::ext_equal]
pub struct VisitDelta {
    pub toc: TocSpec,
    pub enqueue: Seq<PendingDirSpec>,
    pub visited: Seq<(u64, u64)>,
    pub records: Seq<ScandirResultSpec>,
}

/// Whether a directory of depth `depth` may be descended into.
pub open spec fn spec_would_descend(c: ConfigSpec, depth: int) -> bool {
    depth + 1 <= u32::MAX && (c.max_depth < 0 || depth + 1 < c.max_depth)
}

/// The (device, inode) identity of a directory child, taken from the
/// resolved target when a symlink was followed.
pub open spec fn spec_dir_identity(follow: bool, ev: ChildEventSpec) -> (u64, u64) {
    (spec_effective_meta(follow, ev).st_dev, spec_effective_meta(follow, ev).st_ino)
}

/// The record emitted for a classified child: flags from the lstat-like
/// query and the resolved kind, metadata from the effective target.
pub open spec fn spec_record_for(c: ConfigSpec, dir: Seq<char>, ev: ChildEventSpec) -> ScandirResultSpec {
    crate::classify::spec_build_record(
        c.return_type,
        spec_is_symlink(ev),
        spec_effective_kind(c.follow_symlinks, ev) == EntryKind::Directory,
        spec_effective_kind(c.follow_symlinks, ev) == EntryKind::File,
        spec_effective_meta(c.follow_symlinks, ev),
        ev.name,
        spec_child_path(dir, ev.name),
    )
}

/// The delta of a visit before any event is processed.
pub open spec fn spec_visit_init(visited0: Seq<(u64, u64)>) -> VisitDelta {
    VisitDelta {
        toc: TocSpec::empty(),
        enqueue: Seq::empty(),
        visited: visited0,
        records: Seq::empty(),
    }
}

/// Processing of one child event: the child lands in at most one bucket,
/// reports at most one error, and is queued for descent only when it is
/// an accepted directory within the depth limit whose identity was not
/// already visited (identities are tracked only when symlinks are
/// followed, to break symlink cycles).
pub open spec fn spec_visit_step(
    c: ConfigSpec,
    dir: Seq<char>,
    depth: int,
    acc: VisitDelta,
    ev: ChildEventSpec,
) -> VisitDelta {
    let p = spec_child_path(dir, ev.name);
    let bucket = spec_bucket_of(c.skip_hidden, c.follow_symlinks, c.filter, dir, ev);
    let err = spec_emits_error(c.skip_hidden, c.follow_symlinks, ev);
    let es = spec_error_string(dir, ev);
    let toc1 = TocSpec {
        dirs: if bucket == Some(Bucket::Dirs) {
            acc.toc.dirs.push(p)
        } else {
            acc.toc.dirs
        },
        files: if bucket == Some(Bucket::Files) {
            acc.toc.files.push(p)
        } else {
            acc.toc.files
        },
        symlinks: if bucket == Some(Bucket::Symlinks) {
            acc.toc.symlinks.push(p)
        } else {
            acc.toc.symlinks
        },
        other: if bucket == Some(Bucket::Other) {
            acc.toc.other.push(p)
        } else {
            acc.toc.other
        },
        errors: if err {
            acc.toc.errors.push(es)
        } else {
            acc.toc.errors
        },
    };
    let recs1 = if bucket is Some {
        acc.records.push(spec_record_for(c, dir, ev))
    } else {
        acc.records
    };
    let recs2 = if err {
        recs1.push(ScandirResultSpec::Error(es))
    } else {
        recs1
    };
    let id = spec_dir_identity(c.follow_symlinks, ev);
    let descend = bucket == Some(Bucket::Dirs) && spec_would_descend(c, depth) && !(
    c.follow_symlinks && acc.visited.contains(id));
    VisitDelta {
        toc: toc1,
        enqueue: if descend {
            acc.enqueue.push(PendingDirSpec { path: p, depth: depth + 1 })
        } else {
            acc.enqueue
        },
        visited: if descend && c.follow_symlinks {
            acc.visited.push(id)
        } else {
            acc.visited
        },
        records: recs2,
    }
}

/// What visiting one directory with the given children produces, folding
/// `spec_visit_step` over the events in order.
pub open spec fn spec_visit(
    c: ConfigSpec,
    dir: Seq<char>,
    depth: int,
    visited0: Seq<(u64, u64)>,
    events: Seq<ChildEventSpec>,
) -> VisitDelta
    decreases events.len(),
{
    if events.len() == 0 {
        spec_visit_init(visited0)
    } else {
        spec_visit_step(c, dir, depth, spec_visit(c, dir, depth, visited0, events.drop_last()), events.last())
    }
}

/// The walk emission for one visited directory: the extended shape when
/// the tier carries at least the stat block, the plain shape below that.
pub open spec fn spec_walk_emission(tier: ReturnType, dir: Seq<char>, toc: TocSpec) -> WalkResultSpec {
    if tier_level(tier) >= 2 {
        WalkResultSpec::WalkEntryExt(dir, toc)
    } else {
        WalkResultSpec::WalkEntry(dir, toc)
    }
}

/// The statistics counters after adding one visit's table of contents:
/// each bucket's counter grows by that bucket's emissions, `total` by the
/// entries of the four kind buckets, and the duration stays.
pub open spec fn spec_stats_after(s: ScanStatistics, t: TocSpec) -> ScanStatistics {
    ScanStatistics {
        dirs: (s.dirs + t.dirs.len()) as u64,
        files: (s.files + t.files.len()) as u64,
        symlinks: (s.symlinks + t.symlinks.len()) as u64,
        other: (s.other + t.other.len()) as u64,
        errors: (s.errors + t.errors.len()) as u64,
        total: (s.total + t.entry_count()) as u64,
        duration_nanoseconds: s.duration_nanoseconds,
    }
}

/// The mathematical value of a `TraversalEngine`.
#[verifier::ext_equal]
pub struct EngineSpec {
    pub cfg: ConfigSpec,
    pub variant: EngineVariant,
    pub queue: Seq<PendingDirSpec>,
    pub visited: Seq<(u64, u64)>,
    pub stats: ScanStatistics,
    pub walk: Seq<WalkResultSpec>,
    pub records: Seq<ScandirResultSpec>,
}

/// A fresh engine: the root (empty relative path, depth zero) queued, no
/// identity visited, all counters zero, both sinks empty.
pub open spec fn spec_initial_engine(c: ConfigSpec, variant: EngineVariant) -> EngineSpec {
    EngineSpec {
        cfg: c,
        variant,
        queue: seq![PendingDirSpec { path: Seq::empty(), depth: 0 }],
        visited: Seq::empty(),
        stats: ScanStatistics::spec_zero(),
        walk: Seq::empty(),
        records: Seq::empty(),
    }
}

/// The engine state after one visit of the queue's front directory; with
/// nothing pending there is nothing to visit and the state stands.
pub open spec fn spec_after_visit(e: EngineSpec, events: Seq<ChildEventSpec>) -> EngineSpec {
    if e.queue.len() == 0 {
        e
    } else {
        spec_after_visit_front(e, events)
    }
}

/// The engine state after visiting the queue's front directory.
pub open spec fn spec_after_visit_front(e: EngineSpec, events: Seq<ChildEventSpec>) -> EngineSpec {
    let front = e.queue[0];
    let delta = spec_visit(e.cfg, front.path, front.depth, e.visited, events);
    EngineSpec {
        cfg: e.cfg,
        variant: e.variant,
        queue: e.queue.drop_first() + delta.enqueue,
        visited: delta.visited,
        stats: spec_stats_after(e.stats, delta.toc),
        walk: e.walk + if e.variant == EngineVariant::Walk {
            seq![spec_walk_emission(e.cfg.return_type, front.path, delta.toc)]
        } else {
            Seq::empty()
        },
        records: e.records + if e.variant == EngineVariant::Scandir {
            delta.records
        } else {
            Seq::empty()
        },
    }
}

/// The engine's internal invariant: `total` counts exactly the four kind
/// buckets, and each variant stores only in its own sink.
pub open spec fn engine_inv(e: EngineSpec) -> bool {
    &&& e.stats.total == e.stats.dirs + e.stats.files + e.stats.symlinks + e.stats.other
    &&& e.variant == EngineVariant::Count ==> e.walk.len() == 0 && e.records.len() == 0
    &&& e.variant == EngineVariant::Walk ==> e.records.len() == 0
    &&& e.variant == EngineVariant::Scandir ==> e.walk.len() == 0
}

/// Every queued directory other than the root has passed the directory
/// filter: the engine never schedules an excluded directory, which is how
/// an excluded subtree is pruned without being read.
pub open spec fn all_queued_allowed(e: EngineSpec) -> bool {
    forall|k: int|
        0 <= k < e.queue.len() ==> ((#[trigger] e.queue[k]).depth == 0 || spec_allows_dir(
            e.cfg.filter,
            e.queue[k].path,
        ))
}

/// The view of a sequence of child events.
pub open spec fn events_view(s: Seq<ChildEvent>) -> Seq<ChildEventSpec> {
    s.map_values(|e: ChildEvent| e@)
}

/// The prefix of a visit: the delta after the first `i` events.
pub open spec fn spec_visit_prefix(
    c: ConfigSpec,
    dir: Seq<char>,
    depth: int,
    visited0: Seq<(u64, u64)>,
    events: Seq<ChildEventSpec>,
    i: int,
) -> VisitDelta {
    spec_visit(c, dir, depth, visited0, events.take(i))
}

/// Every directory a visit queues has passed the directory filter and
/// lies strictly below the root.
pub proof fn lemma_enqueued_dirs_allowed(
    c: ConfigSpec,
    dir: Seq<char>,
    depth: int,
    visited0: Seq<(u64, u64)>,
    events: Seq<ChildEventSpec>,
)
    requires
        depth >= 0,
    ensures
        forall|k: int|
            0 <= k < spec_visit(c, dir, depth, visited0, events).enqueue.len() ==> (
            #[trigger] spec_visit(c, dir, depth, visited0, events).enqueue[k]).depth > 0
                && spec_allows_dir(c.filter, spec_visit(c, dir, depth, visited0, events).enqueue[k].path),
    decreases events.len(),
{
    if events.len() > 0 {
        lemma_enqueued_dirs_allowed(c, dir, depth, visited0, events.drop_last());
        let prev = spec_visit(c, dir, depth, visited0, events.drop_last());
        let cur = spec_visit(c, dir, depth, visited0, events);
        let ev = events.last();
        assert(cur == spec_visit_step(c, dir, depth, prev, ev));
        if cur.enqueue.len() > prev.enqueue.len() {
            assert(spec_bucket_of(c.skip_hidden, c.follow_symlinks, c.filter, dir, ev) == Some(
                Bucket::Dirs,
            ));
            assert(spec_allows_dir(c.filter, spec_child_path(dir, ev.name)));
            assert(cur.enqueue.last().depth == depth + 1);
        }
    }
}

fn id_seen(v: &Vec<(u64, u64)>, id: (u64, u64)) -> (r: bool)
    ensures
        r == v@.contains(id),
{
    let n = v.len();
    for i in 0..n
        invariant
            n == v.len(),
            forall|k: int| 0 <= k < i ==> v@[k] != id,
    {
        if v[i].0 == id.0 && v[i].1 == id.1 {
            assert(v@[i as int] == id);
            return true;
        }
    }
    assert(!v@.contains(id));
    false
}

/// The traversal engine: configuration, work queue, loop-protection set,
/// statistics and the two sinks.
pub struct TraversalEngine {
    cfg: ScanConfig,
    variant: EngineVariant,
    queue: Vec<PendingDir>,
    visited: Vec<(u64, u64)>,
    stats: ScanStatistics,
    walk_results: Vec<WalkResult>,
    scandir_results: Vec<ScandirResult>,
}

impl View for TraversalEngine {
    type V = EngineSpec;

    closed spec fn view(&self) -> EngineSpec {
        EngineSpec {
            cfg: self.cfg@,
            variant: self.variant,
            queue: self.queue@.map_values(|p: PendingDir| p@),
            visited: self.visited@,
            stats: self.stats,
            walk: self.walk_results@.map_values(|w: WalkResult| w@),
            records: self.scandir_results@.map_values(|r: ScandirResult| r@),
        }
    }
}

impl TraversalEngine {
    /// A fresh engine over the given configuration and sink variant, with
    /// the scan root queued.
    pub fn new(cfg: ScanConfig, variant: EngineVariant) -> (r: TraversalEngine)
        ensures
            r@ == spec_initial_engine(cfg@, variant),
            engine_inv(r@),
    {
        let mut queue: Vec<PendingDir> = Vec::new();
        queue.push(PendingDir { path: String::new(), depth: 0 });
        let r = TraversalEngine {
            cfg,
            variant,
            queue,
            visited: Vec::new(),
            stats: ScanStatistics::zero(),
            walk_results: Vec::new(),
            scandir_results: Vec::new(),
        };
        proof {
            assert(r@.queue =~= seq![PendingDirSpec { path: Seq::empty(), depth: 0 }]);
            assert(r@.visited =~= Seq::<(u64, u64)>::empty());
            assert(r@.walk =~= Seq::<WalkResultSpec>::empty());
            assert(r@.records =~= Seq::<ScandirResultSpec>::empty());
            assert(r@ =~= spec_initial_engine(cfg@, variant));
        }
        r
    }

    /// The configuration this engine scans under.
    pub fn config(&self) -> (r: &ScanConfig)
        ensures
            r@ == self@.cfg,
    {
        &self.cfg
    }

    /// The sink variant of this engine.
    pub fn variant(&self) -> (r: EngineVariant)
        ensures
            r == self@.variant,
    {
        self.variant
    }

    /// How many directories wait in the queue.
    pub fn pending_len(&self) -> (r: usize)
        ensures
            r == self@.queue.len(),
    {
        self.queue.len()
    }

    /// A snapshot of the statistics counters.
    pub fn stats(&self) -> (r: ScanStatistics)
        ensures
            r == self@.stats,
    {
        self.stats
    }

    /// The next directory due, if any: the driver reads it and hands the
    /// children to `visit_next`.
    pub fn peek_next(&self) -> (r: Option<PendingDir>)
        ensures
            match r {
                None => self@.queue.len() == 0,
                Some(p) => self@.queue.len() > 0 && p@ == self@.queue[0],
            },
    {
        if self.queue.len() == 0 {
            None
        } else {
            let front = &self.queue[0];
            Some(PendingDir { path: front.path.clone(), depth: front.depth })
        }
    }

    /// Records the elapsed duration, touching nothing else.
    pub fn set_duration(&mut self, nanoseconds: u64)
        ensures
            final(self)@ == (EngineSpec {
                stats: ScanStatistics { duration_nanoseconds: nanoseconds, ..old(self)@.stats },
                ..old(self)@
            }),
    {
        self.stats.duration_nanoseconds = nanoseconds;
    }

    /// Drains the recursive-scan records: the caller receives exactly
    /// what was stored, in order, and the engine keeps none of it.
    pub fn drain_results(&mut self) -> (r: Vec<ScandirResult>)
        ensures
            r@.map_values(|x: ScandirResult| x@) == old(self)@.records,
            final(self)@ == (EngineSpec { records: Seq::empty(), ..old(self)@ }),
    {
        let mut out: Vec<ScandirResult> = Vec::new();
        core::mem::swap(&mut out, &mut self.scandir_results);
        proof {
            assert(self@.records =~= Seq::<ScandirResultSpec>::empty());
            assert(self@ =~= (EngineSpec { records: Seq::empty(), ..old(self)@ }));
        }
        out
    }

    /// Drains the walk entries, as `drain_results` does for records.
    pub fn drain_walk(&mut self) -> (r: Vec<WalkResult>)
        ensures
            r@.map_values(|x: WalkResult| x@) == old(self)@.walk,
            final(self)@ == (EngineSpec { walk: Seq::empty(), ..old(self)@ }),
    {
        let mut out: Vec<WalkResult> = Vec::new();
        core::mem::swap(&mut out, &mut self.walk_results);
        proof {
            assert(self@.walk =~= Seq::<WalkResultSpec>::empty());
            assert(self@ =~= (EngineSpec { walk: Seq::empty(), ..old(self)@ }));
        }
        out
    }

    /// Visits the queue's front directory with the children the driver
    /// read for it. The new state is exactly `spec_after_visit` of the
    /// old: children are classified and bucketed, errors recorded,
    /// accepted subdirectories queued. A directory the filter rejects is
    /// neither emitted nor queued, so its subtree is pruned unread; if
    /// every queued directory had passed the filter before, that stays so.
    #[verifier::rlimit(100)]
    #[verifier::loop_isolation(false)]
    pub fn visit_next(&mut self, events: &Vec<ChildEvent>)
        requires
            engine_inv(old(self)@),
            old(self)@.queue.len() > 0,
            old(self)@.stats.total + events@.len() <= u64::MAX,
            old(self)@.stats.errors + events@.len() <= u64::MAX,
        ensures
            engine_inv(final(self)@),
            final(self)@ == spec_after_visit(old(self)@, events_view(events@)),
            all_queued_allowed(old(self)@) ==> all_queued_allowed(final(self)@),
    {
        let ghost e0 = self@;
        let ghost evs = events_view(events@);
        let dir = self.queue.remove(0);
        let ghost dpath = dir.path@;
        let ghost ddepth = dir.depth as int;
        let ghost c = self.cfg@;
        let ghost v0 = self.visited@;
        let ghost qbase = self.queue@.map_values(|p: PendingDir| p@);
        let ghost rbase = self.scandir_results@.map_values(|r: ScandirResult| r@);
        proof {
            assert(qbase =~= e0.queue.drop_first());
            assert(dir@ == e0.queue[0]);
        }
        let is_walk = self.variant == EngineVariant::Walk;
        let is_scandir = self.variant == EngineVariant::Scandir;
        let mut local_toc = Toc::new();
        let mut ld: u64 = 0;
        let mut lf: u64 = 0;
        let mut ls: u64 = 0;
        let mut lo: u64 = 0;
        let mut le: u64 = 0;
        let mut ltotal: u64 = 0;
        let n = events.len();
        for i in 0..n
            invariant
                n == events.len(),
                evs == events_view(events@),
                evs.len() == n,
                dpath == dir.path@,
                ddepth == dir.depth as int,
                ddepth >= 0,
                self.cfg@ == c,
                self.variant == e0.variant,
                is_walk == (e0.variant == EngineVariant::Walk),
                is_scandir == (e0.variant == EngineVariant::Scandir),
                self.stats == e0.stats,
                self.walk_results@.map_values(|w: WalkResult| w@) == e0.walk,
                self.visited@ == spec_visit_prefix(c, dpath, ddepth, v0, evs, i as int).visited,
                self.queue@.map_values(|p: PendingDir| p@) == qbase + spec_visit_prefix(
                    c,
                    dpath,
                    ddepth,
                    v0,
                    evs,
                    i as int,
                ).enqueue,
                is_walk ==> local_toc@ == spec_visit_prefix(c, dpath, ddepth, v0, evs, i as int).toc,
                !is_walk ==> local_toc@ == TocSpec::empty(),
                is_scandir ==> self.scandir_results@.map_values(|r: ScandirResult| r@) == rbase
                    + spec_visit_prefix(c, dpath, ddepth, v0, evs, i as int).records,
                !is_scandir ==> self.scandir_results@.map_values(|r: ScandirResult| r@) == rbase,
                ld == spec_visit_prefix(c, dpath, ddepth, v0, evs, i as int).toc.dirs.len(),
                lf == spec_visit_prefix(c, dpath, ddepth, v0, evs, i as int).toc.files.len(),
                ls == spec_visit_prefix(c, dpath, ddepth, v0, evs, i as int).toc.symlinks.len(),
                lo == spec_visit_prefix(c, dpath, ddepth, v0, evs, i as int).toc.other.len(),
                le == spec_visit_prefix(c, dpath, ddepth, v0, evs, i as int).toc.errors.len(),
                ld + lf + ls + lo == ltotal,
                ltotal <= i,
                le <= i,
        {
            proof {
                assert(evs.take(i + 1).drop_last() =~= evs.take(i as int));
                assert(evs.take(i + 1).last() == evs[i as int]);
                assert(evs[i as int] == events@[i as int]@);
            }
            let ghost acc = spec_visit_prefix(c, dpath, ddepth, v0, evs, i as int);
            let ghost stepped = spec_visit_prefix(c, dpath, ddepth, v0, evs, i + 1);
            proof {
                assert(stepped == spec_visit_step(c, dpath, ddepth, acc, evs[i as int]));
            }
            let ev = &events[i];
            let considered = !(self.cfg.skip_hidden && is_hidden_name(ev.name.as_str()));
            assert(considered == spec_considered(c.skip_hidden, ev@));
            if !considered {
                proof {
                    assert(stepped =~= acc);
                }
            } else {
                let p: String = child_path(dir.path.as_str(), ev.name.as_str());
                assert(p@ == spec_child_path(dpath, ev@.name));
                match &ev.lstat {
                    Err(msg) => {
                        proof {
                            assert(ev@.lstat == Err::<RawMetadata, Seq<char>>(msg@));
                        }
                        let es = error_string(p.as_str(), msg.as_str());
                        assert(es@ == spec_error_string(dpath, ev@));
                        le = le + 1;
                        let ghost errs_before = local_toc@.errors;
                        let ghost recs_before = self.scandir_results@.map_values(
                            |r: ScandirResult| r@,
                        );
                        if is_walk {
                            local_toc.errors.push(es);
                        } else if is_scandir {
                            self.scandir_results.push(ScandirResult::Error(es));
                            proof {
                                assert(self.scandir_results@.map_values(|r: ScandirResult| r@)
                                    =~= recs_before.push(
                                    ScandirResultSpec::Error(spec_error_string(dpath, ev@)),
                                ));
                            }
                        }
                        proof {
                            assert(spec_bucket_of(c.skip_hidden, c.follow_symlinks, c.filter, dpath, ev@)
                                is None);
                            assert(spec_emits_error(c.skip_hidden, c.follow_symlinks, ev@));
                            if is_walk {
                                assert(local_toc@.errors =~= errs_before.push(
                                    spec_error_string(dpath, ev@),
                                ));
                                assert(stepped.toc.errors == acc.toc.errors.push(
                                    spec_error_string(dpath, ev@),
                                ));
                                assert(local_toc@.errors =~= stepped.toc.errors);
                                assert(local_toc@ =~= stepped.toc);
                            }
                            if is_scandir {
                                assert(self.scandir_results@.map_values(|r: ScandirResult| r@)
                                    =~= rbase + stepped.records);
                            }
                            assert(stepped.enqueue =~= acc.enqueue);
                            assert(stepped.visited =~= acc.visited);
                        }
                    },
                    Ok(m) => {
                        proof {
                            assert(ev@.lstat == Ok::<RawMetadata, Seq<char>>(*m));
                        }
                        let is_sym = m.kind == EntryKind::Symlink;
                        assert(is_sym == spec_is_symlink(ev@));
                        let follow = self.cfg.follow_symlinks;
                        assert(follow == c.follow_symlinks);
                        let mut eff_meta: RawMetadata = *m;
                        let mut eff_kind: EntryKind = m.kind;
                        let mut broken = false;
                        if is_sym {
                            match &ev.target {
                                Some(Ok(t)) => {
                                    proof {
                                        assert(ev@.target == Some(
                                            Ok::<RawMetadata, Seq<char>>(*t),
                                        ));
                                    }
                                    if follow {
                                        eff_meta = *t;
                                        eff_kind = t.kind;
                                    } else {
                                        eff_kind = EntryKind::Symlink;
                                    }
                                },
                                Some(Err(ms)) => {
                                    proof {
                                        assert(ev@.target == Some(
                                            Err::<RawMetadata, Seq<char>>(ms@),
                                        ));
                                    }
                                    eff_kind = EntryKind::Symlink;
                                    broken = follow;
                                },
                                None => {
                                    proof {
                                        assert(ev@.target is None);
                                    }
                                    eff_kind = EntryKind::Symlink;
                                },
                            }
                        } else {
                            proof {
                                assert(eff_kind == spec_effective_kind(follow, ev@));
                            }
                        }
                        assert(eff_meta == spec_effective_meta(follow, ev@));
                        assert(eff_kind == spec_effective_kind(follow, ev@));
                        assert(broken == spec_broken_symlink(follow, ev@));
                        let ghost bucketg = spec_bucket_of(
                            c.skip_hidden,
                            c.follow_symlinks,
                            c.filter,
                            dpath,
                            ev@,
                        );
                        let is_dir_flag = eff_kind == EntryKind::Directory;
                        let is_file_flag = eff_kind == EntryKind::File;
                        let mut emitted = false;
                        let ghost toc_acc = local_toc@;
                        let ghost mut recs_now = self.scandir_results@.map_values(
                            |r: ScandirResult| r@,
                        );
                        let ghost queue_acc = self.queue@.map_values(|pd: PendingDir| pd@);
                        let ghost visited_acc = self.visited@;
                        match eff_kind {
                            EntryKind::Directory => {
                                if self.cfg.filter.allows_dir(p.as_str()) {
                                    proof {
                                        assert(spec_allows_dir(c.filter, p@));
                                        assert(bucketg == Some(Bucket::Dirs));
                                    }
                                    emitted = true;
                                    ld = ld + 1;
                                    if is_walk {
                                        local_toc.dirs.push(p.clone());
                                        proof {
                                            assert(local_toc@.dirs =~= toc_acc.dirs.push(p@));
                                        }
                                    }
                                    let can_depth = dir.depth < u32::MAX && (self.cfg.max_depth < 0
                                        || (dir.depth as i64) + 1 < self.cfg.max_depth);
                                    assert(can_depth == spec_would_descend(c, ddepth));
                                    let id = (eff_meta.st_dev, eff_meta.st_ino);
                                    let seen = follow && id_seen(&self.visited, id);
                                    if can_depth && !seen {
                                        self.queue.push(
                                            PendingDir { path: p.clone(), depth: dir.depth + 1 },
                                        );
                                        proof {
                                            assert(self.queue@.map_values(|pd: PendingDir| pd@)
                                                =~= queue_acc.push(
                                                PendingDirSpec { path: p@, depth: ddepth + 1 },
                                            ));
                                        }
                                        if follow {
                                            self.visited.push(id);
                                            proof {
                                                assert(self.visited@ =~= visited_acc.push(id));
                                            }
                                        }
                                    }
                                } else {
                                    proof {
                                        assert(spec_bucket_of(
                                            c.skip_hidden,
                                            c.follow_symlinks,
                                            c.filter,
                                            dpath,
                                            ev@,
                                        ) is None);
                                    }
                                }
                            },
                            EntryKind::File => {
                                if self.cfg.filter.allows_file(p.as_str()) {
                                    proof {
                                        assert(bucketg == Some(Bucket::Files));
                                    }
                                    emitted = true;
                                    lf = lf + 1;
                                    if is_walk {
                                        local_toc.files.push(p.clone());
                                        proof {
                                            assert(local_toc@.files =~= toc_acc.files.push(p@));
                                        }
                                    }
                                } else {
                                    proof {
                                        assert(bucketg is None);
                                    }
                                }
                            },
                            EntryKind::Symlink => {
                                proof {
                                    assert(bucketg == Some(Bucket::Symlinks));
                                }
                                emitted = true;
                                ls = ls + 1;
                                if is_walk {
                                    local_toc.symlinks.push(p.clone());
                                    proof {
                                        assert(local_toc@.symlinks =~= toc_acc.symlinks.push(p@));
                                    }
                                }
                            },
                            EntryKind::Other => {
                                proof {
                                    assert(bucketg == Some(Bucket::Other));
                                }
                                emitted = true;
                                lo = lo + 1;
                                if is_walk {
                                    local_toc.other.push(p.clone());
                                    proof {
                                        assert(local_toc@.other =~= toc_acc.other.push(p@));
                                    }
                                }
                            },
                        }
                        proof {
                            assert(emitted == (bucketg is Some));
                        }
                        if emitted {
                            ltotal = ltotal + 1;
                            if is_scandir {
                                let rec = build_record(
                                    self.cfg.return_type,
                                    is_sym,
                                    is_dir_flag,
                                    is_file_flag,
                                    &eff_meta,
                                    ev.name.as_str(),
                                    p.as_str(),
                                );
                                assert(rec@ == spec_record_for(c, dpath, ev@));
                                self.scandir_results.push(rec);
                                proof {
                                    recs_now = recs_now.push(spec_record_for(c, dpath, ev@));
                                    assert(self.scandir_results@.map_values(|r: ScandirResult| r@)
                                        =~= recs_now);
                                }
                            }
                        }
                        if broken {
                            let msg = match &ev.target {
                                Some(Err(ms)) => ms.as_str(),
                                _ => "",
                            };
                            proof {
                                assert(msg@ == crate::classify::spec_error_message(ev@));
                            }
                            let es = error_string(p.as_str(), msg);
                            assert(es@ == spec_error_string(dpath, ev@));
                            le = le + 1;
                            if is_walk {
                                local_toc.errors.push(es);
                                proof {
                                    assert(local_toc@.errors =~= toc_acc.errors.push(
                                        spec_error_string(dpath, ev@),
                                    ));
                                }
                            } else if is_scandir {
                                self.scandir_results.push(ScandirResult::Error(es));
                                proof {
                                    recs_now = recs_now.push(
                                        ScandirResultSpec::Error(spec_error_string(dpath, ev@)),
                                    );
                                    assert(self.scandir_results@.map_values(|r: ScandirResult| r@)
                                        =~= recs_now);
                                }
                            }
                        }
                        proof {
                            if is_walk {
                                assert(local_toc@ =~= stepped.toc);
                            }
                            if is_scandir {
                                assert(recs_now =~= rbase + stepped.records);
                                assert(self.scandir_results@.map_values(|r: ScandirResult| r@)
                                    =~= rbase + stepped.records);
                            }
                            assert(self.queue@.map_values(|pd: PendingDir| pd@) =~= qbase
                                + stepped.enqueue);
                            assert(self.visited@ =~= stepped.visited);
                            assert(ld == stepped.toc.dirs.len());
                            assert(lf == stepped.toc.files.len());
                            assert(ls == stepped.toc.symlinks.len());
                            assert(lo == stepped.toc.other.len());
                            assert(le == stepped.toc.errors.len());
                        }
                    },
                }
            }
        }
        proof {
            assert(evs.take(n as int) =~= evs);
        }
        let ghost delta = spec_visit(c, dpath, ddepth, v0, evs);
        self.stats.dirs = self.stats.dirs + ld;
        self.stats.files = self.stats.files + lf;
        self.stats.symlinks = self.stats.symlinks + ls;
        self.stats.other = self.stats.other + lo;
        self.stats.errors = self.stats.errors + le;
        self.stats.total = self.stats.total + ltotal;
        if is_walk {
            let entry = if self.cfg.return_type == ReturnType::Ext || self.cfg.return_type
                == ReturnType::Full {
                WalkResult::WalkEntryExt(WalkEntryExt { path: dir.path, toc: local_toc })
            } else {
                WalkResult::WalkEntry(WalkEntry { path: dir.path, toc: local_toc })
            };
            self.walk_results.push(entry);
        }
        proof {
            assert(self.stats == spec_stats_after(e0.stats, delta.toc));
            if is_walk {
                assert(self.walk_results@.map_values(|w: WalkResult| w@) =~= e0.walk + seq![
                    spec_walk_emission(c.return_type, dpath, delta.toc),
                ]);
            }
            assert(self@ =~= spec_after_visit(e0, evs));
            lemma_enqueued_dirs_allowed(c, dpath, ddepth, v0, evs);
            if all_queued_allowed(e0) {
                assert forall|k: int| 0 <= k < self@.queue.len() implies ((#[trigger] self@.queue[k]).depth
                    == 0 || spec_allows_dir(self@.cfg.filter, self@.queue[k].path)) by {
                    if k < qbase.len() {
                        assert(self@.queue[k] == e0.queue[k + 1]);
                    } else {
                        assert(self@.queue[k] == delta.enqueue[k - qbase.len()]);
                    }
                }
            }
        }
    }
}

} // verus!
