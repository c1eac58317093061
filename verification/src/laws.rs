//! Laws of the traversal: properties that relate the engine variants and
//! the buckets, stated over the closed-form visit semantics and proved
//! for every configuration, directory and event sequence.

use vstd::prelude::*;

use crate::classify::{spec_bucket_of, spec_child_path, Bucket, ChildEventSpec};
use crate::def::{ReturnType, ScandirResultSpec, TocSpec};
use crate::engine::{
    spec_after_visit, spec_record_for, spec_visit, spec_visit_step, ConfigSpec, EngineSpec,
};
use crate::filter::spec_allows_dir;

verus! {

/// How many records of a sequence are entry records, errors aside.
pub open spec fn record_entry_count(recs: Seq<ScandirResultSpec>) -> int
    decreases recs.len(),
{
    if recs.len() == 0 {
        0
    } else {
        record_entry_count(recs.drop_last()) + if recs.last() is Error {
            0int
        } else {
            1int
        }
    }
}

/// How many records of a sequence are error records.
pub open spec fn record_error_count(recs: Seq<ScandirResultSpec>) -> int
    decreases recs.len(),
{
    if recs.len() == 0 {
        0
    } else {
        record_error_count(recs.drop_last()) + if recs.last() is Error {
            1int
        } else {
            0int
        }
    }
}

/// The paths a visit put into the given bucket.
pub open spec fn bucket_seq(t: TocSpec, b: Bucket) -> Seq<Seq<char>> {
    match b {
        Bucket::Dirs => t.dirs,
        Bucket::Files => t.files,
        Bucket::Symlinks => t.symlinks,
        Bucket::Other => t.other,
    }
}

/// Law: counting agrees with recursive scanning. For every visit, the
/// entries counted into the four kind buckets — which is exactly what the
/// statistics total grows by — equal the entry records a `Scandir` sink
/// stores, and the errors bucket matches the error records, one for one.
pub proof fn lemma_count_matches_scandir(
    c: ConfigSpec,
    dir: Seq<char>,
    depth: int,
    visited0: Seq<(u64, u64)>,
    events: Seq<ChildEventSpec>,
)
    ensures
        record_entry_count(spec_visit(c, dir, depth, visited0, events).records) == spec_visit(
            c,
            dir,
            depth,
            visited0,
            events,
        ).toc.entry_count(),
        record_error_count(spec_visit(c, dir, depth, visited0, events).records) == spec_visit(
            c,
            dir,
            depth,
            visited0,
            events,
        ).toc.errors.len(),
    decreases events.len(),
{
    if events.len() > 0 {
        lemma_count_matches_scandir(c, dir, depth, visited0, events.drop_last());
        let prev = spec_visit(c, dir, depth, visited0, events.drop_last());
        let cur = spec_visit(c, dir, depth, visited0, events);
        let ev = events.last();
        assert(cur == spec_visit_step(c, dir, depth, prev, ev));
        let bucket = spec_bucket_of(c.skip_hidden, c.follow_symlinks, c.filter, dir, ev);
        if bucket is Some {
            assert(!(spec_record_for(c, dir, ev) is Error)) by {
                match c.return_type {
                    ReturnType::Fast => {},
                    ReturnType::Base => {},
                    ReturnType::Ext => {},
                    ReturnType::Full => {},
                }
            }
        }
        if crate::classify::spec_emits_error(c.skip_hidden, c.follow_symlinks, ev) {
            if bucket is Some {
                let recs1 = prev.records.push(spec_record_for(c, dir, ev));
                assert(cur.records == recs1.push(
                    ScandirResultSpec::Error(crate::classify::spec_error_string(dir, ev)),
                ));
                assert(recs1.drop_last() =~= prev.records);
                assert(cur.records.drop_last() =~= recs1);
                assert(record_entry_count(recs1) == record_entry_count(prev.records) + 1);
                assert(record_error_count(recs1) == record_error_count(prev.records));
                assert(record_entry_count(cur.records) == record_entry_count(recs1));
                assert(record_error_count(cur.records) == record_error_count(recs1) + 1);
            } else {
                assert(cur.records.drop_last() =~= prev.records);
                assert(record_entry_count(cur.records) == record_entry_count(prev.records));
                assert(record_error_count(cur.records) == record_error_count(prev.records) + 1);
            }
            assert(cur.toc.errors.len() == prev.toc.errors.len() + 1);
        } else {
            if bucket is Some {
                assert(cur.records.drop_last() =~= prev.records);
                assert(record_entry_count(cur.records) == record_entry_count(prev.records) + 1);
                assert(record_error_count(cur.records) == record_error_count(prev.records));
            } else {
                assert(cur.records == prev.records);
            }
            assert(cur.toc.errors.len() == prev.toc.errors.len());
        }
        if bucket is Some {
            assert(cur.toc.entry_count() == prev.toc.entry_count() + 1);
        } else {
            assert(cur.toc.entry_count() == prev.toc.entry_count());
        }
    }
}

/// Law: the statistics and the traversal itself do not depend on the
/// sink variant. Engines that differ only in their variant — a counting
/// engine and a recursive one over the same tree and filter — visit the
/// same directories and tally the same counters.
pub proof fn lemma_statistics_variant_independent(
    e1: EngineSpec,
    e2: EngineSpec,
    events: Seq<ChildEventSpec>,
)
    requires
        e1.cfg == e2.cfg,
        e1.queue == e2.queue,
        e1.visited == e2.visited,
        e1.stats == e2.stats,
    ensures
        spec_after_visit(e1, events).stats == spec_after_visit(e2, events).stats,
        spec_after_visit(e1, events).queue == spec_after_visit(e2, events).queue,
        spec_after_visit(e1, events).visited == spec_after_visit(e2, events).visited,
{
}

/// Law: a visit is a function of the engine state and the events alone.
/// A synchronous collect and a background scan that are handed the same
/// directory reads in the same order produce identical buckets, records
/// and statistics, bucket for bucket.
pub proof fn lemma_scan_deterministic(
    e1: EngineSpec,
    e2: EngineSpec,
    events1: Seq<ChildEventSpec>,
    events2: Seq<ChildEventSpec>,
)
    requires
        e1 == e2,
        events1 == events2,
    ensures
        spec_after_visit(e1, events1) == spec_after_visit(e2, events2),
{
}

/// The engine after a whole run: one visit per element of `visits`, in
/// order, each of the queue's front directory.
pub open spec fn spec_run(e: EngineSpec, visits: Seq<Seq<ChildEventSpec>>) -> EngineSpec
    decreases visits.len(),
{
    if visits.len() == 0 {
        e
    } else {
        spec_run(spec_after_visit(e, visits.first()), visits.drop_first())
    }
}

/// Law: a whole run is a function of the engine state and the directory
/// reads alone: fed the same reads, two identically configured scans end
/// in identical states, however their visits were scheduled in time.
pub proof fn lemma_run_deterministic(
    e1: EngineSpec,
    e2: EngineSpec,
    visits1: Seq<Seq<ChildEventSpec>>,
    visits2: Seq<Seq<ChildEventSpec>>,
)
    requires
        e1 == e2,
        visits1 == visits2,
    ensures
        spec_run(e1, visits1) == spec_run(e2, visits2),
{
}

/// Law: over a whole run, too, the statistics and the traversal do not
/// depend on the sink variant: a counting scan of a tree tallies exactly
/// what a recursive scan of the same tree tallies, visit for visit.
pub proof fn lemma_run_statistics_variant_independent(
    e1: EngineSpec,
    e2: EngineSpec,
    visits: Seq<Seq<ChildEventSpec>>,
)
    requires
        e1.cfg == e2.cfg,
        e1.queue == e2.queue,
        e1.visited == e2.visited,
        e1.stats == e2.stats,
    ensures
        spec_run(e1, visits).stats == spec_run(e2, visits).stats,
        spec_run(e1, visits).queue == spec_run(e2, visits).queue,
        spec_run(e1, visits).visited == spec_run(e2, visits).visited,
    decreases visits.len(),
{
    if visits.len() > 0 {
        lemma_statistics_variant_independent(e1, e2, visits.first());
        lemma_run_statistics_variant_independent(
            spec_after_visit(e1, visits.first()),
            spec_after_visit(e2, visits.first()),
            visits.drop_first(),
        );
    }
}

/// Law: exclusion prunes. Every path in the dirs bucket of a visit, every
/// queued subdirectory, and every directory record a `Full`-tier scan
/// stores has passed the directory filter: a directory the filter
/// rejects is removed from every bucket and from the traversal, so its
/// descendants are never read at all.
pub proof fn lemma_excluded_dirs_pruned(
    c: ConfigSpec,
    dir: Seq<char>,
    depth: int,
    visited0: Seq<(u64, u64)>,
    events: Seq<ChildEventSpec>,
)
    ensures
        forall|k: int|
            0 <= k < spec_visit(c, dir, depth, visited0, events).toc.dirs.len()
                ==> spec_allows_dir(
                c.filter,
                #[trigger] spec_visit(c, dir, depth, visited0, events).toc.dirs[k],
            ),
        forall|k: int|
            0 <= k < spec_visit(c, dir, depth, visited0, events).enqueue.len()
                ==> spec_allows_dir(
                c.filter,
                (#[trigger] spec_visit(c, dir, depth, visited0, events).enqueue[k]).path,
            ),
    decreases events.len(),
{
    if events.len() > 0 {
        lemma_excluded_dirs_pruned(c, dir, depth, visited0, events.drop_last());
        let prev = spec_visit(c, dir, depth, visited0, events.drop_last());
        let cur = spec_visit(c, dir, depth, visited0, events);
        let ev = events.last();
        assert(cur == spec_visit_step(c, dir, depth, prev, ev));
        if spec_bucket_of(c.skip_hidden, c.follow_symlinks, c.filter, dir, ev) == Some(
            Bucket::Dirs,
        ) {
            assert(spec_allows_dir(c.filter, spec_child_path(dir, ev.name)));
        }
    }
}

/// Every queued directory lies at a depth of zero or below.
pub open spec fn queue_depths_ok(e: EngineSpec) -> bool {
    forall|k: int| 0 <= k < e.queue.len() ==> (#[trigger] e.queue[k]).depth >= 0
}

/// Law: over a whole run, the engine visits only directories that passed
/// the directory filter. If every queued directory other than the root
/// has passed it — as it has in a fresh engine — that stays so after any
/// number of visits: an excluded directory is never scheduled, so its
/// descendants are never read.
pub proof fn lemma_run_stays_allowed(e: EngineSpec, visits: Seq<Seq<ChildEventSpec>>)
    ensures
        (queue_depths_ok(e) && crate::engine::all_queued_allowed(e)) ==> (queue_depths_ok(
            spec_run(e, visits),
        ) && crate::engine::all_queued_allowed(spec_run(e, visits))),
    decreases visits.len(),
{
    if visits.len() > 0 && queue_depths_ok(e) && crate::engine::all_queued_allowed(e) {
        let stepped = spec_after_visit(e, visits.first());
        if e.queue.len() == 0 {
            assert(stepped == e);
        } else {
            crate::engine::lemma_enqueued_dirs_allowed(
                e.cfg,
                e.queue[0].path,
                e.queue[0].depth,
                e.visited,
                visits.first(),
            );
            let delta = spec_visit(e.cfg, e.queue[0].path, e.queue[0].depth, e.visited, visits.first());
            assert forall|k: int| 0 <= k < stepped.queue.len() implies (
            #[trigger] stepped.queue[k]).depth >= 0 && (stepped.queue[k].depth == 0
                || spec_allows_dir(stepped.cfg.filter, stepped.queue[k].path)) by {
                if k < e.queue.len() - 1 {
                    assert(stepped.queue[k] == e.queue[k + 1]);
                } else {
                    assert(stepped.queue[k] == delta.enqueue[k - (e.queue.len() - 1)]);
                }
            }
        }
        lemma_run_stays_allowed(stepped, visits.drop_first());
    }
}

/// Joining distinct names under one directory gives distinct paths.
pub proof fn lemma_child_path_injective(dir: Seq<char>, a: Seq<char>, b: Seq<char>)
    requires
        spec_child_path(dir, a) == spec_child_path(dir, b),
    ensures
        a == b,
{
    reveal_strlit("/");
    if a.len() == 0 || b.len() == 0 {
        assert(spec_child_path(dir, a).len() == if a.len() == 0 {
            dir.len() as int
        } else if dir.len() == 0 {
            a.len() as int
        } else {
            (dir.len() + 1 + a.len()) as int
        });
        assert(spec_child_path(dir, b).len() == if b.len() == 0 {
            dir.len() as int
        } else if dir.len() == 0 {
            b.len() as int
        } else {
            (dir.len() + 1 + b.len()) as int
        });
        assert(a.len() == b.len());
        assert(a =~= b);
    } else if dir.len() == 0 {
    } else {
        assert((dir + "/"@ + a).len() == dir.len() + 1 + a.len());
        assert((dir + "/"@ + b).len() == dir.len() + 1 + b.len());
        assert(a.len() == b.len());
        assert forall|i: int| 0 <= i < a.len() implies a[i] == b[i] by {
            assert((dir + "/"@ + a)[dir.len() + 1 + i] == a[i]);
            assert((dir + "/"@ + b)[dir.len() + 1 + i] == b[i]);
        }
        assert(a =~= b);
    }
}

/// Every path in a bucket is the path of some child that was classified
/// into that bucket.
pub proof fn lemma_bucket_membership(
    c: ConfigSpec,
    dir: Seq<char>,
    depth: int,
    visited0: Seq<(u64, u64)>,
    events: Seq<ChildEventSpec>,
    b: Bucket,
    q: Seq<char>,
)
    requires
        bucket_seq(spec_visit(c, dir, depth, visited0, events).toc, b).contains(q),
    ensures
        exists|i: int|
            0 <= i < events.len() && spec_bucket_of(
                c.skip_hidden,
                c.follow_symlinks,
                c.filter,
                dir,
                #[trigger] events[i],
            ) == Some(b) && q == spec_child_path(dir, events[i].name),
    decreases events.len(),
{
    if events.len() > 0 {
        let prev = spec_visit(c, dir, depth, visited0, events.drop_last());
        let cur = spec_visit(c, dir, depth, visited0, events);
        let ev = events.last();
        assert(cur == spec_visit_step(c, dir, depth, prev, ev));
        let cur_bucket = bucket_seq(cur.toc, b);
        let prev_bucket = bucket_seq(prev.toc, b);
        if spec_bucket_of(c.skip_hidden, c.follow_symlinks, c.filter, dir, ev) == Some(b) {
            assert(cur_bucket == prev_bucket.push(spec_child_path(dir, ev.name)));
            if q == spec_child_path(dir, ev.name) {
                assert(spec_bucket_of(
                    c.skip_hidden,
                    c.follow_symlinks,
                    c.filter,
                    dir,
                    events[events.len() - 1],
                ) == Some(b));
            } else {
                let j = choose|j: int| 0 <= j < cur_bucket.len() && cur_bucket[j] == q;
                assert(prev_bucket[j] == q);
                assert(prev_bucket.contains(q));
                lemma_bucket_membership(c, dir, depth, visited0, events.drop_last(), b, q);
                let i = choose|i: int|
                    0 <= i < events.drop_last().len() && spec_bucket_of(
                        c.skip_hidden,
                        c.follow_symlinks,
                        c.filter,
                        dir,
                        #[trigger] events.drop_last()[i],
                    ) == Some(b) && q == spec_child_path(dir, events.drop_last()[i].name);
                assert(events[i] == events.drop_last()[i]);
            }
        } else {
            assert(cur_bucket == prev_bucket);
            lemma_bucket_membership(c, dir, depth, visited0, events.drop_last(), b, q);
            let i = choose|i: int|
                0 <= i < events.drop_last().len() && spec_bucket_of(
                    c.skip_hidden,
                    c.follow_symlinks,
                    c.filter,
                    dir,
                    #[trigger] events.drop_last()[i],
                ) == Some(b) && q == spec_child_path(dir, events.drop_last()[i].name);
            assert(events[i] == events.drop_last()[i]);
        }
    }
}

/// Law: no path is duplicated across buckets. When the children of one
/// directory carry distinct names — as a directory read yields them —
/// the four kind buckets of the visit are pairwise disjoint: a child
/// lands in exactly one of them.
pub proof fn lemma_toc_buckets_disjoint(
    c: ConfigSpec,
    dir: Seq<char>,
    depth: int,
    visited0: Seq<(u64, u64)>,
    events: Seq<ChildEventSpec>,
    b1: Bucket,
    b2: Bucket,
    q: Seq<char>,
)
    requires
        forall|i: int, j: int|
            0 <= i < j < events.len() ==> (#[trigger] events[i]).name != (
            #[trigger] events[j]).name,
        b1 != b2,
        bucket_seq(spec_visit(c, dir, depth, visited0, events).toc, b1).contains(q),
    ensures
        !bucket_seq(spec_visit(c, dir, depth, visited0, events).toc, b2).contains(q),
{
    if bucket_seq(spec_visit(c, dir, depth, visited0, events).toc, b2).contains(q) {
        lemma_bucket_membership(c, dir, depth, visited0, events, b1, q);
        lemma_bucket_membership(c, dir, depth, visited0, events, b2, q);
        let i = choose|i: int|
            0 <= i < events.len() && spec_bucket_of(
                c.skip_hidden,
                c.follow_symlinks,
                c.filter,
                dir,
                #[trigger] events[i],
            ) == Some(b1) && q == spec_child_path(dir, events[i].name);
        let j = choose|j: int|
            0 <= j < events.len() && spec_bucket_of(
                c.skip_hidden,
                c.follow_symlinks,
                c.filter,
                dir,
                #[trigger] events[j],
            ) == Some(b2) && q == spec_child_path(dir, events[j].name);
        lemma_child_path_injective(dir, events[i].name, events[j].name);
        assert(i != j ==> events[i].name != events[j].name);
        assert(i == j);
        assert(false);
    }
}

} // verus!
