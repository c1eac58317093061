//! The scan controller: lifecycle state, cooperative cancellation and
//! pause flags, and the shared result buffer.
//!
//! The controller owns a traversal engine and drives it through the
//! `not started -> running -> (paused <-> running) -> finished/stopped`
//! lifecycle. It never touches the operating system: a worker loop — on a
//! background thread or inline on the calling thread — asks it what to do
//! next (`checkpoint`, `peek_next`), performs the directory reads, and
//! hands the children back (`visit_next`). Stop and pause are cooperative
//! flags observed at each checkpoint, so one checkpoint after a stop
//! request the controller is in the stopped state.

use vstd::prelude::*;

use crate::def::{
    DirEntryFull, ScanError, ScanStatistics, ScandirResult, ScandirResultSpec, WalkResult,
};
use crate::classify::ChildEvent;
use crate::engine::{
    engine_inv, events_view, spec_after_visit, spec_initial_engine, EngineSpec, EngineVariant,
    PendingDir, ScanConfig, TraversalEngine,
};

verus! {

/// The lifecycle state of a scan.
#[derive(Clone, Copy, Debug, PartialEq, Eq, Structural)]
pub enum ScanState {
    NotStarted,
    Running,
    Paused,
    Stopped,
    Finished,
}

/// What the worker loop is to do after a checkpoint.
#[derive(Clone, Copy, Debug, PartialEq, Eq, Structural)]
pub enum Checkpoint {
    /// Go on with the next directory.
    Continue,
    /// Block until resumed or stopped, then check again.
    Pause,
    /// The scan is over: stop requested, or no directory is pending.
    Stop,
}

/// The mathematical value of a `ScanController`.
#[verifier::ext_equal]
pub struct ControllerSpec {
    pub state: ScanState,
    pub cancel_requested: bool,
    pub pause_requested: bool,
    pub engine: EngineSpec,
}

/// Whether a scan is active: started and neither finished nor stopped.
pub open spec fn spec_busy(s: ScanState) -> bool {
    s == ScanState::Running || s == ScanState::Paused
}

/// The controller's invariant: the engine's own invariant holds.
pub open spec fn controller_inv(c: ControllerSpec) -> bool {
    engine_inv(c.engine)
}

/// The `path` to `record` pairs of a record sequence: one pair per
/// `Full`-tier record, keyed by its relative path, in emission order.
pub open spec fn spec_dict(recs: Seq<ScandirResultSpec>) -> Seq<(Seq<char>, ScandirResultSpec)>
    decreases recs.len(),
{
    if recs.len() == 0 {
        Seq::empty()
    } else {
        spec_dict(recs.drop_last()) + (match recs.last() {
            ScandirResultSpec::DirEntryFull(e) => seq![(e.path, recs.last())],
            _ => Seq::empty(),
        })
    }
}

/// A copy of a `Full`-tier record with the same mathematical value.
fn clone_full(e: &DirEntryFull) -> (r: DirEntryFull)
    ensures
        r@ == e@,
{
    DirEntryFull {
        name: e.name.clone(),
        path: e.path.clone(),
        is_symlink: e.is_symlink,
        is_dir: e.is_dir,
        is_file: e.is_file,
        st_ctime: e.st_ctime,
        st_mtime: e.st_mtime,
        st_atime: e.st_atime,
        st_mode: e.st_mode,
        st_ino: e.st_ino,
        st_dev: e.st_dev,
        st_nlink: e.st_nlink,
        st_size: e.st_size,
        st_blksize: e.st_blksize,
        st_blocks: e.st_blocks,
        st_uid: e.st_uid,
        st_gid: e.st_gid,
        st_rdev: e.st_rdev,
    }
}

/// Turns records into a `path` to `record` mapping: exactly the
/// `Full`-tier records, keyed by their relative paths, in order. Records
/// of other shapes carry no path and are left out.
#[verifier::loop_isolation(false)]
pub fn records_as_dict(records: &Vec<ScandirResult>) -> (r: Vec<(String, ScandirResult)>)
    ensures
        r@.map_values(|p: (String, ScandirResult)| (p.0@, p.1@)) == spec_dict(
            records@.map_values(|x: ScandirResult| x@),
        ),
{
    let ghost full = records@.map_values(|x: ScandirResult| x@);
    let mut out: Vec<(String, ScandirResult)> = Vec::new();
    proof {
        assert(out@.map_values(|p: (String, ScandirResult)| (p.0@, p.1@)) =~= spec_dict(
            full.take(0),
        ));
    }
    let n = records.len();
    for i in 0..n
        invariant
            n == records.len(),
            full == records@.map_values(|x: ScandirResult| x@),
            out@.map_values(|p: (String, ScandirResult)| (p.0@, p.1@)) == spec_dict(
                full.take(i as int),
            ),
    {
        proof {
            assert(full.take(i + 1).drop_last() =~= full.take(i as int));
            assert(full.take(i + 1).last() == full[i as int]);
            assert(full[i as int] == records@[i as int]@);
        }
        let ghost out_before = out@.map_values(|p: (String, ScandirResult)| (p.0@, p.1@));
        match &records[i] {
            ScandirResult::DirEntryFull(e) => {
                let key = e.path.clone();
                out.push((key, ScandirResult::DirEntryFull(clone_full(e))));
                proof {
                    assert(out@.map_values(|p: (String, ScandirResult)| (p.0@, p.1@))
                        =~= out_before.push((e.path@, full[i as int])));
                    assert(out@.map_values(|p: (String, ScandirResult)| (p.0@, p.1@)) =~= spec_dict(
                        full.take(i + 1),
                    ));
                }
            },
            _ => {
                proof {
                    assert(spec_dict(full.take(i + 1)) =~= spec_dict(full.take(i as int)));
                }
            },
        }
    }
    proof {
        assert(full.take(n as int) =~= full);
    }
    out
}

/// The scan controller: lifecycle state, the cooperative flags, and the
/// engine with its result buffer.
pub struct ScanController {
    state: ScanState,
    cancel_requested: bool,
    pause_requested: bool,
    engine: TraversalEngine,
}

impl View for ScanController {
    type V = ControllerSpec;

    closed spec fn view(&self) -> ControllerSpec {
        ControllerSpec {
            state: self.state,
            cancel_requested: self.cancel_requested,
            pause_requested: self.pause_requested,
            engine: self.engine@,
        }
    }
}

impl ScanController {
    /// A controller over a fresh engine, not yet started.
    pub fn new(cfg: ScanConfig, variant: EngineVariant) -> (r: ScanController)
        ensures
            r@ == (ControllerSpec {
                state: ScanState::NotStarted,
                cancel_requested: false,
                pause_requested: false,
                engine: spec_initial_engine(cfg@, variant),
            }),
            controller_inv(r@),
    {
        ScanController {
            state: ScanState::NotStarted,
            cancel_requested: false,
            pause_requested: false,
            engine: TraversalEngine::new(cfg, variant),
        }
    }

    /// Starts a scan: rejected exactly when one is already active, and
    /// otherwise the state becomes running with both flags cleared and
    /// everything else as it was.
    pub fn start(&mut self) -> (r: Result<(), ScanError>)
        ensures
            r is Err <==> spec_busy(old(self)@.state),
            r matches Err(e) ==> e == ScanError::AlreadyRunning && final(self)@ == old(self)@,
            r is Ok ==> final(self)@ == (ControllerSpec {
                state: ScanState::Running,
                cancel_requested: false,
                pause_requested: false,
                engine: old(self)@.engine,
            }),
    {
        match self.state {
            ScanState::Running | ScanState::Paused => Err(ScanError::AlreadyRunning),
            _ => {
                self.state = ScanState::Running;
                self.cancel_requested = false;
                self.pause_requested = false;
                Ok(())
            },
        }
    }

    /// Requests a stop: when a scan is active the cancellation flag is
    /// set, to be observed at the next checkpoint; otherwise nothing
    /// changes. The state itself changes only at a checkpoint.
    pub fn stop(&mut self)
        ensures
            spec_busy(old(self)@.state) ==> final(self)@ == (ControllerSpec {
                cancel_requested: true,
                ..old(self)@
            }),
            !spec_busy(old(self)@.state) ==> final(self)@ == old(self)@,
    {
        match self.state {
            ScanState::Running | ScanState::Paused => {
                self.cancel_requested = true;
            },
            _ => {
            },
        }
    }

    /// Requests a pause: a running scan moves to the paused state and the
    /// pause flag is set; in any other state nothing changes.
    pub fn pause(&mut self)
        ensures
            old(self)@.state == ScanState::Running ==> final(self)@ == (ControllerSpec {
                state: ScanState::Paused,
                pause_requested: true,
                ..old(self)@
            }),
            old(self)@.state != ScanState::Running ==> final(self)@ == old(self)@,
    {
        if self.state == ScanState::Running {
            self.state = ScanState::Paused;
            self.pause_requested = true;
        }
    }

    /// Resumes a paused scan: the pause flag is cleared and the state is
    /// running again; in any other state nothing changes.
    pub fn resume(&mut self)
        ensures
            old(self)@.state == ScanState::Paused ==> final(self)@ == (ControllerSpec {
                state: ScanState::Running,
                pause_requested: false,
                ..old(self)@
            }),
            old(self)@.state != ScanState::Paused ==> final(self)@ == old(self)@,
    {
        if self.state == ScanState::Paused {
            self.state = ScanState::Running;
            self.pause_requested = false;
        }
    }

    /// The checkpoint the worker reaches before each directory visit.
    /// A requested stop takes effect here and at once: the state becomes
    /// stopped. Otherwise a requested pause asks the worker to block, an
    /// empty queue finishes the scan, and else the scan goes on.
    pub fn checkpoint(&mut self) -> (r: Checkpoint)
        ensures
            old(self)@.cancel_requested ==> r == Checkpoint::Stop && final(self)@ == (
            ControllerSpec { state: ScanState::Stopped, ..old(self)@ }),
            !old(self)@.cancel_requested && old(self)@.pause_requested ==> r == Checkpoint::Pause
                && final(self)@ == old(self)@,
            !old(self)@.cancel_requested && !old(self)@.pause_requested
                && old(self)@.engine.queue.len() == 0 ==> r == Checkpoint::Stop && final(self)@ == (
            ControllerSpec { state: ScanState::Finished, ..old(self)@ }),
            !old(self)@.cancel_requested && !old(self)@.pause_requested
                && old(self)@.engine.queue.len() > 0 ==> r == Checkpoint::Continue && final(self)@
                == old(self)@,
    {
        if self.cancel_requested {
            self.state = ScanState::Stopped;
            Checkpoint::Stop
        } else if self.pause_requested {
            Checkpoint::Pause
        } else if self.engine.pending_len() == 0 {
            self.state = ScanState::Finished;
            Checkpoint::Stop
        } else {
            Checkpoint::Continue
        }
    }

    /// The next directory the worker is to read, if any.
    pub fn peek_next(&self) -> (r: Option<PendingDir>)
        ensures
            match r {
                None => self@.engine.queue.len() == 0,
                Some(p) => self@.engine.queue.len() > 0 && p@ == self@.engine.queue[0],
            },
    {
        self.engine.peek_next()
    }

    /// Hands one directory's children to the engine: the engine state
    /// advances by exactly `spec_after_visit`, and nothing else of the
    /// controller changes.
    pub fn visit_next(&mut self, events: &Vec<ChildEvent>)
        requires
            controller_inv(old(self)@),
            old(self)@.engine.queue.len() > 0,
            old(self)@.engine.stats.total + events@.len() <= u64::MAX,
            old(self)@.engine.stats.errors + events@.len() <= u64::MAX,
        ensures
            controller_inv(final(self)@),
            final(self)@ == (ControllerSpec {
                engine: spec_after_visit(old(self)@.engine, events_view(events@)),
                ..old(self)@
            }),
    {
        self.engine.visit_next(events);
    }

    /// Whether the scan has been started at least once.
    pub fn has_started(&self) -> (r: bool)
        ensures
            r == (self@.state != ScanState::NotStarted),
    {
        self.state != ScanState::NotStarted
    }

    /// Whether the scan has come to rest, by finishing or by being
    /// stopped.
    pub fn has_finished(&self) -> (r: bool)
        ensures
            r == (self@.state == ScanState::Finished || self@.state == ScanState::Stopped),
    {
        self.state == ScanState::Finished || self.state == ScanState::Stopped
    }

    /// Whether a scan is active.
    pub fn busy(&self) -> (r: bool)
        ensures
            r == spec_busy(self@.state),
    {
        self.state == ScanState::Running || self.state == ScanState::Paused
    }

    /// The lifecycle state.
    pub fn state(&self) -> (r: ScanState)
        ensures
            r == self@.state,
    {
        self.state
    }

    /// A snapshot of the statistics counters and the recorded duration.
    pub fn statistics(&self) -> (r: ScanStatistics)
        ensures
            r == self@.engine.stats,
    {
        self.engine.stats()
    }

    /// The recorded elapsed duration, in nanoseconds.
    pub fn duration_nanoseconds(&self) -> (r: u64)
        ensures
            r == self@.engine.stats.duration_nanoseconds,
    {
        self.engine.stats().duration_nanoseconds
    }

    /// Records the elapsed duration measured by the worker.
    pub fn set_duration(&mut self, nanoseconds: u64)
        ensures
            final(self)@.engine.stats.duration_nanoseconds == nanoseconds,
            final(self)@.engine.stats.dirs == old(self)@.engine.stats.dirs,
            final(self)@.engine.stats.files == old(self)@.engine.stats.files,
            final(self)@.engine.stats.symlinks == old(self)@.engine.stats.symlinks,
            final(self)@.engine.stats.other == old(self)@.engine.stats.other,
            final(self)@.engine.stats.errors == old(self)@.engine.stats.errors,
            final(self)@.engine.stats.total == old(self)@.engine.stats.total,
            final(self)@.engine.queue == old(self)@.engine.queue,
            final(self)@.engine.walk == old(self)@.engine.walk,
            final(self)@.engine.records == old(self)@.engine.records,
            final(self)@.engine.cfg == old(self)@.engine.cfg,
            final(self)@.engine.variant == old(self)@.engine.variant,
            final(self)@.engine.visited == old(self)@.engine.visited,
            final(self)@.state == old(self)@.state,
            final(self)@.cancel_requested == old(self)@.cancel_requested,
            final(self)@.pause_requested == old(self)@.pause_requested,
    {
        self.engine.set_duration(nanoseconds);
    }

    /// Drains the recursive-scan records: exactly what was stored, in
    /// order, with nothing lost or duplicated; the buffer is left empty
    /// and the counters stand.
    pub fn results(&mut self) -> (r: Vec<ScandirResult>)
        ensures
            r@.map_values(|x: ScandirResult| x@) == old(self)@.engine.records,
            final(self)@ == (ControllerSpec {
                engine: EngineSpec { records: Seq::empty(), ..old(self)@.engine },
                ..old(self)@
            }),
    {
        self.engine.drain_results()
    }

    /// Drains the records and hands them back as a path-to-record
    /// mapping, the retrieval shape of the `Full` tier: one pair per
    /// `Full` record, keyed by its relative path, in emission order.
    pub fn as_dict(&mut self) -> (r: Vec<(String, ScandirResult)>)
        ensures
            r@.map_values(|p: (String, ScandirResult)| (p.0@, p.1@)) == spec_dict(
                old(self)@.engine.records,
            ),
            final(self)@ == (ControllerSpec {
                engine: EngineSpec { records: Seq::empty(), ..old(self)@.engine },
                ..old(self)@
            }),
    {
        let records = self.engine.drain_results();
        records_as_dict(&records)
    }

    /// Drains the walk entries, as `results` does for records.
    pub fn walk_results(&mut self) -> (r: Vec<WalkResult>)
        ensures
            r@.map_values(|x: WalkResult| x@) == old(self)@.engine.walk,
            final(self)@ == (ControllerSpec {
                engine: EngineSpec { walk: Seq::empty(), ..old(self)@.engine },
                ..old(self)@
            }),
    {
        self.engine.drain_walk()
    }

    /// Empties both result buffers without touching the counters already
    /// reported, the recorded duration, or the lifecycle state.
    pub fn clear(&mut self)
        ensures
            final(self)@ == (ControllerSpec {
                engine: EngineSpec {
                    records: Seq::empty(),
                    walk: Seq::empty(),
                    ..old(self)@.engine
                },
                ..old(self)@
            }),
    {
        let _dropped_records = self.engine.drain_results();
        let _dropped_walk = self.engine.drain_walk();
        proof {
            assert(self@ =~= (ControllerSpec {
                engine: EngineSpec {
                    records: Seq::empty(),
                    walk: Seq::empty(),
                    ..old(self)@.engine
                },
                ..old(self)@
            }));
        }
    }
}

} // verus!
