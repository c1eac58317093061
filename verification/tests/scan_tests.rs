use scandir_rs::classify::ChildEvent;
use scandir_rs::control::{Checkpoint, ScanController, ScanState};
use scandir_rs::def::{
    EntryKind, PatternSet, RawMetadata, ReturnType, ScanError, ScandirResult, Timestamp, Toc,
};
use scandir_rs::engine::{EngineVariant, ScanConfig};
use scandir_rs::filter::{Filter, MatchConfig};

fn ts(seconds: i64) -> Timestamp {
    Timestamp { seconds, nanoseconds: 0 }
}

fn meta(kind: EntryKind) -> RawMetadata {
    RawMetadata {
        kind,
        st_mode: 0o755,
        st_ino: 1,
        st_dev: 1,
        st_nlink: 1,
        st_size: 42,
        st_blksize: 4096,
        st_blocks: 1,
        st_uid: 1000,
        st_gid: 1000,
        st_rdev: 0,
        st_ctime: ts(1),
        st_mtime: ts(2),
        st_atime: ts(3),
    }
}

fn meta_id(kind: EntryKind, dev: u64, ino: u64) -> RawMetadata {
    let mut m = meta(kind);
    m.st_dev = dev;
    m.st_ino = ino;
    m
}

fn dir_child(name: &str) -> ChildEvent {
    ChildEvent { name: name.to_string(), lstat: Ok(meta(EntryKind::Directory)), target: None }
}

fn file_child(name: &str) -> ChildEvent {
    ChildEvent { name: name.to_string(), lstat: Ok(meta(EntryKind::File)), target: None }
}

fn config(filter: Filter, max_depth: i64, tier: ReturnType) -> ScanConfig {
    ScanConfig {
        root_path: String::from("root"),
        sorted: false,
        skip_hidden: false,
        max_depth,
        follow_symlinks: false,
        return_type: tier,
        filter,
    }
}

/// A depth-3 tree: root holds dirs a and b and file f; a holds dir a/sub
/// and file a/g; a/sub holds dir a/sub/deep and file a/sub/h; a/sub/deep
/// holds file a/sub/deep/i; b is empty.
fn tree_children(path: &str) -> Vec<ChildEvent> {
    match path {
        "" => vec![dir_child("a"), dir_child("b"), file_child("f")],
        "a" => vec![dir_child("sub"), file_child("g")],
        "a/sub" => vec![dir_child("deep"), file_child("h")],
        "a/sub/deep" => vec![file_child("i")],
        _ => Vec::new(),
    }
}

/// Drives the controller to completion against the in-memory tree.
fn run_to_end(ctrl: &mut ScanController) {
    loop {
        match ctrl.checkpoint() {
            Checkpoint::Stop => break,
            Checkpoint::Pause => {
                ctrl.resume();
            }
            Checkpoint::Continue => {
                let pending = ctrl.peek_next().expect("continue implies a pending directory");
                let events = tree_children(&pending.path);
                ctrl.visit_next(&events);
            }
        }
    }
}

fn count_scandir_entries(records: &[ScandirResult]) -> (usize, usize) {
    let mut entries = 0;
    let mut errors = 0;
    for r in records {
        match r {
            ScandirResult::Error(_) => errors += 1,
            _ => entries += 1,
        }
    }
    (entries, errors)
}

#[test]
fn count_total_equals_scandir_buckets() {
    let mut count = ScanController::new(
        config(Filter::empty(), -1, ReturnType::Full),
        EngineVariant::Count,
    );
    count.start().unwrap();
    run_to_end(&mut count);
    let cs = count.statistics();

    let mut scan = ScanController::new(
        config(Filter::empty(), -1, ReturnType::Full),
        EngineVariant::Scandir,
    );
    scan.start().unwrap();
    run_to_end(&mut scan);
    let ss = scan.statistics();
    let records = scan.results();
    let (entries, errors) = count_scandir_entries(&records);

    assert_eq!(cs.total, ss.total);
    assert_eq!(cs.dirs + cs.files + cs.symlinks + cs.other, cs.total);
    assert_eq!(entries as u64, cs.total);
    assert_eq!(errors as u64, cs.errors);
    // 4 dirs (a, b, a/sub, a/sub/deep) + 4 files (f, g, h, i)
    assert_eq!(cs.dirs, 4);
    assert_eq!(cs.files, 4);
    assert_eq!(cs.total, 8);
}

#[test]
fn excluding_a_directory_prunes_its_subtree() {
    let filter = Filter::compile(
        &Vec::new(),
        &vec![String::from("a")],
        &Vec::new(),
        &Vec::new(),
        MatchConfig::new(),
    )
    .unwrap();
    let mut scan = ScanController::new(config(filter, -1, ReturnType::Full), EngineVariant::Scandir);
    scan.start().unwrap();
    run_to_end(&mut scan);
    let stats = scan.statistics();
    let records = scan.results();
    for r in &records {
        if let ScandirResult::DirEntryFull(e) = r {
            assert!(e.path != "a" && !e.path.starts_with("a/"));
        }
    }
    // only b remains of the dirs, and only f of the files
    assert_eq!(stats.dirs, 1);
    assert_eq!(stats.files, 1);
    assert_eq!(stats.total, 2);
}

#[test]
fn stop_right_after_start_stops_at_first_checkpoint() {
    let mut ctrl = ScanController::new(
        config(Filter::empty(), -1, ReturnType::Base),
        EngineVariant::Walk,
    );
    ctrl.start().unwrap();
    ctrl.stop();
    run_to_end(&mut ctrl);
    assert_eq!(ctrl.state(), ScanState::Stopped);
    assert!(ctrl.has_finished());
    // nothing was visited before the stop took effect
    assert_eq!(ctrl.statistics().total, 0);
    assert!(ctrl.walk_results().is_empty());
}

#[test]
fn walk_toc_has_no_path_in_two_buckets() {
    let mut ctrl = ScanController::new(
        config(Filter::empty(), -1, ReturnType::Ext),
        EngineVariant::Walk,
    );
    ctrl.start().unwrap();
    run_to_end(&mut ctrl);
    for w in ctrl.walk_results() {
        let toc = match w {
            scandir_rs::def::WalkResult::Toc(t) => t,
            scandir_rs::def::WalkResult::WalkEntry(e) => e.toc,
            scandir_rs::def::WalkResult::WalkEntryExt(e) => e.toc,
        };
        let buckets = [&toc.dirs, &toc.files, &toc.symlinks, &toc.other];
        for (i, b1) in buckets.iter().enumerate() {
            for (j, b2) in buckets.iter().enumerate() {
                if i != j {
                    for p in b1.iter() {
                        assert!(!b2.contains(p));
                    }
                }
            }
        }
    }
}

#[test]
fn toc_clear_empties_all_five_buckets() {
    let mut toc = Toc::new();
    toc.dirs.push(String::from("d"));
    toc.files.push(String::from("f"));
    toc.symlinks.push(String::from("s"));
    toc.other.push(String::from("o"));
    toc.errors.push(String::from("e: gone"));
    toc.clear();
    assert!(toc.dirs.is_empty());
    assert!(toc.files.is_empty());
    assert!(toc.symlinks.is_empty());
    assert!(toc.other.is_empty());
    assert!(toc.errors.is_empty());
}

#[test]
fn clear_keeps_counters_and_duration() {
    let mut ctrl = ScanController::new(
        config(Filter::empty(), -1, ReturnType::Full),
        EngineVariant::Scandir,
    );
    ctrl.start().unwrap();
    run_to_end(&mut ctrl);
    ctrl.set_duration(123_456_789);
    let before = ctrl.statistics();
    ctrl.clear();
    let after = ctrl.statistics();
    assert_eq!(before, after);
    assert_eq!(ctrl.duration_nanoseconds(), 123_456_789);
    assert!(ctrl.results().is_empty());
}

#[test]
fn walk_with_depth_one_yields_only_the_root() {
    let mut ctrl = ScanController::new(
        config(Filter::empty(), 1, ReturnType::Base),
        EngineVariant::Walk,
    );
    ctrl.start().unwrap();
    run_to_end(&mut ctrl);
    let walks = ctrl.walk_results();
    assert_eq!(walks.len(), 1);
    match &walks[0] {
        scandir_rs::def::WalkResult::WalkEntry(e) => {
            assert_eq!(e.path, "");
            let mut dirs = e.toc.dirs.clone();
            dirs.sort();
            assert_eq!(dirs, vec![String::from("a"), String::from("b")]);
            assert_eq!(e.toc.files, vec![String::from("f")]);
        }
        _ => panic!("expected the plain walk entry shape"),
    }
}

#[test]
fn broken_symlink_lands_in_symlinks_with_one_error() {
    let broken = ChildEvent {
        name: String::from("dangling"),
        lstat: Ok(meta(EntryKind::Symlink)),
        target: Some(Err(String::from("no such file"))),
    };
    let mut ctrl = ScanController::new(
        ScanConfig {
            root_path: String::from("root"),
            sorted: false,
            skip_hidden: false,
            max_depth: -1,
            follow_symlinks: true,
            return_type: ReturnType::Ext,
            filter: Filter::empty(),
        },
        EngineVariant::Walk,
    );
    ctrl.start().unwrap();
    assert_eq!(ctrl.checkpoint(), Checkpoint::Continue);
    let pending = ctrl.peek_next().unwrap();
    assert_eq!(pending.path, "");
    ctrl.visit_next(&vec![broken]);
    let stats = ctrl.statistics();
    assert_eq!(stats.symlinks, 1);
    assert_eq!(stats.errors, 1);
    assert_eq!(stats.dirs, 0);
    assert_eq!(stats.files, 0);
    let walks = ctrl.walk_results();
    assert_eq!(walks.len(), 1);
    match &walks[0] {
        scandir_rs::def::WalkResult::WalkEntryExt(e) => {
            assert_eq!(e.toc.symlinks, vec![String::from("dangling")]);
            assert_eq!(e.toc.errors, vec![String::from("dangling: no such file")]);
            assert!(e.toc.dirs.is_empty());
            assert!(e.toc.files.is_empty());
        }
        _ => panic!("expected the extended walk entry shape"),
    }
}

#[test]
fn synchronous_and_background_style_runs_agree() {
    // one run drained through start + checkpoint loop
    let mut bg = ScanController::new(
        config(Filter::empty(), -1, ReturnType::Full),
        EngineVariant::Scandir,
    );
    bg.start().unwrap();
    run_to_end(&mut bg);
    let bg_records = bg.results();

    // one run driven inline, visiting pending directories directly
    let mut inline = ScanController::new(
        config(Filter::empty(), -1, ReturnType::Full),
        EngineVariant::Scandir,
    );
    while let Some(pending) = inline.peek_next() {
        let events = tree_children(&pending.path);
        inline.visit_next(&events);
    }
    let inline_records = inline.results();

    assert_eq!(bg_records.len(), inline_records.len());
    for (x, y) in bg_records.iter().zip(inline_records.iter()) {
        match (x, y) {
            (ScandirResult::DirEntryFull(a), ScandirResult::DirEntryFull(b)) => {
                assert_eq!(a.path, b.path);
                assert_eq!(a.name, b.name);
                assert_eq!(a.is_dir, b.is_dir);
                assert_eq!(a.is_file, b.is_file);
                assert_eq!(a.is_symlink, b.is_symlink);
            }
            (ScandirResult::Error(a), ScandirResult::Error(b)) => assert_eq!(a, b),
            _ => panic!("record shapes differ between the two runs"),
        }
    }
}

#[test]
fn invalid_pattern_is_rejected_with_its_position() {
    let r = Filter::compile(
        &vec![String::from("ok*"), String::from("a/**b")],
        &Vec::new(),
        &Vec::new(),
        &Vec::new(),
        MatchConfig::new(),
    );
    assert_eq!(
        r.err().unwrap(),
        ScanError::InvalidPattern { set: PatternSet::DirInclude, index: 1 }
    );
    let r2 = Filter::compile(
        &Vec::new(),
        &Vec::new(),
        &Vec::new(),
        &vec![String::from("***")],
        MatchConfig::new(),
    );
    assert_eq!(
        r2.err().unwrap(),
        ScanError::InvalidPattern { set: PatternSet::FileExclude, index: 0 }
    );
}

#[test]
fn glob_patterns_really_match() {
    let filter = Filter::compile(
        &Vec::new(),
        &Vec::new(),
        &vec![String::from("*.txt")],
        &Vec::new(),
        MatchConfig::new(),
    )
    .unwrap();
    assert!(filter.allows_file("notes.txt"));
    assert!(!filter.allows_file("main.rs"));
}

#[test]
fn exclusion_takes_precedence_over_inclusion() {
    let filter = Filter::compile(
        &vec![String::from("*")],
        &vec![String::from("secret*")],
        &Vec::new(),
        &Vec::new(),
        MatchConfig::new(),
    )
    .unwrap();
    assert!(filter.allows_dir("public"));
    assert!(!filter.allows_dir("secret1"));
    // empty include set allows everything not excluded
    let open = Filter::empty();
    assert!(open.allows_dir("anything/at/all"));
}

#[test]
fn case_insensitive_matching_follows_the_options() {
    let filter = Filter::compile(
        &vec![String::from("Docs*")],
        &Vec::new(),
        &Vec::new(),
        &Vec::new(),
        MatchConfig {
            case_sensitive: false,
            require_literal_separator: false,
            require_literal_leading_dot: false,
        },
    )
    .unwrap();
    assert!(filter.allows_dir("docs-old"));
    let strict = Filter::compile(
        &vec![String::from("Docs*")],
        &Vec::new(),
        &Vec::new(),
        &Vec::new(),
        MatchConfig::new(),
    )
    .unwrap();
    assert!(!strict.allows_dir("docs-old"));
}

#[test]
fn record_tiers_carry_exactly_their_fields() {
    let m = meta(EntryKind::File);
    let fast = scandir_rs::classify::build_record(
        ReturnType::Fast,
        false,
        false,
        true,
        &m,
        "x",
        "d/x",
    );
    match fast {
        ScandirResult::DirEntry(e) => {
            assert!(e.is_file && !e.is_dir && !e.is_symlink);
            assert_eq!(e.st_mtime, Timestamp { seconds: 0, nanoseconds: 0 });
        }
        _ => panic!("fast tier builds the plain record"),
    }
    let base = scandir_rs::classify::build_record(
        ReturnType::Base,
        false,
        false,
        true,
        &m,
        "x",
        "d/x",
    );
    match base {
        ScandirResult::DirEntry(e) => {
            assert_eq!(e.st_ctime, ts(1));
            assert_eq!(e.st_mtime, ts(2));
            assert_eq!(e.st_atime, ts(3));
        }
        _ => panic!("base tier builds the plain record"),
    }
    let ext = scandir_rs::classify::build_record(
        ReturnType::Ext,
        false,
        false,
        true,
        &m,
        "x",
        "d/x",
    );
    match ext {
        ScandirResult::DirEntryExt(e) => {
            assert_eq!(e.st_size, 42);
            assert_eq!(e.st_mode, 0o755);
            assert_eq!(e.st_uid, 1000);
        }
        _ => panic!("ext tier builds the extended record"),
    }
    let full = scandir_rs::classify::build_record(
        ReturnType::Full,
        false,
        false,
        true,
        &m,
        "x",
        "d/x",
    );
    match full {
        ScandirResult::DirEntryFull(e) => {
            assert_eq!(e.name, "x");
            assert_eq!(e.path, "d/x");
            assert_eq!(e.st_size, 42);
        }
        _ => panic!("full tier builds the full record"),
    }
}

#[test]
fn record_constructors_keep_their_fields() {
    let e = scandir_rs::def::DirEntry::new(true, false, false, ts(1), ts(2), ts(3));
    assert!(e.is_symlink && !e.is_dir && !e.is_file);
    assert_eq!(e.st_atime, ts(3));
    let x = scandir_rs::def::DirEntryExt::new(
        false, true, false, ts(1), ts(2), ts(3), 0o700, 5, 6, 2, 1024, 4096, 8, 0, 0, 0,
    );
    assert!(x.is_dir);
    assert_eq!(x.st_ino, 5);
    assert_eq!(x.st_size, 1024);
    let f = scandir_rs::def::DirEntryFull::new(
        String::from("n"),
        String::from("d/n"),
        false,
        false,
        true,
        ts(1),
        ts(2),
        ts(3),
        0o644,
        5,
        6,
        1,
        7,
        4096,
        1,
        1000,
        1000,
        0,
    );
    assert_eq!(f.name, "n");
    assert_eq!(f.path, "d/n");
    assert!(f.is_file);
}

#[test]
fn hidden_names_are_skipped_before_filtering() {
    let mut ctrl = ScanController::new(
        ScanConfig {
            root_path: String::from("root"),
            sorted: false,
            skip_hidden: true,
            max_depth: -1,
            follow_symlinks: false,
            return_type: ReturnType::Base,
            filter: Filter::empty(),
        },
        EngineVariant::Count,
    );
    ctrl.start().unwrap();
    let events = vec![file_child(".hidden"), file_child("seen")];
    ctrl.visit_next(&events);
    let stats = ctrl.statistics();
    assert_eq!(stats.files, 1);
    assert_eq!(stats.total, 1);
}

#[test]
fn unreadable_child_counts_one_error_and_no_entry() {
    let mut ctrl = ScanController::new(
        config(Filter::empty(), -1, ReturnType::Full),
        EngineVariant::Scandir,
    );
    ctrl.start().unwrap();
    let events = vec![ChildEvent {
        name: String::from("locked"),
        lstat: Err(String::from("permission denied")),
        target: None,
    }];
    ctrl.visit_next(&events);
    let stats = ctrl.statistics();
    assert_eq!(stats.errors, 1);
    assert_eq!(stats.total, 0);
    let records = ctrl.results();
    assert_eq!(records.len(), 1);
    match &records[0] {
        ScandirResult::Error(s) => assert_eq!(s, "locked: permission denied"),
        _ => panic!("an unreadable child yields only the error record"),
    }
}

#[test]
fn unreadable_directory_reports_its_own_path() {
    let mut ctrl = ScanController::new(
        config(Filter::empty(), -1, ReturnType::Full),
        EngineVariant::Scandir,
    );
    ctrl.start().unwrap();
    ctrl.visit_next(&vec![dir_child("bad")]);
    assert_eq!(ctrl.peek_next().unwrap().path, "bad");
    // the directory itself cannot be read: one error event with an empty name
    ctrl.visit_next(&vec![ChildEvent {
        name: String::new(),
        lstat: Err(String::from("permission denied")),
        target: None,
    }]);
    let records = ctrl.results();
    let errors: Vec<&String> = records
        .iter()
        .filter_map(|r| match r {
            ScandirResult::Error(s) => Some(s),
            _ => None,
        })
        .collect();
    assert_eq!(errors, vec![&String::from("bad: permission denied")]);
    assert_eq!(ctrl.statistics().errors, 1);
}

#[test]
fn symlink_cycles_are_not_requeued() {
    let mut ctrl = ScanController::new(
        ScanConfig {
            root_path: String::from("root"),
            sorted: false,
            skip_hidden: false,
            max_depth: -1,
            follow_symlinks: true,
            return_type: ReturnType::Base,
            filter: Filter::empty(),
        },
        EngineVariant::Count,
    );
    ctrl.start().unwrap();
    // two symlinks resolving to one and the same directory identity
    let link = |name: &str| ChildEvent {
        name: name.to_string(),
        lstat: Ok(meta_id(EntryKind::Symlink, 7, 9)),
        target: Some(Ok(meta_id(EntryKind::Directory, 7, 99))),
    };
    let events = vec![link("once"), link("twice")];
    ctrl.visit_next(&events);
    let stats = ctrl.statistics();
    assert_eq!(stats.dirs, 2);
    // only the first was queued for descent; the second identity was seen
    assert_eq!(ctrl.peek_next().unwrap().path, "once");
    ctrl.visit_next(&Vec::new());
    assert!(ctrl.peek_next().is_none());
}

#[test]
fn start_is_rejected_while_running_and_pause_resume_cycle_works() {
    let mut ctrl = ScanController::new(
        config(Filter::empty(), -1, ReturnType::Base),
        EngineVariant::Count,
    );
    assert!(!ctrl.has_started());
    ctrl.start().unwrap();
    assert!(ctrl.has_started());
    assert_eq!(ctrl.start(), Err(ScanError::AlreadyRunning));
    ctrl.pause();
    assert_eq!(ctrl.state(), ScanState::Paused);
    assert_eq!(ctrl.start(), Err(ScanError::AlreadyRunning));
    assert_eq!(ctrl.checkpoint(), Checkpoint::Pause);
    ctrl.resume();
    assert_eq!(ctrl.state(), ScanState::Running);
    run_to_end(&mut ctrl);
    assert_eq!(ctrl.state(), ScanState::Finished);
    assert!(ctrl.start().is_ok());
}

#[test]
fn as_dict_maps_relative_paths_to_full_records() {
    let mut ctrl = ScanController::new(
        config(Filter::empty(), -1, ReturnType::Full),
        EngineVariant::Scandir,
    );
    ctrl.start().unwrap();
    run_to_end(&mut ctrl);
    let dict = ctrl.as_dict();
    assert_eq!(dict.len(), 8);
    let mut keys: Vec<String> = dict.iter().map(|(k, _)| k.clone()).collect();
    keys.sort();
    let mut expected: Vec<String> =
        ["a", "a/g", "a/sub", "a/sub/deep", "a/sub/deep/i", "a/sub/h", "b", "f"]
            .iter()
            .map(|s| s.to_string())
            .collect();
    expected.sort();
    assert_eq!(keys, expected);
    for (key, record) in &dict {
        match record {
            ScandirResult::DirEntryFull(e) => assert_eq!(&e.path, key),
            _ => panic!("the dictionary holds full records only"),
        }
    }
    // the buffer was drained by as_dict
    assert!(ctrl.results().is_empty());
}

#[test]
fn negative_max_depth_visits_the_whole_tree() {
    let mut ctrl = ScanController::new(
        config(Filter::empty(), -1, ReturnType::Base),
        EngineVariant::Count,
    );
    ctrl.start().unwrap();
    run_to_end(&mut ctrl);
    assert_eq!(ctrl.statistics().total, 8);
    // depth 2 stops above the deepest file
    let mut shallow = ScanController::new(
        config(Filter::empty(), 2, ReturnType::Base),
        EngineVariant::Count,
    );
    shallow.start().unwrap();
    run_to_end(&mut shallow);
    // root and a are visited; a/sub is not, so h, deep and i are unseen
    assert_eq!(shallow.statistics().total, 5);
}
