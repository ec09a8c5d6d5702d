use tango::check::{check_transform, ErrorKind, PrecisionWarning, Transform, TransformNeed};
use tango::engine::Context;
use tango::paths::{MdPath, PathParts, RsPath};
use tango::timestamp::{MtimeResult, Timestamp};
use tango::{Config, Error};

fn parts(v: &[&str]) -> PathParts {
    PathParts::new(v.iter().map(|s| s.chars().collect()).collect())
}

fn shown(p: &PathParts) -> String {
    p.display().iter().collect()
}

fn ts(secs: i64, nanos: u32) -> Timestamp {
    Timestamp::new(secs, nanos)
}

fn hello(s: Timestamp, t: MtimeResult) -> Transform<RsPath, MdPath> {
    let rs = RsPath::from_entry(parts(&["src", "hello.rs"])).unwrap();
    let md = rs.to_md();
    Transform::new(rs, md, s, t)
}

fn hello_back(s: Timestamp, t: MtimeResult) -> Transform<MdPath, RsPath> {
    let md = MdPath::from_entry(parts(&["src", "hello.md"])).unwrap();
    let rs = md.to_rs();
    Transform::new(md, rs, s, t)
}

fn need(r: Result<(TransformNeed, Option<PrecisionWarning>), tango::check::Error>) -> (TransformNeed, Option<PrecisionWarning>) {
    match r {
        Ok(v) => v,
        Err(_) => panic!("expected no refusal"),
    }
}

#[test]
fn timestamp_views() {
    assert_eq!(ts(1, 2_345_678).to_ms(), 1002);
    assert_eq!(ts(-1, 0).to_ms(), -1000);
    assert!(ts(1, 5).before(&ts(1, 6)));
    assert!(!ts(2, 0).before(&ts(1, 999_999_999)));
    assert!(ts(3, 100).matches_low_precision(&ts(3, 999_999)));
    assert!(!ts(3, 100).matches_low_precision(&ts(3, 1_000_000)));
}

#[test]
fn absent_target_is_needed() {
    let t = hello(ts(100, 0), MtimeResult::NonExistant);
    assert_eq!(need(check_transform(None, &t)), (TransformNeed::Needed, None));
}

#[test]
fn newer_target_is_kept() {
    let t = hello(ts(100, 0), MtimeResult::Modified(ts(200, 0)));
    assert_eq!(need(check_transform(None, &t)), (TransformNeed::Unneeded, None));
}

#[test]
fn nanosecond_only_difference_is_unneeded_with_warning() {
    let t = hello(ts(100, 500_000), MtimeResult::Modified(ts(100, 100)));
    assert_eq!(
        need(check_transform(None, &t)),
        (TransformNeed::Unneeded, Some(PrecisionWarning::SourceTargetCoarseMatch))
    );
}

#[test]
fn both_sides_without_stamp_are_refused() {
    let t = hello(ts(200, 0), MtimeResult::Modified(ts(100, 0)));
    match check_transform(None, &t) {
        Err(tango::check::Error(ErrorKind::NoTangoStampExists { tgt, src }, pt)) => {
            assert_eq!(tgt, "src/hello.md");
            assert_eq!(src, "src/hello.rs");
            assert_eq!(shown(&pt.original), "src/hello.rs");
            assert_eq!(pt.source_time, ts(200, 0));
        }
        _ => panic!("expected NoTangoStampExists"),
    }
}

#[test]
fn stamp_older_than_target_is_refused() {
    let t = hello(ts(300, 0), MtimeResult::Modified(ts(250, 0)));
    match check_transform(Some(ts(100, 0)), &t) {
        Err(tango::check::Error(ErrorKind::TangoStampOlderThanTarget { tgt }, _)) => {
            assert_eq!(tgt, "src/hello.md");
        }
        _ => panic!("expected TangoStampOlderThanTarget"),
    }
    let back = hello_back(ts(250, 0), MtimeResult::Modified(ts(300, 0)));
    assert_eq!(need(check_transform(Some(ts(100, 0)), &back)), (TransformNeed::Unneeded, None));
}

#[test]
fn stamp_older_only_below_a_millisecond_is_needed_with_warning() {
    let t = hello(ts(300, 0), MtimeResult::Modified(ts(200, 500_000)));
    assert_eq!(
        need(check_transform(Some(ts(200, 100)), &t)),
        (TransformNeed::Needed, Some(PrecisionWarning::StampTargetCoarseMatch))
    );
}

#[test]
fn one_sided_edit_regenerates_the_other_side() {
    let fwd = hello(ts(300, 0), MtimeResult::Modified(ts(100, 0)));
    assert_eq!(need(check_transform(Some(ts(100, 0)), &fwd)), (TransformNeed::Needed, None));
    let back = hello_back(ts(100, 0), MtimeResult::Modified(ts(300, 0)));
    assert_eq!(need(check_transform(Some(ts(100, 0)), &back)), (TransformNeed::Unneeded, None));
}

#[test]
fn synced_pair_is_left_alone() {
    let fwd = hello(ts(100, 7), MtimeResult::Modified(ts(100, 7)));
    let back = hello_back(ts(100, 7), MtimeResult::Modified(ts(100, 7)));
    assert_eq!(need(check_transform(Some(ts(100, 7)), &fwd)), (TransformNeed::Unneeded, None));
    assert_eq!(need(check_transform(Some(ts(100, 7)), &back)), (TransformNeed::Unneeded, None));
}

#[test]
fn transform_error_copies_paths_and_times() {
    let t = hello(ts(5, 6), MtimeResult::NonExistant);
    let e = t.error(ErrorKind::TangoStampOlderThanTarget { tgt: "x".to_string() });
    assert_eq!(shown(&e.1.original), "src/hello.rs");
    assert_eq!(shown(&e.1.generate), "src/hello.md");
    assert_eq!(e.1.source_time, ts(5, 6));
    assert_eq!(e.1.target_time, MtimeResult::NonExistant);
}

#[test]
fn context_queues_needed_and_tracks_newest() {
    let mut c = Context::new(None);
    assert!(c.consider_src(hello(ts(100, 0), MtimeResult::NonExistant)).is_ok());
    assert_eq!(c.src_inputs.len(), 1);
    assert_eq!(c.newest_stamp, Some(ts(100, 0)));
    assert!(c.consider_lit(hello_back(ts(50, 0), MtimeResult::Modified(ts(100, 0)))).is_ok());
    assert_eq!(c.lit_inputs.len(), 0);
    assert_eq!(c.newest_stamp, Some(ts(100, 0)));
    c.update_newest_time(ts(400, 1));
    assert_eq!(c.newest_stamp, Some(ts(400, 1)));
}

#[test]
fn context_refusal_is_a_check_input_error() {
    let mut c = Context::new(None);
    match c.consider_src(hello(ts(200, 0), MtimeResult::Modified(ts(100, 0)))) {
        Err(Error::CheckInputError { error }) => {
            assert!(matches!(error.0, ErrorKind::NoTangoStampExists { .. }));
        }
        _ => panic!("expected a refusal"),
    }
    assert_eq!(c.src_inputs.len(), 0);
}

#[test]
fn concurrent_update_is_reported() {
    let mut c = Context::new(None);
    assert!(c.consider_src(hello(ts(100, 0), MtimeResult::NonExistant)).is_ok());
    assert!(c.check_input_timestamps(&vec![MtimeResult::Modified(ts(100, 0))], &vec![]).is_ok());
    assert!(c.check_input_timestamps(&vec![MtimeResult::NonExistant], &vec![]).is_ok());
    match c.check_input_timestamps(&vec![MtimeResult::Modified(ts(101, 0))], &vec![]) {
        Err(Error::ConcurrentUpdate { path_buf, old_time, new_time }) => {
            assert_eq!(shown(&path_buf), "src/hello.rs");
            assert_eq!(old_time, ts(100, 0));
            assert_eq!(new_time, ts(101, 0));
        }
        _ => panic!("expected ConcurrentUpdate"),
    }
}

#[test]
fn config_asks_for_rerun_lines() {
    let mut c = Config::new(parts(&["/", "work"]));
    assert!(!c.rerun_if);
    c.emit_rerun_if();
    assert!(c.rerun_if);
    assert_eq!(shown(&c.root), "//work");
}

#[test]
fn first_run_with_source_only_plans_literate_side() {
    let mut c = Context::new(None);
    let note = c.consider_src(hello(ts(1000, 42), MtimeResult::NonExistant));
    assert!(matches!(note, Ok(None)));
    assert_eq!(c.src_inputs.len(), 1);
    assert_eq!(shown(c.src_inputs[0].generate.path()), "src/hello.md");
    assert_eq!(c.src_inputs[0].source_time, ts(1000, 42));
    assert_eq!(c.newest_stamp, Some(ts(1000, 42)));
}

#[test]
fn stamp_covers_unqueued_inputs() {
    let mut c = Context::new(Some(ts(100, 0)));
    assert!(c.consider_src(hello(ts(100, 0), MtimeResult::Modified(ts(500, 0)))).is_ok());
    assert!(c.consider_lit(hello_back(ts(500, 0), MtimeResult::Modified(ts(100, 0)))).is_ok());
    assert_eq!(c.src_inputs.len(), 0);
    assert_eq!(c.lit_inputs.len(), 1);
    assert_eq!(c.newest_stamp, Some(ts(500, 0)));
}
