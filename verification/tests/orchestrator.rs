use tracking::geom::{Point, Region};
use tracking::tracing::{SessionState, TrackState, TrackerAction, Tracing};

#[test]
fn click_yields_fixed_region() {
    let mut t = Tracing::new();
    t.set_roi_from_point(100, 100);
    let a = t.begin_frame();
    assert_eq!(a, TrackerAction::StartTracker(Region::new(70, 70, 60, 60)));
}

#[test]
fn idle_without_request_or_session() {
    let mut t = Tracing::new();
    assert_eq!(t.begin_frame(), TrackerAction::Idle);
}

#[test]
fn latest_request_wins() {
    let mut t = Tracing::new();
    t.set_roi_from_rect(Region::new(5, 5, 10, 10));
    t.set_roi_from_point(100, 100);
    assert_eq!(t.begin_frame(), TrackerAction::StartTracker(Region::new(70, 70, 60, 60)));
    // The slot was consumed: the next frame probes the session (none here).
    assert_eq!(t.begin_frame(), TrackerAction::Idle);
}

#[test]
fn init_failure_leaves_no_target() {
    let mut t = Tracing::new();
    t.set_roi_from_rect(Region::new(10, 10, 20, 20));
    assert_eq!(t.begin_frame(), TrackerAction::StartTracker(Region::new(10, 10, 20, 20)));
    t.start_session(Region::new(10, 10, 20, 20), false);
    assert!(matches!(t.session, SessionState::NoTarget));
    let out = t.update(None).unwrap();
    assert_eq!(out.state, TrackState::NoTarget);
    assert_eq!(out.predicted, None);
    assert_eq!(out.corrected, None);
}

#[test]
fn successful_session_tracks_from_region_center() {
    let mut t = Tracing::new();
    t.set_roi_from_rect(Region::new(10, 10, 20, 20));
    t.begin_frame();
    t.start_session(Region::new(10, 10, 20, 20), true);
    // Same frame: the fresh tracker is probed; zero initial velocity means
    // the first prediction is the region center (20, 20).
    let out = t.update(Some(Region::new(10, 10, 20, 20))).unwrap();
    assert_eq!(out.state, TrackState::Tracking);
    assert_eq!(out.predicted, Some(Point::from_pixels(20, 20)));
    assert_eq!(out.corrected, Some(Point::from_pixels(20, 20)));
    assert_eq!(out.region, Some(Region::new(10, 10, 20, 20)));
    assert_eq!(out.prev_corrected, None);
    // The corrected position is recorded for the next frame's arrow.
    let out2 = t.update(Some(Region::new(10, 10, 20, 20))).unwrap();
    assert_eq!(out2.prev_corrected, Some(Point::from_pixels(20, 20)));
}

#[test]
fn failures_then_success_reset_counter() {
    let mut t = Tracing::new();
    t.set_roi_from_rect(Region::new(10, 10, 20, 20));
    t.begin_frame();
    t.start_session(Region::new(10, 10, 20, 20), true);
    t.update(Some(Region::new(10, 10, 20, 20))).unwrap();
    for i in 1..=7u32 {
        let out = t.update(None).unwrap();
        assert_eq!(out.state, TrackState::Coasting);
        match &t.session {
            SessionState::Coasting(s) => assert_eq!(s.fail_count, i),
            _ => panic!("expected a coasting session"),
        }
    }
    let out = t.update(Some(Region::new(12, 12, 20, 20))).unwrap();
    assert_eq!(out.state, TrackState::Tracking);
    match &t.session {
        SessionState::Tracking(s) => assert_eq!(s.fail_count, 0),
        _ => panic!("expected a tracking session"),
    }
}

#[test]
fn threshold_failures_reset_and_keep_coasting() {
    let mut t = Tracing::new();
    t.set_roi_from_rect(Region::new(10, 10, 20, 20));
    t.begin_frame();
    t.start_session(Region::new(10, 10, 20, 20), true);
    t.update(Some(Region::new(10, 10, 20, 20))).unwrap();
    for i in 1..=49u32 {
        let out = t.update(None).unwrap();
        assert_eq!(out.state, TrackState::Coasting);
        assert!(out.predicted.is_some());
        match &t.session {
            SessionState::Coasting(s) => assert_eq!(s.fail_count, i),
            _ => panic!("expected a coasting session"),
        }
    }
    // The 50th consecutive failure: the counter resets, no estimate is
    // emitted, and the session keeps coasting rather than being dropped.
    let out = t.update(None).unwrap();
    assert_eq!(out.state, TrackState::Coasting);
    assert_eq!(out.predicted, None);
    match &t.session {
        SessionState::Coasting(s) => assert_eq!(s.fail_count, 0),
        _ => panic!("expected a coasting session"),
    }
}

#[test]
fn new_request_replaces_session() {
    let mut t = Tracing::new();
    t.set_roi_from_rect(Region::new(10, 10, 20, 20));
    t.begin_frame();
    t.start_session(Region::new(10, 10, 20, 20), true);
    t.update(Some(Region::new(10, 10, 20, 20))).unwrap();
    t.update(None).unwrap();
    // A new request while coasting: on the very next frame the old session
    // is discarded wholesale and a fresh one starts at the new center.
    t.set_roi_from_rect(Region::new(100, 100, 60, 60));
    let a = t.begin_frame();
    assert_eq!(a, TrackerAction::StartTracker(Region::new(100, 100, 60, 60)));
    t.start_session(Region::new(100, 100, 60, 60), true);
    match &t.session {
        SessionState::Tracking(s) => {
            assert_eq!(s.fail_count, 0);
            assert_eq!(s.prev_corrected_position, None);
        }
        _ => panic!("expected a tracking session"),
    }
    // The fresh filter sits at the new region's center (130, 130).
    let out = t.update(Some(Region::new(100, 100, 60, 60))).unwrap();
    assert_eq!(out.predicted, Some(Point::from_pixels(130, 130)));
}
