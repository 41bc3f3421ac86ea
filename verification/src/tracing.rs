//! The tracking orchestrator: the session state machine that fuses the visual
//! tracker's per-frame re-localizations with the motion filter.
//!
//! The visual tracker itself is an outside capability: the frame loop performs
//! its calls and hands the outcomes in, and the orchestrator decides what they
//! mean. Each frame the loop asks [`Tracing::begin_frame`] what to do (a
//! pending region request always wins over continuing the previous target),
//! reports a tracker initialization through [`Tracing::start_session`], and
//! reports a re-localization outcome through [`Tracing::update`].

use vstd::prelude::*;
use crate::geom::{spec_center_x, spec_center_y, Point, Region};
use crate::kalman::{axis_fits, correct_ok, init_axis, spec_correct, spec_predict, FilterError, KalmanTracker};

verus! {

/// How many consecutive failed visual updates a coasting session tolerates
/// before its counter resets.
pub const FAIL_THRESHOLD: u32 = 50;

/// The externally visible phase of the state machine.
#[derive(Clone, Copy, PartialEq, Eq, Debug)]
pub enum TrackState {
    /// No active session.
    NoTarget,
    /// A session whose last visual update succeeded.
    Tracking,
    /// A session whose target the visual tracker cannot currently find;
    /// positions are extrapolated from motion history alone.
    Coasting,
}

/// An active tracking session: the motion filter, the count of consecutive
/// failed visual updates, and the last corrected position (the tail of the
/// motion arrow drawn on a successful frame).
#[derive(Clone, Copy)]
pub struct Session {
    pub kalman: KalmanTracker,
    pub fail_count: u32,
    pub prev_corrected_position: Option<Point>,
}

/// The orchestrator's session slot: a session exists exactly while the state
/// machine is away from `NoTarget`, so a coasting state without a session is
/// unrepresentable.
#[derive(Clone, Copy)]
pub enum SessionState {
    NoTarget,
    Tracking(Session),
    Coasting(Session),
}

/// What the frame loop must do with the visual tracker this frame.
#[derive(Clone, Copy, PartialEq, Eq, Debug)]
pub enum TrackerAction {
    /// No pending request and no session: nothing to do.
    Idle,
    /// A region request was consumed: initialize a fresh visual tracker on
    /// this region and report the outcome through `start_session`.
    StartTracker(Region),
    /// A session is active: re-localize with the existing tracker and report
    /// the outcome through `update`.
    Probe,
}

/// What one frame yields for rendering.
#[derive(Clone, Copy, PartialEq, Eq, Debug)]
pub struct FrameOutput {
    pub state: TrackState,
    /// The motion filter's predicted position, where one was computed.
    pub predicted: Option<Point>,
    /// The corrected position after folding in a successful visual update.
    pub corrected: Option<Point>,
    /// The region the visual tracker reported, on a successful update.
    pub region: Option<Region>,
    /// The previous corrected position, on a successful update: the tail of
    /// the motion arrow.
    pub prev_corrected: Option<Point>,
}

impl Session {
    /// A session's filter is always initialized and its counter always sits
    /// below the threshold (it resets on reaching it).
    pub open spec fn wf(self) -> bool {
        &&& self.kalman.initialized()
        &&& self.fail_count < FAIL_THRESHOLD
    }
}

impl SessionState {
    pub open spec fn wf(self) -> bool {
        match self {
            SessionState::NoTarget => true,
            SessionState::Tracking(s) => s.wf(),
            SessionState::Coasting(s) => s.wf(),
        }
    }

    pub open spec fn is_active(self) -> bool {
        !(self is NoTarget)
    }

    /// The active session; meaningful only while `is_active`.
    pub open spec fn session(self) -> Session {
        match self {
            SessionState::NoTarget => arbitrary(),
            SessionState::Tracking(s) => s,
            SessionState::Coasting(s) => s,
        }
    }
}

/// The fail counter after one more failed visual update: it counts up to the
/// threshold and resets to zero on reaching it.
pub open spec fn fail_step(f: nat) -> nat {
    if f + 1 < FAIL_THRESHOLD {
        (f + 1) as nat
    } else {
        0
    }
}

/// The fail counter after `n` consecutive failed visual updates on a fresh
/// session.
pub open spec fn fail_after(n: nat) -> nat
    decreases n,
{
    if n == 0 {
        0
    } else {
        fail_step(fail_after((n - 1) as nat))
    }
}

/// Up to the threshold the counter counts the consecutive failures exactly,
/// and on the threshold's failure it resets to zero; the session keeps
/// coasting rather than being dropped.
pub proof fn lemma_fail_counter_run(n: nat)
    requires
        n <= FAIL_THRESHOLD,
    ensures
        fail_after(n) == (if n < FAIL_THRESHOLD {
            n as int
        } else {
            0
        }),
    decreases n,
{
    if n > 0 {
        lemma_fail_counter_run((n - 1) as nat);
    }
}

/// The tracking orchestrator. `roi` is the single-slot region-request
/// channel: the pointer-input side writes it (latest wins) and the frame loop
/// consumes it at most once per frame, before any visual update.
pub struct Tracing {
    pub roi: Option<Region>,
    pub session: SessionState,
}

impl Tracing {
    pub open spec fn wf(self) -> bool {
        &&& self.session.wf()
        &&& (self.roi matches Some(r) ==> r.wf())
    }

    /// A fresh orchestrator: no pending request, no session.
    pub fn new() -> (t: Tracing)
        ensures
            t.roi is None,
            t.session is NoTarget,
            t.wf(),
    {
        Tracing { roi: None, session: SessionState::NoTarget }
    }

    /// Posts a region request; an unconsumed older request is overwritten.
    pub fn set_roi_from_rect(&mut self, roi: Region)
        requires
            old(self).wf(),
            roi.wf(),
        ensures
            final(self).wf(),
            final(self).roi == Some(roi),
            final(self).session == old(self).session,
    {
        self.roi = Some(roi);
    }

    /// Posts the fixed 60x60 region centered on a pointer click.
    pub fn set_roi_from_point(&mut self, x: i32, y: i32)
        requires
            old(self).wf(),
            x - 30 >= i32::MIN,
            y - 30 >= i32::MIN,
        ensures
            final(self).wf(),
            final(self).session == old(self).session,
            final(self).roi matches Some(r) && r.x == x - 30 && r.y == y - 30 && r.width == 60
                && r.height == 60,
    {
        self.roi = Some(Region::from_click(x, y));
    }

    /// Consumes the pending region request, if any, and says what the frame
    /// loop must do with the visual tracker this frame. A pending request
    /// always takes priority over probing the previous target.
    pub fn begin_frame(&mut self) -> (a: TrackerAction)
        requires
            old(self).wf(),
        ensures
            final(self).wf(),
            final(self).roi is None,
            final(self).session == old(self).session,
            (match old(self).roi {
                Some(r) => a == TrackerAction::StartTracker(r),
                None => a == (if old(self).session is NoTarget {
                    TrackerAction::Idle
                } else {
                    TrackerAction::Probe
                }),
            }),
    {
        let pending = self.roi;
        self.roi = None;
        match pending {
            Some(r) => TrackerAction::StartTracker(r),
            None => match &self.session {
                SessionState::NoTarget => TrackerAction::Idle,
                _ => TrackerAction::Probe,
            },
        }
    }

    /// Records the outcome of initializing a fresh visual tracker on a
    /// consumed region request. Whatever was active before is discarded: on
    /// success a brand-new session starts tracking, with the motion filter
    /// initialized at the region's center, a zero fail counter and no
    /// previous corrected position; on failure no session exists.
    pub fn start_session(&mut self, region: Region, init_ok: bool)
        requires
            old(self).wf(),
            region.wf(),
        ensures
            final(self).wf(),
            final(self).roi == old(self).roi,
            !init_ok ==> final(self).session is NoTarget,
            init_ok ==> (final(self).session matches SessionState::Tracking(s) && s.fail_count == 0
                && s.prev_corrected_position is None && s.kalman.initialized()
                && s.kalman.x_model() == init_axis(spec_center_x(region))
                && s.kalman.y_model() == init_axis(spec_center_y(region))),
    {
        if init_ok {
            let center = region.center();
            let mut kf = KalmanTracker::new();
            kf.init(center);
            self.session = SessionState::Tracking(
                Session { kalman: kf, fail_count: 0, prev_corrected_position: None },
            );
        } else {
            self.session = SessionState::NoTarget;
        }
    }

    /// Records the outcome of probing the visual tracker: `Some(region)` for
    /// a successful re-localization, `None` for a lost target.
    ///
    /// On success the fail counter resets, the filter predicts and then
    /// corrects with the region's center, and the session is tracking. On a
    /// failure below the threshold the filter predicts only and the session
    /// coasts; on the threshold's failure the counter resets and the frame
    /// yields no estimate, the session still coasting. A numeric filter
    /// error leaves the orchestrator unchanged.
    pub fn update(&mut self, found: Option<Region>) -> (r: Result<FrameOutput, FilterError>)
        requires
            old(self).wf(),
            (found matches Some(reg) ==> reg.wf()),
        ensures
            final(self).wf(),
            final(self).roi == old(self).roi,
            r is Err ==> *final(self) == *old(self),
            old(self).session is NoTarget ==> *final(self) == *old(self) && (r matches Ok(out)
                && out.state == TrackState::NoTarget && out.predicted is None && out.corrected is None
                && out.region is None && out.prev_corrected is None),
            old(self).session.is_active() ==> (found matches Some(reg) ==> {
                let s = old(self).session.session();
                let pm_x = spec_predict(s.kalman.x_model());
                let pm_y = spec_predict(s.kalman.y_model());
                let cm_x = spec_correct(pm_x, spec_center_x(reg));
                let cm_y = spec_correct(pm_y, spec_center_y(reg));
                if axis_fits(pm_x) && axis_fits(pm_y) && correct_ok(pm_x, spec_center_x(reg))
                    && correct_ok(pm_y, spec_center_y(reg)) {
                    r matches Ok(out) && out.state == TrackState::Tracking && (out.predicted
                        matches Some(pp) && pp.x == pm_x.p && pp.y == pm_y.p) && (out.corrected
                        matches Some(cp) && cp.x == cm_x.p && cp.y == cm_y.p) && out.region == Some(
                        reg,
                    ) && out.prev_corrected == s.prev_corrected_position && (final(self).session
                        matches SessionState::Tracking(ns) && ns.fail_count == 0
                        && ns.kalman.x_model() == cm_x && ns.kalman.y_model() == cm_y
                        && ns.prev_corrected_position == out.corrected)
                } else {
                    r == Err::<FrameOutput, FilterError>(FilterError::Numeric)
                }
            }),
            old(self).session.is_active() && found is None && old(self).session.session().fail_count + 1 < FAIL_THRESHOLD ==> {
                let s = old(self).session.session();
                let pm_x = spec_predict(s.kalman.x_model());
                let pm_y = spec_predict(s.kalman.y_model());
                if axis_fits(pm_x) && axis_fits(pm_y) {
                    r matches Ok(out) && out.state == TrackState::Coasting && (out.predicted
                        matches Some(pp) && pp.x == pm_x.p && pp.y == pm_y.p) && out.corrected
                        is None && out.region is None && out.prev_corrected is None && (final(self).session matches SessionState::Coasting(ns) && ns.fail_count == fail_step(
                        s.fail_count as nat,
                    ) && ns.kalman.x_model() == pm_x && ns.kalman.y_model() == pm_y
                        && ns.prev_corrected_position == s.prev_corrected_position)
                } else {
                    r == Err::<FrameOutput, FilterError>(FilterError::Numeric)
                }
            },
            old(self).session.is_active() && found is None && old(self).session.session().fail_count + 1 >= FAIL_THRESHOLD ==> {
                let s = old(self).session.session();
                r matches Ok(out) && out.state == TrackState::Coasting && out.predicted is None
                    && out.corrected is None && out.region is None && out.prev_corrected is None
                    && (final(self).session matches SessionState::Coasting(ns) && ns.fail_count == 0
                    && ns.fail_count == fail_step(s.fail_count as nat) && ns.kalman == s.kalman
                    && ns.prev_corrected_position == s.prev_corrected_position)
            },
    {
        let cur: Session = match &self.session {
            SessionState::NoTarget => {
                return Ok(
                    FrameOutput {
                        state: TrackState::NoTarget,
                        predicted: None,
                        corrected: None,
                        region: None,
                        prev_corrected: None,
                    },
                );
            },
            SessionState::Tracking(s) => *s,
            SessionState::Coasting(s) => *s,
        };
        match found {
            Some(reg) => {
                let mut kf = cur.kalman;
                let predicted = match kf.predict() {
                    Ok(p) => p,
                    Err(e) => { return Err(e); },
                };
                let center = reg.center();
                let corrected = match kf.correct(center) {
                    Ok(p) => p,
                    Err(e) => { return Err(e); },
                };
                let out = FrameOutput {
                    state: TrackState::Tracking,
                    predicted: Some(predicted),
                    corrected: Some(corrected),
                    region: Some(reg),
                    prev_corrected: cur.prev_corrected_position,
                };
                self.session = SessionState::Tracking(
                    Session {
                        kalman: kf,
                        fail_count: 0,
                        prev_corrected_position: Some(corrected),
                    },
                );
                Ok(out)
            },
            None => {
                let nf: u32 = cur.fail_count + 1;
                if nf < FAIL_THRESHOLD {
                    let mut kf = cur.kalman;
                    let predicted = match kf.predict() {
                        Ok(p) => p,
                        Err(e) => { return Err(e); },
                    };
                    self.session = SessionState::Coasting(
                        Session {
                            kalman: kf,
                            fail_count: nf,
                            prev_corrected_position: cur.prev_corrected_position,
                        },
                    );
                    Ok(
                        FrameOutput {
                            state: TrackState::Coasting,
                            predicted: Some(predicted),
                            corrected: None,
                            region: None,
                            prev_corrected: None,
                        },
                    )
                } else {
                    self.session = SessionState::Coasting(
                        Session {
                            kalman: cur.kalman,
                            fail_count: 0,
                            prev_corrected_position: cur.prev_corrected_position,
                        },
                    );
                    Ok(
                        FrameOutput {
                            state: TrackState::Coasting,
                            predicted: None,
                            corrected: None,
                            region: None,
                            prev_corrected: None,
                        },
                    )
                }
            },
        }
    }
}

} // verus!
