//! Constant-velocity motion filter over 2D positions.
//!
//! The filter estimates position and velocity per axis, with a 2x2 error
//! covariance per axis; the two axes are independent because the process and
//! measurement noises are diagonal and the measurement reads the positions
//! alone. All quantities are held in thousandths (the same fixed-point scale
//! as [`crate::geom::Point`]), and every step is specified exactly, including
//! the rounding of each division.

use vstd::prelude::*;
use vstd::arithmetic::div_mod::{lemma_div_is_ordered, lemma_div_multiples_vanish, lemma_div_of0, lemma_div_plus_one, lemma_div_pos_is_pos, lemma_fundamental_div_mod, lemma_mod_bound, lemma_multiply_divide_lt};
use vstd::arithmetic::mul::{lemma_mul_inequality, lemma_mul_nonnegative, lemma_mul_strict_inequality, lemma_mul_upper_bound};
use crate::geom::{div_trunc, iabs, Point};

verus! {

/// Process noise variance on the position components, in thousandths (0.01).
pub const Q_POS: i64 = 10;

/// Process noise variance on the velocity components, in thousandths (5.0).
pub const Q_VEL: i64 = 5000;

/// Measurement noise variance on both position components, in thousandths (0.1).
pub const R_MEAS: i64 = 100;

/// Why a filter operation was refused.
#[derive(Clone, Copy, PartialEq, Eq, Debug)]
pub enum FilterError {
    /// `predict` or `correct` was called before `init`.
    NotInitialized,
    /// A value of the step left the representable range.
    Numeric,
}

/// One axis of the filter: position, velocity, and the symmetric error
/// covariance [[a, b], [b, c]] over (position, velocity).
#[derive(Clone, Copy, PartialEq, Eq, Debug)]
struct Axis {
    p: i64,
    v: i64,
    a: i64,
    b: i64,
    c: i64,
}

/// The unbounded-integer value of one axis of the filter.
pub ghost struct AxisModel {
    pub p: int,
    pub v: int,
    pub a: int,
    pub b: int,
    pub c: int,
}

impl Axis {
    spec fn model(self) -> AxisModel {
        AxisModel { p: self.p as int, v: self.v as int, a: self.a as int, b: self.b as int, c: self.c as int }
    }
}

pub open spec fn fits_i64(n: int) -> bool {
    i64::MIN <= n <= i64::MAX
}

pub open spec fn axis_fits(m: AxisModel) -> bool {
    &&& fits_i64(m.p)
    &&& fits_i64(m.v)
    &&& fits_i64(m.a)
    &&& fits_i64(m.b)
    &&& fits_i64(m.c)
}

/// The state of one axis right after `init` at position `pos`: zero velocity
/// and the default (zero) covariance.
pub open spec fn init_axis(pos: int) -> AxisModel {
    AxisModel { p: pos, v: 0, a: 0, b: 0, c: 0 }
}

/// One prediction step on one axis: position advances by the velocity, the
/// velocity is kept, and the covariance advances by P' = A P A^T + Q for the
/// transition A = [[1, 1], [0, 1]].
pub open spec fn spec_predict(m: AxisModel) -> AxisModel {
    AxisModel {
        p: m.p + m.v,
        v: m.v,
        a: m.a + 2 * m.b + m.c + Q_POS,
        b: m.b + m.c,
        c: m.c + Q_VEL,
    }
}

/// One correction step on one axis for the measurement `z`: the Kalman gain is
/// (a / s, b / s) with the innovation variance s = a + R, the state moves by
/// gain times the innovation z - p, and the covariance shrinks to
/// (I - K H) P. Each division is the truncating fixed-point division.
pub open spec fn spec_correct(m: AxisModel, z: int) -> AxisModel {
    let s = m.a + R_MEAS;
    let inno = z - m.p;
    AxisModel {
        p: m.p + div_trunc(m.a * inno, s),
        v: m.v + div_trunc(m.b * inno, s),
        a: div_trunc(m.a * R_MEAS, s),
        b: div_trunc(m.b * R_MEAS, s),
        c: m.c - div_trunc(m.b * m.b, s),
    }
}

/// When a correction step goes through on one axis: the position variance is
/// nonnegative (so the innovation variance is positive), and every quotient
/// and every stored result is representable.
pub open spec fn correct_ok(m: AxisModel, z: int) -> bool {
    let s = m.a + R_MEAS;
    let inno = z - m.p;
    &&& m.a >= 0
    &&& s <= i64::MAX
    &&& fits_i64(div_trunc(m.a * inno, s))
    &&& fits_i64(div_trunc(m.b * inno, s))
    &&& fits_i64(div_trunc(m.b * m.b, s))
    &&& fits_i64(div_trunc(m.a * R_MEAS, s))
    &&& fits_i64(div_trunc(m.b * R_MEAS, s))
    &&& axis_fits(spec_correct(m, z))
}

fn fits(v: i128) -> (r: bool)
    ensures
        r == fits_i64(v as int),
{
    i64::MIN as i128 <= v && v <= i64::MAX as i128
}

/// Truncating (x * y) / d, or `None` where the quotient leaves the range of
/// `i64`. The magnitude bounds keep the intermediate product representable.
fn mul_div(x: i128, y: i128, d: i64) -> (r: Option<i64>)
    requires
        d > 0,
        iabs(x as int) <= 0x8000_0000_0000_0000,
        iabs(y as int) <= 0x1_0000_0000_0000_0000,
    ensures
        (match r {
            Some(q) => fits_i64(div_trunc(x as int * y as int, d as int)) && q == div_trunc(
                x as int * y as int,
                d as int,
            ),
            None => !fits_i64(div_trunc(x as int * y as int, d as int)),
        }),
{
    let xa: u128 = if x >= 0 {
        x as u128
    } else {
        (-x) as u128
    };
    let ya: u128 = if y >= 0 {
        y as u128
    } else {
        (-y) as u128
    };
    proof {
        lemma_mul_upper_bound(xa as int, 0x8000_0000_0000_0000, ya as int, 0x1_0000_0000_0000_0000);
    }
    let prod: u128 = xa * ya;
    let q: u128 = prod / (d as u128);
    let neg: bool = (x < 0) != (y < 0);
    let ghost pr: int = x as int * y as int;
    proof {
        assert((if pr >= 0 {
            prod == pr
        } else {
            prod == -pr
        }) && (if neg {
            pr <= 0
        } else {
            pr >= 0
        })) by (nonlinear_arith)
            requires
                pr == (x as int) * (y as int),
                prod == (xa as int) * (ya as int),
                xa as int == (if (x as int) >= 0 { x as int } else { -(x as int) }),
                ya as int == (if (y as int) >= 0 { y as int } else { -(y as int) }),
                neg == (((x as int) < 0) != ((y as int) < 0)),
        ;
        lemma_div_of0(d as int);
    }
    if neg {
        if q <= i64::MAX as u128 {
            Some(-(q as i64))
        } else if q == (i64::MAX as u128) + 1 {
            Some(i64::MIN)
        } else {
            None
        }
    } else {
        if q <= i64::MAX as u128 {
            Some(q as i64)
        } else {
            None
        }
    }
}

/// One axis of the prediction step, committed only when every new value is
/// representable.
fn axis_predict(ax: Axis) -> (r: Option<Axis>)
    ensures
        (match r {
            Some(n) => axis_fits(spec_predict(ax.model())) && n.model() == spec_predict(ax.model()),
            None => !axis_fits(spec_predict(ax.model())),
        }),
{
    let p: i128 = ax.p as i128 + ax.v as i128;
    let a: i128 = ax.a as i128 + 2 * (ax.b as i128) + ax.c as i128 + Q_POS as i128;
    let b: i128 = ax.b as i128 + ax.c as i128;
    let c: i128 = ax.c as i128 + Q_VEL as i128;
    if fits(p) && fits(a) && fits(b) && fits(c) {
        Some(Axis { p: p as i64, v: ax.v, a: a as i64, b: b as i64, c: c as i64 })
    } else {
        None
    }
}

/// One axis of the correction step, committed only when the step is enabled
/// and every value is representable.
fn axis_correct(ax: Axis, z: i64) -> (r: Option<Axis>)
    ensures
        (match r {
            Some(n) => correct_ok(ax.model(), z as int) && n.model() == spec_correct(
                ax.model(),
                z as int,
            ),
            None => !correct_ok(ax.model(), z as int),
        }),
{
    if ax.a < 0 || ax.a > i64::MAX - R_MEAS {
        return None;
    }
    let s: i64 = ax.a + R_MEAS;
    let inno: i128 = z as i128 - ax.p as i128;
    let t_p: i64 = match mul_div(ax.a as i128, inno, s) {
        Some(t) => t,
        None => { return None; },
    };
    let t_v: i64 = match mul_div(ax.b as i128, inno, s) {
        Some(t) => t,
        None => { return None; },
    };
    let t_c: i64 = match mul_div(ax.b as i128, ax.b as i128, s) {
        Some(t) => t,
        None => { return None; },
    };
    let a_new: i64 = match mul_div(ax.a as i128, R_MEAS as i128, s) {
        Some(t) => t,
        None => { return None; },
    };
    let b_new: i64 = match mul_div(ax.b as i128, R_MEAS as i128, s) {
        Some(t) => t,
        None => { return None; },
    };
    let p_new: i128 = ax.p as i128 + t_p as i128;
    let v_new: i128 = ax.v as i128 + t_v as i128;
    let c_new: i128 = ax.c as i128 - t_c as i128;
    if fits(p_new) && fits(v_new) && fits(c_new) {
        Some(Axis { p: p_new as i64, v: v_new as i64, a: a_new, b: b_new, c: c_new as i64 })
    } else {
        None
    }
}

/// The motion filter over both axes. `init` must come before `predict` and
/// `correct`; both refuse to run on an uninitialized filter.
#[derive(Clone, Copy)]
pub struct KalmanTracker {
    x: Axis,
    y: Axis,
    inited: bool,
}

impl KalmanTracker {
    /// The model of the horizontal axis.
    pub closed spec fn x_model(self) -> AxisModel {
        self.x.model()
    }

    /// The model of the vertical axis.
    pub closed spec fn y_model(self) -> AxisModel {
        self.y.model()
    }

    /// Whether `init` has been called.
    pub closed spec fn initialized(self) -> bool {
        self.inited
    }

    /// A filter that still awaits `init`.
    pub fn new() -> (t: Self)
        ensures
            !t.initialized(),
            t.x_model() == init_axis(0),
            t.y_model() == init_axis(0),
    {
        KalmanTracker {
            x: Axis { p: 0, v: 0, a: 0, b: 0, c: 0 },
            y: Axis { p: 0, v: 0, a: 0, b: 0, c: 0 },
            inited: false,
        }
    }

    /// Sets the posterior state to the given position with zero velocity and
    /// the default (zero) covariance.
    pub fn init(&mut self, position: Point)
        ensures
            final(self).initialized(),
            final(self).x_model() == init_axis(position.x as int),
            final(self).y_model() == init_axis(position.y as int),
    {
        self.x = Axis { p: position.x, v: 0, a: 0, b: 0, c: 0 };
        self.y = Axis { p: position.y, v: 0, a: 0, b: 0, c: 0 };
        self.inited = true;
    }

    /// Advances the state one step by the constant-velocity transition and
    /// returns the new position estimate. Refused before `init`; refused,
    /// leaving the state unchanged, where a value would leave the
    /// representable range.
    pub fn predict(&mut self) -> (r: Result<Point, FilterError>)
        ensures
            final(self).initialized() == old(self).initialized(),
            !old(self).initialized() ==> r == Err::<Point, FilterError>(FilterError::NotInitialized)
                && *final(self) == *old(self),
            old(self).initialized() && axis_fits(spec_predict(old(self).x_model())) && axis_fits(
                spec_predict(old(self).y_model()),
            ) ==> (r matches Ok(pt) && final(self).x_model() == spec_predict(old(self).x_model())
                && final(self).y_model() == spec_predict(old(self).y_model()) && pt.x == spec_predict(
                old(self).x_model(),
            ).p && pt.y == spec_predict(old(self).y_model()).p),
            old(self).initialized() && !(axis_fits(spec_predict(old(self).x_model())) && axis_fits(
                spec_predict(old(self).y_model()),
            )) ==> r == Err::<Point, FilterError>(FilterError::Numeric) && *final(self) == *old(self),
    {
        if !self.inited {
            return Err(FilterError::NotInitialized);
        }
        match (axis_predict(self.x), axis_predict(self.y)) {
            (Some(nx), Some(ny)) => {
                self.x = nx;
                self.y = ny;
                Ok(Point { x: nx.p, y: ny.p })
            },
            _ => Err(FilterError::Numeric),
        }
    }

    /// The position-variance entries of the error covariance for the two
    /// axes, in thousandths.
    pub fn position_variance(&self) -> (r: (i64, i64))
        ensures
            r.0 == self.x_model().a,
            r.1 == self.y_model().a,
    {
        (self.x.a, self.y.a)
    }

    /// Folds the measured position into the state by the Kalman gain and
    /// returns the corrected position estimate. Refused before `init`;
    /// refused, leaving the state unchanged, where the step is not enabled or
    /// a value would leave the representable range.
    pub fn correct(&mut self, measurement: Point) -> (r: Result<Point, FilterError>)
        ensures
            final(self).initialized() == old(self).initialized(),
            !old(self).initialized() ==> r == Err::<Point, FilterError>(FilterError::NotInitialized)
                && *final(self) == *old(self),
            old(self).initialized() && correct_ok(old(self).x_model(), measurement.x as int)
                && correct_ok(old(self).y_model(), measurement.y as int) ==> (r matches Ok(pt)
                && final(self).x_model() == spec_correct(old(self).x_model(), measurement.x as int)
                && final(self).y_model() == spec_correct(old(self).y_model(), measurement.y as int)
                && pt.x == spec_correct(old(self).x_model(), measurement.x as int).p && pt.y
                == spec_correct(old(self).y_model(), measurement.y as int).p),
            old(self).initialized() && !(correct_ok(old(self).x_model(), measurement.x as int)
                && correct_ok(old(self).y_model(), measurement.y as int)) ==> r == Err::<
                Point,
                FilterError,
            >(FilterError::Numeric) && *final(self) == *old(self),
    {
        if !self.inited {
            return Err(FilterError::NotInitialized);
        }
        match (axis_correct(self.x, measurement.x), axis_correct(self.y, measurement.y)) {
            (Some(nx), Some(ny)) => {
                self.x = nx;
                self.y = ny;
                Ok(Point { x: nx.p, y: ny.p })
            },
            _ => Err(FilterError::Numeric),
        }
    }
}

/// A freshly initialized axis owes its first prediction, and that prediction
/// returns the initialized position unchanged: the initial velocity is zero,
/// so no extrapolation happens on the first step.
pub proof fn lemma_first_predict_returns_init(pos: int)
    requires
        fits_i64(pos),
    ensures
        axis_fits(spec_predict(init_axis(pos))),
        spec_predict(init_axis(pos)).p == pos,
        spec_predict(init_axis(pos)).v == 0,
{
}

/// Correcting with the predicted position itself (zero innovation) leaves the
/// position and velocity estimates unchanged: the gain is applied to a zero
/// innovation.
pub proof fn lemma_zero_innovation_fixes_estimate(m: AxisModel)
    requires
        m.a >= 0,
    ensures
        spec_correct(m, m.p).p == m.p,
        spec_correct(m, m.p).v == m.v,
{
    let s = m.a + R_MEAS;
    assert(m.a * 0 == 0);
    assert(m.b * 0 == 0);
    lemma_div_of0(s);
}

/// A correction step never moves the position estimate away from the
/// measurement: the corrected position lies between the predicted position
/// and the measurement.
pub proof fn lemma_correct_approaches_measurement(m: AxisModel, z: int)
    requires
        m.a >= 0,
    ensures
        iabs(spec_correct(m, z).p - z) <= iabs(m.p - z),
{
    let s = m.a + R_MEAS;
    let d = z - m.p;
    if d >= 0 {
        lemma_mul_nonnegative(m.a, d);
        lemma_mul_inequality(m.a, s, d);
        lemma_div_is_ordered(m.a * d, s * d, s);
        lemma_div_multiples_vanish(d, s);
        if m.a * d > 0 {
            lemma_div_pos_is_pos(m.a * d, s);
        } else {
            lemma_div_of0(s);
        }
    } else {
        let e = -d;
        lemma_mul_nonnegative(m.a, e);
        lemma_mul_inequality(m.a, s, e);
        lemma_div_is_ordered(m.a * e, s * e, s);
        lemma_div_multiples_vanish(e, s);
        if m.a * e > 0 {
            lemma_div_pos_is_pos(m.a * e, s);
        } else {
            lemma_div_of0(s);
        }
        assert(m.a * d == -(m.a * e)) by (nonlinear_arith)
            requires
                e == -d,
        ;
    }
}

/// A correction step contracts the gap to the measurement by the
/// measurement-noise share of the innovation variance, up to one rounding
/// unit: what remains of the gap is at most R / (a + R) of it, and one.
pub proof fn lemma_correct_contracts_gap(m: AxisModel, z: int)
    requires
        m.a >= 0,
    ensures
        iabs(spec_correct(m, z).p - z) <= div_trunc(R_MEAS * iabs(z - m.p), m.a + R_MEAS) + 1,
{
    let s = m.a + R_MEAS;
    let d = z - m.p;
    let e = if d >= 0 { d } else { -d };
    let q = (m.a * e) / s;
    let rem = (m.a * e) % s;
    lemma_mul_nonnegative(m.a, e);
    lemma_fundamental_div_mod(m.a * e, s);
    lemma_mod_bound(m.a * e, s);
    assert(s * (e - q) == R_MEAS * e + rem) by (nonlinear_arith)
        requires
            s == m.a + R_MEAS,
            m.a * e == s * q + rem,
    ;
    assert(e - q >= 0) by (nonlinear_arith)
        requires
            s > 0,
            s * (e - q) >= 0,
    ;
    lemma_div_is_ordered(s * (e - q), R_MEAS * e + (s - 1), s);
    lemma_div_multiples_vanish(e - q, s);
    lemma_div_is_ordered(R_MEAS * e + (s - 1), R_MEAS * e + s, s);
    lemma_div_plus_one(R_MEAS * e, s);
    lemma_mul_nonnegative(R_MEAS as int, e);
    if d >= 0 {
        assert(spec_correct(m, z).p - z == q - e);
    } else {
        assert(m.a * d == -(m.a * e)) by (nonlinear_arith)
            requires
                e == -d,
        ;
        assert(R_MEAS * iabs(z - m.p) == R_MEAS * e) by (nonlinear_arith)
            requires
                e == -d,
                d == z - m.p,
                e == iabs(z - m.p),
        ;
        assert(spec_correct(m, z).p - z == e - q);
    }
}

/// After a correction step the position variance lies strictly below the
/// measurement noise variance: the filter trusts a fresh measurement at least
/// as much as its own history.
pub proof fn lemma_correct_bounds_position_variance(m: AxisModel, z: int)
    requires
        m.a >= 0,
    ensures
        0 <= spec_correct(m, z).a < R_MEAS,
{
    let s = m.a + R_MEAS;
    lemma_mul_nonnegative(m.a, R_MEAS as int);
    lemma_div_pos_is_pos(m.a * R_MEAS, s);
    lemma_mul_strict_inequality(m.a, s, R_MEAS as int);
    lemma_multiply_divide_lt(m.a * R_MEAS, s, R_MEAS as int);
}

} // verus!
