use tracking::geom::Point;
use tracking::kalman::{FilterError, KalmanTracker};

#[test]
fn first_predict_returns_init_position() {
    let mut kf = KalmanTracker::new();
    kf.init(Point::from_pixels(50, 50));
    let p = kf.predict().unwrap();
    assert_eq!(p, Point { x: 50_000, y: 50_000 });
    assert_eq!(p.pixel_x(), 50);
    assert_eq!(p.pixel_y(), 50);
}

#[test]
fn zero_innovation_round_trip() {
    let mut kf = KalmanTracker::new();
    kf.init(Point::from_pixels(200, 150));
    for _ in 0..5 {
        let predicted = kf.predict().unwrap();
        let corrected = kf.correct(predicted).unwrap();
        assert_eq!(corrected, predicted);
    }
}

#[test]
fn predict_before_init_is_refused() {
    let mut kf = KalmanTracker::new();
    assert_eq!(kf.predict(), Err(FilterError::NotInitialized));
}

#[test]
fn correct_before_init_is_refused() {
    let mut kf = KalmanTracker::new();
    assert_eq!(kf.correct(Point::from_pixels(1, 1)), Err(FilterError::NotInitialized));
}

#[test]
fn stationary_measurement_convergence() {
    // The filter starts 50 pixels off a stationary target; each cycle must
    // bring the corrected estimate no farther from the measurement, the
    // posterior position variance must sit below the measurement noise, and
    // after enough cycles the estimate must sit within a pixel of the target.
    let target = Point::from_pixels(300, 220);
    let mut kf = KalmanTracker::new();
    kf.init(Point::from_pixels(250, 200));
    let mut last = (0i64, 0i64);
    for _ in 0..80 {
        let predicted = kf.predict().unwrap();
        let corrected = kf.correct(target).unwrap();
        assert!((corrected.x - target.x).abs() <= (predicted.x - target.x).abs());
        assert!((corrected.y - target.y).abs() <= (predicted.y - target.y).abs());
        let (vx, vy) = kf.position_variance();
        assert!(0 <= vx && vx < 100);
        assert!(0 <= vy && vy < 100);
        last = (corrected.x, corrected.y);
    }
    assert!((last.0 - target.x).abs() <= 1_000);
    assert!((last.1 - target.y).abs() <= 1_000);
}

#[test]
fn runaway_state_is_a_numeric_error() {
    // Extreme measurements drive the estimated velocity toward the edge of
    // the representable range; the filter must refuse with a numeric error
    // rather than wrap around.
    let mut kf = KalmanTracker::new();
    kf.init(Point::from_pixels(0, 0));
    let huge = Point { x: i64::MAX, y: i64::MAX };
    let mut saw_numeric = false;
    for _ in 0..10 {
        match kf.predict() {
            Ok(_) => {}
            Err(e) => {
                assert_eq!(e, FilterError::Numeric);
                saw_numeric = true;
                break;
            }
        }
        match kf.correct(huge) {
            Ok(_) => {}
            Err(e) => {
                assert_eq!(e, FilterError::Numeric);
                saw_numeric = true;
                break;
            }
        }
    }
    assert!(saw_numeric);
}
