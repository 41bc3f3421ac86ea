//! Single-object tracking core: a constant-velocity motion filter over fixed-point
//! coordinates, and the session state machine that fuses a visual tracker's
//! per-frame re-localizations with the filter's predictions.

pub mod geom;
pub mod kalman;
pub mod tracing;
