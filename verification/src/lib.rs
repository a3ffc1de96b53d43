//! Fixed-point time quantities: signed spans (`Duration`) and epoch-anchored
//! points (`Instant`) held as a whole-second count and a sub-second
//! nanosecond count, with overflow-checked arithmetic, scaling and ISO-8601
//! style rendering.

mod constants;
mod decimal;
mod display;
mod duration;
mod instant;
pub mod laws;
pub mod seconds_nanos;

pub use duration::checked_neg;
pub use duration::Duration;
pub use instant::Instant;

pub use seconds_nanos::carry_and_nanos;
pub use seconds_nanos::of_seconds_and_adjustment_checked;
pub use seconds_nanos::seconds_and_nanos;
