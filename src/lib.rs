//! Robust per-feature scaling: each feature is centered by its median and
//! scaled by its interquartile range.
//!
//! This crate holds the verified core: which sorted positions the median and
//! the linearly interpolated quantile read, and the estimator's parameters
//! with their validation. It is generic in the value type.

pub mod order_stats;
pub mod scaler;

pub use order_stats::{median_positions, quantile_bracket};
pub use scaler::{RobustScaler, ScalerError};
