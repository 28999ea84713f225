//! Ternary classification of sensor data: the three-valued classes, the
//! decision rules that map comparisons to classes and anomaly levels,
//! majority voting over classifications, calibration feedback, and the
//! sample log of a time series.

pub mod anomaly;
pub mod calibration;
pub mod fusion;
pub mod series;
pub mod ternary;

pub use anomaly::AnomalyLevel;
pub use calibration::{feedback_step, FeedbackHistory, OffsetStep};
pub use fusion::majority_vote;
pub use series::TimeSeries;
pub use ternary::TernaryClass;
