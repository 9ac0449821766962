//! A yaw-rate PID control law in verified fixed-point arithmetic.
pub mod datatypes;
pub mod fixed;
pub mod yaw;

pub use yaw::{new, run, YawPidState};
