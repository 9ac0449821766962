//! Values shared with the rest of the flight-control loop.
//!
//! Every real-valued field is fixed point: see `crate::fixed`.
use vstd::prelude::*;

use crate::yaw::YawPidState;

verus! {

/// Normalized control outputs for one tick.
#[derive(Clone, Copy, Debug, PartialEq, Eq, Structural)]
pub struct Demands {
    pub throttle: i64,
    pub roll: i64,
    pub pitch: i64,
    pub yaw: i64,
}

/// Snapshot of the estimated vehicle motion.
///
/// Angles are in radians, angular velocities in radians per second.
#[derive(Clone, Copy, Debug, PartialEq, Eq, Structural)]
pub struct VehicleState {
    pub x: i64,
    pub dx: i64,
    pub y: i64,
    pub dy: i64,
    pub z: i64,
    pub dz: i64,
    pub phi: i64,
    pub dphi: i64,
    pub theta: i64,
    pub dtheta: i64,
    pub psi: i64,
    pub dpsi: i64,
}

/// The yaw controller's state, as handed to and from the control loop.
#[derive(Clone, Copy, Debug, PartialEq, Eq, Structural)]
pub struct YawPid {
    pub state: YawPidState,
}

} // verus!
