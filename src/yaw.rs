//! The yaw-rate PID control law.
//!
//! One call of `run` is one control-loop tick: it turns the yaw-rate demand
//! and the measured yaw angular velocity into a corrected yaw command, and
//! hands back the controller state for the next tick.
use vstd::prelude::*;

use crate::datatypes::{Demands, VehicleState, YawPid};
use crate::fixed::{
    abs_spec, constrain_abs, constrain_abs_spec, deg2rad, deg2rad_spec, div_toward_zero,
    divide_toward_zero, fabs, saturate_i64, saturating_to_i64, UNITS_PER_ONE,
};

verus! {

/// Proportional gain, `1.0625`.
pub const KP: i64 = 10_625_000;

/// Integral gain, `0.001875`.
pub const KI: i64 = 18_750;

/// Magnitude at which the integral term saturates, `6.0`.
pub const WINDUP_MAX: i64 = 6 * UNITS_PER_ONE;

/// Rate error, in degrees per second, above which the integral is reset.
pub const RATE_MAX_DPS: i64 = 45 * UNITS_PER_ONE;

/// The controller's memory between ticks.
#[derive(Clone, Copy, Debug, PartialEq, Eq, Structural)]
pub struct YawPidState {
    /// Accumulated yaw-rate error, in radians.
    pub error_integral: i64,
}

/// Rate error in radians per second above which the integral is reset.
pub open spec fn rate_max() -> int {
    deg2rad_spec(RATE_MAX_DPS as int)
}

/// Signed control error: demanded minus measured yaw rate.
pub open spec fn yaw_error(demands: Demands, vstate: VehicleState) -> int {
    demands.yaw - vstate.dpsi
}

/// The integral carried into this tick: zero when the error is large,
/// else the prior accumulated error.
pub open spec fn carried_integral(demands: Demands, vstate: VehicleState, pstate: YawPidState) -> int {
    if abs_spec(yaw_error(demands, vstate)) > rate_max() {
        0
    } else {
        pstate.error_integral as int
    }
}

/// The carried integral plus this tick's error, before saturation.
pub open spec fn accumulated_integral(
    demands: Demands,
    vstate: VehicleState,
    pstate: YawPidState,
) -> int {
    carried_integral(demands, vstate, pstate) + yaw_error(demands, vstate)
}

/// The integral that enters this tick's command, saturated at `WINDUP_MAX`.
pub open spec fn integral_term(demands: Demands, vstate: VehicleState, pstate: YawPidState) -> int {
    constrain_abs_spec(accumulated_integral(demands, vstate, pstate), WINDUP_MAX as int)
}

/// The new yaw command: `KP * error + KI * integral`, in fixed point.
pub open spec fn yaw_command(demands: Demands, vstate: VehicleState, pstate: YawPidState) -> int {
    saturate_i64(
        div_toward_zero(
            KP * yaw_error(demands, vstate) + KI * integral_term(demands, vstate, pstate),
            UNITS_PER_ONE as int,
        ),
    )
}

/// One tick of the control law: the demands with the new yaw command, and
/// the state holding the accumulated (unsaturated) integral.
pub open spec fn step(demands: Demands, vstate: VehicleState, pstate: YawPidState) -> (Demands, YawPid) {
    (
        Demands {
            throttle: demands.throttle,
            roll: demands.roll,
            pitch: demands.pitch,
            yaw: yaw_command(demands, vstate, pstate) as i64,
        },
        YawPid {
            state: YawPidState {
                error_integral: saturate_i64(accumulated_integral(demands, vstate, pstate)) as i64,
            },
        },
    )
}

/// One control-loop tick.
pub fn run(demands: Demands, vstate: &VehicleState, pstate: YawPidState) -> (r: (Demands, YawPid))
    ensures
        r == step(demands, *vstate, pstate),
        r.0.throttle == demands.throttle,
        r.0.roll == demands.roll,
        r.0.pitch == demands.pitch,
        r.0.yaw == yaw_command(demands, *vstate, pstate),
        r.1.state.error_integral == saturate_i64(accumulated_integral(demands, *vstate, pstate)),
{
    let error: i128 = demands.yaw as i128 - vstate.dpsi as i128;
    let rate_limit: i64 = deg2rad(RATE_MAX_DPS);
    let error_integral: i128 = if fabs(error) > rate_limit as i128 {
        0
    } else {
        pstate.error_integral as i128
    };
    let accumulated: i128 = error_integral + error;
    let bounded: i128 = constrain_abs(accumulated, WINDUP_MAX as i128);
    proof {
        let e: int = error as int;
        let b: int = bounded as int;
        assert(-0x1_0000_0000_0000_0000 <= e <= 0x1_0000_0000_0000_0000);
        assert(-0x1_0000_0000_0000_0000 * 10_625_000 <= 10_625_000 * e
            <= 0x1_0000_0000_0000_0000 * 10_625_000) by (nonlinear_arith)
            requires
                -0x1_0000_0000_0000_0000 <= e <= 0x1_0000_0000_0000_0000,
        ;
        assert(-60_000_000 * 18_750 <= 18_750 * b <= 60_000_000 * 18_750) by (nonlinear_arith)
            requires
                -60_000_000 <= b <= 60_000_000,
        ;
    }
    let weighted: i128 = KP as i128 * error + KI as i128 * bounded;
    let command: i128 = divide_toward_zero(weighted, UNITS_PER_ONE as i128);
    let new_demands = Demands {
        throttle: demands.throttle,
        roll: demands.roll,
        pitch: demands.pitch,
        yaw: saturating_to_i64(command),
    };
    (new_demands, make(saturating_to_i64(accumulated)))
}

fn make(error_integral: i64) -> (r: YawPid)
    ensures
        r.state.error_integral == error_integral,
{
    YawPid { state: YawPidState { error_integral } }
}

/// The controller as it stands before the first tick.
pub fn new() -> (r: YawPid)
    ensures
        r.state.error_integral == 0,
{
    make(0)
}

/// The controller state after feeding it `ticks` in order, starting from
/// `start`.
pub open spec fn state_after(ticks: Seq<(Demands, VehicleState)>, start: YawPidState) -> YawPidState
    decreases ticks.len(),
{
    if ticks.len() == 0 {
        start
    } else {
        let prior = state_after(ticks.drop_last(), start);
        step(ticks.last().0, ticks.last().1, prior).1.state
    }
}

/// When the demanded yaw rate always equals the measured one and the
/// integral starts at zero, every tick commands zero yaw and the integral
/// stays zero, however many ticks run.
pub proof fn lemma_zero_error_hold(ticks: Seq<(Demands, VehicleState)>, start: YawPidState)
    requires
        start.error_integral == 0,
        forall|i: int| 0 <= i < ticks.len() ==> (#[trigger] ticks[i]).0.yaw == ticks[i].1.dpsi,
    ensures
        state_after(ticks, start).error_integral == 0,
        forall|i: int|
            0 <= i < ticks.len() ==> (#[trigger] step(
                ticks[i].0,
                ticks[i].1,
                state_after(ticks.take(i), start),
            )).0.yaw == 0,
    decreases ticks.len(),
{
    if ticks.len() > 0 {
        let rest = ticks.drop_last();
        assert forall|i: int| 0 <= i < rest.len() implies (#[trigger] rest[i]).0.yaw
            == rest[i].1.dpsi by {
            assert(rest[i] == ticks[i]);
        }
        lemma_zero_error_hold(rest, start);
        assert(ticks.take(ticks.len() - 1) == rest);
        assert forall|i: int| 0 <= i < ticks.len() implies (#[trigger] step(
            ticks[i].0,
            ticks[i].1,
            state_after(ticks.take(i), start),
        )).0.yaw == 0 by {
            if i < ticks.len() - 1 {
                assert(ticks.take(i) == rest.take(i));
                assert(rest[i] == ticks[i]);
            }
        }
    }
}

/// When the error exceeds the reset rate, the prior integral is discarded:
/// the carried integral is zero, and the tick's result is the same whatever
/// state came in.
pub proof fn lemma_reset_discards_prior(
    demands: Demands,
    vstate: VehicleState,
    pstate: YawPidState,
    other: YawPidState,
)
    requires
        abs_spec(yaw_error(demands, vstate)) > rate_max(),
    ensures
        carried_integral(demands, vstate, pstate) == 0,
        step(demands, vstate, pstate) == step(demands, vstate, other),
{
}

/// The integral term that enters the command never exceeds `WINDUP_MAX` in
/// magnitude, whatever state and error come in.
pub proof fn lemma_integral_term_saturates(
    demands: Demands,
    vstate: VehicleState,
    pstate: YawPidState,
)
    ensures
        -WINDUP_MAX <= integral_term(demands, vstate, pstate) <= WINDUP_MAX,
{
}

/// Equal inputs give equal results.
pub proof fn lemma_step_deterministic(
    d1: Demands,
    v1: VehicleState,
    p1: YawPidState,
    d2: Demands,
    v2: VehicleState,
    p2: YawPidState,
)
    requires
        d1 == d2,
        v1 == v2,
        p1 == p2,
    ensures
        step(d1, v1, p1) == step(d2, v2, p2),
{
}

} // verus!
