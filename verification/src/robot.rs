//! One iteration of the control loop.
//!
//! Each tick works from a single configuration snapshot: first the gamepad
//! binding is refreshed, then every motor position is resolved to a target
//! speed (defaulting to stopped when input is unavailable) and commanded
//! through its assigned channel. A position without a channel assignment is
//! skipped; a failed bus write abandons that motor's command for this tick
//! and the tick goes on with the next motor.

use vstd::prelude::*;

use crate::config::{DriveMotor, RobotConfig};
use crate::input::{spec_init_gamepad, spec_motor_value, AxisReadings, InputHandler};
use crate::motors::{MotorChannel, MotorHat};

verus! {

/// The target speed for a motor: the value the mapping resolves, or zero
/// (stopped) when no value can be resolved.
pub open spec fn spec_target_speed(
    device: Option<u64>,
    config: RobotConfig,
    motor: DriveMotor,
    readings: AxisReadings,
) -> i32 {
    match spec_motor_value(device, config.input.drive, motor, readings) {
        Some(v) => v,
        None => 0,
    }
}

/// What one tick decides for one motor position.
#[derive(Copy, Clone, Debug, PartialEq, Eq, Structural)]
pub enum TickAction {
    /// The position has no channel assignment: it is not driven this tick.
    Skip,
    /// Drive the assigned channel at the resolved target speed.
    Drive { channel: MotorChannel, speed: i32 },
}

/// One motor position's entry in a tick plan.
#[derive(Copy, Clone, Debug, PartialEq, Eq, Structural)]
pub struct TickStep {
    pub motor: DriveMotor,
    pub action: TickAction,
}

/// The order in which a tick visits the motor positions.
pub open spec fn spec_tick_order() -> Seq<DriveMotor> {
    seq![DriveMotor::FrontLeft, DriveMotor::FrontRight, DriveMotor::BackLeft, DriveMotor::BackRight]
}

/// The decision a tick takes for one motor, from the configuration
/// snapshot, the device binding and the tick's readings alone.
pub open spec fn spec_tick_step(
    config: RobotConfig,
    device: Option<u64>,
    readings: AxisReadings,
    motor: DriveMotor,
) -> TickStep {
    TickStep {
        motor,
        action: match config.drive.motors.assignment(motor) {
            None => TickAction::Skip,
            Some(ch) => TickAction::Drive {
                channel: ch,
                speed: spec_target_speed(device, config, motor, readings),
            },
        },
    }
}

/// Resolve one tick's decisions for all four motor positions. The plan is a
/// pure function of the configuration snapshot, the device binding and the
/// readings, so a tick can never observe a half-replaced configuration.
pub fn plan_tick(config: &RobotConfig, handler: &InputHandler, readings: &AxisReadings) -> (r: Vec<
    TickStep,
>)
    ensures
        r@.len() == 4,
        forall|i: int|
            0 <= i < 4 ==> r@[i] == spec_tick_step(
                *config,
                handler.device(),
                *readings,
                spec_tick_order()[i],
            ),
        forall|i: int|
            0 <= i < 4 ==> ((#[trigger] r@[i]).action matches TickAction::Drive { speed, .. }
                ==> -1000 <= speed <= 1000),
{
    let motors = DriveMotor::all();
    let mut plan: Vec<TickStep> = Vec::new();
    let mut i: usize = 0;
    while i < motors.len()
        invariant
            i <= 4,
            motors@ == spec_tick_order(),
            plan@.len() == i,
            forall|j: int|
                0 <= j < i ==> plan@[j] == spec_tick_step(
                    *config,
                    handler.device(),
                    *readings,
                    spec_tick_order()[j],
                ),
            forall|j: int|
                0 <= j < i ==> ((#[trigger] plan@[j]).action matches TickAction::Drive { speed, .. }
                    ==> -1000 <= speed <= 1000),
        decreases 4 - i,
    {
        let motor = motors[i];
        let speed = match handler.motor_value(config.input.drive, motor, readings) {
            Some(v) => v,
            None => 0,
        };
        let step = match config.drive.motors.get(motor) {
            None => TickStep { motor, action: TickAction::Skip },
            Some(channel) => TickStep { motor, action: TickAction::Drive { channel, speed } },
        };
        plan.push(step);
        i = i + 1;
    }
    plan
}

/// How commanding one motor position went.
#[derive(Copy, Clone, Debug, PartialEq, Eq, Structural)]
pub enum TickOutcome {
    /// No channel assignment: nothing was written for this position.
    NoChannel,
    /// The assigned channel was commanded at the resolved speed.
    Commanded { channel: MotorChannel, speed: i32 },
    /// The bus write failed; the tick went on with the next motor.
    WriteFailed { channel: MotorChannel, speed: i32 },
}

/// One motor position's entry in a tick report.
#[derive(Copy, Clone, Debug, PartialEq, Eq, Structural)]
pub struct TickReport {
    pub motor: DriveMotor,
    pub outcome: TickOutcome,
}

/// A report entry matches what the tick's snapshot prescribes for its
/// motor: skipped exactly when the position has no channel assignment, and
/// otherwise commanded — successfully or not — on the assigned channel at
/// the resolved target speed.
pub open spec fn spec_report_matches(
    config: RobotConfig,
    device: Option<u64>,
    readings: AxisReadings,
    rep: TickReport,
) -> bool {
    let assigned = config.drive.motors.assignment(rep.motor);
    let target = spec_target_speed(device, config, rep.motor, readings);
    match rep.outcome {
        TickOutcome::NoChannel => assigned is None,
        TickOutcome::Commanded { channel, speed } => assigned == Some(channel) && speed == target,
        TickOutcome::WriteFailed { channel, speed } => assigned == Some(channel) && speed == target,
    }
}

/// Run one control tick against one configuration snapshot: refresh the
/// gamepad binding, resolve every motor position, and command each assigned
/// motor. Speeds are always within [-1, 1], so no command ever fails
/// validation; a bus failure is confined to its motor.
pub fn run_tick(
    config: &RobotConfig,
    handler: &mut InputHandler,
    available: Option<u64>,
    readings: &AxisReadings,
    hat: &mut MotorHat,
) -> (r: Vec<TickReport>)
    requires
        old(hat).wf(),
    ensures
        final(hat).wf(),
        final(handler).device() == spec_init_gamepad(old(handler).device(), available),
        r@.len() == 4,
        forall|i: int| 0 <= i < 4 ==> r@[i].motor == spec_tick_order()[i],
        forall|i: int|
            0 <= i < 4 ==> spec_report_matches(*config, final(handler).device(), *readings, r@[i]),
{
    handler.init_gamepad(available);
    let plan = plan_tick(config, handler, readings);
    let mut report: Vec<TickReport> = Vec::new();
    let mut i: usize = 0;
    while i < plan.len()
        invariant
            i <= 4,
            plan@.len() == 4,
            hat.wf(),
            handler.device() == spec_init_gamepad(old(handler).device(), available),
            forall|j: int|
                0 <= j < 4 ==> plan@[j] == spec_tick_step(
                    *config,
                    handler.device(),
                    *readings,
                    spec_tick_order()[j],
                ),
            forall|j: int|
                0 <= j < 4 ==> ((#[trigger] plan@[j]).action matches TickAction::Drive { speed, .. }
                    ==> -1000 <= speed <= 1000),
            report@.len() == i,
            forall|j: int| 0 <= j < i ==> report@[j].motor == spec_tick_order()[j],
            forall|j: int|
                0 <= j < i ==> spec_report_matches(
                    *config,
                    handler.device(),
                    *readings,
                    report@[j],
                ),
        decreases 4 - i,
    {
        let step = plan[i];
        let outcome = match step.action {
            TickAction::Skip => TickOutcome::NoChannel,
            TickAction::Drive { channel, speed } => {
                match hat.set_speed(channel, speed) {
                    Ok(()) => TickOutcome::Commanded { channel, speed },
                    Err(_) => TickOutcome::WriteFailed { channel, speed },
                }
            },
        };
        report.push(TickReport { motor: step.motor, outcome });
        i = i + 1;
    }
    report
}

} // verus!
