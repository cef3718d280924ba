use rover_core::config::{
    ApiConfig, DriveConfig, DriveInputMapping, DriveMotor, GeneralConfig, InputConfig,
    MotorChannelMap, RobotConfig,
};
use rover_core::input::{AxisReadings, AxisTransformation, GamepadAxis, InputAxis, InputHandler};
use rover_core::motors::MotorChannel;
use rover_core::robot::{plan_tick, TickAction, TickStep};

fn test_config(motors: MotorChannelMap) -> RobotConfig {
    RobotConfig {
        input: InputConfig {
            drive: DriveInputMapping::Tank {
                left_motor_axis: InputAxis {
                    axis: GamepadAxis::LeftStickY,
                    transformation: AxisTransformation::Linear,
                },
                right_motor_axis: InputAxis {
                    axis: GamepadAxis::RightStickY,
                    transformation: AxisTransformation::Square,
                },
            },
        },
        drive: DriveConfig { i2c_address: 0x60, motors },
        api: ApiConfig { host: String::from("127.0.0.1:8000") },
        general: GeneralConfig { i2c_device_path: String::from("/dev/i2c-1") },
    }
}

#[test]
fn unassigned_motor_is_skipped_and_the_rest_are_commanded() {
    // BackRight has no channel assignment: its step is a skip, and no write
    // is planned for it, while the other motors are driven normally.
    let mut motors = MotorChannelMap::empty();
    motors.set(DriveMotor::FrontLeft, MotorChannel::Motor1);
    motors.set(DriveMotor::FrontRight, MotorChannel::Motor2);
    motors.set(DriveMotor::BackLeft, MotorChannel::Motor3);
    let config = test_config(motors);

    let mut handler = InputHandler::new();
    handler.init_gamepad(Some(0));
    let mut readings = AxisReadings::new();
    readings.record(GamepadAxis::LeftStickY, 500);
    readings.record(GamepadAxis::RightStickY, -300);

    let plan = plan_tick(&config, &handler, &readings);
    assert_eq!(
        plan,
        vec![
            TickStep {
                motor: DriveMotor::FrontLeft,
                action: TickAction::Drive { channel: MotorChannel::Motor1, speed: 500 },
            },
            TickStep {
                motor: DriveMotor::FrontRight,
                action: TickAction::Drive { channel: MotorChannel::Motor2, speed: -90 },
            },
            TickStep {
                motor: DriveMotor::BackLeft,
                action: TickAction::Drive { channel: MotorChannel::Motor3, speed: 500 },
            },
            TickStep { motor: DriveMotor::BackRight, action: TickAction::Skip },
        ]
    );
}

#[test]
fn unresolved_input_defaults_to_stopped() {
    let mut motors = MotorChannelMap::empty();
    motors.set(DriveMotor::FrontLeft, MotorChannel::Motor1);
    let config = test_config(motors);

    // No device bound: every resolved speed defaults to zero.
    let handler = InputHandler::new();
    let mut readings = AxisReadings::new();
    readings.record(GamepadAxis::LeftStickY, 800);

    let plan = plan_tick(&config, &handler, &readings);
    assert_eq!(
        plan[0],
        TickStep {
            motor: DriveMotor::FrontLeft,
            action: TickAction::Drive { channel: MotorChannel::Motor1, speed: 0 },
        }
    );
    assert_eq!(plan[3], TickStep { motor: DriveMotor::BackRight, action: TickAction::Skip });
}

#[test]
fn missing_axis_reading_defaults_to_stopped() {
    let mut motors = MotorChannelMap::empty();
    motors.set(DriveMotor::FrontRight, MotorChannel::Motor2);
    let config = test_config(motors);

    let mut handler = InputHandler::new();
    handler.init_gamepad(Some(0));
    // The right stick was not read this tick.
    let mut readings = AxisReadings::new();
    readings.record(GamepadAxis::LeftStickY, 800);

    let plan = plan_tick(&config, &handler, &readings);
    assert_eq!(
        plan[1],
        TickStep {
            motor: DriveMotor::FrontRight,
            action: TickAction::Drive { channel: MotorChannel::Motor2, speed: 0 },
        }
    );
}
