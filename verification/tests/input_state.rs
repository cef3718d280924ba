use rover_core::config::{DriveInputMapping, DriveMotor};
use rover_core::input::{
    AxisReadings, AxisTransformation, GamepadAxis, InputAxis, InputHandler,
};

#[test]
fn new_handler_has_no_device() {
    let handler = InputHandler::new();
    assert_eq!(handler.gamepad(), None);
}

#[test]
fn init_binds_first_available_device() {
    let mut handler = InputHandler::new();
    handler.init_gamepad(Some(3));
    assert_eq!(handler.gamepad(), Some(3));
}

#[test]
fn init_without_available_device_stays_unbound() {
    let mut handler = InputHandler::new();
    handler.init_gamepad(None);
    assert_eq!(handler.gamepad(), None);
}

#[test]
fn reinit_while_bound_is_a_no_op() {
    let mut handler = InputHandler::new();
    handler.init_gamepad(Some(3));
    handler.init_gamepad(Some(7));
    assert_eq!(handler.gamepad(), Some(3));
    handler.init_gamepad(None);
    assert_eq!(handler.gamepad(), Some(3));
}

#[test]
fn read_axis_without_device_yields_nothing() {
    let handler = InputHandler::new();
    let axis = InputAxis { axis: GamepadAxis::LeftStickY, transformation: AxisTransformation::Linear };
    assert_eq!(handler.read_axis(axis, Some(500)), None);
    assert_eq!(handler.read_axis(axis, None), None);
}

#[test]
fn read_axis_applies_the_transformation() {
    let mut handler = InputHandler::new();
    handler.init_gamepad(Some(0));
    let linear = InputAxis { axis: GamepadAxis::LeftStickY, transformation: AxisTransformation::Linear };
    let square = InputAxis { axis: GamepadAxis::RightStickY, transformation: AxisTransformation::Square };
    assert_eq!(handler.read_axis(linear, Some(500)), Some(500));
    assert_eq!(handler.read_axis(square, Some(-300)), Some(-90));
    assert_eq!(handler.read_axis(linear, None), None);
}

#[test]
fn readings_record_and_look_up_per_axis() {
    let mut readings = AxisReadings::new();
    assert_eq!(readings.get(GamepadAxis::LeftStickY), None);
    readings.record(GamepadAxis::LeftStickY, 500);
    readings.record(GamepadAxis::RightStickX, -250);
    assert_eq!(readings.get(GamepadAxis::LeftStickY), Some(500));
    assert_eq!(readings.get(GamepadAxis::RightStickX), Some(-250));
    assert_eq!(readings.get(GamepadAxis::RightStickY), None);
    readings.record(GamepadAxis::LeftStickY, -1000);
    assert_eq!(readings.get(GamepadAxis::LeftStickY), Some(-1000));
}

#[test]
fn unknown_axis_never_has_a_reading() {
    let mut readings = AxisReadings::new();
    readings.record(GamepadAxis::Unknown, 700);
    assert_eq!(readings.get(GamepadAxis::Unknown), None);
}

#[test]
fn tank_mapping_resolves_sides_from_their_axes() {
    // Left stick reads 0.5 raw under the identity transformation; right
    // stick reads -0.3 raw under the signed square: the left motors resolve
    // to 0.5 and the right motors to -0.09.
    let mut handler = InputHandler::new();
    handler.init_gamepad(Some(1));
    let mapping = DriveInputMapping::Tank {
        left_motor_axis: InputAxis {
            axis: GamepadAxis::LeftStickY,
            transformation: AxisTransformation::Linear,
        },
        right_motor_axis: InputAxis {
            axis: GamepadAxis::RightStickY,
            transformation: AxisTransformation::Square,
        },
    };
    let mut readings = AxisReadings::new();
    readings.record(GamepadAxis::LeftStickY, 500);
    readings.record(GamepadAxis::RightStickY, -300);
    assert_eq!(handler.motor_value(mapping, DriveMotor::FrontLeft, &readings), Some(500));
    assert_eq!(handler.motor_value(mapping, DriveMotor::BackLeft, &readings), Some(500));
    assert_eq!(handler.motor_value(mapping, DriveMotor::FrontRight, &readings), Some(-90));
    assert_eq!(handler.motor_value(mapping, DriveMotor::BackRight, &readings), Some(-90));
}

#[test]
fn motor_value_without_device_yields_nothing() {
    let handler = InputHandler::new();
    let mapping = DriveInputMapping::default();
    let mut readings = AxisReadings::new();
    readings.record(GamepadAxis::LeftStickY, 500);
    readings.record(GamepadAxis::RightStickY, 500);
    for motor in DriveMotor::all() {
        assert_eq!(handler.motor_value(mapping, motor, &readings), None);
    }
}

#[test]
fn motor_value_without_reading_yields_nothing() {
    let mut handler = InputHandler::new();
    handler.init_gamepad(Some(1));
    let mapping = DriveInputMapping::default();
    let readings = AxisReadings::new();
    assert_eq!(handler.motor_value(mapping, DriveMotor::FrontLeft, &readings), None);
}
