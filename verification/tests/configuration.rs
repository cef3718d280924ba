use rover_core::config::{
    ApiConfig, ConfigDoc, ConfigError, DriveConfig, DriveInputMapping, DriveInputMappingDoc,
    DriveMotor, GeneralConfig, InputConfig, MotorChannelMap, RobotConfig, SharedConfig,
};
use rover_core::input::{AxisTransformation, GamepadAxis, InputAxis};
use rover_core::motors::MotorChannel;

fn complete_doc() -> ConfigDoc {
    let mut motors = MotorChannelMap::empty();
    motors.set(DriveMotor::FrontLeft, MotorChannel::Motor1);
    motors.set(DriveMotor::FrontRight, MotorChannel::Motor2);
    motors.set(DriveMotor::BackLeft, MotorChannel::Motor3);
    motors.set(DriveMotor::BackRight, MotorChannel::Motor4);
    ConfigDoc {
        input_drive: Some(DriveInputMappingDoc::Tank {
            left_motor_axis: Some(InputAxis {
                axis: GamepadAxis::LeftStickY,
                transformation: AxisTransformation::Linear,
            }),
            right_motor_axis: Some(InputAxis {
                axis: GamepadAxis::RightStickY,
                transformation: AxisTransformation::Square,
            }),
        }),
        i2c_address: Some(0x60),
        motors,
        host: Some(String::from("127.0.0.1:8000")),
        i2c_device_path: Some(String::from("/dev/i2c-1")),
    }
}

#[test]
fn complete_document_validates_to_its_configuration() {
    let config = RobotConfig::from_doc(complete_doc()).unwrap();
    match config.input.drive {
        DriveInputMapping::Tank { left_motor_axis, right_motor_axis } => {
            assert_eq!(left_motor_axis.axis, GamepadAxis::LeftStickY);
            assert_eq!(left_motor_axis.transformation, AxisTransformation::Linear);
            assert_eq!(right_motor_axis.axis, GamepadAxis::RightStickY);
            assert_eq!(right_motor_axis.transformation, AxisTransformation::Square);
        }
    }
    assert_eq!(config.drive.i2c_address, 0x60);
    assert_eq!(config.drive.motors.get(DriveMotor::FrontLeft), Some(MotorChannel::Motor1));
    assert_eq!(config.drive.motors.get(DriveMotor::BackRight), Some(MotorChannel::Motor4));
    assert_eq!(config.api.host, "127.0.0.1:8000");
    assert_eq!(config.general.i2c_device_path, "/dev/i2c-1");
}

#[test]
fn missing_fields_are_rejected_with_the_first_missing_one() {
    let mut doc = complete_doc();
    doc.input_drive = None;
    assert_eq!(RobotConfig::from_doc(doc), Err(ConfigError::MissingDriveMapping));

    let mut doc = complete_doc();
    doc.input_drive = Some(DriveInputMappingDoc::Tank {
        left_motor_axis: None,
        right_motor_axis: None,
    });
    assert_eq!(RobotConfig::from_doc(doc), Err(ConfigError::MissingLeftAxis));

    let mut doc = complete_doc();
    if let Some(DriveInputMappingDoc::Tank { right_motor_axis, .. }) = &mut doc.input_drive {
        *right_motor_axis = None;
    }
    assert_eq!(RobotConfig::from_doc(doc), Err(ConfigError::MissingRightAxis));

    let mut doc = complete_doc();
    doc.i2c_address = None;
    assert_eq!(RobotConfig::from_doc(doc), Err(ConfigError::MissingI2cAddress));

    let mut doc = complete_doc();
    doc.host = None;
    assert_eq!(RobotConfig::from_doc(doc), Err(ConfigError::MissingApiHost));

    let mut doc = complete_doc();
    doc.i2c_device_path = None;
    assert_eq!(RobotConfig::from_doc(doc), Err(ConfigError::MissingDevicePath));
}

#[test]
fn incomplete_motor_map_is_tolerated() {
    let mut doc = complete_doc();
    doc.motors = MotorChannelMap::empty();
    let config = RobotConfig::from_doc(doc).unwrap();
    for motor in DriveMotor::all() {
        assert_eq!(config.drive.motors.get(motor), None);
    }
}

#[test]
fn validating_replacement_is_visible_in_full() {
    let initial = RobotConfig::from_doc(complete_doc()).unwrap();
    let mut shared = SharedConfig::new(initial);

    let mut doc = complete_doc();
    doc.i2c_address = Some(0x61);
    doc.host = Some(String::from("0.0.0.0:9000"));
    assert_eq!(shared.try_replace(doc), Ok(()));

    let current = shared.current();
    assert_eq!(current.drive.i2c_address, 0x61);
    assert_eq!(current.api.host, "0.0.0.0:9000");
    assert_eq!(current.general.i2c_device_path, "/dev/i2c-1");
}

#[test]
fn rejected_replacement_leaves_the_prior_configuration_in_force() {
    let initial = RobotConfig::from_doc(complete_doc()).unwrap();
    let mut shared = SharedConfig::new(initial.clone());

    let mut doc = complete_doc();
    doc.i2c_address = Some(0x61);
    doc.host = None;
    assert_eq!(shared.try_replace(doc), Err(ConfigError::MissingApiHost));

    let current = shared.current();
    assert_eq!(current.drive.i2c_address, 0x60);
    assert_eq!(current.api.host, "127.0.0.1:8000");
}

#[test]
fn wholesale_replace_swaps_the_whole_object() {
    let initial = RobotConfig::from_doc(complete_doc()).unwrap();
    let mut shared = SharedConfig::new(initial);
    let replacement = RobotConfig {
        input: InputConfig { drive: DriveInputMapping::default() },
        drive: DriveConfig { i2c_address: 0x41, motors: MotorChannelMap::empty() },
        api: ApiConfig { host: String::from("10.0.0.1:80") },
        general: GeneralConfig { i2c_device_path: String::from("/dev/i2c-0") },
    };
    shared.replace(replacement);
    let current = shared.current();
    assert_eq!(current.drive.i2c_address, 0x41);
    assert_eq!(current.api.host, "10.0.0.1:80");
    assert_eq!(current.general.i2c_device_path, "/dev/i2c-0");
}

#[test]
fn motor_map_sets_and_overwrites_entries() {
    let mut map = MotorChannelMap::empty();
    assert_eq!(map.get(DriveMotor::FrontLeft), None);
    map.set(DriveMotor::FrontLeft, MotorChannel::Motor1);
    assert_eq!(map.get(DriveMotor::FrontLeft), Some(MotorChannel::Motor1));
    map.set(DriveMotor::FrontLeft, MotorChannel::Motor2);
    assert_eq!(map.get(DriveMotor::FrontLeft), Some(MotorChannel::Motor2));
    assert_eq!(map.get(DriveMotor::BackLeft), None);
}

#[test]
fn motor_positions_come_in_tick_order() {
    assert_eq!(
        DriveMotor::all(),
        vec![
            DriveMotor::FrontLeft,
            DriveMotor::FrontRight,
            DriveMotor::BackLeft,
            DriveMotor::BackRight,
        ]
    );
}

#[test]
fn default_mapping_is_tank_on_the_stick_y_axes() {
    match DriveInputMapping::default() {
        DriveInputMapping::Tank { left_motor_axis, right_motor_axis } => {
            assert_eq!(left_motor_axis.axis, GamepadAxis::LeftStickY);
            assert_eq!(left_motor_axis.transformation, AxisTransformation::Linear);
            assert_eq!(right_motor_axis.axis, GamepadAxis::RightStickY);
            assert_eq!(right_motor_axis.transformation, AxisTransformation::Linear);
        }
    }
}
