//! The robot configuration: the aggregate that the control loop reads once
//! per tick and that the management interface may replace wholesale.
//!
//! A configuration arrives as a document in which every required field may
//! still be missing (`ConfigDoc`). Validation turns a complete document into
//! a `RobotConfig`; an incomplete one is rejected with the first missing
//! field, and the previous configuration stays in force.

use vstd::prelude::*;

use crate::input::{GamepadAxis, InputAxis};
use crate::motors::MotorChannel;

verus! {

/// The four physical mounting positions of the drive motors.
#[derive(Copy, Clone, Debug, PartialEq, Eq, Hash, Structural)]
pub enum DriveMotor {
    FrontLeft,
    FrontRight,
    BackLeft,
    BackRight,
}

impl DriveMotor {
    /// All motor positions, in the order the control loop visits them.
    pub fn all() -> (r: Vec<DriveMotor>)
        ensures
            r@ == seq![
                DriveMotor::FrontLeft,
                DriveMotor::FrontRight,
                DriveMotor::BackLeft,
                DriveMotor::BackRight,
            ],
    {
        let mut v: Vec<DriveMotor> = Vec::new();
        v.push(DriveMotor::FrontLeft);
        v.push(DriveMotor::FrontRight);
        v.push(DriveMotor::BackLeft);
        v.push(DriveMotor::BackRight);
        proof {
            assert(v@ =~= seq![
                DriveMotor::FrontLeft,
                DriveMotor::FrontRight,
                DriveMotor::BackLeft,
                DriveMotor::BackRight,
            ]);
        }
        v
    }
}

/// The mapping of inputs used to control the robot's drive system. Each
/// variant is one mapping type; resolution per motor is in
/// `InputHandler::motor_value`.
#[derive(Copy, Clone, Debug, PartialEq, Eq, Structural)]
pub enum DriveInputMapping {
    /// Tank drive, in which the two motors on one side of the robot run in
    /// sync: one axis controls the left motors and another the right.
    Tank { left_motor_axis: InputAxis, right_motor_axis: InputAxis },
}

impl Default for DriveInputMapping {
    /// Tank drive on the two stick Y axes, unchanged values.
    fn default() -> (r: Self)
        ensures
            r == (DriveInputMapping::Tank {
                left_motor_axis: InputAxis {
                    axis: GamepadAxis::LeftStickY,
                    transformation: crate::input::AxisTransformation::Linear,
                },
                right_motor_axis: InputAxis {
                    axis: GamepadAxis::RightStickY,
                    transformation: crate::input::AxisTransformation::Linear,
                },
            }),
    {
        DriveInputMapping::Tank {
            left_motor_axis: InputAxis {
                axis: GamepadAxis::LeftStickY,
                transformation: crate::input::AxisTransformation::Linear,
            },
            right_motor_axis: InputAxis {
                axis: GamepadAxis::RightStickY,
                transformation: crate::input::AxisTransformation::Linear,
            },
        }
    }
}

/// User input configuration, including axis mappings.
#[derive(Copy, Clone, Debug, PartialEq, Eq, Structural)]
pub struct InputConfig {
    /// Configuration for the inputs used to control the robot drive system
    pub drive: DriveInputMapping,
}

/// Mapping of motor positions as the drive train sees them to how the motor
/// controller sees them. It may be incomplete: a position without an entry
/// is a consistency warning, not an error, and that motor is skipped.
#[derive(Copy, Clone, Debug, PartialEq, Eq)]
pub struct MotorChannelMap {
    front_left: Option<MotorChannel>,
    front_right: Option<MotorChannel>,
    back_left: Option<MotorChannel>,
    back_right: Option<MotorChannel>,
}

impl MotorChannelMap {
    /// The channel assigned to a motor position, if any.
    pub closed spec fn assignment(self, motor: DriveMotor) -> Option<MotorChannel> {
        match motor {
            DriveMotor::FrontLeft => self.front_left,
            DriveMotor::FrontRight => self.front_right,
            DriveMotor::BackLeft => self.back_left,
            DriveMotor::BackRight => self.back_right,
        }
    }

    /// A map with no position assigned.
    pub fn empty() -> (r: Self)
        ensures
            forall|m: DriveMotor| r.assignment(m) is None,
    {
        MotorChannelMap { front_left: None, front_right: None, back_left: None, back_right: None }
    }

    /// Assign a channel to a motor position, replacing any previous entry.
    pub fn set(&mut self, motor: DriveMotor, channel: MotorChannel)
        ensures
            final(self).assignment(motor) == Some(channel),
            forall|m: DriveMotor|
                m != motor ==> final(self).assignment(m) == old(self).assignment(m),
    {
        match motor {
            DriveMotor::FrontLeft => self.front_left = Some(channel),
            DriveMotor::FrontRight => self.front_right = Some(channel),
            DriveMotor::BackLeft => self.back_left = Some(channel),
            DriveMotor::BackRight => self.back_right = Some(channel),
        }
    }

    /// Look up the channel assigned to a motor position.
    pub fn get(&self, motor: DriveMotor) -> (r: Option<MotorChannel>)
        ensures
            r == self.assignment(motor),
    {
        match motor {
            DriveMotor::FrontLeft => self.front_left,
            DriveMotor::FrontRight => self.front_right,
            DriveMotor::BackLeft => self.back_left,
            DriveMotor::BackRight => self.back_right,
        }
    }
}

/// Robot drive system configuration, including motor mappings.
#[derive(Copy, Clone, Debug, PartialEq, Eq)]
pub struct DriveConfig {
    /// I2C address for the drive motor controller board
    pub i2c_address: u8,
    /// Mapping of motor positions to motor controller channels
    pub motors: MotorChannelMap,
}

/// Management interface configuration. The interface allows users to read
/// and replace the robot configuration.
#[derive(Clone, Debug, PartialEq, Eq)]
pub struct ApiConfig {
    /// IP and port to bind to, e.g. 127.0.0.1:8000
    pub host: String,
}

/// General configuration fields that fall under no other category.
#[derive(Clone, Debug, PartialEq, Eq)]
pub struct GeneralConfig {
    /// Path to the I2C device on the system
    pub i2c_device_path: String,
}

/// The whole robot configuration. Replaced only wholesale, never field by
/// field, so the pieces always stay consistent with one another.
#[derive(Clone, Debug, PartialEq, Eq)]
pub struct RobotConfig {
    /// User input configuration
    pub input: InputConfig,
    /// Robot drive system configuration
    pub drive: DriveConfig,
    /// Management interface configuration
    pub api: ApiConfig,
    /// Stuff that doesn't fall under other categories
    pub general: GeneralConfig,
}

/// The drive input mapping as it stands in a configuration document: the
/// axes may still be missing.
#[derive(Copy, Clone, Debug, PartialEq, Eq)]
pub enum DriveInputMappingDoc {
    /// Tank drive
    Tank { left_motor_axis: Option<InputAxis>, right_motor_axis: Option<InputAxis> },
}

/// A robot configuration as read from a persisted or submitted document:
/// every required field may be missing and must be checked before use. Only
/// the motor channel entries are allowed to stay missing.
#[derive(Clone, Debug, PartialEq, Eq)]
pub struct ConfigDoc {
    /// The drive input mapping, if given
    pub input_drive: Option<DriveInputMappingDoc>,
    /// The motor controller bus address, if given
    pub i2c_address: Option<u8>,
    /// Motor position to channel entries; may be incomplete
    pub motors: MotorChannelMap,
    /// The management interface bind address, if given
    pub host: Option<String>,
    /// The path to the I2C device, if given
    pub i2c_device_path: Option<String>,
}

/// Why a configuration document was rejected: the first required field
/// found missing.
#[derive(Copy, Clone, Debug, PartialEq, Eq, Structural)]
pub enum ConfigError {
    MissingDriveMapping,
    MissingLeftAxis,
    MissingRightAxis,
    MissingI2cAddress,
    MissingApiHost,
    MissingDevicePath,
}

impl ConfigDoc {
    /// The first required field missing from the document, in the order the
    /// fields are checked, or nothing when the document is complete.
    pub open spec fn first_missing(self) -> Option<ConfigError> {
        if self.input_drive is None {
            Some(ConfigError::MissingDriveMapping)
        } else if (self.input_drive->0 matches DriveInputMappingDoc::Tank {
            left_motor_axis,
            ..
        } && left_motor_axis is None) {
            Some(ConfigError::MissingLeftAxis)
        } else if (self.input_drive->0 matches DriveInputMappingDoc::Tank {
            right_motor_axis,
            ..
        } && right_motor_axis is None) {
            Some(ConfigError::MissingRightAxis)
        } else if self.i2c_address is None {
            Some(ConfigError::MissingI2cAddress)
        } else if self.host is None {
            Some(ConfigError::MissingApiHost)
        } else if self.i2c_device_path is None {
            Some(ConfigError::MissingDevicePath)
        } else {
            None
        }
    }

    /// Every required field is present.
    pub open spec fn complete(self) -> bool {
        self.first_missing() is None
    }

    /// The configuration a complete document denotes.
    pub open spec fn spec_config(self) -> RobotConfig {
        RobotConfig {
            input: InputConfig {
                drive: match self.input_drive->0 {
                    DriveInputMappingDoc::Tank { left_motor_axis, right_motor_axis } => (
                    DriveInputMapping::Tank {
                        left_motor_axis: left_motor_axis->0,
                        right_motor_axis: right_motor_axis->0,
                    }),
                },
            },
            drive: DriveConfig { i2c_address: self.i2c_address->0, motors: self.motors },
            api: ApiConfig { host: self.host->0 },
            general: GeneralConfig { i2c_device_path: self.i2c_device_path->0 },
        }
    }
}

impl RobotConfig {
    /// Validate a configuration document: a complete document yields exactly
    /// the configuration it denotes, an incomplete one is rejected with the
    /// first missing field.
    pub fn from_doc(doc: ConfigDoc) -> (r: Result<RobotConfig, ConfigError>)
        ensures
            doc.complete() ==> r == Ok::<RobotConfig, ConfigError>(doc.spec_config()),
            !doc.complete() ==> r == Err::<RobotConfig, ConfigError>(doc.first_missing()->0),
    {
        let ConfigDoc { input_drive, i2c_address, motors, host, i2c_device_path } = doc;
        let mapping_doc = match input_drive {
            Some(m) => m,
            None => {
                return Err(ConfigError::MissingDriveMapping);
            },
        };
        let (left_opt, right_opt) = match mapping_doc {
            DriveInputMappingDoc::Tank { left_motor_axis, right_motor_axis } => (
            left_motor_axis,
            right_motor_axis,
            ),
        };
        let left = match left_opt {
            Some(a) => a,
            None => {
                return Err(ConfigError::MissingLeftAxis);
            },
        };
        let right = match right_opt {
            Some(a) => a,
            None => {
                return Err(ConfigError::MissingRightAxis);
            },
        };
        let address = match i2c_address {
            Some(a) => a,
            None => {
                return Err(ConfigError::MissingI2cAddress);
            },
        };
        let host = match host {
            Some(h) => h,
            None => {
                return Err(ConfigError::MissingApiHost);
            },
        };
        let device_path = match i2c_device_path {
            Some(p) => p,
            None => {
                return Err(ConfigError::MissingDevicePath);
            },
        };
        Ok(
            RobotConfig {
                input: InputConfig {
                    drive: DriveInputMapping::Tank {
                        left_motor_axis: left,
                        right_motor_axis: right,
                    },
                },
                drive: DriveConfig { i2c_address: address, motors },
                api: ApiConfig { host },
                general: GeneralConfig { i2c_device_path: device_path },
            },
        )
    }
}

/// The shared configuration container: read once per control tick, replaced
/// atomically and wholesale by the management path. A replacement either
/// validates and is taken over in full, or leaves the previous configuration
/// untouched — never a mix.
pub struct SharedConfig {
    config: RobotConfig,
}

impl SharedConfig {
    /// The configuration currently in force.
    pub closed spec fn spec_current(self) -> RobotConfig {
        self.config
    }

    /// Start with the configuration loaded at startup.
    pub fn new(config: RobotConfig) -> (r: Self)
        ensures
            r.spec_current() == config,
    {
        SharedConfig { config }
    }

    /// Borrow the configuration for one whole control tick: every decision
    /// of the tick reads this one snapshot.
    pub fn current(&self) -> (r: &RobotConfig)
        ensures
            *r == self.spec_current(),
    {
        &self.config
    }

    /// Replace the whole configuration with an already validated one.
    pub fn replace(&mut self, new_config: RobotConfig)
        ensures
            final(self).spec_current() == new_config,
    {
        self.config = new_config;
    }

    /// Replace the configuration from a submitted document. A complete
    /// document takes effect in full; an incomplete one is rejected with the
    /// first missing field and the previous configuration stays in force.
    pub fn try_replace(&mut self, doc: ConfigDoc) -> (r: Result<(), ConfigError>)
        ensures
            doc.complete() ==> r is Ok && final(self).spec_current() == doc.spec_config(),
            !doc.complete() ==> r == Err::<(), ConfigError>(doc.first_missing()->0) && *final(self)
                == *old(self),
    {
        match RobotConfig::from_doc(doc) {
            Ok(config) => {
                self.config = config;
                Ok(())
            },
            Err(e) => Err(e),
        }
    }
}

} // verus!
