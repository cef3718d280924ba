//! Control core for a small mobile robot: maps gamepad axis readings to
//! per-motor target speeds, turns target speeds into PWM duty-cycle commands
//! for a PCA9685 motor controller, and holds the robot configuration that a
//! management interface may replace wholesale between control ticks.
//!
//! Analog values (axis readings and motor speeds) are fixed-point integers in
//! thousandths: the interval [-1, 1] is represented as [-1000, 1000].

pub mod config;
pub mod input;
pub mod motors;
pub mod robot;
pub mod sensors;
