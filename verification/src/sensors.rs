//! The seam for auxiliary hardware sensors: anything that can be opened from
//! a configuration and then read.

use vstd::prelude::*;

verus! {

/// A hardware sensor: constructed from its configuration, then polled for
/// readings. Implementations live with the hardware they drive.
pub trait Sensor: Sized {
    /// What the sensor needs to be opened.
    type Config;

    /// What one reading yields.
    type Output;

    /// How opening or reading can fail.
    type Error;

    /// Open the sensor.
    fn new(config: Self::Config) -> Result<Self, Self::Error>;

    /// Take one reading.
    fn read(&self) -> Result<Self::Output, Self::Error>;
}

} // verus!
