//! User input: gamepad axes, the transformation applied to a raw axis value,
//! and the connection state of the active gamepad.
//!
//! Raw axis values arrive already converted to fixed-point thousandths in
//! [-1000, 1000]. Reading the physical device is left to the caller: the
//! functions here take the raw readings as arguments, so that everything from
//! the raw value to the per-motor target speed is checked.

use vstd::prelude::*;

use crate::config::{DriveInputMapping, DriveMotor};

verus! {

/// Sign of a mathematical integer: -1, 0 or 1.
pub open spec fn sign_of(x: int) -> int {
    if x > 0 {
        1
    } else if x < 0 {
        -1
    } else {
        0
    }
}

/// Magnitude of a mathematical integer.
pub open spec fn abs_of(x: int) -> int {
    if x >= 0 {
        x
    } else {
        -x
    }
}

/// A formula used to transform input axis values into output axis values.
#[derive(Copy, Clone, Debug, PartialEq, Eq, Structural)]
pub enum AxisTransformation {
    /// Simple transformation that makes no changes (x => x)
    Linear,
    /// Quadratic transform (x => sign(x) * x^2), in fixed point
    Square,
}

/// The magnitude of the squared transform in fixed-point thousandths: the
/// squared magnitude rounded to the nearest step, but never below one step
/// for a nonzero input, so that squaring cannot flush a live reading to
/// zero and lose its sign.
pub open spec fn spec_square_magnitude(x: int) -> int {
    let q = (abs_of(x) * abs_of(x) + 500) / 1000;
    if x != 0 && q == 0 {
        1
    } else {
        q
    }
}

/// sign(x) * x^2 in fixed-point thousandths: the squared magnitude, with
/// the sign of x.
pub open spec fn spec_square_signed(x: int) -> int {
    if x >= 0 {
        spec_square_magnitude(x)
    } else {
        -spec_square_magnitude(x)
    }
}

/// What `AxisTransformation::transform` returns for a value in range.
pub open spec fn spec_transform(t: AxisTransformation, x: int) -> int {
    match t {
        AxisTransformation::Linear => x,
        AxisTransformation::Square => spec_square_signed(x),
    }
}

impl AxisTransformation {
    /// Apply this transformation to the given input value.
    pub fn transform(self, input: i32) -> (r: i32)
        requires
            -1000 <= input <= 1000,
        ensures
            r == spec_transform(self, input as int),
            -1000 <= r <= 1000,
            abs_of(r as int) <= abs_of(input as int),
    {
        match self {
            AxisTransformation::Linear => input,
            AxisTransformation::Square => {
                let mag: i32 = if input >= 0 {
                    input
                } else {
                    -input
                };
                assert(mag * mag <= 1000 * 1000) by (nonlinear_arith)
                    requires
                        0 <= mag <= 1000,
                ;
                let rounded: i32 = (mag * mag + 500) / 1000;
                let sq: i32 = if rounded == 0 && input != 0 {
                    1
                } else {
                    rounded
                };
                proof {
                    lemma_square_magnitude(input as int);
                }
                if input >= 0 {
                    sq
                } else {
                    -sq
                }
            },
        }
    }
}

impl Default for AxisTransformation {
    /// The transformation used when the configuration names none.
    fn default() -> (r: Self)
        ensures
            r == AxisTransformation::Linear,
    {
        AxisTransformation::Linear
    }
}

/// The magnitude of the squared value never exceeds the magnitude of the
/// input, so the transformation stays inside [-1000, 1000].
pub proof fn lemma_square_magnitude(x: int)
    requires
        -1000 <= x <= 1000,
    ensures
        abs_of(spec_square_signed(x)) <= abs_of(x),
        0 <= spec_square_magnitude(x),
{
    let m = abs_of(x);
    assert(m * m <= m * 1000) by (nonlinear_arith)
        requires
            0 <= m <= 1000,
    ;
    assert((m * m + 500) / 1000 <= m) by (nonlinear_arith)
        requires
            0 <= m,
            m * m <= m * 1000,
    ;
    assert(0 <= (m * m + 500) / 1000) by (nonlinear_arith)
        requires
            0 <= m,
    ;
}

/// The identity transformation returns its input unchanged, for every value
/// in range.
pub proof fn lemma_transform_identity(x: int)
    requires
        -1000 <= x <= 1000,
    ensures
        spec_transform(AxisTransformation::Linear, x) == x,
{
}

/// The squared transformation is the rounded fixed-point square of the
/// input carrying the input's sign, and the result and the input are never
/// of opposite signs. For zero input, and for every input whose square does
/// not round below one thousandth (magnitude 23 or more), the magnitude is
/// exactly the rounded square.
pub proof fn lemma_transform_square(x: int)
    requires
        -1000 <= x <= 1000,
    ensures
        spec_transform(AxisTransformation::Square, x) == sign_of(x) * spec_square_magnitude(x),
        spec_transform(AxisTransformation::Square, x) * x >= 0,
        x == 0 || abs_of(x) >= 23 ==> spec_square_magnitude(x) == (abs_of(x) * abs_of(x) + 500)
            / 1000,
{
    let m = abs_of(x);
    let q = (m * m + 500) / 1000;
    assert(0 <= q) by (nonlinear_arith)
        requires
            0 <= m,
            q == (m * m + 500) / 1000,
    ;
    if x == 0 {
        assert(m * m == 0) by (nonlinear_arith)
            requires
                m == 0,
        ;
        assert(q == 500int / 1000);
        assert(q == 0);
    }
    if abs_of(x) >= 23 {
        assert(m * m + 500 >= 1029) by (nonlinear_arith)
            requires
                23 <= m,
        ;
        vstd::arithmetic::div_mod::lemma_div_is_ordered(1000, m * m + 500, 1000);
        assert(1000int / 1000 == 1);
    }
    assert(spec_square_signed(x) * x >= 0) by (nonlinear_arith)
        requires
            0 <= spec_square_magnitude(x),
            spec_square_signed(x) == (if x >= 0 {
                spec_square_magnitude(x)
            } else {
                -spec_square_magnitude(x)
            }),
    ;
}

/// The squared transformation preserves the sign exactly, for every input
/// in range: a positive input squares to a positive value, a negative one
/// to a negative value, and zero to zero.
pub proof fn lemma_transform_square_sign(x: int)
    requires
        -1000 <= x <= 1000,
    ensures
        sign_of(spec_transform(AxisTransformation::Square, x)) == sign_of(x),
{
    let m = abs_of(x);
    assert(0 <= (m * m + 500) / 1000) by (nonlinear_arith)
        requires
            0 <= m,
    ;
    if x == 0 {
        assert(m * m == 0) by (nonlinear_arith)
            requires
                m == 0,
        ;
        assert((m * m + 500) / 1000 == 500int / 1000);
    }
}

/// An analog axis of a gamepad, by its conventional name.
#[derive(Copy, Clone, Debug, PartialEq, Eq, Structural)]
pub enum GamepadAxis {
    LeftStickX,
    LeftStickY,
    LeftZ,
    RightStickX,
    RightStickY,
    RightZ,
    DPadX,
    DPadY,
    Unknown,
}

/// An analog axis on a gamepad.
#[derive(Copy, Clone, Debug, PartialEq, Eq, Structural)]
pub struct InputAxis {
    /// The axis on the gamepad that we read
    pub axis: GamepadAxis,
    /// A transformation to be applied to any value read from this axis
    pub transformation: AxisTransformation,
}

/// One tick's raw axis readings, in fixed-point thousandths. An axis the
/// device did not report has no entry.
#[derive(Copy, Clone, Debug)]
pub struct AxisReadings {
    left_stick_x: Option<i32>,
    left_stick_y: Option<i32>,
    left_z: Option<i32>,
    right_stick_x: Option<i32>,
    right_stick_y: Option<i32>,
    right_z: Option<i32>,
    dpad_x: Option<i32>,
    dpad_y: Option<i32>,
}

impl AxisReadings {
    /// Every recorded reading lies in [-1000, 1000].
    #[verifier::type_invariant]
    spec fn wf(self) -> bool {
        &&& (self.left_stick_x is Some ==> -1000 <= self.left_stick_x->0 <= 1000)
        &&& (self.left_stick_y is Some ==> -1000 <= self.left_stick_y->0 <= 1000)
        &&& (self.left_z is Some ==> -1000 <= self.left_z->0 <= 1000)
        &&& (self.right_stick_x is Some ==> -1000 <= self.right_stick_x->0 <= 1000)
        &&& (self.right_stick_y is Some ==> -1000 <= self.right_stick_y->0 <= 1000)
        &&& (self.right_z is Some ==> -1000 <= self.right_z->0 <= 1000)
        &&& (self.dpad_x is Some ==> -1000 <= self.dpad_x->0 <= 1000)
        &&& (self.dpad_y is Some ==> -1000 <= self.dpad_y->0 <= 1000)
    }

    /// The reading recorded for an axis, if any. The unknown axis never has
    /// a reading.
    pub closed spec fn reading(self, axis: GamepadAxis) -> Option<i32> {
        match axis {
            GamepadAxis::LeftStickX => self.left_stick_x,
            GamepadAxis::LeftStickY => self.left_stick_y,
            GamepadAxis::LeftZ => self.left_z,
            GamepadAxis::RightStickX => self.right_stick_x,
            GamepadAxis::RightStickY => self.right_stick_y,
            GamepadAxis::RightZ => self.right_z,
            GamepadAxis::DPadX => self.dpad_x,
            GamepadAxis::DPadY => self.dpad_y,
            GamepadAxis::Unknown => None,
        }
    }

    /// Readings with no axis recorded.
    pub fn new() -> (r: Self)
        ensures
            forall|a: GamepadAxis| r.reading(a) is None,
    {
        AxisReadings {
            left_stick_x: None,
            left_stick_y: None,
            left_z: None,
            right_stick_x: None,
            right_stick_y: None,
            right_z: None,
            dpad_x: None,
            dpad_y: None,
        }
    }

    /// Record the raw value read for one axis. Recording the unknown axis
    /// has no effect.
    pub fn record(&mut self, axis: GamepadAxis, value: i32)
        requires
            -1000 <= value <= 1000,
        ensures
            final(self).reading(axis) == (if axis is Unknown {
                Option::<i32>::None
            } else {
                Some(value)
            }),
            forall|a: GamepadAxis| a != axis ==> final(self).reading(a) == old(self).reading(a),
    {
        proof {
            use_type_invariant(&*self);
        }
        match axis {
            GamepadAxis::LeftStickX => self.left_stick_x = Some(value),
            GamepadAxis::LeftStickY => self.left_stick_y = Some(value),
            GamepadAxis::LeftZ => self.left_z = Some(value),
            GamepadAxis::RightStickX => self.right_stick_x = Some(value),
            GamepadAxis::RightStickY => self.right_stick_y = Some(value),
            GamepadAxis::RightZ => self.right_z = Some(value),
            GamepadAxis::DPadX => self.dpad_x = Some(value),
            GamepadAxis::DPadY => self.dpad_y = Some(value),
            GamepadAxis::Unknown => (),
        }
    }

    /// Look up the reading recorded for an axis.
    pub fn get(&self, axis: GamepadAxis) -> (r: Option<i32>)
        ensures
            r == self.reading(axis),
            r is Some ==> -1000 <= r->0 <= 1000,
    {
        proof {
            use_type_invariant(self);
        }
        match axis {
            GamepadAxis::LeftStickX => self.left_stick_x,
            GamepadAxis::LeftStickY => self.left_stick_y,
            GamepadAxis::LeftZ => self.left_z,
            GamepadAxis::RightStickX => self.right_stick_x,
            GamepadAxis::RightStickY => self.right_stick_y,
            GamepadAxis::RightZ => self.right_z,
            GamepadAxis::DPadX => self.dpad_x,
            GamepadAxis::DPadY => self.dpad_y,
            GamepadAxis::Unknown => None,
        }
    }
}

/// What a raw reading turns into: the transformed value when a device is
/// bound and the axis was read, and no value otherwise.
pub open spec fn spec_read_axis(device: Option<u64>, axis: InputAxis, raw: Option<i32>) -> Option<
    i32,
> {
    if device is Some && raw is Some {
        Some(spec_transform(axis.transformation, raw->0 as int) as i32)
    } else {
        None
    }
}

/// The axis a tank mapping reads for a motor: motors on one lateral side
/// share one logical axis.
pub open spec fn spec_tank_axis(left: InputAxis, right: InputAxis, motor: DriveMotor) -> InputAxis {
    match motor {
        DriveMotor::FrontLeft => left,
        DriveMotor::BackLeft => left,
        DriveMotor::FrontRight => right,
        DriveMotor::BackRight => right,
    }
}

/// The target speed a mapping resolves for a motor from one tick's readings.
pub open spec fn spec_motor_value(
    device: Option<u64>,
    mapping: DriveInputMapping,
    motor: DriveMotor,
    readings: AxisReadings,
) -> Option<i32> {
    match mapping {
        DriveInputMapping::Tank { left_motor_axis, right_motor_axis } => {
            let axis = spec_tank_axis(left_motor_axis, right_motor_axis, motor);
            spec_read_axis(device, axis, readings.reading(axis.axis))
        },
    }
}

/// The binding after one rebind attempt: while a device is bound it stays
/// bound, otherwise the first available device is taken.
pub open spec fn spec_init_gamepad(bound: Option<u64>, available: Option<u64>) -> Option<u64> {
    if bound is Some {
        bound
    } else {
        available
    }
}

/// The connection to the active gamepad: the identifier of the bound device,
/// or nothing while disconnected.
#[derive(Copy, Clone, Debug)]
pub struct InputHandler {
    gamepad_id: Option<u64>,
}

impl InputHandler {
    /// The identifier of the bound device, if one is bound.
    pub closed spec fn device(self) -> Option<u64> {
        self.gamepad_id
    }

    /// A handler with no device bound.
    pub fn new() -> (r: Self)
        ensures
            r.device() is None,
    {
        InputHandler { gamepad_id: None }
    }

    /// The identifier of the bound device.
    pub fn gamepad(&self) -> (r: Option<u64>)
        ensures
            r == self.device(),
    {
        self.gamepad_id
    }

    /// Bind the first available device if none is bound. Idempotent: while a
    /// device is bound this changes nothing, so it is safe to call on every
    /// control tick to enable hot-plugging. `available` is the identifier of
    /// the first device the caller currently sees, if any.
    pub fn init_gamepad(&mut self, available: Option<u64>)
        ensures
            final(self).device() == spec_init_gamepad(old(self).device(), available),
    {
        if self.gamepad_id.is_none() {
            self.gamepad_id = available;
        }
    }

    /// Read an input value from the given axis and apply the axis's
    /// transformation. `raw` is the raw reading the caller obtained for that
    /// axis, if any; without a bound device, or without a reading, there is
    /// no value.
    pub fn read_axis(&self, axis: InputAxis, raw: Option<i32>) -> (r: Option<i32>)
        requires
            raw is Some ==> -1000 <= raw->0 <= 1000,
        ensures
            r == spec_read_axis(self.device(), axis, raw),
            r is Some ==> -1000 <= r->0 <= 1000,
    {
        if self.gamepad_id.is_some() {
            match raw {
                Some(v) => Some(axis.transformation.transform(v)),
                None => None,
            }
        } else {
            None
        }
    }

    /// Resolve the target speed for a motor from the mapping and one tick's
    /// readings. There is no value when no device is bound or the mapped
    /// axis was not read; the caller supplies its own default.
    pub fn motor_value(
        &self,
        mapping: DriveInputMapping,
        motor: DriveMotor,
        readings: &AxisReadings,
    ) -> (r: Option<i32>)
        ensures
            r == spec_motor_value(self.device(), mapping, motor, *readings),
            r is Some ==> -1000 <= r->0 <= 1000,
    {
        match mapping {
            DriveInputMapping::Tank { left_motor_axis, right_motor_axis } => {
                let axis = match motor {
                    DriveMotor::FrontLeft => left_motor_axis,
                    DriveMotor::FrontRight => right_motor_axis,
                    DriveMotor::BackLeft => left_motor_axis,
                    DriveMotor::BackRight => right_motor_axis,
                };
                let raw = readings.get(axis.axis);
                self.read_axis(axis, raw)
            },
        }
    }
}

/// Rebinding while a device is already bound is a no-op: the device
/// identifier afterwards is the one bound before, whatever is available —
/// so no second binding can displace or duplicate the first.
pub proof fn lemma_init_gamepad_idempotent(bound: Option<u64>, available: Option<u64>)
    requires
        bound is Some,
    ensures
        spec_init_gamepad(bound, available) == bound,
        spec_init_gamepad(spec_init_gamepad(bound, available), available) == spec_init_gamepad(
            bound,
            available,
        ),
{
}

/// With no bound device, reading any axis yields no value, whatever the raw
/// reading was.
pub proof fn lemma_read_axis_unbound(axis: InputAxis, raw: Option<i32>)
    ensures
        spec_read_axis(None, axis, raw) is None,
{
}

/// With no bound device, no motor resolves to a value under any mapping.
pub proof fn lemma_motor_value_unbound(
    mapping: DriveInputMapping,
    motor: DriveMotor,
    readings: AxisReadings,
)
    ensures
        spec_motor_value(None, mapping, motor, readings) is None,
{
}

} // verus!
