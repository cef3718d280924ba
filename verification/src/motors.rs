//! The drive motor controller: an Adafruit Motor HAT board built around a
//! PCA9685 PWM chip, driving up to four DC motors.
//!
//! Every bus operation the core needs is captured as a `PwmCommand`, and a
//! checked pure function turns a target speed into its commands. `PwmState` is the model of the controller those commands act
//! on; the safety lemmas (one direction driven at a time, everything off
//! after a stop) are proved over that model. The `MotorHat` type owns the
//! device connection and issues the same commands over the bus.

use vstd::arithmetic::div_mod::lemma_div_is_ordered;
use vstd::arithmetic::mul::lemma_mul_inequality;
use vstd::prelude::*;

use linux_embedded_hal::i2cdev::linux::LinuxI2CError;
use linux_embedded_hal::{I2CError, I2cdev};
use pwm_pca9685::{Channel, Pca9685};

use crate::config::RobotConfig;
use crate::input::abs_of;

verus! {

/// Maximum duty cycle value for one PWM channel, i.e. the last step in the
/// pulse, based on 12-bit resolution (4096 steps).
pub const MAX_DUTY_CYCLE: u16 = 4095;

/// The clock prescale value that yields the drive frequency the motors need.
pub const DRIVE_PRESCALE: u8 = 4;

/// A reference to a single motor on the HAT. These numbers line up with the
/// numbers printed on the HAT PCB.
#[derive(Copy, Clone, Debug, PartialEq, Eq, Hash, Structural)]
pub enum MotorChannel {
    Motor1,
    Motor2,
    Motor3,
    Motor4,
}

/// The three PWM lines of one motor: a constantly driven reference line
/// supplying the current-limiting voltage, and the forward and backward
/// drive lines.
#[derive(Copy, Clone, Debug, PartialEq, Eq, Structural)]
pub struct MotorHatChannels {
    pub ref_channel: u8,
    pub forward_channel: u8,
    pub backward_channel: u8,
}

/// The fixed wiring of each motor to its three PWM lines on the HAT.
pub open spec fn spec_pwm_channels(c: MotorChannel) -> MotorHatChannels {
    match c {
        MotorChannel::Motor1 => MotorHatChannels {
            ref_channel: 8,
            forward_channel: 9,
            backward_channel: 10,
        },
        MotorChannel::Motor2 => MotorHatChannels {
            ref_channel: 13,
            forward_channel: 11,
            backward_channel: 12,
        },
        MotorChannel::Motor3 => MotorHatChannels {
            ref_channel: 2,
            forward_channel: 3,
            backward_channel: 4,
        },
        MotorChannel::Motor4 => MotorHatChannels {
            ref_channel: 7,
            forward_channel: 5,
            backward_channel: 6,
        },
    }
}

impl MotorChannel {
    /// All motor channels, in initialization order.
    pub fn all() -> (r: Vec<MotorChannel>)
        ensures
            r@ == seq![
                MotorChannel::Motor1,
                MotorChannel::Motor2,
                MotorChannel::Motor3,
                MotorChannel::Motor4,
            ],
    {
        let mut v: Vec<MotorChannel> = Vec::new();
        v.push(MotorChannel::Motor1);
        v.push(MotorChannel::Motor2);
        v.push(MotorChannel::Motor3);
        v.push(MotorChannel::Motor4);
        proof {
            assert(v@ =~= seq![
                MotorChannel::Motor1,
                MotorChannel::Motor2,
                MotorChannel::Motor3,
                MotorChannel::Motor4,
            ]);
        }
        v
    }

    /// The three PWM lines this motor is wired to.
    pub fn pwm_channels(self) -> (r: MotorHatChannels)
        ensures
            r == spec_pwm_channels(self),
    {
        match self {
            MotorChannel::Motor1 => MotorHatChannels {
                ref_channel: 8,
                forward_channel: 9,
                backward_channel: 10,
            },
            MotorChannel::Motor2 => MotorHatChannels {
                ref_channel: 13,
                forward_channel: 11,
                backward_channel: 12,
            },
            MotorChannel::Motor3 => MotorHatChannels {
                ref_channel: 2,
                forward_channel: 3,
                backward_channel: 4,
            },
            MotorChannel::Motor4 => MotorHatChannels {
                ref_channel: 7,
                forward_channel: 5,
                backward_channel: 6,
            },
        }
    }
}

/// One logical operation on the PWM controller: exactly the operations the
/// core requires of the chip.
#[derive(Copy, Clone, Debug, PartialEq, Eq, Structural)]
pub enum PwmCommand {
    /// Set the tick at which the channel's pulse turns on.
    ChannelOn { channel: u8, tick: u16 },
    /// Set the tick at which the channel's pulse turns off; clears a
    /// previous full-off.
    ChannelOff { channel: u8, tick: u16 },
    /// Force the channel fully off, whatever its pulse settings.
    ChannelFullOff { channel: u8 },
    /// Enable PWM output at the controller level.
    Enable,
    /// Disable PWM output at the controller level.
    Disable,
    /// Set the controller's clock prescale value.
    SetPrescale { value: u8 },
}

/// A command the controller accepts: a channel the chip has, and a tick
/// within the 12-bit pulse resolution.
pub open spec fn spec_command_wf(c: PwmCommand) -> bool {
    match c {
        PwmCommand::ChannelOn { channel, tick } => channel < 16 && tick <= 4095,
        PwmCommand::ChannelOff { channel, tick } => channel < 16 && tick <= 4095,
        PwmCommand::ChannelFullOff { channel } => channel < 16,
        PwmCommand::Enable => true,
        PwmCommand::Disable => true,
        PwmCommand::SetPrescale { value } => 3 <= value,
    }
}

/// The pulse state of one PWM channel in the controller model.
pub struct ChannelState {
    pub on_tick: int,
    pub off_tick: int,
    pub full_off: bool,
}

/// The model of the PWM controller the commands act on: per-channel pulse
/// state, the output-enable flag and the prescale value.
pub struct PwmState {
    pub channels: Map<int, ChannelState>,
    pub enabled: bool,
    pub prescale: int,
}

/// The duty cycle a channel drives: zero while forced fully off, otherwise
/// the width of its pulse.
pub open spec fn channel_duty(m: PwmState, ch: int) -> int {
    if m.channels[ch].full_off {
        0
    } else {
        m.channels[ch].off_tick - m.channels[ch].on_tick
    }
}

/// One command's effect on the controller model.
pub open spec fn apply_command(m: PwmState, c: PwmCommand) -> PwmState {
    match c {
        PwmCommand::ChannelOn { channel, tick } => PwmState {
            channels: m.channels.insert(
                channel as int,
                ChannelState { on_tick: tick as int, ..m.channels[channel as int] },
            ),
            ..m
        },
        PwmCommand::ChannelOff { channel, tick } => PwmState {
            channels: m.channels.insert(
                channel as int,
                ChannelState {
                    off_tick: tick as int,
                    full_off: false,
                    ..m.channels[channel as int]
                },
            ),
            ..m
        },
        PwmCommand::ChannelFullOff { channel } => PwmState {
            channels: m.channels.insert(
                channel as int,
                ChannelState { off_tick: 0, full_off: true, ..m.channels[channel as int] },
            ),
            ..m
        },
        PwmCommand::Enable => PwmState { enabled: true, ..m },
        PwmCommand::Disable => PwmState { enabled: false, ..m },
        PwmCommand::SetPrescale { value } => PwmState { prescale: value as int, ..m },
    }
}

/// A command sequence's effect on the controller model, first command first.
pub open spec fn apply_commands(m: PwmState, cs: Seq<PwmCommand>) -> PwmState
    decreases cs.len(),
{
    if cs.len() == 0 {
        m
    } else {
        apply_commands(apply_command(m, cs[0]), cs.drop_first())
    }
}

/// Applying a one-command sequence is applying the command.
pub proof fn lemma_apply_one(m: PwmState, a: PwmCommand)
    ensures
        apply_commands(m, seq![a]) == apply_command(m, a),
{
    let s = seq![a];
    assert(s[0] == a);
    assert(s.drop_first() =~= Seq::<PwmCommand>::empty());
    assert(apply_commands(m, s) == apply_commands(
        apply_command(m, a),
        Seq::<PwmCommand>::empty(),
    ));
}

/// Applying a two-command sequence is applying the commands in order.
pub proof fn lemma_apply_two(m: PwmState, a: PwmCommand, b: PwmCommand)
    ensures
        apply_commands(m, seq![a, b]) == apply_command(apply_command(m, a), b),
{
    assert(seq![a, b].drop_first() =~= seq![b]);
    lemma_apply_one(apply_command(m, a), b);
}

/// Applying a concatenation is applying the two halves in turn.
pub proof fn lemma_apply_concat(m: PwmState, a: Seq<PwmCommand>, b: Seq<PwmCommand>)
    ensures
        apply_commands(m, a + b) == apply_commands(apply_commands(m, a), b),
    decreases a.len(),
{
    if a.len() == 0 {
        assert(a + b =~= b);
    } else {
        assert((a + b)[0] == a[0]);
        assert((a + b).drop_first() =~= a.drop_first() + b);
        lemma_apply_concat(apply_command(m, a[0]), a.drop_first(), b);
    }
}

/// The duty cycle for a fixed-point speed: the controller's full 12-bit
/// resolution scaled by the magnitude of the speed, rounded to the nearest
/// step.
pub open spec fn spec_duty_cycle(s: int) -> int {
    (4095 * abs_of(s) + 500) / 1000
}

/// The duty cycle stays within the controller's resolution, vanishes only
/// at speed zero, and grows with the magnitude of the speed.
pub proof fn lemma_duty_cycle_bounds(s: int)
    requires
        -1000 <= s <= 1000,
    ensures
        0 <= spec_duty_cycle(s) <= 4095,
        s == 0 ==> spec_duty_cycle(s) == 0,
        s != 0 ==> spec_duty_cycle(s) >= 4,
{
    let m = abs_of(s);
    assert(4095 * m + 500 <= 4095 * 1000 + 500) by (nonlinear_arith)
        requires
            0 <= m <= 1000,
    ;
    assert((4095 * m + 500) / 1000 <= 4095) by (nonlinear_arith)
        requires
            4095 * m + 500 <= 4095 * 1000 + 500,
    ;
    assert(0 <= (4095 * m + 500) / 1000) by (nonlinear_arith)
        requires
            0 <= m,
    ;
    if s != 0 {
        assert(4095 * m + 500 >= 4595) by (nonlinear_arith)
            requires
                1 <= m,
        ;
        assert((4095 * m + 500) / 1000 >= 4) by (nonlinear_arith)
            requires
                4095 * m + 500 >= 4595,
        ;
    }
}

/// The duty cycle is monotone in the magnitude of the speed.
pub proof fn lemma_duty_cycle_monotone(s1: int, s2: int)
    requires
        abs_of(s1) <= abs_of(s2),
    ensures
        spec_duty_cycle(s1) <= spec_duty_cycle(s2),
{
    lemma_mul_inequality(abs_of(s1), abs_of(s2), 4095);
    lemma_div_is_ordered(4095 * abs_of(s1) + 500, 4095 * abs_of(s2) + 500, 1000);
}

/// The duty cycle for a fixed-point speed, executable form.
pub fn duty_cycle(speed: i32) -> (r: u16)
    requires
        -1000 <= speed <= 1000,
    ensures
        r == spec_duty_cycle(speed as int),
        r <= 4095,
{
    let mag: i32 = if speed >= 0 {
        speed
    } else {
        -speed
    };
    proof {
        lemma_duty_cycle_bounds(speed as int);
    }
    ((4095 * mag + 500) / 1000) as u16
}

/// Why a motor command failed: a speed outside [-1, 1], or an opaque
/// transport failure on the bus.
#[derive(Copy, Clone, Debug, PartialEq, Eq, Structural)]
pub enum MotorError {
    /// The requested speed lies outside [-1, 1].
    InvalidSpeed,
    /// A write to the controller failed on the bus.
    Bus,
}

/// The channel writes that drive one motor at a speed: the direction of the
/// sign's channel gets the duty cycle, the opposite channel is forced fully
/// off, and speed zero forces both off. The reference channel is never
/// touched after initialization.
pub open spec fn spec_speed_commands(c: MotorChannel, s: int) -> Seq<PwmCommand> {
    let ch = spec_pwm_channels(c);
    if s > 0 {
        seq![
            PwmCommand::ChannelOff { channel: ch.forward_channel, tick: spec_duty_cycle(s) as u16 },
            PwmCommand::ChannelFullOff { channel: ch.backward_channel },
        ]
    } else if s < 0 {
        seq![
            PwmCommand::ChannelOff {
                channel: ch.backward_channel,
                tick: spec_duty_cycle(s) as u16,
            },
            PwmCommand::ChannelFullOff { channel: ch.forward_channel },
        ]
    } else {
        seq![
            PwmCommand::ChannelFullOff { channel: ch.forward_channel },
            PwmCommand::ChannelFullOff { channel: ch.backward_channel },
        ]
    }
}

/// The channel writes that initialize one motor: the reference channel runs
/// at full duty from tick zero, and both drive channels start neutral at
/// zero duty.
pub open spec fn spec_init_commands(c: MotorChannel) -> Seq<PwmCommand> {
    let ch = spec_pwm_channels(c);
    seq![
        PwmCommand::ChannelOn { channel: ch.ref_channel, tick: 0 },
        PwmCommand::ChannelOff { channel: ch.ref_channel, tick: 4095 },
        PwmCommand::ChannelOn { channel: ch.forward_channel, tick: 0 },
        PwmCommand::ChannelOff { channel: ch.forward_channel, tick: 0 },
        PwmCommand::ChannelOn { channel: ch.backward_channel, tick: 0 },
        PwmCommand::ChannelOff { channel: ch.backward_channel, tick: 0 },
    ]
}

/// The channel writes that shut one motor down: all three of its lines
/// forced fully off.
pub open spec fn spec_off_commands(c: MotorChannel) -> Seq<PwmCommand> {
    let ch = spec_pwm_channels(c);
    seq![
        PwmCommand::ChannelFullOff { channel: ch.ref_channel },
        PwmCommand::ChannelFullOff { channel: ch.forward_channel },
        PwmCommand::ChannelFullOff { channel: ch.backward_channel },
    ]
}

/// The full shutdown sequence: every motor's three lines forced fully off,
/// then PWM output disabled at the controller.
pub open spec fn spec_stop_all_commands() -> Seq<PwmCommand> {
    spec_off_commands(MotorChannel::Motor1) + spec_off_commands(MotorChannel::Motor2)
        + spec_off_commands(MotorChannel::Motor3) + spec_off_commands(MotorChannel::Motor4)
        + seq![PwmCommand::Disable]
}

/// The commands that drive one motor at a speed, executable form.
pub fn speed_commands(channel: MotorChannel, speed: i32) -> (r: Vec<PwmCommand>)
    requires
        -1000 <= speed <= 1000,
    ensures
        r@ == spec_speed_commands(channel, speed as int),
        forall|i: int| 0 <= i < r@.len() ==> spec_command_wf(r@[i]),
{
    let ch = channel.pwm_channels();
    let mut v: Vec<PwmCommand> = Vec::new();
    if speed > 0 {
        v.push(PwmCommand::ChannelOff { channel: ch.forward_channel, tick: duty_cycle(speed) });
        v.push(PwmCommand::ChannelFullOff { channel: ch.backward_channel });
    } else if speed < 0 {
        v.push(PwmCommand::ChannelOff { channel: ch.backward_channel, tick: duty_cycle(speed) });
        v.push(PwmCommand::ChannelFullOff { channel: ch.forward_channel });
    } else {
        v.push(PwmCommand::ChannelFullOff { channel: ch.forward_channel });
        v.push(PwmCommand::ChannelFullOff { channel: ch.backward_channel });
    }
    proof {
        assert(v@ =~= spec_speed_commands(channel, speed as int));
    }
    v
}

/// Validate a speed and compute the channel writes that would drive the
/// motor at it. A speed outside [-1, 1] fails validation and yields no
/// commands at all.
pub fn checked_speed_commands(channel: MotorChannel, speed: i32) -> (r: Result<
    Vec<PwmCommand>,
    MotorError,
>)
    ensures
        r is Ok <==> -1000 <= speed <= 1000,
        r is Err ==> r == Err::<Vec<PwmCommand>, MotorError>(MotorError::InvalidSpeed),
        r matches Ok(cmds) ==> cmds@ == spec_speed_commands(channel, speed as int),
        r matches Ok(cmds) ==> forall|i: int| 0 <= i < cmds@.len() ==> spec_command_wf(cmds@[i]),
{
    if speed < -1000 || speed > 1000 {
        Err(MotorError::InvalidSpeed)
    } else {
        Ok(speed_commands(channel, speed))
    }
}

/// The commands that initialize one motor, executable form.
pub fn init_commands(channel: MotorChannel) -> (r: Vec<PwmCommand>)
    ensures
        r@ == spec_init_commands(channel),
        forall|i: int| 0 <= i < r@.len() ==> spec_command_wf(r@[i]),
{
    let ch = channel.pwm_channels();
    let mut v: Vec<PwmCommand> = Vec::new();
    v.push(PwmCommand::ChannelOn { channel: ch.ref_channel, tick: 0 });
    v.push(PwmCommand::ChannelOff { channel: ch.ref_channel, tick: 4095 });
    v.push(PwmCommand::ChannelOn { channel: ch.forward_channel, tick: 0 });
    v.push(PwmCommand::ChannelOff { channel: ch.forward_channel, tick: 0 });
    v.push(PwmCommand::ChannelOn { channel: ch.backward_channel, tick: 0 });
    v.push(PwmCommand::ChannelOff { channel: ch.backward_channel, tick: 0 });
    proof {
        assert(v@ =~= spec_init_commands(channel));
    }
    v
}

/// The commands that shut one motor down, executable form.
pub fn off_commands(channel: MotorChannel) -> (r: Vec<PwmCommand>)
    ensures
        r@ == spec_off_commands(channel),
        forall|i: int| 0 <= i < r@.len() ==> spec_command_wf(r@[i]),
{
    let ch = channel.pwm_channels();
    let mut v: Vec<PwmCommand> = Vec::new();
    v.push(PwmCommand::ChannelFullOff { channel: ch.ref_channel });
    v.push(PwmCommand::ChannelFullOff { channel: ch.forward_channel });
    v.push(PwmCommand::ChannelFullOff { channel: ch.backward_channel });
    proof {
        assert(v@ =~= spec_off_commands(channel));
    }
    v
}

/// The full shutdown sequence, executable form.
pub fn stop_all_commands() -> (r: Vec<PwmCommand>)
    ensures
        r@ == spec_stop_all_commands(),
        forall|i: int| 0 <= i < r@.len() ==> spec_command_wf(r@[i]),
{
    let mut v = off_commands(MotorChannel::Motor1);
    let mut rest = off_commands(MotorChannel::Motor2);
    v.append(&mut rest);
    let mut rest = off_commands(MotorChannel::Motor3);
    v.append(&mut rest);
    let mut rest = off_commands(MotorChannel::Motor4);
    v.append(&mut rest);
    v.push(PwmCommand::Disable);
    proof {
        assert(v@ =~= spec_stop_all_commands());
    }
    v
}

/// Driving a motor sets exactly one of its two direction channels to a
/// nonzero duty cycle — the forward one for a positive speed, the backward
/// one for a negative speed, and neither at speed zero — and the duty equals
/// the controller resolution scaled by the magnitude of the speed. The two
/// direction channels are never both nonzero.
pub proof fn lemma_speed_commands_effect(m: PwmState, c: MotorChannel, s: int)
    requires
        -1000 <= s <= 1000,
        m.channels[spec_pwm_channels(c).forward_channel as int].on_tick == 0,
        m.channels[spec_pwm_channels(c).backward_channel as int].on_tick == 0,
    ensures
        ({
            let ch = spec_pwm_channels(c);
            let m2 = apply_commands(m, spec_speed_commands(c, s));
            let fwd = channel_duty(m2, ch.forward_channel as int);
            let bwd = channel_duty(m2, ch.backward_channel as int);
            &&& s > 0 ==> fwd == spec_duty_cycle(s) && fwd > 0 && bwd == 0
            &&& s < 0 ==> bwd == spec_duty_cycle(s) && bwd > 0 && fwd == 0
            &&& s == 0 ==> fwd == 0 && bwd == 0
            &&& !(fwd != 0 && bwd != 0)
        }),
{
    let ch = spec_pwm_channels(c);
    let cs = spec_speed_commands(c, s);
    lemma_duty_cycle_bounds(s);
    lemma_apply_two(m, cs[0], cs[1]);
}

/// After a motor's initialization commands, its reference channel drives at
/// full duty from tick zero, both drive channels are neutral at zero duty,
/// and all three pulses start at tick zero — the state the speed commands
/// assume thereafter.
pub proof fn lemma_init_commands_effect(m: PwmState, c: MotorChannel)
    ensures
        ({
            let ch = spec_pwm_channels(c);
            let m2 = apply_commands(m, spec_init_commands(c));
            &&& m2.channels[ch.ref_channel as int].on_tick == 0
            &&& channel_duty(m2, ch.ref_channel as int) == 4095
            &&& m2.channels[ch.forward_channel as int].on_tick == 0
            &&& channel_duty(m2, ch.forward_channel as int) == 0
            &&& m2.channels[ch.backward_channel as int].on_tick == 0
            &&& channel_duty(m2, ch.backward_channel as int) == 0
            &&& m2.enabled == m.enabled
        }),
{
    let ch = spec_pwm_channels(c);
    let cs = spec_init_commands(c);
    let a = seq![cs[0], cs[1]];
    let b = seq![cs[2], cs[3]];
    let d = seq![cs[4], cs[5]];
    assert(cs =~= (a + b) + d);
    lemma_apply_concat(m, a + b, d);
    lemma_apply_concat(m, a, b);
    lemma_apply_two(m, cs[0], cs[1]);
    lemma_apply_two(apply_commands(m, a), cs[2], cs[3]);
    lemma_apply_two(apply_commands(m, a + b), cs[4], cs[5]);
    match c {
        MotorChannel::Motor1 => {},
        MotorChannel::Motor2 => {},
        MotorChannel::Motor3 => {},
        MotorChannel::Motor4 => {},
    }
}

/// After a motor's shutdown commands, all three of its lines are forced
/// fully off; no other channel and no controller flag changes.
pub proof fn lemma_off_commands_effect(m: PwmState, c: MotorChannel)
    ensures
        ({
            let ch = spec_pwm_channels(c);
            let m2 = apply_commands(m, spec_off_commands(c));
            &&& m2.channels[ch.ref_channel as int].full_off
            &&& m2.channels[ch.forward_channel as int].full_off
            &&& m2.channels[ch.backward_channel as int].full_off
            &&& forall|k: int|
                k != ch.ref_channel as int && k != ch.forward_channel as int && k
                    != ch.backward_channel as int ==> m2.channels[k] == m.channels[k]
            &&& m2.enabled == m.enabled
            &&& m2.prescale == m.prescale
        }),
{
    let ch = spec_pwm_channels(c);
    let cs = spec_off_commands(c);
    assert(cs.drop_first() =~= seq![
        PwmCommand::ChannelFullOff { channel: ch.forward_channel },
        PwmCommand::ChannelFullOff { channel: ch.backward_channel },
    ]);
    lemma_apply_two(
        apply_command(m, cs[0]),
        PwmCommand::ChannelFullOff { channel: ch.forward_channel },
        PwmCommand::ChannelFullOff { channel: ch.backward_channel },
    );
}

/// Every motor's three lines are forced fully off.
pub open spec fn spec_all_motors_off(m: PwmState) -> bool {
    forall|c: MotorChannel|
        {
            let ch = #[trigger] spec_pwm_channels(c);
            &&& m.channels[ch.ref_channel as int].full_off
            &&& m.channels[ch.forward_channel as int].full_off
            &&& m.channels[ch.backward_channel as int].full_off
        }
}

/// After the full shutdown sequence, whatever the controller state before,
/// every motor's forward and backward channels read fully off (duty zero),
/// so do the reference channels, and the controller reports disabled.
pub proof fn lemma_stop_all_commands_effect(m: PwmState)
    ensures
        ({
            let m2 = apply_commands(m, spec_stop_all_commands());
            &&& spec_all_motors_off(m2)
            &&& !m2.enabled
            &&& forall|c: MotorChannel|
                {
                    let ch = #[trigger] spec_pwm_channels(c);
                    &&& channel_duty(m2, ch.ref_channel as int) == 0
                    &&& channel_duty(m2, ch.forward_channel as int) == 0
                    &&& channel_duty(m2, ch.backward_channel as int) == 0
                }
        }),
{
    let o1 = spec_off_commands(MotorChannel::Motor1);
    let o2 = spec_off_commands(MotorChannel::Motor2);
    let o3 = spec_off_commands(MotorChannel::Motor3);
    let o4 = spec_off_commands(MotorChannel::Motor4);
    let tail = seq![PwmCommand::Disable];
    let m1 = apply_commands(m, o1);
    let m2_ = apply_commands(m1, o2);
    let m3 = apply_commands(m2_, o3);
    let m4 = apply_commands(m3, o4);
    lemma_apply_concat(m, o1, o2 + o3 + o4 + tail);
    lemma_apply_concat(m1, o2, o3 + o4 + tail);
    lemma_apply_concat(m2_, o3, o4 + tail);
    lemma_apply_concat(m3, o4, tail);
    assert(o1 + o2 + o3 + o4 + tail =~= o1 + (o2 + (o3 + (o4 + tail))));
    assert(o2 + o3 + o4 + tail =~= o2 + (o3 + (o4 + tail)));
    assert(o3 + o4 + tail =~= o3 + (o4 + tail));
    lemma_off_commands_effect(m, MotorChannel::Motor1);
    lemma_off_commands_effect(m1, MotorChannel::Motor2);
    lemma_off_commands_effect(m2_, MotorChannel::Motor3);
    lemma_off_commands_effect(m3, MotorChannel::Motor4);
    lemma_apply_one(m4, PwmCommand::Disable);
    let mfinal = apply_commands(m, spec_stop_all_commands());
    assert(mfinal == apply_command(m4, PwmCommand::Disable));
    assert forall|c: MotorChannel|
        {
            let ch = #[trigger] spec_pwm_channels(c);
            &&& mfinal.channels[ch.ref_channel as int].full_off
            &&& mfinal.channels[ch.forward_channel as int].full_off
            &&& mfinal.channels[ch.backward_channel as int].full_off
        } by {
        match c {
            MotorChannel::Motor1 => {},
            MotorChannel::Motor2 => {},
            MotorChannel::Motor3 => {},
            MotorChannel::Motor4 => {},
        }
    }
}

#[verifier::external_type_specification]
#[verifier::external_body]
pub struct ExI2cdev(I2cdev);

#[verifier::external_type_specification]
#[verifier::external_body]
pub struct ExI2CError(I2CError);

#[verifier::external_type_specification]
#[verifier::external_body]
pub struct ExLinuxI2CError(LinuxI2CError);

#[verifier::external_type_specification]
#[verifier::external_body]
#[verifier::reject_recursive_types(I2C)]
pub struct ExPca9685<I2C>(Pca9685<I2C>);

#[verifier::external_type_specification]
#[verifier::external_body]
#[verifier::reject_recursive_types(E)]
pub struct ExPcaError<E>(pwm_pca9685::Error<E>);

/// Relies on linux_embedded_hal::I2cdev::new: opens the I2C device node at
/// the given path.
#[verifier::external_body]
fn open_i2c(path: &String) -> Result<I2cdev, LinuxI2CError> {
    I2cdev::new(path.as_str())
}

/// Relies on pwm_pca9685::Pca9685::new: constructs a driver for the chip at
/// the given bus address; an address reserved by the bus protocol is
/// rejected as invalid input.
#[verifier::external_body]
fn pca_new(dev: I2cdev, address: u8) -> Result<Pca9685<I2cdev>, pwm_pca9685::Error<I2CError>> {
    Pca9685::new(dev, address)
}

/// Relies on pwm_pca9685::Pca9685::enable: clears the chip's sleep bit so
/// PWM output runs.
#[verifier::external_body]
fn pca_enable(pwm: &mut Pca9685<I2cdev>) -> Result<(), pwm_pca9685::Error<I2CError>> {
    pwm.enable()
}

/// Relies on pwm_pca9685::Pca9685::disable: sets the chip's sleep bit so PWM
/// output stops.
#[verifier::external_body]
fn pca_disable(pwm: &mut Pca9685<I2cdev>) -> Result<(), pwm_pca9685::Error<I2CError>> {
    pwm.disable()
}

/// Relies on pwm_pca9685::Pca9685::set_prescale: writes the chip's clock
/// prescale register; a value below 3 is rejected as invalid input.
#[verifier::external_body]
fn pca_set_prescale(pwm: &mut Pca9685<I2cdev>, prescale: u8) -> Result<
    (),
    pwm_pca9685::Error<I2CError>,
>
    requires
        prescale >= 3,
{
    pwm.set_prescale(prescale)
}

/// Relies on pwm_pca9685::Pca9685::set_channel_on: writes the tick at which
/// the channel's pulse turns on; a tick above 4095 is rejected as invalid
/// input.
#[verifier::external_body]
fn pca_set_channel_on(pwm: &mut Pca9685<I2cdev>, channel: u8, tick: u16) -> Result<
    (),
    pwm_pca9685::Error<I2CError>,
>
    requires
        channel < 16,
        tick <= 4095,
{
    match Channel::try_from(channel) {
        Ok(ch) => pwm.set_channel_on(ch, tick),
        Err(_) => Ok(()),
    }
}

/// Relies on pwm_pca9685::Pca9685::set_channel_off: writes the tick at which
/// the channel's pulse turns off, clearing a previous full-off; a tick above
/// 4095 is rejected as invalid input.
#[verifier::external_body]
fn pca_set_channel_off(pwm: &mut Pca9685<I2cdev>, channel: u8, tick: u16) -> Result<
    (),
    pwm_pca9685::Error<I2CError>,
>
    requires
        channel < 16,
        tick <= 4095,
{
    match Channel::try_from(channel) {
        Ok(ch) => pwm.set_channel_off(ch, tick),
        Err(_) => Ok(()),
    }
}

/// Relies on pwm_pca9685::Pca9685::set_channel_full_off: forces the channel
/// fully off, whatever its pulse settings.
#[verifier::external_body]
fn pca_set_channel_full_off(pwm: &mut Pca9685<I2cdev>, channel: u8) -> Result<
    (),
    pwm_pca9685::Error<I2CError>,
>
    requires
        channel < 16,
{
    match Channel::try_from(channel) {
        Ok(ch) => pwm.set_channel_full_off(ch),
        Err(_) => Ok(()),
    }
}

/// Issue one command to the controller over the bus. A failure is an opaque
/// transport failure.
fn issue_command(pwm: &mut Pca9685<I2cdev>, cmd: &PwmCommand) -> (r: Result<(), MotorError>)
    requires
        spec_command_wf(*cmd),
    ensures
        r is Err ==> r == Err::<(), MotorError>(MotorError::Bus),
{
    let outcome = match *cmd {
        PwmCommand::ChannelOn { channel, tick } => pca_set_channel_on(pwm, channel, tick),
        PwmCommand::ChannelOff { channel, tick } => pca_set_channel_off(pwm, channel, tick),
        PwmCommand::ChannelFullOff { channel } => pca_set_channel_full_off(pwm, channel),
        PwmCommand::Enable => pca_enable(pwm),
        PwmCommand::Disable => pca_disable(pwm),
        PwmCommand::SetPrescale { value } => pca_set_prescale(pwm, value),
    };
    match outcome {
        Ok(()) => Ok(()),
        Err(_) => Err(MotorError::Bus),
    }
}

/// Issue a command sequence in order, stopping at the first bus failure.
fn issue_commands(pwm: &mut Pca9685<I2cdev>, cmds: &Vec<PwmCommand>) -> (r: Result<(), MotorError>)
    requires
        forall|i: int| 0 <= i < cmds@.len() ==> spec_command_wf(cmds@[i]),
    ensures
        r is Err ==> r == Err::<(), MotorError>(MotorError::Bus),
{
    let mut i: usize = 0;
    while i < cmds.len()
        invariant
            i <= cmds@.len(),
            forall|j: int| 0 <= j < cmds@.len() ==> spec_command_wf(cmds@[j]),
        decreases cmds@.len() - i,
    {
        match issue_command(pwm, &cmds[i]) {
            Ok(()) => (),
            Err(e) => {
                return Err(e);
            },
        }
        i = i + 1;
    }
    Ok(())
}

/// A reference to a single motor on the HAT, with its channel wiring
/// already initialized on the chip.
#[derive(Copy, Clone, Debug)]
struct Motor {
    channel: MotorChannel,
}

impl Motor {
    /// Initialize one motor: run the reference channel at full duty and
    /// start both drive channels neutral.
    fn new(pwm: &mut Pca9685<I2cdev>, channel: MotorChannel) -> (r: Result<Motor, MotorError>)
        ensures
            r matches Ok(motor) ==> motor.channel == channel,
            r is Err ==> r == Err::<Motor, MotorError>(MotorError::Bus),
    {
        let cmds = init_commands(channel);
        match issue_commands(pwm, &cmds) {
            Ok(()) => Ok(Motor { channel }),
            Err(_) => Err(MotorError::Bus),
        }
    }

    /// Set the speed of this motor, with a fixed-point value in [-1, 1]. An
    /// out-of-range speed fails validation and issues no channel write.
    fn set_speed(&self, pwm: &mut Pca9685<I2cdev>, speed: i32) -> (r: Result<(), MotorError>)
        ensures
            (r == Err::<(), MotorError>(MotorError::InvalidSpeed)) <==> (speed < -1000 || speed
                > 1000),
    {
        let cmds = match checked_speed_commands(self.channel, speed) {
            Ok(c) => c,
            Err(e) => {
                return Err(e);
            },
        };
        match issue_commands(pwm, &cmds) {
            Ok(()) => Ok(()),
            Err(_) => Err(MotorError::Bus),
        }
    }

}

/// Controller for Adafruit's Motor HAT board: owns the PWM chip connection
/// and drives up to four DC motors.
pub struct MotorHat {
    pwm: Pca9685<I2cdev>,
    motors: Vec<Motor>,
}

impl MotorHat {
    /// All four motors are initialized, in channel order.
    pub closed spec fn wf(self) -> bool {
        &&& self.motors@.len() == 4
        &&& self.motors@[0].channel == MotorChannel::Motor1
        &&& self.motors@[1].channel == MotorChannel::Motor2
        &&& self.motors@[2].channel == MotorChannel::Motor3
        &&& self.motors@[3].channel == MotorChannel::Motor4
    }

    /// Open the bus at the configured device and address, enable PWM output,
    /// set the drive frequency, and initialize every motor. Any failure here
    /// is fatal to initialization and is handed to the caller.
    pub fn new(config: &RobotConfig) -> (r: Result<MotorHat, MotorError>)
        ensures
            r matches Ok(hat) ==> hat.wf(),
            r is Err ==> r == Err::<MotorHat, MotorError>(MotorError::Bus),
    {
        let dev = match open_i2c(&config.general.i2c_device_path) {
            Ok(d) => d,
            Err(_) => {
                return Err(MotorError::Bus);
            },
        };
        let mut pwm = match pca_new(dev, config.drive.i2c_address) {
            Ok(p) => p,
            Err(_) => {
                return Err(MotorError::Bus);
            },
        };
        match pca_enable(&mut pwm) {
            Ok(()) => (),
            Err(_) => {
                return Err(MotorError::Bus);
            },
        }
        match pca_set_prescale(&mut pwm, DRIVE_PRESCALE) {
            Ok(()) => (),
            Err(_) => {
                return Err(MotorError::Bus);
            },
        }
        let channels = MotorChannel::all();
        let mut motors: Vec<Motor> = Vec::new();
        let mut i: usize = 0;
        while i < channels.len()
            invariant
                i <= channels@.len(),
                channels@ == seq![
                    MotorChannel::Motor1,
                    MotorChannel::Motor2,
                    MotorChannel::Motor3,
                    MotorChannel::Motor4,
                ],
                motors@.len() == i,
                forall|j: int| 0 <= j < i ==> motors@[j].channel == channels@[j],
            decreases channels@.len() - i,
        {
            let motor = match Motor::new(&mut pwm, channels[i]) {
                Ok(m) => m,
                Err(_) => {
                    return Err(MotorError::Bus);
                },
            };
            motors.push(motor);
            i = i + 1;
        }
        Ok(MotorHat { pwm, motors })
    }

    /// Set speed for a motor, with a fixed-point value in [-1, 1]. An
    /// out-of-range speed is a validation error and issues no channel write;
    /// a bus failure is reported as such.
    pub fn set_speed(&mut self, channel: MotorChannel, speed: i32) -> (r: Result<(), MotorError>)
        requires
            old(self).wf(),
        ensures
            final(self).wf(),
            (r == Err::<(), MotorError>(MotorError::InvalidSpeed)) <==> (speed < -1000 || speed
                > 1000),
    {
        let idx: usize = match channel {
            MotorChannel::Motor1 => 0,
            MotorChannel::Motor2 => 1,
            MotorChannel::Motor3 => 2,
            MotorChannel::Motor4 => 3,
        };
        let motor = self.motors[idx];
        motor.set_speed(&mut self.pwm, speed)
    }

    /// Stop every motor — all three channels of each forced fully off — then
    /// disable PWM output at the controller: the exact sequence
    /// `stop_all_commands` builds and `lemma_stop_all_commands_effect`
    /// describes. Must run before the process stops managing the robot, on
    /// every exit path.
    pub fn off(&mut self) -> (r: Result<(), MotorError>)
        requires
            old(self).wf(),
        ensures
            final(self).wf(),
            r is Err ==> r == Err::<(), MotorError>(MotorError::Bus),
    {
        let cmds = stop_all_commands();
        issue_commands(&mut self.pwm, &cmds)
    }
}

} // verus!
