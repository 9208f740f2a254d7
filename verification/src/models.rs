//! Plain data shared by every card: vendors, modes and status records.

use vstd::prelude::*;
use std::time::Duration;
use crate::clock::{duration_from_nanos, zero_duration};

verus! {

/// The card makers this library knows.
#[derive(Debug, Clone, Copy, PartialEq, Eq, Hash, Structural)]
pub enum CardVendor {
    /// Leadshine.
    Leisai,
    /// Googol.
    Googol,
    /// Advantech.
    Advantech,
    /// A simulated card, for work without hardware.
    Mock,
}

/// The name under which a vendor's card is registered in a factory.
pub open spec fn spec_registry_key(vendor: CardVendor) -> Seq<char> {
    match vendor {
        CardVendor::Leisai => "Leisai"@,
        CardVendor::Googol => "Googol"@,
        CardVendor::Advantech => "Advantech"@,
        CardVendor::Mock => "Mock"@,
    }
}

/// The vendor's name as it is shown to people.
pub open spec fn spec_display_name(vendor: CardVendor) -> Seq<char> {
    match vendor {
        CardVendor::Leisai => "雷赛 Leadshine"@,
        CardVendor::Googol => "固高 Googol"@,
        CardVendor::Advantech => "研华 Advantech"@,
        CardVendor::Mock => "模拟 Mock"@,
    }
}

impl CardVendor {
    /// The name under which this vendor's card is registered in a factory.
    pub fn registry_key(&self) -> (r: &'static str)
        ensures
            r@ == spec_registry_key(*self),
    {
        match self {
            CardVendor::Leisai => "Leisai",
            CardVendor::Googol => "Googol",
            CardVendor::Advantech => "Advantech",
            CardVendor::Mock => "Mock",
        }
    }

    /// The vendor's name as it is shown to people.
    pub fn display_name(&self) -> (r: &'static str)
        ensures
            r@ == spec_display_name(*self),
    {
        match self {
            CardVendor::Leisai => "雷赛 Leadshine",
            CardVendor::Googol => "固高 Googol",
            CardVendor::Advantech => "研华 Advantech",
            CardVendor::Mock => "模拟 Mock",
        }
    }
}

/// How an axis returns to its origin.
#[derive(Debug, Clone, Copy, PartialEq, Eq, Structural)]
pub enum HomeMode {
    /// Automatic homing.
    Auto,
    /// Homing on the positive limit switch.
    PositiveLimit,
    /// Homing on the negative limit switch.
    NegativeLimit,
    /// Homing on the encoder's Z signal.
    EncoderZ,
}

/// How an axis stops.
#[derive(Debug, Clone, Copy, PartialEq, Eq, Structural)]
pub enum StopMode {
    /// Stop at once (emergency stop).
    Immediate,
    /// Decelerate to a stop.
    Decelerate,
}

/// The signals of one axis.
#[derive(Debug, Clone, Copy)]
pub struct AxisStatus {
    /// The axis is ready.
    pub is_ready: bool,
    /// The axis is homing.
    pub is_homing: bool,
    /// The positive limit switch is hit.
    pub is_limit_positive: bool,
    /// The negative limit switch is hit.
    pub is_limit_negative: bool,
    /// The servo is on.
    pub is_servo_on: bool,
    /// The axis reports an alarm.
    pub is_alarm: bool,
}

impl Default for AxisStatus {
    fn default() -> (r: Self)
        ensures
            !r.is_ready && !r.is_homing && !r.is_limit_positive && !r.is_limit_negative
                && !r.is_servo_on && !r.is_alarm,
    {
        AxisStatus {
            is_ready: false,
            is_homing: false,
            is_limit_positive: false,
            is_limit_negative: false,
            is_servo_on: false,
            is_alarm: false,
        }
    }
}

/// The status of an axis whose servo is `enabled`, whose alarm is `alarm`
/// and whose limit switches read `limit_positive` and `limit_negative`: it
/// is ready when it is enabled and not in alarm, and never homing.
pub open spec fn axis_status_of(
    enabled: bool,
    alarm: bool,
    limit_positive: bool,
    limit_negative: bool,
) -> AxisStatus {
    AxisStatus {
        is_ready: enabled && !alarm,
        is_homing: false,
        is_limit_positive: limit_positive,
        is_limit_negative: limit_negative,
        is_servo_on: enabled,
        is_alarm: alarm,
    }
}

/// Whatever the signals, an axis reported ready has its servo on and no
/// alarm, and no axis is reported homing.
pub proof fn law_ready_axis_is_on_without_alarm(
    enabled: bool,
    alarm: bool,
    limit_positive: bool,
    limit_negative: bool,
)
    ensures
        axis_status_of(enabled, alarm, limit_positive, limit_negative).is_ready ==> axis_status_of(
            enabled,
            alarm,
            limit_positive,
            limit_negative,
        ).is_servo_on && !axis_status_of(enabled, alarm, limit_positive, limit_negative).is_alarm,
        !axis_status_of(enabled, alarm, limit_positive, limit_negative).is_homing,
{
}

/// Different vendors are registered under different keys, so each vendor's
/// card is looked up in an entry of its own.
pub proof fn law_registry_keys_distinct(a: CardVendor, b: CardVendor)
    requires
        a != b,
    ensures
        spec_registry_key(a) != spec_registry_key(b),
{
    reveal_strlit("Leisai");
    reveal_strlit("Googol");
    reveal_strlit("Advantech");
    reveal_strlit("Mock");
    if spec_registry_key(a) == spec_registry_key(b) {
        assert(spec_registry_key(a)[0] == spec_registry_key(b)[0]);
    }
}

impl AxisStatus {
    /// The status of an axis whose servo is `enabled`, whose alarm is
    /// `alarm` and whose limit switches read `limit_positive` and
    /// `limit_negative`: it is ready when it is enabled and not in alarm,
    /// and it is never reported as homing.
    pub fn from_signals(enabled: bool, alarm: bool, limit_positive: bool, limit_negative: bool) -> (r:
        Self)
        ensures
            r == axis_status_of(enabled, alarm, limit_positive, limit_negative),
    {
        AxisStatus {
            is_ready: enabled && !alarm,
            is_homing: false,
            is_limit_positive: limit_positive,
            is_limit_negative: limit_negative,
            is_servo_on: enabled,
            is_alarm: alarm,
        }
    }
}

/// The state of a card as its users see it.
#[derive(Debug)]
pub struct CardStatus {
    /// Whether the card is initialized.
    pub is_initialized: bool,
    /// How many SDK calls have failed.
    pub error_count: u32,
    /// The message of the last failure.
    pub last_error: String,
    /// Time since the card was initialized.
    pub uptime: Duration,
}

impl Default for CardStatus {
    fn default() -> (r: Self)
        ensures
            !r.is_initialized,
            r.error_count == 0,
            r.last_error@ == Seq::<char>::empty(),
            r.uptime == duration_from_nanos(0),
    {
        CardStatus {
            is_initialized: false,
            error_count: 0,
            last_error: String::new(),
            uptime: zero_duration(),
        }
    }
}

} // verus!
