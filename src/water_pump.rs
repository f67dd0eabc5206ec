use vstd::prelude::*;

use crate::readings::StatusPayload;

verus! {

/// Model name under which the pump is registered with the host.
pub const WATER_PUMP_MODEL: &'static str = "water_pump";

/// Full power in either direction, as a count of millionths of full power.
pub const FULL_POWER: i64 = 1_000_000;

/// A power request limited to `[-FULL_POWER, FULL_POWER]`.
pub open spec fn clamped_power(power: int) -> int {
    if power > FULL_POWER {
        FULL_POWER as int
    } else if power < -FULL_POWER {
        -FULL_POWER
    } else {
        power
    }
}

/// Limits a power request to `[-FULL_POWER, FULL_POWER]`.
pub fn clamp_power(power: i64) -> (r: i64)
    ensures
        r == clamped_power(power as int),
{
    if power > FULL_POWER {
        FULL_POWER
    } else if power < -FULL_POWER {
        -FULL_POWER
    } else {
        power
    }
}

/// One level to put on one GPIO pin of the board.
#[derive(Clone, Copy, Debug, PartialEq, Eq, Structural)]
pub struct PinWrite {
    pub pin: i32,
    pub high: bool,
}

/// What went wrong while building a pump from its configuration.
#[derive(Clone, Debug)]
pub enum ConfigError {
    /// A required attribute was not given.
    MissingAttribute(String),
}

/// What the pump cannot do.
#[derive(Clone, Copy, Debug, PartialEq, Eq, Structural)]
pub enum MotorError {
    /// The pump has no position feedback.
    PositionUnsupported,
    /// The pump has no closed-loop motion control.
    GoForUnsupported,
}

/// Capabilities the pump offers to the host.
#[derive(Clone, Copy, Debug, PartialEq, Eq, Structural)]
pub struct MotorProperties {
    pub position_reporting: bool,
}

/// A water pump on one GPIO pin, with an optional indicator LED on another.
///
/// The pump is an on/off actuator: only the sign of the requested power is used.
#[derive(Clone, Copy, Debug, PartialEq, Eq, Structural)]
pub struct WaterPump {
    pub pin: i32,
    pub led: Option<i32>,
}

impl WaterPump {
    /// Whether a power request switches the pump on.
    pub open spec fn switched_on(power: int) -> bool {
        clamped_power(power) > 0
    }

    /// The pin writes that a power request amounts to: the pump's pin first,
    /// then the LED's pin when there is one, both at the same level.
    pub open spec fn power_plan(self, power: int) -> Seq<PinWrite> {
        let high = Self::switched_on(power);
        let main = seq![PinWrite { pin: self.pin, high }];
        match self.led {
            Some(led) => main.push(PinWrite { pin: led, high }),
            None => main,
        }
    }

    /// Builds a pump from its `pin` attribute, which is required, and its `led`
    /// attribute, whose absence leaves the LED out.
    pub fn from_config(pin: Option<i32>, led: Option<i32>) -> (r: Result<WaterPump, ConfigError>)
        ensures
            pin is None <==> r is Err,
            r matches Err(ConfigError::MissingAttribute(name)) ==> name@ == "pin"@,
            r matches Ok(pump) ==> pump.pin == pin->Some_0 && pump.led == led,
    {
        match pin {
            Some(pin) => Ok(WaterPump { pin, led }),
            None => Err(ConfigError::MissingAttribute("pin".to_owned())),
        }
    }

    /// The pin writes that drive the pump (and its LED) for a power request
    /// given in millionths of full power; they are to be carried out in order.
    pub fn set_power(&self, power: i64) -> (r: Vec<PinWrite>)
        ensures
            r@ == self.power_plan(power as int),
    {
        let high = clamp_power(power) > 0;
        let mut writes: Vec<PinWrite> = Vec::new();
        writes.push(PinWrite { pin: self.pin, high });
        match self.led {
            Some(led) => {
                writes.push(PinWrite { pin: led, high });
            },
            None => {},
        }
        assert(writes@ =~= self.power_plan(power as int));
        writes
    }

    /// The pin writes that switch the pump off: the same as a request of zero power.
    pub fn stop(&self) -> (r: Vec<PinWrite>)
        ensures
            r@ == self.power_plan(0),
    {
        self.set_power(0)
    }

    /// The pump cannot report a position.
    pub fn get_position(&self) -> (r: Result<i32, MotorError>)
        ensures
            r == Err::<i32, MotorError>(MotorError::PositionUnsupported),
    {
        Err(MotorError::PositionUnsupported)
    }

    /// The pump cannot run for a number of revolutions, whatever the speed
    /// and revolutions asked for (both in millionths); a motor that could would
    /// answer with the time the motion takes, in milliseconds, if known.
    pub fn go_for(&self, _rpm: i64, _revolutions: i64) -> (r: Result<Option<u64>, MotorError>)
        ensures
            r == Err::<Option<u64>, MotorError>(MotorError::GoForUnsupported),
    {
        Err(MotorError::GoForUnsupported)
    }

    pub fn get_properties(&self) -> (r: MotorProperties)
        ensures
            !r.position_reporting,
    {
        MotorProperties { position_reporting: false }
    }

    pub fn get_status(&self) -> (r: StatusPayload)
        ensures
            r@.len() == 0,
    {
        StatusPayload::empty()
    }
}

/// A positive power request drives the pump's pin high, and a request of zero
/// or less drives it low; the LED, when there is one, follows the pump's pin.
pub proof fn lemma_power_sign_sets_level(pump: WaterPump, power: int)
    ensures
        pump.power_plan(power)[0] == (PinWrite { pin: pump.pin, high: power > 0 }),
        pump.led is Some ==> pump.power_plan(power).len() == 2 && pump.power_plan(power)[1]
            == (PinWrite { pin: pump.led->Some_0, high: power > 0 }),
{
}

/// Requests beyond full power act as full power, in either direction.
pub proof fn lemma_power_beyond_full_is_clamped(pump: WaterPump, power: int)
    ensures
        power >= FULL_POWER ==> pump.power_plan(power) == pump.power_plan(FULL_POWER as int),
        power <= -FULL_POWER ==> pump.power_plan(power) == pump.power_plan(-FULL_POWER),
{
}

/// Stopping drives the pump's pin, and the LED's pin when there is one, low.
pub proof fn lemma_stop_drives_all_low(pump: WaterPump)
    ensures
        forall|i: int|
            0 <= i < pump.power_plan(0).len() ==> !(#[trigger] pump.power_plan(0)[i]).high,
        pump.power_plan(0).len() == (if pump.led is Some { 2int } else { 1int }),
{
}

/// A pump built without an LED only ever writes its own pin.
pub proof fn lemma_no_led_writes_only_pump_pin(pump: WaterPump, power: int)
    requires
        pump.led is None,
    ensures
        pump.power_plan(power).len() == 1,
        pump.power_plan(power)[0].pin == pump.pin,
{
}

} // verus!
