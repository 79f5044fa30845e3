//! What the device and the API tell each other, and the device's settings.

use vstd::prelude::*;

verus! {

/// Settings of one device, as they were configured for it.
#[derive(Clone, Debug, PartialEq, Eq)]
pub struct EnvValues {
    pub app_version: String,
    pub wifi_ssid: String,
    pub wifi_pass: String,
    pub api_token_key: String,
    pub api_secret_token: String,
    pub api_base_url: String,
    pub device_type: String,
    pub device_name: String,
    pub device_id: String,
    pub device_location: String,
    pub failsafe_trigger_continuous_period_buzzer_beep_after_ms: String,
}

/// The value of a decimal digit.
pub open spec fn digit_value(c: char) -> nat {
    (c as u32 - '0' as u32) as nat
}

pub open spec fn is_digit(c: char) -> bool {
    '0' <= c <= '9'
}

/// The number that a run of decimal digits writes.
pub open spec fn decimal_value(digits: Seq<char>) -> nat
    decreases digits.len(),
{
    if digits.len() == 0 {
        0
    } else {
        10 * decimal_value(digits.drop_last()) + digit_value(digits.last())
    }
}

/// The digits of a number text: the text itself, without a plus sign in front
/// of it.
pub open spec fn digits_of(text: Seq<char>) -> Seq<char> {
    if text.len() > 0 && text[0] == '+' {
        text.skip(1)
    } else {
        text
    }
}

/// The number that `text` writes in decimal, if it writes one that fits 64
/// bits: digits, at least one, with at most a plus sign before them.
pub open spec fn parse_millis(text: Seq<char>) -> Option<u64> {
    let digits = digits_of(text);
    if digits.len() > 0 && (forall|i: int| 0 <= i < digits.len() ==> is_digit(#[trigger] digits[i]))
        && decimal_value(digits) <= u64::MAX {
        Some(decimal_value(digits) as u64)
    } else {
        None
    }
}

/// More digits write a number that is no smaller.
proof fn lemma_decimal_value_grows(digits: Seq<char>, n: int)
    requires
        0 <= n <= digits.len(),
    ensures
        decimal_value(digits.take(n)) <= decimal_value(digits),
    decreases digits.len() - n,
{
    if n < digits.len() {
        assert(digits.take(n + 1).drop_last() =~= digits.take(n));
        lemma_decimal_value_grows(digits, n + 1);
    } else {
        assert(digits.take(n) =~= digits);
    }
}

impl EnvValues {
    /// After how many milliseconds without a beep the buzzer is switched on
    /// for good, read from the setting of that name; `None` where the setting
    /// is not a number of 64 bits.
    pub fn failsafe_trigger_continuous_period_buzzer_beep_after_ms(&self) -> (ms: Option<u64>)
        ensures
            ms == parse_millis(self.failsafe_trigger_continuous_period_buzzer_beep_after_ms@),
    {
        let text = self.failsafe_trigger_continuous_period_buzzer_beep_after_ms.as_str();
        let len: usize = text.unicode_len();
        let mut i: usize = 0;
        if len > 0 && text.get_char(0) == '+' {
            i = 1;
        }
        let start: usize = i;
        let ghost digits = digits_of(text@);
        assert(digits =~= text@.skip(start as int));
        if i == len {
            return None;
        }
        let mut value: u64 = 0;
        assert(digits.take(0) =~= Seq::<char>::empty());
        while i < len
            invariant
                start <= i <= len,
                start <= 1,
                len == text@.len(),
                text@ == self.failsafe_trigger_continuous_period_buzzer_beep_after_ms@,
                digits == digits_of(text@),
                digits == text@.skip(start as int),
                forall|j: int| 0 <= j < i - start ==> is_digit(#[trigger] digits[j]),
                value == decimal_value(digits.take(i - start)),
            decreases len - i,
        {
            let c: char = text.get_char(i);
            assert(c == digits[i - start]);
            if !('0' <= c && c <= '9') {
                assert(!is_digit(digits[i - start]));
                return None;
            }
            let d: u64 = (c as u32 - '0' as u32) as u64;
            proof {
                let longer = digits.take(i - start + 1);
                assert(longer.drop_last() =~= digits.take(i - start));
                assert(longer.last() == c);
                assert(decimal_value(longer) == 10 * value + d);
                lemma_decimal_value_grows(digits, i - start + 1);
            }
            if value > (u64::MAX - d) / 10 {
                return None;
            }
            value = value * 10 + d;
            i = i + 1;
        }
        assert(digits.take(len - start) =~= digits);
        Some(value)
    }
}

#[derive(Clone, Copy, Debug, PartialEq, Eq, Structural)]
pub struct Health {
    pub is_health_ok: bool,
}

/// Envelope of a successful response.
#[derive(Clone, Debug, PartialEq, Eq)]
pub struct SiriusProximaSuccessResponse<T> {
    pub status_code: u16,
    pub message: Option<String>,
    pub data: T,
    pub success: bool,
}

/// Envelope of an error response.
#[derive(Clone, Debug, PartialEq, Eq)]
pub struct SiriusProximaErrorResponse {
    pub status_code: u16,
    pub message: Option<String>,
    pub success: bool,
    pub error: Option<String>,
}

/// What the device drives.
#[derive(Clone, Copy, Debug, PartialEq, Eq, Structural)]
pub enum DeviceType {
    RoofWaterHeater,
    BoreWellMotor,
    GroundWellMotor,
}

pub const ROOF_WATER_HEATER: &'static str = "roof_water_heater";

pub const BORE_WELL_MOTOR: &'static str = "bore_well_motor";

pub const GROUND_WELL_MOTOR: &'static str = "ground_well_motor";

/// A device type was named that does not exist.
#[derive(Clone, Copy, Debug, PartialEq, Eq, Structural)]
pub struct UnknownDeviceType;

impl DeviceType {
    /// The name of the type in settings and on the wire.
    pub open spec fn spec_name(self) -> Seq<char> {
        match self {
            DeviceType::RoofWaterHeater => ROOF_WATER_HEATER@,
            DeviceType::BoreWellMotor => BORE_WELL_MOTOR@,
            DeviceType::GroundWellMotor => GROUND_WELL_MOTOR@,
        }
    }

    /// The name of the type in settings and on the wire.
    pub fn name(self) -> (name: &'static str)
        ensures
            name@ == self.spec_name(),
    {
        match self {
            DeviceType::RoofWaterHeater => ROOF_WATER_HEATER,
            DeviceType::BoreWellMotor => BORE_WELL_MOTOR,
            DeviceType::GroundWellMotor => GROUND_WELL_MOTOR,
        }
    }

    /// The type of that name.
    pub open spec fn named(name: Seq<char>) -> Option<DeviceType> {
        if name == ROOF_WATER_HEATER@ {
            Some(DeviceType::RoofWaterHeater)
        } else if name == BORE_WELL_MOTOR@ {
            Some(DeviceType::BoreWellMotor)
        } else if name == GROUND_WELL_MOTOR@ {
            Some(DeviceType::GroundWellMotor)
        } else {
            None
        }
    }

    /// The type that `s` names, letter for letter.
    pub fn from_str(s: &str) -> (r: Result<DeviceType, UnknownDeviceType>)
        ensures
            match r {
                Ok(device_type) => Self::named(s@) == Some(device_type),
                Err(_) => Self::named(s@) is None,
            },
    {
        let given = s.to_owned();
        if given == ROOF_WATER_HEATER.to_owned() {
            Ok(DeviceType::RoofWaterHeater)
        } else if given == BORE_WELL_MOTOR.to_owned() {
            Ok(DeviceType::BoreWellMotor)
        } else if given == GROUND_WELL_MOTOR.to_owned() {
            Ok(DeviceType::GroundWellMotor)
        } else {
            Err(UnknownDeviceType)
        }
    }
}

/// Model name reported for a chip that did not tell its model.
pub const UNKNOWN_MODEL: &'static str = "Unknown";

/// What a device says of itself in a ping.
#[derive(Clone, Debug, PartialEq, Eq)]
pub struct DeviceDetails {
    pub device_name: String,
    pub model: String,
    pub device_id: String,
    pub device_location: String,
    pub revision: u8,
    pub app_version: String,
    pub is_first_ping_after_device_turned_on: bool,
}

impl DeviceDetails {
    /// Whether these are the details of the device with settings `env`, on a
    /// chip of the given model and revision: name, id, location and version
    /// as configured, and the chip's model, or `Unknown` for a chip that does
    /// not tell it.
    pub open spec fn describes(
        self,
        env: &EnvValues,
        chip_model: Option<String>,
        chip_revision: u8,
        is_first_ping_after_device_turned_on: bool,
    ) -> bool {
        &&& self.device_name == env.device_name
        &&& self.device_id == env.device_id
        &&& self.device_location == env.device_location
        &&& self.app_version == env.app_version
        &&& self.model@ == match chip_model {
            Some(model) => model@,
            None => UNKNOWN_MODEL@,
        }
        &&& self.revision == chip_revision
        &&& self.is_first_ping_after_device_turned_on == is_first_ping_after_device_turned_on
    }

    /// The details of the device with settings `env`, on a chip of the given
    /// model and revision.
    pub fn new(
        env: &EnvValues,
        chip_model: Option<String>,
        chip_revision: u8,
        is_first_ping_after_device_turned_on: bool,
    ) -> (details: Self)
        ensures
            details.describes(env, chip_model, chip_revision, is_first_ping_after_device_turned_on),
    {
        let model = match chip_model {
            Some(model) => model,
            None => UNKNOWN_MODEL.to_owned(),
        };
        DeviceDetails {
            device_name: env.device_name.clone(),
            device_id: env.device_id.clone(),
            device_location: env.device_location.clone(),
            app_version: env.app_version.clone(),
            model,
            revision: chip_revision,
            is_first_ping_after_device_turned_on,
        }
    }
}

/// A device, in a ping.
#[derive(Clone, Debug, PartialEq, Eq)]
pub struct Device {
    pub device_type: DeviceType,
    pub details: DeviceDetails,
}

impl Device {
    /// The device with settings `env`; refused where the settings name no
    /// device type.
    pub fn new(
        env: &EnvValues,
        chip_model: Option<String>,
        chip_revision: u8,
        is_first_ping_after_device_turned_on: bool,
    ) -> (r: Result<Self, UnknownDeviceType>)
        ensures
            match r {
                Ok(device) => DeviceType::named(env.device_type@) == Some(device.device_type)
                    && device.details.describes(
                    env,
                    chip_model,
                    chip_revision,
                    is_first_ping_after_device_turned_on,
                ),
                Err(_) => DeviceType::named(env.device_type@) is None,
            },
    {
        let device_type = match DeviceType::from_str(env.device_type.as_str()) {
            Ok(device_type) => device_type,
            Err(e) => {
                return Err(e);
            },
        };
        Ok(
            Device {
                device_type,
                details: DeviceDetails::new(
                    env,
                    chip_model,
                    chip_revision,
                    is_first_ping_after_device_turned_on,
                ),
            },
        )
    }
}

/// Body of a ping.
#[derive(Clone, Debug, PartialEq, Eq)]
pub struct SiriusProximaPing {
    pub device_type: DeviceType,
    pub device: Device,
}

impl SiriusProximaPing {
    /// The ping of the device with settings `env`; refused where the settings
    /// name no device type.
    pub fn new(
        env: &EnvValues,
        chip_model: Option<String>,
        chip_revision: u8,
        is_first_ping_after_device_turned_on: bool,
    ) -> (r: Result<Self, UnknownDeviceType>)
        ensures
            match r {
                Ok(ping) => DeviceType::named(env.device_type@) == Some(ping.device_type)
                    && ping.device.device_type == ping.device_type
                    && ping.device.details.describes(
                    env,
                    chip_model,
                    chip_revision,
                    is_first_ping_after_device_turned_on,
                ),
                Err(_) => DeviceType::named(env.device_type@) is None,
            },
    {
        let device = match Device::new(
            env,
            chip_model,
            chip_revision,
            is_first_ping_after_device_turned_on,
        ) {
            Ok(device) => device,
            Err(e) => {
                return Err(e);
            },
        };
        Ok(SiriusProximaPing { device_type: device.device_type, device })
    }
}

/// What the device says of itself when it is asked.
#[derive(Clone, Debug, PartialEq, Eq)]
pub struct SAlphaDeviceDetails {
    pub device_name: String,
    pub model: String,
    pub device_id: String,
    pub device_location: String,
    pub device_sdk: String,
    pub app_version: String,
}

} // verus!
