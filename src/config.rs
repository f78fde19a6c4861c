use crate::error::FanshimError;
use crate::{celsius_fits, MilliCelsius};
use vstd::prelude::*;

verus! {

/// The `[general]` section of the configuration file.
#[derive(Debug, Clone, Copy, PartialEq, Eq, Structural)]
pub struct General {
    pub milliseconds_delay_between_readings: u64,
    pub number_of_readings_before_action: i32,
    pub output_debug_messages: bool,
}

impl Default for General {
    fn default() -> (r: Self)
        ensures
            r.milliseconds_delay_between_readings == 500,
            r.number_of_readings_before_action == 3,
            r.output_debug_messages == false,
    {
        General {
            milliseconds_delay_between_readings: 500,
            number_of_readings_before_action: 3,
            output_debug_messages: false,
        }
    }
}

/// The `[fan]` section: thresholds in whole degrees Celsius.
#[derive(Debug, Clone, Copy, PartialEq, Eq, Structural)]
pub struct Fan {
    pub enable_fan_at_degrees_celsius: i32,
    pub disable_fan_at_degrees_celsius: i32,
}

impl Default for Fan {
    fn default() -> (r: Self)
        ensures
            r.enable_fan_at_degrees_celsius == 65,
            r.disable_fan_at_degrees_celsius == 55,
    {
        Fan { enable_fan_at_degrees_celsius: 65, disable_fan_at_degrees_celsius: 55 }
    }
}

/// The `[led.fan_status]` section: indicator colours for a running and a
/// stopped fan.
#[derive(Debug, Clone, Copy, PartialEq, Eq)]
pub struct LedFanStatus {
    pub led_on_color: (u8, u8, u8),
    pub led_off_color: (u8, u8, u8),
}

impl Default for LedFanStatus {
    fn default() -> (r: Self)
        ensures
            r.led_on_color == (255u8, 0u8, 0u8),
            r.led_off_color == (0u8, 255u8, 0u8),
    {
        LedFanStatus { led_on_color: (255, 0, 0), led_off_color: (0, 255, 0) }
    }
}

/// The `[led]` section. Brightness is held in percent: 0 is dark, 100 is
/// full intensity.
#[derive(Debug, Clone, Copy, PartialEq, Eq)]
pub struct Led {
    pub led_brightness_percent: u8,
    pub fan_status: LedFanStatus,
}

impl Default for Led {
    fn default() -> (r: Self)
        ensures
            r.led_brightness_percent == 10,
            r.fan_status.led_on_color == (255u8, 0u8, 0u8),
            r.fan_status.led_off_color == (0u8, 255u8, 0u8),
    {
        Led { led_brightness_percent: 10, fan_status: LedFanStatus::default() }
    }
}

/// The `[led.temperature_status]` section: the temperature range that a
/// temperature-coloured indicator would span. The controller does not use it.
#[derive(Debug, Clone, Copy, PartialEq, Eq, Structural)]
pub struct LedTemperatureStatus {
    led_low_temperature_celsius: i32,
    led_high_temperature_celsius: i32,
}

impl LedTemperatureStatus {
    pub closed spec fn low_spec(&self) -> i32 {
        self.led_low_temperature_celsius
    }

    pub closed spec fn high_spec(&self) -> i32 {
        self.led_high_temperature_celsius
    }
}

impl LedTemperatureStatus {
    /// The temperature, in whole degrees Celsius, shown as coldest.
    pub fn led_low_temperature_celsius(&self) -> (r: i32)
        ensures
            r == self.low_spec(),
    {
        self.led_low_temperature_celsius
    }

    /// The temperature, in whole degrees Celsius, shown as hottest.
    pub fn led_high_temperature_celsius(&self) -> (r: i32)
        ensures
            r == self.high_spec(),
    {
        self.led_high_temperature_celsius
    }
}

impl Default for LedTemperatureStatus {
    fn default() -> (r: Self)
        ensures
            r.low_spec() == 32,
            r.high_spec() == 80,
    {
        LedTemperatureStatus { led_low_temperature_celsius: 32, led_high_temperature_celsius: 80 }
    }
}

/// The configuration file as written by the user, with every missing field
/// already filled in from the defaults.
#[derive(Debug, Clone, Copy, PartialEq, Eq)]
pub struct FanshimInterimConfig {
    pub fan: Fan,
    pub general: General,
    pub led: Led,
}

impl Default for FanshimInterimConfig {
    fn default() -> (r: Self)
        ensures
            r.fan == (Fan { enable_fan_at_degrees_celsius: 65, disable_fan_at_degrees_celsius: 55 }),
            r.general == (General {
                milliseconds_delay_between_readings: 500,
                number_of_readings_before_action: 3,
                output_debug_messages: false,
            }),
            r.led == (Led {
                led_brightness_percent: 10,
                fan_status: LedFanStatus {
                    led_on_color: (255u8, 0u8, 0u8),
                    led_off_color: (0u8, 255u8, 0u8),
                },
            }),
    {
        FanshimInterimConfig {
            fan: Fan::default(),
            general: General::default(),
            led: Led::default(),
        }
    }
}

/// The normalised runtime configuration that the controller reads.
#[derive(Debug, Clone, Copy, PartialEq, Eq)]
pub struct FanshimConfig {
    pub delay_between_readings_ms: u64,
    pub number_of_readings_before_action: i32,
    pub output_debug_messages: bool,
    pub enable_fan_at_temperature: MilliCelsius,
    pub disable_fan_at_temperature: MilliCelsius,
    pub led_brightness_percent: u8,
    pub led_on_color: (u8, u8, u8),
    pub led_off_color: (u8, u8, u8),
}

/// The configuration that `f` describes, where both of its thresholds can be
/// held in milli-Celsius: every value is carried over, and the thresholds are
/// multiplied by 1000.
pub open spec fn normalized(f: FanshimInterimConfig) -> FanshimConfig {
    FanshimConfig {
        delay_between_readings_ms: f.general.milliseconds_delay_between_readings,
        number_of_readings_before_action: f.general.number_of_readings_before_action,
        output_debug_messages: f.general.output_debug_messages,
        enable_fan_at_temperature: MilliCelsius((f.fan.enable_fan_at_degrees_celsius * 1000) as i32),
        disable_fan_at_temperature: MilliCelsius(
            (f.fan.disable_fan_at_degrees_celsius * 1000) as i32,
        ),
        led_brightness_percent: f.led.led_brightness_percent,
        led_on_color: f.led.fan_status.led_on_color,
        led_off_color: f.led.fan_status.led_off_color,
    }
}

/// True when both thresholds of `f` can be held in milli-Celsius.
pub open spec fn thresholds_fit(f: FanshimInterimConfig) -> bool {
    &&& celsius_fits(f.fan.enable_fan_at_degrees_celsius as int)
    &&& celsius_fits(f.fan.disable_fan_at_degrees_celsius as int)
}

/// The built-in configuration, used where no configuration file can be read.
pub open spec fn builtin_config() -> FanshimConfig {
    FanshimConfig {
        delay_between_readings_ms: 500,
        number_of_readings_before_action: 3,
        output_debug_messages: false,
        enable_fan_at_temperature: MilliCelsius(65000),
        disable_fan_at_temperature: MilliCelsius(55000),
        led_brightness_percent: 10,
        led_on_color: (255u8, 0u8, 0u8),
        led_off_color: (0u8, 255u8, 0u8),
    }
}

impl FanshimConfig {
    /// Builds the runtime configuration from the file's values. Fails with
    /// `ConfigParseError` exactly when a threshold, multiplied by 1000, does
    /// not fit in an `i32`.
    pub fn from_interim(f: &FanshimInterimConfig) -> (r: Result<FanshimConfig, FanshimError>)
        ensures
            thresholds_fit(*f) ==> r == Ok::<FanshimConfig, FanshimError>(normalized(*f)),
            !thresholds_fit(*f) ==> r == Err::<FanshimConfig, FanshimError>(
                FanshimError::ConfigParseError,
            ),
    {
        let enable = match MilliCelsius::from_celsius(f.fan.enable_fan_at_degrees_celsius) {
            Some(m) => m,
            None => return Err(FanshimError::ConfigParseError),
        };
        let disable = match MilliCelsius::from_celsius(f.fan.disable_fan_at_degrees_celsius) {
            Some(m) => m,
            None => return Err(FanshimError::ConfigParseError),
        };
        Ok(
            FanshimConfig {
                delay_between_readings_ms: f.general.milliseconds_delay_between_readings,
                number_of_readings_before_action: f.general.number_of_readings_before_action,
                output_debug_messages: f.general.output_debug_messages,
                enable_fan_at_temperature: enable,
                disable_fan_at_temperature: disable,
                led_brightness_percent: f.led.led_brightness_percent,
                led_on_color: f.led.fan_status.led_on_color,
                led_off_color: f.led.fan_status.led_off_color,
            },
        )
    }
}

impl Default for FanshimConfig {
    fn default() -> (r: Self)
        ensures
            r == builtin_config(),
    {
        FanshimConfig {
            delay_between_readings_ms: 500,
            number_of_readings_before_action: 3,
            output_debug_messages: false,
            enable_fan_at_temperature: MilliCelsius(65000),
            disable_fan_at_temperature: MilliCelsius(55000),
            led_brightness_percent: 10,
            led_on_color: (255, 0, 0),
            led_off_color: (0, 255, 0),
        }
    }
}

/// Normalising a configuration multiplies each threshold by 1000 and nothing
/// else, so dividing the stored value by 1000 gives back the whole degrees
/// exactly, with no remainder.
pub proof fn lemma_threshold_round_trip(f: FanshimInterimConfig)
    requires
        thresholds_fit(f),
    ensures
        normalized(f).enable_fan_at_temperature.0 == f.fan.enable_fan_at_degrees_celsius * 1000,
        normalized(f).disable_fan_at_temperature.0 == f.fan.disable_fan_at_degrees_celsius * 1000,
        normalized(f).enable_fan_at_temperature.0 / 1000 == f.fan.enable_fan_at_degrees_celsius,
        normalized(f).enable_fan_at_temperature.0 % 1000 == 0,
        normalized(f).disable_fan_at_temperature.0 / 1000 == f.fan.disable_fan_at_degrees_celsius,
        normalized(f).disable_fan_at_temperature.0 % 1000 == 0,
{
    let e = f.fan.enable_fan_at_degrees_celsius as int;
    let d = f.fan.disable_fan_at_degrees_celsius as int;
    assert((e * 1000) / 1000 == e && (e * 1000) % 1000 == 0) by (nonlinear_arith);
    assert((d * 1000) / 1000 == d && (d * 1000) % 1000 == 0) by (nonlinear_arith);
}

} // verus!
