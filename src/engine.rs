//! The controller, written against the [`ShimLayer`] capability alone.
use crate::config::FanshimConfig;
use crate::debounce::{decide, DebounceCounters, FanAction};
use crate::MilliCelsius;
use vstd::prelude::*;

verus! {

/// One call made on a [`ShimLayer`], with what it returned or was given.
#[derive(Debug, Clone, Copy, PartialEq, Eq, Structural)]
pub enum ShimEvent {
    TemperatureRead(MilliCelsius),
    FanQueried(bool),
    FanTurnedOn,
    FanTurnedOff,
    LedSet { red: u8, green: u8, blue: u8, brightness_percent: u8 },
    Slept(u64),
    ExitQueried(bool),
}

/// The hardware the controller drives: a temperature sensor, a fan that is
/// either fully on or off, an RGB indicator, a clock to wait on, and a
/// cancellation check.
///
/// `history` is the sequence of calls made on the layer so far; every method
/// appends the one event that describes its own call. It is a model for
/// proofs only: the provided body is what an implementation outside verified
/// code inherits, and the controller's contracts never rely on it, since for
/// a generic layer the history stays abstract.
pub trait ShimLayer {
    open spec fn history(&self) -> Seq<ShimEvent> {
        Seq::empty()
    }

    fn get_cpu_temperature(&mut self) -> (t: MilliCelsius)
        ensures
            final(self).history() == old(self).history().push(ShimEvent::TemperatureRead(t)),
    ;

    fn fan_is_enabled(&mut self) -> (on: bool)
        ensures
            final(self).history() == old(self).history().push(ShimEvent::FanQueried(on)),
    ;

    fn turn_fan_on(&mut self)
        ensures
            final(self).history() == old(self).history().push(ShimEvent::FanTurnedOn),
    ;

    fn turn_fan_off(&mut self)
        ensures
            final(self).history() == old(self).history().push(ShimEvent::FanTurnedOff),
    ;

    /// Shows the colour `(r, g, b)` at `brightness_percent` of full intensity.
    fn set_led_rgb_brightness(&mut self, r: u8, g: u8, b: u8, brightness_percent: u8)
        ensures
            final(self).history() == old(self).history().push(
                ShimEvent::LedSet { red: r, green: g, blue: b, brightness_percent },
            ),
    ;

    /// Waits for `millis` milliseconds.
    fn sleep(&mut self, millis: u64)
        ensures
            final(self).history() == old(self).history().push(ShimEvent::Slept(millis)),
    ;

    /// Whether the control loop is to stop.
    fn should_exit(&mut self) -> (exit: bool)
        ensures
            final(self).history() == old(self).history().push(ShimEvent::ExitQueried(exit)),
    ;
}

/// The events that switch the fan on and show the "on" colour.
pub open spec fn enable_events(config: FanshimConfig) -> Seq<ShimEvent> {
    seq![
        ShimEvent::FanTurnedOn,
        ShimEvent::LedSet {
            red: config.led_on_color.0,
            green: config.led_on_color.1,
            blue: config.led_on_color.2,
            brightness_percent: config.led_brightness_percent,
        },
    ]
}

/// The events that switch the fan off and show the "off" colour.
pub open spec fn disable_events(config: FanshimConfig) -> Seq<ShimEvent> {
    seq![
        ShimEvent::FanTurnedOff,
        ShimEvent::LedSet {
            red: config.led_off_color.0,
            green: config.led_off_color.1,
            blue: config.led_off_color.2,
            brightness_percent: config.led_brightness_percent,
        },
    ]
}

/// The events that carry out `action`.
pub open spec fn action_events(config: FanshimConfig, action: FanAction) -> Seq<ShimEvent> {
    match action {
        FanAction::Hold => Seq::empty(),
        FanAction::Enable => enable_events(config),
        FanAction::Disable => disable_events(config),
    }
}

/// Start-up on a single reading: the fan runs exactly when the reading is
/// above the enable threshold.
pub open spec fn initial_action(config: FanshimConfig, temperature: MilliCelsius) -> FanAction {
    if temperature.0 > config.enable_fan_at_temperature.0 {
        FanAction::Enable
    } else {
        FanAction::Disable
    }
}

/// What start-up does after reading `temperature`.
pub open spec fn initial_events(config: FanshimConfig, temperature: MilliCelsius) -> Seq<
    ShimEvent,
> {
    seq![ShimEvent::TemperatureRead(temperature)] + action_events(
        config,
        initial_action(config, temperature),
    )
}

/// What one pass of the control loop does: read the temperature and the fan,
/// act as `decide` says, wait, and ask whether to stop.
pub open spec fn cycle_events(
    config: FanshimConfig,
    counters: DebounceCounters,
    temperature: MilliCelsius,
    fan_enabled: bool,
    exit: bool,
) -> Seq<ShimEvent> {
    seq![ShimEvent::TemperatureRead(temperature), ShimEvent::FanQueried(fan_enabled)]
        + action_events(config, decide(config, counters, temperature.0, fan_enabled).1)
        + seq![ShimEvent::Slept(config.delay_between_readings_ms), ShimEvent::ExitQueried(exit)]
}

/// Carries out `action` on the fan and the indicator.
pub fn apply_action<T: ShimLayer>(config: &FanshimConfig, s: &mut T, action: FanAction)
    ensures
        final(s).history() == old(s).history() + action_events(*config, action),
{
    match action {
        FanAction::Hold => {
            assert(old(s).history() + Seq::<ShimEvent>::empty() =~= old(s).history());
        },
        FanAction::Enable => {
            s.turn_fan_on();
            s.set_led_rgb_brightness(
                config.led_on_color.0,
                config.led_on_color.1,
                config.led_on_color.2,
                config.led_brightness_percent,
            );
            assert(final(s).history() =~= old(s).history() + enable_events(*config));
        },
        FanAction::Disable => {
            s.turn_fan_off();
            s.set_led_rgb_brightness(
                config.led_off_color.0,
                config.led_off_color.1,
                config.led_off_color.2,
                config.led_brightness_percent,
            );
            assert(final(s).history() =~= old(s).history() + disable_events(*config));
        },
    }
}

/// Puts the fan and the indicator in a known state from one reading, before
/// the control loop starts: no streak is counted here.
pub fn initial_setup<T: ShimLayer>(config: &FanshimConfig, s: &mut T)
    ensures
        exists|t: MilliCelsius|
            final(s).history() == old(s).history() + #[trigger] initial_events(*config, t),
{
    let temp = s.get_cpu_temperature();
    let action = if temp.0 > config.enable_fan_at_temperature.0 {
        FanAction::Enable
    } else {
        FanAction::Disable
    };
    apply_action(config, s, action);
    assert(final(s).history() =~= old(s).history() + initial_events(*config, temp));
}

/// One pass of the control loop: sample, update the streaks, act, wait, and
/// report whether the loop is to stop.
pub fn control_cycle<T: ShimLayer>(
    config: &FanshimConfig,
    s: &mut T,
    counters: &mut DebounceCounters,
) -> (exit: bool)
    requires
        old(counters).wf(*config),
    ensures
        final(counters).wf(*config),
        exists|t: MilliCelsius, fan_enabled: bool|
            {
                &&& *final(counters) == decide(*config, *old(counters), t.0, fan_enabled).0
                &&& final(s).history() == old(s).history() + #[trigger] cycle_events(
                    *config,
                    *old(counters),
                    t,
                    fan_enabled,
                    exit,
                )
            },
{
    let temperature = s.get_cpu_temperature();
    let fan_enabled = s.fan_is_enabled();
    let action = counters.update(config, temperature, fan_enabled);
    apply_action(config, s, action);
    s.sleep(config.delay_between_readings_ms);
    let exit = s.should_exit();
    assert(final(s).history() =~= old(s).history() + cycle_events(
        *config,
        *old(counters),
        temperature,
        fan_enabled,
        exit,
    ));
    exit
}

} // verus!
