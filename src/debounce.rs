//! The debounced hysteresis policy: one sample at a time, counting streaks of
//! qualifying samples and firing a transition once a streak is long enough.
use crate::config::FanshimConfig;
use crate::MilliCelsius;
use vstd::prelude::*;

verus! {

/// What the controller does to the fan after one sample.
#[derive(Debug, Clone, Copy, PartialEq, Eq, Structural)]
pub enum FanAction {
    /// Leave the fan and the indicator as they are.
    Hold,
    /// Turn the fan fully on and show the "on" colour.
    Enable,
    /// Turn the fan off and show the "off" colour.
    Disable,
}

/// The two streak counters of the control loop.
#[derive(Debug, Clone, Copy, PartialEq, Eq, Structural)]
pub struct DebounceCounters {
    /// Consecutive samples hotter than the enable threshold with the fan off.
    pub above: u32,
    /// Consecutive samples colder than the disable threshold with the fan on.
    pub below: u32,
}

/// A sample counts towards turning the fan on: it is hotter than the enable
/// threshold and the fan is off.
pub open spec fn qualifies_on(config: FanshimConfig, temperature: i32, fan_enabled: bool) -> bool {
    temperature > config.enable_fan_at_temperature.0 && !fan_enabled
}

/// A sample counts towards turning the fan off: it is colder than the disable
/// threshold and the fan is on.
pub open spec fn qualifies_off(config: FanshimConfig, temperature: i32, fan_enabled: bool) -> bool {
    temperature < config.disable_fan_at_temperature.0 && fan_enabled
}

/// The counters before any sample.
pub open spec fn zero_counters() -> DebounceCounters {
    DebounceCounters { above: 0, below: 0 }
}

/// The counters and the action after one sample.
///
/// Each streak grows by one on a sample that qualifies for it and drops to
/// zero on any other. A streak that reaches `number_of_readings_before_action`
/// fires its transition, the enabling one first, and both streaks restart.
pub open spec fn decide(
    config: FanshimConfig,
    counters: DebounceCounters,
    temperature: i32,
    fan_enabled: bool,
) -> (DebounceCounters, FanAction) {
    let above: int = if qualifies_on(config, temperature, fan_enabled) {
        counters.above + 1
    } else {
        0
    };
    let below: int = if qualifies_off(config, temperature, fan_enabled) {
        counters.below + 1
    } else {
        0
    };
    let needed = config.number_of_readings_before_action as int;
    if above >= needed {
        (zero_counters(), FanAction::Enable)
    } else if below >= needed {
        (zero_counters(), FanAction::Disable)
    } else {
        (DebounceCounters { above: above as u32, below: below as u32 }, FanAction::Hold)
    }
}

impl DebounceCounters {
    /// Counters that can follow some sequence of samples under `config`: a
    /// streak that is not zero is still short of firing.
    pub open spec fn wf(&self, config: FanshimConfig) -> bool {
        &&& (self.above == 0 || self.above < config.number_of_readings_before_action)
        &&& (self.below == 0 || self.below < config.number_of_readings_before_action)
    }

    /// Both streaks at zero.
    pub fn new() -> (r: DebounceCounters)
        ensures
            r == zero_counters(),
    {
        DebounceCounters { above: 0, below: 0 }
    }

    /// Takes one sample into account and returns the action it calls for.
    pub fn update(
        &mut self,
        config: &FanshimConfig,
        temperature: MilliCelsius,
        fan_enabled: bool,
    ) -> (action: FanAction)
        requires
            old(self).wf(*config),
        ensures
            (*final(self), action) == decide(*config, *old(self), temperature.0, fan_enabled),
            final(self).wf(*config),
    {
        if temperature.0 > config.enable_fan_at_temperature.0 && !fan_enabled {
            self.above = self.above + 1;
        } else {
            self.above = 0;
        }
        if temperature.0 < config.disable_fan_at_temperature.0 && fan_enabled {
            self.below = self.below + 1;
        } else {
            self.below = 0;
        }
        let needed = config.number_of_readings_before_action;
        if self.above as i64 >= needed as i64 {
            self.above = 0;
            self.below = 0;
            FanAction::Enable
        } else if self.below as i64 >= needed as i64 {
            self.above = 0;
            self.below = 0;
            FanAction::Disable
        } else {
            FanAction::Hold
        }
    }
}

/// The counters after feeding `samples`, each a temperature in milli-Celsius
/// and whether the fan was on, starting from zero.
pub open spec fn counters_after(config: FanshimConfig, samples: Seq<(i32, bool)>) -> DebounceCounters
    decreases samples.len(),
{
    if samples.len() == 0 {
        zero_counters()
    } else {
        decide(
            config,
            counters_after(config, samples.drop_last()),
            samples.last().0,
            samples.last().1,
        ).0
    }
}

/// The action taken on sample `i` of `samples`.
pub open spec fn action_at(config: FanshimConfig, samples: Seq<(i32, bool)>, i: int) -> FanAction {
    decide(config, counters_after(config, samples.take(i)), samples[i].0, samples[i].1).1
}

/// Each streak counts samples that all qualify for it, and the last ones.
proof fn lemma_streaks_are_suffixes(config: FanshimConfig, samples: Seq<(i32, bool)>)
    ensures
        counters_after(config, samples).above <= samples.len(),
        counters_after(config, samples).below <= samples.len(),
        forall|j: int|
            samples.len() - counters_after(config, samples).above <= j < samples.len()
                ==> qualifies_on(config, #[trigger] samples[j].0, samples[j].1),
        forall|j: int|
            samples.len() - counters_after(config, samples).below <= j < samples.len()
                ==> qualifies_off(config, #[trigger] samples[j].0, samples[j].1),
    decreases samples.len(),
{
    if samples.len() > 0 {
        let prefix = samples.drop_last();
        lemma_streaks_are_suffixes(config, prefix);
        assert forall|j: int| 0 <= j < prefix.len() implies #[trigger] samples[j] == prefix[j] by {}
    }
}

/// The fan is switched on only after `number_of_readings_before_action`
/// consecutive samples, each hotter than the enable threshold while the fan
/// was off, with no other sample between them.
pub proof fn lemma_enable_needs_full_streak(config: FanshimConfig, samples: Seq<(i32, bool)>, i: int)
    requires
        0 <= i < samples.len(),
        action_at(config, samples, i) == FanAction::Enable,
    ensures
        i + 1 >= config.number_of_readings_before_action,
        forall|j: int|
            i + 1 - config.number_of_readings_before_action <= j <= i ==> qualifies_on(
                config,
                #[trigger] samples[j].0,
                samples[j].1,
            ),
{
    let prefix = samples.take(i);
    lemma_streaks_are_suffixes(config, prefix);
    assert forall|j: int| 0 <= j < i implies #[trigger] samples[j] == prefix[j] by {}
}

/// The fan is switched off only after `number_of_readings_before_action`
/// consecutive samples, each colder than the disable threshold while the fan
/// was on, with no other sample between them.
pub proof fn lemma_disable_needs_full_streak(config: FanshimConfig, samples: Seq<(i32, bool)>, i: int)
    requires
        0 <= i < samples.len(),
        action_at(config, samples, i) == FanAction::Disable,
    ensures
        i + 1 >= config.number_of_readings_before_action,
        forall|j: int|
            i + 1 - config.number_of_readings_before_action <= j <= i ==> qualifies_off(
                config,
                #[trigger] samples[j].0,
                samples[j].1,
            ),
{
    let prefix = samples.take(i);
    lemma_streaks_are_suffixes(config, prefix);
    assert forall|j: int| 0 <= j < i implies #[trigger] samples[j] == prefix[j] by {}
}

/// A sample that does not qualify for a streak leaves that streak at zero:
/// nothing of it carries over.
pub proof fn lemma_disqualifying_sample_resets(
    config: FanshimConfig,
    samples: Seq<(i32, bool)>,
    i: int,
)
    requires
        0 <= i < samples.len(),
    ensures
        !qualifies_on(config, samples[i].0, samples[i].1) ==> counters_after(
            config,
            samples.take(i + 1),
        ).above == 0,
        !qualifies_off(config, samples[i].0, samples[i].1) ==> counters_after(
            config,
            samples.take(i + 1),
        ).below == 0,
{
    assert(samples.take(i + 1).drop_last() =~= samples.take(i));
    assert(samples.take(i + 1).last() == samples[i]);
}

/// Where no two neighbouring samples both qualify for the same transition,
/// and a transition needs at least two samples, the fan is never switched.
pub proof fn lemma_alternating_samples_never_switch(
    config: FanshimConfig,
    samples: Seq<(i32, bool)>,
)
    requires
        config.number_of_readings_before_action >= 2,
        forall|j: int|
            0 <= j < samples.len() - 1 ==> !(qualifies_on(
                config,
                #[trigger] samples[j].0,
                samples[j].1,
            ) && qualifies_on(config, samples[j + 1].0, samples[j + 1].1)),
        forall|j: int|
            0 <= j < samples.len() - 1 ==> !(qualifies_off(
                config,
                #[trigger] samples[j].0,
                samples[j].1,
            ) && qualifies_off(config, samples[j + 1].0, samples[j + 1].1)),
    ensures
        forall|i: int| 0 <= i < samples.len() ==> #[trigger] action_at(config, samples, i) == FanAction::Hold,
{
    assert forall|i: int| 0 <= i < samples.len() implies #[trigger] action_at(config, samples, i)
        == FanAction::Hold by {
        if action_at(config, samples, i) == FanAction::Enable {
            lemma_enable_needs_full_streak(config, samples, i);
            assert(qualifies_on(config, samples[i - 1].0, samples[i - 1].1));
            assert(qualifies_on(config, samples[i].0, samples[i].1));
        } else if action_at(config, samples, i) == FanAction::Disable {
            lemma_disable_needs_full_streak(config, samples, i);
            assert(qualifies_off(config, samples[i - 1].0, samples[i - 1].1));
            assert(qualifies_off(config, samples[i].0, samples[i].1));
        }
    }
}

} // verus!
