use vstd::prelude::*;
use crate::curve::{calculate_speed_value, speed_value, Step};
use crate::hysteresis::{should_update, update_due};

verus! {

/// What the control loop runs on: the sampling period in seconds, the
/// smallest temperature change (degrees Celsius) worth acting on, whether
/// to log each actuation, and the response curve.
#[derive(Debug)]
pub struct AppConfig {
    pub interval: u32,
    pub tolerance: u32,
    pub log: bool,
    pub steps: Vec<Step>,
}

/// What the surrounding loop reports back after doing what the controller
/// asked.
#[derive(Clone, Copy, Debug, PartialEq, Eq, Structural)]
pub enum Event {
    /// The device was sampled; the temperature in degrees Celsius.
    Reading(u32),
    /// Sampling the device failed.
    ReadFailed,
    /// The fan speed was applied.
    Actuated,
    /// Applying the fan speed failed.
    ActuationFailed,
}

/// What the controller asks the surrounding loop to do next.
#[derive(Clone, Copy, Debug, PartialEq, Eq, Structural)]
pub enum Action {
    /// Set the fan to `target_speed` percent, logging the cycle first when
    /// `log` is set; then report the outcome.
    Actuate { target_speed: u32, log: bool },
    /// Wait `seconds`, then sample the device again.
    Sleep { seconds: u32 },
    /// Stop the loop.
    Halt,
}

/// The state the control loop carries from one cycle to the next: the last
/// temperature that led to an actuation (0 before the first one).
#[derive(Clone, Copy, Debug, PartialEq, Eq, Structural)]
pub struct Controller {
    pub last_temperature: u32,
}

/// One step of the control loop, from the last acted-on temperature and an
/// event to the new last temperature and the next action.
///
/// A reading that has moved at least `tolerance` away is recorded and acted
/// on with the curve's speed for it; a smaller move only waits for the next
/// sample. A failed read stops the loop. Once the fan has been driven, with
/// or without success, the loop waits for the next sample.
pub open spec fn transition(last: u32, config: AppConfig, event: Event) -> (u32, Action) {
    match event {
        Event::Reading(t) => if update_due(t, last, config.tolerance) {
            (t, Action::Actuate { target_speed: speed_value(config.steps@, t) as u32, log: config.log })
        } else {
            (last, Action::Sleep { seconds: config.interval })
        },
        Event::ReadFailed => (last, Action::Halt),
        Event::Actuated | Event::ActuationFailed => (last, Action::Sleep { seconds: config.interval }),
    }
}

/// The last temperature and the actions after feeding `events` one by one
/// to a controller whose last temperature is `last`.
pub open spec fn run(last: u32, config: AppConfig, events: Seq<Event>) -> (u32, Seq<Action>)
    decreases events.len(),
{
    if events.len() == 0 {
        (last, Seq::empty())
    } else {
        let (next, action) = transition(last, config, events[0]);
        let (end, rest) = run(next, config, events.drop_first());
        (end, seq![action].add(rest))
    }
}

impl Controller {
    /// A controller that has not acted yet.
    pub fn new() -> (r: Controller)
        ensures
            r.last_temperature == 0,
    {
        Controller { last_temperature: 0 }
    }

    /// Takes the outcome of the last action and decides the next one.
    pub fn step(&mut self, config: &AppConfig, event: Event) -> (r: Action)
        ensures
            (final(self).last_temperature, r) == transition(old(self).last_temperature, *config, event),
    {
        match event {
            Event::Reading(t) => {
                if should_update(t, self.last_temperature, config.tolerance) {
                    self.last_temperature = t;
                    let target_speed: u32 = calculate_speed_value(&config.steps, t);
                    Action::Actuate { target_speed, log: config.log }
                } else {
                    Action::Sleep { seconds: config.interval }
                }
            },
            Event::ReadFailed => Action::Halt,
            Event::Actuated | Event::ActuationFailed => Action::Sleep { seconds: config.interval },
        }
    }
}

/// A reading that moves at least `tolerance` away from the last acted-on
/// temperature becomes the new last temperature, however large the jump,
/// and the fan is driven to the curve's speed for it.
pub proof fn lemma_update_records_reading(last: u32, config: AppConfig, t: u32)
    requires
        update_due(t, last, config.tolerance),
    ensures
        transition(last, config, Event::Reading(t)) == (t, Action::Actuate {
            target_speed: speed_value(config.steps@, t) as u32,
            log: config.log,
        }),
{
}

/// While no reading moves `tolerance` or more away from the last acted-on
/// temperature, the fan is never driven and the last temperature stays.
pub proof fn lemma_small_moves_change_nothing(last: u32, config: AppConfig, events: Seq<Event>)
    requires
        forall|i: int|
            0 <= i < events.len() ==> (#[trigger] events[i] matches Event::Reading(t) ==> !update_due(
                t,
                last,
                config.tolerance,
            )),
    ensures
        run(last, config, events).0 == last,
        run(last, config, events).1.len() == events.len(),
        forall|i: int|
            0 <= i < events.len() ==> !(#[trigger] run(last, config, events).1[i] is Actuate),
    decreases events.len(),
{
    if events.len() > 0 {
        let rest = events.drop_first();
        assert(events[0] matches Event::Reading(t) ==> !update_due(t, last, config.tolerance));
        assert forall|i: int| 0 <= i < rest.len() implies (#[trigger] rest[i] matches Event::Reading(
            t,
        ) ==> !update_due(t, last, config.tolerance)) by {
            assert(rest[i] == events[i + 1]);
        }
        lemma_small_moves_change_nothing(last, config, rest);
        let actions = run(last, config, events).1;
        assert forall|i: int| 0 <= i < events.len() implies !(#[trigger] actions[i] is Actuate) by {
            if i > 0 {
                assert(actions[i] == run(last, config, rest).1[i - 1]);
            }
        }
    }
}

/// A failed read stops the loop at once: the fan is not driven and the
/// last temperature stays.
pub proof fn lemma_failed_read_halts(last: u32, config: AppConfig)
    ensures
        transition(last, config, Event::ReadFailed) == (last, Action::Halt),
{
}

/// A failed actuation leaves the loop as a successful one does: the last
/// temperature stays and the loop waits for the next sample.
pub proof fn lemma_failed_actuation_continues(last: u32, config: AppConfig)
    ensures
        transition(last, config, Event::ActuationFailed) == transition(last, config, Event::Actuated),
        transition(last, config, Event::ActuationFailed) == (last, Action::Sleep {
            seconds: config.interval,
        }),
{
}

} // verus!
