//! The interaction contract with the UI: which event happened, which
//! outcome it produced, which fixed message that outcome selects, and the
//! two entry points a presentation layer binds to its buttons.

use crate::health::HealthComponent;
use crate::health::alive;
use crate::health::sat_sub;
use vstd::prelude::*;

verus! {

/// The two user-triggered events.
#[derive(Clone, Copy, Debug, PartialEq, Eq, Structural)]
pub enum Event {
    Hit,
    Heal,
}

/// The outcome of an event, the tag that selects the status message.
#[derive(Clone, Copy, Debug, PartialEq, Eq, Structural)]
pub enum Outcome {
    HitAlive,
    HitDead,
    Heal,
}

/// The outcome an event has when it leaves the counter at `new_value`: a
/// hit either leaves the target alive or drives it to zero; a heal always
/// thanks, whatever the value.
pub open spec fn outcome_of(event: Event, new_value: nat) -> Outcome {
    match event {
        Event::Hit => if alive(new_value) {
            Outcome::HitAlive
        } else {
            Outcome::HitDead
        },
        Event::Heal => Outcome::Heal,
    }
}

/// The fixed message each outcome selects.
pub open spec fn message_text(outcome: Outcome) -> Seq<char> {
    match outcome {
        Outcome::HitAlive => "Ouch! You hit me!"@,
        Outcome::HitDead => "..."@,
        Outcome::Heal => "Thanks!"@,
    }
}

/// Tags the outcome of `event` given the value it left behind.
pub fn classify(event: Event, new_value: usize) -> (outcome: Outcome)
    ensures
        outcome == outcome_of(event, new_value as nat),
{
    match event {
        Event::Hit => if new_value > 0 {
            Outcome::HitAlive
        } else {
            Outcome::HitDead
        },
        Event::Heal => Outcome::Heal,
    }
}

/// Returns the message selected by `outcome`.
pub fn message_for(outcome: Outcome) -> (text: &'static str)
    ensures
        text@ == message_text(outcome),
{
    match outcome {
        Outcome::HitAlive => "Ouch! You hit me!",
        Outcome::HitDead => "...",
        Outcome::Heal => "Thanks!",
    }
}

/// Entry point for the hit button: lands one hit (clamped at zero) and
/// hands back the new value together with the message to display.
pub fn on_hit(health: &mut HealthComponent) -> (update: (usize, &'static str))
    ensures
        final(health)@ == sat_sub(old(health)@, 1),
        update.0 == final(health)@,
        update.1@ == message_text(outcome_of(Event::Hit, final(health)@)),
{
    let new_value = health.subtract(1);
    let outcome = classify(Event::Hit, new_value);
    (new_value, message_for(outcome))
}

/// Entry point for the heal button: heals by two — no ceiling — and hands
/// back the new value together with the message to display.
pub fn on_heal(health: &mut HealthComponent) -> (update: (usize, &'static str))
    requires
        old(health)@ + 2 <= usize::MAX,
    ensures
        final(health)@ == old(health)@ + 2,
        update.0 == final(health)@,
        update.1@ == message_text(outcome_of(Event::Heal, final(health)@)),
{
    let new_value = health.heal(2);
    let outcome = classify(Event::Heal, new_value);
    (new_value, message_for(outcome))
}

} // verus!
