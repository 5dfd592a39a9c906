//! Responses: events sent to a set of targets.

use crate::target::{Targets, TargetsView};
use vstd::prelude::*;
use vstd::std_specs::cmp::PartialEqSpec;

verus! {

/// Relies on `chrono::Utc::now` and `DateTime::timestamp_millis`: the current
/// time in milliseconds since the Unix epoch. Nothing is promised of the value.
/// `Utc::now` panics on a system clock set before the epoch.
#[verifier::external_body]
fn now_millis() -> (r: i64) {
    chrono::Utc::now().timestamp_millis()
}

/// An event that occurred in the system directed towards a particular [`Targets`].
#[derive(Debug, Clone)]
pub struct Res<E> {
    /// The targets that this event is sent to.
    pub targets: Targets,
    /// The event that occurred.
    pub event: TimestampedEvent<E>,
}

impl<E> Res<E> {
    /// Creates a new response, stamped with the current time.
    pub fn new(targets: Targets, event: E) -> (r: Res<E>)
        ensures
            r.targets == targets,
            r.event.event == event,
    {
        Res { targets, event: TimestampedEvent::new(event) }
    }
}

/// Two responses are equal when their targets and their events are.
impl<E: PartialEq> PartialEq for Res<E> {
    fn eq(&self, other: &Res<E>) -> (r: bool) {
        self.targets == other.targets && self.event == other.event
    }
}

impl<E: PartialEq> vstd::std_specs::cmp::PartialEqSpecImpl for Res<E> {
    open spec fn obeys_eq_spec() -> bool {
        <E as PartialEqSpec>::obeys_eq_spec()
    }

    open spec fn eq_spec(&self, other: &Res<E>) -> bool {
        &&& self.targets@ == other.targets@
        &&& self.event.event.eq_spec(&other.event.event)
    }
}

impl<E: Eq> Eq for Res<E> {
}

/// An event with the time at which it occurred.
#[derive(Debug, Clone)]
pub struct TimestampedEvent<E> {
    /// When the event occurred, in milliseconds since the Unix epoch.
    pub timestamp: i64,
    /// The event that occurred.
    pub event: E,
}

impl<E> TimestampedEvent<E> {
    /// Stamps an event with the current time.
    pub fn new(event: E) -> (r: TimestampedEvent<E>)
        ensures
            r.event == event,
    {
        TimestampedEvent { timestamp: now_millis(), event }
    }
}

/// The default event, stamped with the current time.
impl<E: Default> Default for TimestampedEvent<E> {
    fn default() -> (r: TimestampedEvent<E>) {
        TimestampedEvent::new(E::default())
    }
}

/// Two timestamped events are equal when their events are: the time at which
/// each was stamped does not count.
impl<E: PartialEq> PartialEq for TimestampedEvent<E> {
    fn eq(&self, other: &TimestampedEvent<E>) -> (r: bool) {
        self.event == other.event
    }
}

impl<E: PartialEq> vstd::std_specs::cmp::PartialEqSpecImpl for TimestampedEvent<E> {
    open spec fn obeys_eq_spec() -> bool {
        <E as PartialEqSpec>::obeys_eq_spec()
    }

    open spec fn eq_spec(&self, other: &TimestampedEvent<E>) -> bool {
        self.event.eq_spec(&other.event)
    }
}

impl<E: Eq> Eq for TimestampedEvent<E> {
}

} // verus!
