//! The pipeline driver as a state machine. The caller fetches and publishes;
//! `step` decides what happens next.

use vstd::prelude::*;
use crate::error::Failure;
use crate::record::{Outgoing, OutgoingView, Record, RecordView};
use crate::router::{route, spec_route};

verus! {

/// Where the driver stands between two steps.
#[derive(Clone, Copy, Debug, PartialEq, Eq, Structural)]
pub enum DriverState {
    /// Waiting for the consumer's next record.
    Fetching,
    /// Waiting for the producer's verdict on the one record in flight.
    Forwarding,
}

/// What the outside world hands the driver.
#[derive(Clone, Debug, PartialEq, Eq)]
pub enum Event {
    /// The consumer delivered a record.
    Fetched(Record),
    /// The consumer reported an error.
    FetchFailed,
    /// The producer acknowledged the publication.
    Delivered,
    /// The producer gave the publication up.
    DeliveryFailed,
}

/// The mathematical value of an `Event`.
pub enum EventView {
    Fetched(RecordView),
    FetchFailed,
    Delivered,
    DeliveryFailed,
}

impl View for Event {
    type V = EventView;

    open spec fn view(&self) -> EventView {
        match *self {
            Event::Fetched(record) => EventView::Fetched(record@),
            Event::FetchFailed => EventView::FetchFailed,
            Event::Delivered => EventView::Delivered,
            Event::DeliveryFailed => EventView::DeliveryFailed,
        }
    }
}

/// What the driver asks the outside world to do next.
#[derive(Clone, Debug, PartialEq, Eq)]
pub enum Action {
    /// Fetch the next record from the consumer.
    Fetch,
    /// Publish this record and wait for the producer's verdict.
    Publish(Outgoing),
}

/// The mathematical value of an `Action`.
pub enum ActionView {
    Fetch,
    Publish(OutgoingView),
}

impl View for Action {
    type V = ActionView;

    open spec fn view(&self) -> ActionView {
        match *self {
            Action::Fetch => ActionView::Fetch,
            Action::Publish(outgoing) => ActionView::Publish(outgoing@),
        }
    }
}

/// The outcome of one step.
#[derive(Clone, Debug, PartialEq, Eq)]
pub struct Step {
    /// The state after the step.
    pub state: DriverState,
    /// What to do next.
    pub action: Action,
    /// The failure to report for the event just handled, if it was one.
    pub failure: Option<Failure>,
}

/// The mathematical value of a `Step`.
pub struct StepView {
    pub state: DriverState,
    pub action: ActionView,
    pub failure: Option<Failure>,
}

impl View for Step {
    type V = StepView;

    open spec fn view(&self) -> StepView {
        StepView { state: self.state, action: self.action@, failure: self.failure }
    }
}

/// Whether a record is forwarded, and as what: a record without payload or
/// with a payload that cannot be routed is dropped; any other goes out to
/// the topic its payload is routed to, with its key and payload as they came.
pub open spec fn spec_forward(prefix: Seq<char>, record: RecordView) -> Result<OutgoingView, Failure> {
    match record.payload {
        None => Err(Failure::NoPayload),
        Some(payload) => match spec_route(prefix, payload) {
            Err(e) => Err(Failure::Routing(e)),
            Ok(topic) => Ok(OutgoingView { topic, key: record.key, payload }),
        },
    }
}

/// The events that can come in a state: a fetch ends while fetching, a
/// publication ends while forwarding.
pub open spec fn spec_expects(state: DriverState, event: EventView) -> bool {
    match state {
        DriverState::Fetching => event is Fetched || event is FetchFailed,
        DriverState::Forwarding => event is Delivered || event is DeliveryFailed,
    }
}

/// The step that an event causes. Only a fetched record that can be
/// forwarded leads to a publication; every other event leads back to
/// fetching, with the failure to report if it was one.
pub open spec fn spec_step(prefix: Seq<char>, event: EventView) -> StepView {
    match event {
        EventView::Fetched(record) => match spec_forward(prefix, record) {
            Ok(outgoing) => StepView {
                state: DriverState::Forwarding,
                action: ActionView::Publish(outgoing),
                failure: None,
            },
            Err(failure) => StepView {
                state: DriverState::Fetching,
                action: ActionView::Fetch,
                failure: Some(failure),
            },
        },
        EventView::FetchFailed => StepView {
            state: DriverState::Fetching,
            action: ActionView::Fetch,
            failure: Some(Failure::Fetch),
        },
        EventView::Delivered => StepView {
            state: DriverState::Fetching,
            action: ActionView::Fetch,
            failure: None,
        },
        EventView::DeliveryFailed => StepView {
            state: DriverState::Fetching,
            action: ActionView::Fetch,
            failure: Some(Failure::Publish),
        },
    }
}

/// Decides whether a consumed record is forwarded, and builds the record to
/// publish from it.
pub fn forward(prefix: &str, record: Record) -> (r: Result<Outgoing, Failure>)
    ensures
        match r {
            Ok(outgoing) => spec_forward(prefix@, record@) == Ok::<OutgoingView, Failure>(outgoing@),
            Err(failure) => spec_forward(prefix@, record@) == Err::<OutgoingView, Failure>(failure),
        },
{
    let Record { key, payload, topic: _, partition: _, offset: _ } = record;
    match payload {
        None => Err(Failure::NoPayload),
        Some(payload) => match route(prefix, payload.as_slice()) {
            Err(e) => Err(Failure::Routing(e)),
            Ok(topic) => Ok(Outgoing { topic, key, payload }),
        },
    }
}

/// Whether `event` can come in `state`.
pub fn expects(state: DriverState, event: &Event) -> (r: bool)
    ensures
        r == spec_expects(state, event@),
{
    match state {
        DriverState::Fetching => match event {
            Event::Fetched(_) => true,
            Event::FetchFailed => true,
            _ => false,
        },
        DriverState::Forwarding => match event {
            Event::Delivered => true,
            Event::DeliveryFailed => true,
            _ => false,
        },
    }
}

/// Handles one event in `state` and says what to do next.
pub fn step(prefix: &str, state: DriverState, event: Event) -> (r: Step)
    requires
        spec_expects(state, event@),
    ensures
        r@ == spec_step(prefix@, event@),
{
    match event {
        Event::Fetched(record) => match forward(prefix, record) {
            Ok(outgoing) => Step {
                state: DriverState::Forwarding,
                action: Action::Publish(outgoing),
                failure: None,
            },
            Err(failure) => Step {
                state: DriverState::Fetching,
                action: Action::Fetch,
                failure: Some(failure),
            },
        },
        Event::FetchFailed => Step {
            state: DriverState::Fetching,
            action: Action::Fetch,
            failure: Some(Failure::Fetch),
        },
        Event::Delivered => Step {
            state: DriverState::Fetching,
            action: Action::Fetch,
            failure: None,
        },
        Event::DeliveryFailed => Step {
            state: DriverState::Fetching,
            action: Action::Fetch,
            failure: Some(Failure::Publish),
        },
    }
}

} // verus!
