//! Runs of the driver: what a sequence of events makes it publish, and in
//! which order.

use vstd::prelude::*;
use crate::driver::{
    spec_expects, spec_forward, spec_step, ActionView, DriverState, EventView,
};
use crate::error::{Failure, RoutingError};
use crate::record::{OutgoingView, RecordView};
use crate::router::spec_route;

verus! {

/// The records that a run of events consumed, in the order they came.
pub open spec fn consumed(events: Seq<EventView>) -> Seq<RecordView>
    decreases events.len(),
{
    if events.len() == 0 {
        Seq::empty()
    } else {
        let before = consumed(events.drop_last());
        match events.last() {
            EventView::Fetched(record) => before.push(record),
            _ => before,
        }
    }
}

/// The records that the driver asks to publish over a run of events, in the
/// order it asks.
pub open spec fn published(prefix: Seq<char>, events: Seq<EventView>) -> Seq<OutgoingView>
    decreases events.len(),
{
    if events.len() == 0 {
        Seq::empty()
    } else {
        let before = published(prefix, events.drop_last());
        match spec_step(prefix, events.last()).action {
            ActionView::Publish(outgoing) => before.push(outgoing),
            ActionView::Fetch => before,
        }
    }
}

/// What is to be published for a sequence of records: each record that is
/// forwarded, in the order of the records; the dropped ones leave no gap.
pub open spec fn forwarded(prefix: Seq<char>, records: Seq<RecordView>) -> Seq<OutgoingView>
    decreases records.len(),
{
    if records.len() == 0 {
        Seq::empty()
    } else {
        let before = forwarded(prefix, records.drop_last());
        match spec_forward(prefix, records.last()) {
            Ok(outgoing) => before.push(outgoing),
            Err(_) => before,
        }
    }
}

/// The state in which the `i`-th event of a run arrives.
pub open spec fn state_before(
    prefix: Seq<char>,
    start: DriverState,
    events: Seq<EventView>,
    i: int,
) -> DriverState {
    if i == 0 {
        start
    } else {
        spec_step(prefix, events[i - 1]).state
    }
}

/// A run that the driver can meet from `start`: every event can come in the
/// state that the one before it led to.
pub open spec fn orderly(prefix: Seq<char>, start: DriverState, events: Seq<EventView>) -> bool {
    forall|i: int|
        0 <= i < events.len() ==> spec_expects(
            state_before(prefix, start, events, i),
            #[trigger] events[i],
        )
}

/// `record` is routed to `topic`.
pub open spec fn routed_to(prefix: Seq<char>, record: RecordView, topic: Seq<char>) -> bool {
    record.payload matches Some(payload) && spec_route(prefix, payload) == Ok::<
        Seq<char>,
        RoutingError,
    >(topic)
}

/// A record whose payload cannot be routed causes no publication: the
/// driver reports the routing error and goes back to fetching.
pub proof fn lemma_unroutable_is_dropped(prefix: Seq<char>, record: RecordView, e: RoutingError)
    requires
        record.payload matches Some(payload) && spec_route(prefix, payload) == Err::<
            Seq<char>,
            RoutingError,
        >(e),
    ensures
        spec_step(prefix, EventView::Fetched(record)).action == ActionView::Fetch,
        spec_step(prefix, EventView::Fetched(record)).state == DriverState::Fetching,
        spec_step(prefix, EventView::Fetched(record)).failure == Some(Failure::Routing(e)),
        published(prefix, seq![EventView::Fetched(record)]).len() == 0,
{
    let events = seq![EventView::Fetched(record)];
    assert(events.drop_last() =~= Seq::<EventView>::empty());
    assert(published(prefix, events.drop_last()).len() == 0);
}

/// A record that is routed to `topic` causes exactly one publication: to
/// `topic`, with the record's key and payload as they came.
pub proof fn lemma_routable_is_published_once(
    prefix: Seq<char>,
    record: RecordView,
    topic: Seq<char>,
)
    requires
        routed_to(prefix, record, topic),
    ensures
        published(prefix, seq![EventView::Fetched(record)]) == seq![
            OutgoingView { topic, key: record.key, payload: record.payload->0 },
        ],
{
    let events = seq![EventView::Fetched(record)];
    assert(events.drop_last() =~= Seq::<EventView>::empty());
    assert(published(prefix, events.drop_last()) =~= Seq::<OutgoingView>::empty());
    assert(published(prefix, events) =~= seq![
        OutgoingView { topic, key: record.key, payload: record.payload->0 },
    ]);
}

/// The publications of a run are those of the records it consumed, in the
/// order of consumption: no other event adds, removes or moves one.
pub proof fn lemma_published_follows_consumed(prefix: Seq<char>, events: Seq<EventView>)
    ensures
        published(prefix, events) == forwarded(prefix, consumed(events)),
    decreases events.len(),
{
    if events.len() > 0 {
        lemma_published_follows_consumed(prefix, events.drop_last());
        match events.last() {
            EventView::Fetched(record) => {
                let records = consumed(events);
                assert(records.drop_last() =~= consumed(events.drop_last()));
                assert(records.last() == record);
            },
            _ => {},
        }
    }
}

/// Forwarding keeps the order of consumption: of any two publications, the
/// earlier one comes from a record consumed earlier. The result names the
/// positions of the two records.
pub proof fn lemma_forwarded_in_order(
    prefix: Seq<char>,
    records: Seq<RecordView>,
    i: int,
    j: int,
) -> (origin: (int, int))
    requires
        0 <= i < j < forwarded(prefix, records).len(),
    ensures
        0 <= origin.0 < origin.1 < records.len(),
        spec_forward(prefix, records[origin.0]) == Ok::<OutgoingView, Failure>(
            forwarded(prefix, records)[i],
        ),
        spec_forward(prefix, records[origin.1]) == Ok::<OutgoingView, Failure>(
            forwarded(prefix, records)[j],
        ),
    decreases records.len(),
{
    let before = records.drop_last();
    let kept = forwarded(prefix, before).len();
    if j < kept {
        lemma_forwarded_in_order(prefix, before, i, j)
    } else {
        let first = lemma_forwarded_origin(prefix, before, i);
        (first, records.len() - 1)
    }
}

/// Every publication comes from a consumed record. The result names the
/// record's position.
pub proof fn lemma_forwarded_origin(prefix: Seq<char>, records: Seq<RecordView>, i: int) -> (origin:
    int)
    requires
        0 <= i < forwarded(prefix, records).len(),
    ensures
        0 <= origin < records.len(),
        spec_forward(prefix, records[origin]) == Ok::<OutgoingView, Failure>(
            forwarded(prefix, records)[i],
        ),
    decreases records.len(),
{
    let before = records.drop_last();
    if i < forwarded(prefix, before).len() {
        lemma_forwarded_origin(prefix, before, i)
    } else {
        records.len() - 1
    }
}

/// Records that are all routed to one topic are all published to it, one
/// publication for each, in the order of consumption and with their keys
/// and payloads as they came.
pub proof fn lemma_same_topic_keeps_order(
    prefix: Seq<char>,
    records: Seq<RecordView>,
    topic: Seq<char>,
)
    requires
        forall|i: int| 0 <= i < records.len() ==> routed_to(prefix, #[trigger] records[i], topic),
    ensures
        forwarded(prefix, records).len() == records.len(),
        forall|i: int|
            0 <= i < records.len() ==> #[trigger] forwarded(prefix, records)[i] == (OutgoingView {
                topic,
                key: records[i].key,
                payload: records[i].payload->0,
            }),
    decreases records.len(),
{
    if records.len() > 0 {
        let before = records.drop_last();
        assert forall|i: int| 0 <= i < before.len() implies routed_to(
            prefix,
            #[trigger] before[i],
            topic,
        ) by {
            assert(before[i] == records[i]);
        }
        lemma_same_topic_keeps_order(prefix, before, topic);
        assert(routed_to(prefix, records.last(), topic));
        assert forall|i: int| 0 <= i < records.len() implies #[trigger] forwarded(
            prefix,
            records,
        )[i] == (OutgoingView { topic, key: records[i].key, payload: records[i].payload->0 }) by {
            if i < before.len() {
                assert(before[i] == records[i]);
                assert(forwarded(prefix, records)[i] == forwarded(prefix, before)[i]);
            }
        }
    }
}

/// A run whose consumed records are all routed to one topic makes the
/// driver ask for one publication per record, to that topic, in the order
/// of consumption and with key and payload as they came, whatever fetch
/// errors and producer verdicts lie in between.
pub proof fn lemma_run_of_one_topic_keeps_order(
    prefix: Seq<char>,
    events: Seq<EventView>,
    topic: Seq<char>,
)
    requires
        forall|i: int|
            0 <= i < consumed(events).len() ==> routed_to(
                prefix,
                #[trigger] consumed(events)[i],
                topic,
            ),
    ensures
        published(prefix, events).len() == consumed(events).len(),
        forall|i: int|
            0 <= i < consumed(events).len() ==> #[trigger] published(prefix, events)[i] == (
            OutgoingView {
                topic,
                key: consumed(events)[i].key,
                payload: consumed(events)[i].payload->0,
            }),
{
    lemma_published_follows_consumed(prefix, events);
    lemma_same_topic_keeps_order(prefix, consumed(events), topic);
}

/// The driver never has two publications in flight: in a run it can meet,
/// the event after one that caused a publication is the producer's verdict
/// on it, so no record is fetched, let alone published, in between.
pub proof fn lemma_one_in_flight(
    prefix: Seq<char>,
    start: DriverState,
    events: Seq<EventView>,
    i: int,
)
    requires
        orderly(prefix, start, events),
        0 <= i < events.len() - 1,
        spec_step(prefix, events[i]).action is Publish,
    ensures
        events[i + 1] is Delivered || events[i + 1] is DeliveryFailed,
{
    assert(spec_expects(state_before(prefix, start, events, i + 1), events[i + 1]));
}

} // verus!
