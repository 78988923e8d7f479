//! What holds of normalization for every snapshot: which entities leave no
//! trace in the output, which values stand in for missing fields, and that
//! the output depends on the snapshot alone.

use vstd::prelude::*;

use crate::models::{BusObservation, BusObservationView, TripUpdate, TripUpdateView};
use crate::normalize::{
    entity_observation, observation_picker, observations_of, resolve_timestamp, signed_seconds,
    stop_time_update_of, trip_update_of, trip_update_picker, trip_updates_of,
};
use crate::snapshot::{
    EntityPayloadView, FeedEntityView, FeedSnapshot, FeedSnapshotView, TripUpdatePayloadView,
};

verus! {

/// A sequence whose elements all map to nothing maps to the empty sequence.
proof fn lemma_filter_map_all_none<A, B>(s: Seq<A>, f: spec_fn(A) -> Option<B>)
    requires
        forall|i: int| 0 <= i < s.len() ==> f(#[trigger] s[i]) is None,
    ensures
        s.filter_map(f) == Seq::<B>::empty(),
    decreases s.len(),
{
    if s.len() > 0 {
        let rest = s.drop_last();
        assert forall|i: int| 0 <= i < rest.len() implies f(#[trigger] rest[i]) is None by {
            assert(rest[i] == s[i]);
        }
        lemma_filter_map_all_none(rest, f);
        assert(f(s[s.len() - 1]) is None);
    }
}

/// Mapping a concatenation is concatenating the mapped parts.
proof fn lemma_filter_map_concat<A, B>(a: Seq<A>, b: Seq<A>, f: spec_fn(A) -> Option<B>)
    ensures
        (a + b).filter_map(f) == a.filter_map(f) + b.filter_map(f),
    decreases b.len(),
{
    if b.len() == 0 {
        assert(a + b =~= a);
        assert(a.filter_map(f) + b.filter_map(f) =~= a.filter_map(f));
    } else {
        assert((a + b).drop_last() =~= a + b.drop_last());
        assert((a + b).last() == b.last());
        lemma_filter_map_concat(a, b.drop_last(), f);
        assert((a + b).filter_map(f) =~= a.filter_map(f) + b.filter_map(f));
    }
}

/// An element that maps to nothing can be removed without changing what the
/// sequence maps to.
proof fn lemma_filter_map_remove<A, B>(s: Seq<A>, f: spec_fn(A) -> Option<B>, i: int)
    requires
        0 <= i < s.len(),
        f(s[i]) is None,
    ensures
        s.remove(i).filter_map(f) == s.filter_map(f),
{
    let head = s.take(i);
    let tail = s.skip(i + 1);
    assert(s =~= head + seq![s[i]] + tail);
    assert(s.remove(i) =~= head + tail);
    lemma_filter_map_concat(head, seq![s[i]], f);
    lemma_filter_map_concat(head + seq![s[i]], tail, f);
    lemma_filter_map_concat(head, tail, f);
    Seq::lemma_filter_map_singleton(s[i], f);
    assert(head.filter_map(f) + Seq::<B>::empty() =~= head.filter_map(f));
}

/// The elements that map to something and those that map to nothing make
/// up the whole sequence.
proof fn lemma_filter_map_len<A, B>(s: Seq<A>, f: spec_fn(A) -> Option<B>)
    ensures
        s.filter_map(f).len() + s.filter(|a: A| f(a) is None).len() == s.len(),
    decreases s.len(),
{
    reveal(Seq::filter);
    if s.len() > 0 {
        lemma_filter_map_len(s.drop_last(), f);
    }
}

/// Filtering by two tests that agree on every element gives the same result.
proof fn lemma_filter_agree<A>(s: Seq<A>, p: spec_fn(A) -> bool, q: spec_fn(A) -> bool)
    requires
        forall|i: int| 0 <= i < s.len() ==> p(#[trigger] s[i]) == q(s[i]),
    ensures
        s.filter(p) == s.filter(q),
    decreases s.len(),
{
    reveal(Seq::filter);
    if s.len() > 0 {
        let rest = s.drop_last();
        assert forall|i: int| 0 <= i < rest.len() implies p(#[trigger] rest[i]) == q(rest[i]) by {
            assert(rest[i] == s[i]);
        }
        lemma_filter_agree(rest, p, q);
        assert(p(s[s.len() - 1]) == q(s[s.len() - 1]));
    }
}

/// The snapshot that lacks the entity at `i` and is otherwise `snapshot`.
pub open spec fn without_entity(snapshot: FeedSnapshotView, i: int) -> FeedSnapshotView {
    FeedSnapshotView {
        header_timestamp: snapshot.header_timestamp,
        entities: snapshot.entities.remove(i),
    }
}

/// Whether an entity carries a vehicle position that names no trip.
pub open spec fn lacks_trip(entity: FeedEntityView) -> bool {
    entity.payload matches EntityPayloadView::VehiclePosition(payload) && payload.trip is None
}

/// Whether an entity carries a vehicle position that names a trip but holds
/// no position.
pub open spec fn lacks_position(entity: FeedEntityView) -> bool {
    entity.payload matches EntityPayloadView::VehiclePosition(payload) && payload.trip is Some
        && payload.position is None
}

/// A snapshot in which no entity carries a payload yields no observation
/// and no trip update.
pub proof fn lemma_no_payload_no_records(snapshot: FeedSnapshotView)
    requires
        forall|i: int|
            0 <= i < snapshot.entities.len() ==> (#[trigger] snapshot.entities[i]).payload
                is Neither,
    ensures
        observations_of(snapshot) == Seq::<BusObservationView>::empty(),
        trip_updates_of(snapshot) == Seq::<TripUpdateView>::empty(),
{
    lemma_filter_map_all_none(snapshot.entities, observation_picker(snapshot.header_timestamp));
    lemma_filter_map_all_none(snapshot.entities, trip_update_picker(snapshot.header_timestamp));
}

/// An entity whose vehicle position names no trip is left out: the
/// observations are those of the snapshot without it.
pub proof fn lemma_without_trip_excluded(snapshot: FeedSnapshotView, i: int)
    requires
        0 <= i < snapshot.entities.len(),
        lacks_trip(snapshot.entities[i]),
    ensures
        entity_observation(snapshot.entities[i], snapshot.header_timestamp) is None,
        observations_of(snapshot) == observations_of(without_entity(snapshot, i)),
{
    lemma_filter_map_remove(
        snapshot.entities,
        observation_picker(snapshot.header_timestamp),
        i,
    );
}

/// Where every entity either yields an observation or carries a vehicle
/// position that names no trip, the observations are fewer than the
/// entities by exactly the number of the latter.
pub proof fn lemma_without_trip_count(snapshot: FeedSnapshotView)
    requires
        forall|i: int|
            0 <= i < snapshot.entities.len() ==> lacks_trip(#[trigger] snapshot.entities[i])
                || entity_observation(snapshot.entities[i], snapshot.header_timestamp) is Some,
    ensures
        observations_of(snapshot).len() == snapshot.entities.len() - snapshot.entities.filter(
            |entity: FeedEntityView| lacks_trip(entity),
        ).len(),
{
    let pick = observation_picker(snapshot.header_timestamp);
    lemma_filter_map_len(snapshot.entities, pick);
    lemma_filter_agree(
        snapshot.entities,
        |entity: FeedEntityView| pick(entity) is None,
        |entity: FeedEntityView| lacks_trip(entity),
    );
}

/// An entity whose vehicle position names a trip but holds no position is
/// left out: the observations are those of the snapshot without it.
pub proof fn lemma_without_position_excluded(snapshot: FeedSnapshotView, i: int)
    requires
        0 <= i < snapshot.entities.len(),
        lacks_position(snapshot.entities[i]),
    ensures
        entity_observation(snapshot.entities[i], snapshot.header_timestamp) is None,
        observations_of(snapshot) == observations_of(without_entity(snapshot, i)),
{
    lemma_filter_map_remove(
        snapshot.entities,
        observation_picker(snapshot.header_timestamp),
        i,
    );
}

/// An entity yields an observation exactly when it carries a vehicle
/// position that names a trip and holds a position; a missing vehicle
/// descriptor does not stand in the way.
pub proof fn lemma_observation_exists(entity: FeedEntityView, header: Option<u64>)
    ensures
        entity_observation(entity, header) is Some <==> (entity.payload
            matches EntityPayloadView::VehiclePosition(payload) && payload.trip is Some
            && payload.position is Some),
{
}

/// The observation of an entity names the vehicle `unknown` where the
/// entity has no vehicle descriptor or the descriptor has no identifier,
/// and names the route `unknown` where the trip descriptor has no route.
/// Identifiers that are there are kept as they are.
pub proof fn lemma_observation_fallbacks(entity: FeedEntityView, header: Option<u64>)
    ensures
        entity_observation(entity, header) matches Some(observation) ==> {
            let payload = entity.payload->VehiclePosition_0;
            &&& payload.vehicle is None ==> observation.vehicle_id == "unknown"@
            &&& (payload.vehicle matches Some(vehicle) && vehicle.id is None)
                ==> observation.vehicle_id == "unknown"@
            &&& (payload.vehicle matches Some(vehicle) && vehicle.id is Some)
                ==> observation.vehicle_id == payload.vehicle->0.id->0
            &&& payload.trip->0.route_id is None ==> observation.route_id == "unknown"@
            &&& payload.trip->0.route_id is Some ==> observation.route_id
                == payload.trip->0.route_id->0
        },
{
}

/// A trip update names the route `unknown` where its trip descriptor has
/// no route, and the trip `unknown` where it has no trip identifier. Its
/// vehicle has no such stand-in: it is missing where the payload has no
/// vehicle descriptor or the descriptor has no identifier.
pub proof fn lemma_trip_update_fallbacks(payload: TripUpdatePayloadView, header: Option<u64>)
    ensures
        payload.trip.route_id is None ==> trip_update_of(payload, header).route_id == "unknown"@,
        payload.trip.route_id matches Some(route) ==> trip_update_of(payload, header).route_id
            == route,
        payload.trip.trip_id is None ==> trip_update_of(payload, header).trip_id == "unknown"@,
        payload.trip.trip_id matches Some(trip) ==> trip_update_of(payload, header).trip_id
            == trip,
        payload.vehicle is None ==> trip_update_of(payload, header).vehicle_id is None,
        payload.vehicle matches Some(vehicle) ==> trip_update_of(payload, header).vehicle_id
            == vehicle.id,
{
}

/// The observation of an entity whose vehicle position has no timestamp of
/// its own carries the feed header's, read as a signed number, and zero
/// where the header has none either.
pub proof fn lemma_observation_timestamp_fallback(entity: FeedEntityView, header: Option<u64>)
    requires
        entity.payload matches EntityPayloadView::VehiclePosition(payload)
            && payload.timestamp is None,
    ensures
        entity_observation(entity, header) matches Some(observation) ==> {
            &&& header matches Some(seconds) ==> observation.timestamp == signed_seconds(seconds)
            &&& header matches Some(seconds) ==> seconds <= i64::MAX ==> observation.timestamp
                == seconds
            &&& header is None ==> observation.timestamp == 0
        },
{
}

/// A trip update whose payload has no timestamp of its own carries the feed
/// header's, read as a signed number, and zero where the header has none
/// either.
pub proof fn lemma_trip_update_timestamp_fallback(
    payload: TripUpdatePayloadView,
    header: Option<u64>,
)
    requires
        payload.timestamp is None,
    ensures
        header matches Some(seconds) ==> trip_update_of(payload, header).timestamp
            == signed_seconds(seconds),
        header matches Some(seconds) ==> seconds <= i64::MAX ==> trip_update_of(
            payload,
            header,
        ).timestamp == seconds,
        header is None ==> trip_update_of(payload, header).timestamp == 0,
{
}

/// A record whose payload has a timestamp of its own carries that one,
/// whatever the feed header says.
pub proof fn lemma_own_timestamp_wins(own: u64, header: Option<u64>)
    ensures
        resolve_timestamp(Some(own), header) == signed_seconds(own),
        own <= i64::MAX ==> resolve_timestamp(Some(own), header) == own,
{
}

/// The stops of a trip update are those of its payload, one for one and in
/// the same order, whatever their sequence numbers are.
pub proof fn lemma_stop_order_preserved(payload: TripUpdatePayloadView, header: Option<u64>)
    ensures
        trip_update_of(payload, header).stop_time_updates.len()
            == payload.stop_time_updates.len(),
        forall|i: int|
            0 <= i < payload.stop_time_updates.len() ==> #[trigger] trip_update_of(
                payload,
                header,
            ).stop_time_updates[i] == stop_time_update_of(payload.stop_time_updates[i]),
        forall|i: int|
            0 <= i < payload.stop_time_updates.len() ==> (#[trigger] trip_update_of(
                payload,
                header,
            ).stop_time_updates[i]).stop_sequence == match payload.stop_time_updates[i].stop_sequence {
                Some(sequence) => sequence,
                None => 0,
            },
{
}

/// Two normalizations of snapshots that hold the same data give records
/// that hold the same data.
pub proof fn lemma_normalization_repeatable(
    first: FeedSnapshot,
    second: FeedSnapshot,
    first_observations: Vec<BusObservation>,
    second_observations: Vec<BusObservation>,
    first_updates: Vec<TripUpdate>,
    second_updates: Vec<TripUpdate>,
)
    requires
        first@ == second@,
        first_observations.deep_view() == observations_of(first@),
        second_observations.deep_view() == observations_of(second@),
        first_updates.deep_view() == trip_updates_of(first@),
        second_updates.deep_view() == trip_updates_of(second@),
    ensures
        first_observations.deep_view() == second_observations.deep_view(),
        first_updates.deep_view() == second_updates.deep_view(),
{
}

} // verus!
