//! From a feed snapshot to records: which entities yield a record, and what
//! each field of the record is.

use vstd::prelude::*;
use vstd::string::*;

use crate::models::{
    BusObservation, BusObservationView, StopTimeEvent, StopTimeUpdate, StopTimeUpdateView,
    TripUpdate, TripUpdateView,
};
use crate::snapshot::{
    EntityPayload, EntityPayloadView, FeedEntityView, FeedSnapshot, FeedSnapshotView,
    StopTimeEventPayload, StopTimeUpdatePayload, StopTimeUpdatePayloadView, TripUpdatePayload,
    TripUpdatePayloadView, VehicleDescriptor, VehicleDescriptorView, VehiclePositionPayload,
    VehiclePositionPayloadView,
};

verus! {

/// The signed number with the same 64 bits as `seconds`: the value itself up
/// to `i64::MAX`, and 2^64 less above it.
pub open spec fn signed_seconds(seconds: u64) -> i64 {
    if seconds <= i64::MAX {
        seconds as i64
    } else {
        (seconds - 0x1_0000_0000_0000_0000) as i64
    }
}

/// The signed number with the same 32 bits as `direction`: the value itself
/// up to `i32::MAX`, and 2^32 less above it.
pub open spec fn signed_direction(direction: u32) -> i32 {
    if direction <= i32::MAX {
        direction as i32
    } else {
        (direction - 0x1_0000_0000) as i32
    }
}

/// The timestamp of a record: the payload's own where it has one, else the
/// feed header's, else zero.
pub open spec fn resolve_timestamp(own: Option<u64>, header: Option<u64>) -> i64 {
    match own {
        Some(seconds) => signed_seconds(seconds),
        None => match header {
            Some(seconds) => signed_seconds(seconds),
            None => 0,
        },
    }
}

/// An identifier, or the word `unknown` in place of a missing one.
pub open spec fn text_or_unknown(text: Option<Seq<char>>) -> Seq<char> {
    match text {
        Some(text) => text,
        None => "unknown"@,
    }
}

/// The direction of a trip descriptor as the records carry it.
pub open spec fn direction_of(direction: Option<u32>) -> Option<i32> {
    match direction {
        Some(direction) => Some(signed_direction(direction)),
        None => None,
    }
}

/// The identifier in a vehicle descriptor that may itself be missing.
pub open spec fn vehicle_id_of(vehicle: Option<VehicleDescriptorView>) -> Option<Seq<char>> {
    match vehicle {
        Some(vehicle) => vehicle.id,
        None => None,
    }
}

/// The observation that a vehicle-position payload yields: none without a
/// trip descriptor, none without a position. A missing vehicle descriptor
/// does not drop the observation.
pub open spec fn observation_of(
    payload: VehiclePositionPayloadView,
    header: Option<u64>,
) -> Option<BusObservationView> {
    match (payload.trip, payload.position) {
        (Some(trip), Some(position)) => Some(
            BusObservationView {
                timestamp: resolve_timestamp(payload.timestamp, header),
                vehicle_id: text_or_unknown(vehicle_id_of(payload.vehicle)),
                route_id: text_or_unknown(trip.route_id),
                trip_id: trip.trip_id,
                direction_id: direction_of(trip.direction_id),
                latitude_bits: position.latitude_bits,
                longitude_bits: position.longitude_bits,
                current_stop_sequence: payload.current_stop_sequence,
                speed_bits: position.speed_bits,
                bearing_bits: position.bearing_bits,
            },
        ),
        _ => None,
    }
}

/// The observation that an entity yields, if any.
pub open spec fn entity_observation(entity: FeedEntityView, header: Option<u64>) -> Option<
    BusObservationView,
> {
    match entity.payload {
        EntityPayloadView::VehiclePosition(payload) => observation_of(payload, header),
        _ => None,
    }
}

/// [`entity_observation`] under a fixed header timestamp.
pub open spec fn observation_picker(header: Option<u64>) -> spec_fn(FeedEntityView) -> Option<
    BusObservationView,
> {
    |entity: FeedEntityView| entity_observation(entity, header)
}

/// The observations of a snapshot: those of its entities, in feed order.
pub open spec fn observations_of(snapshot: FeedSnapshotView) -> Seq<BusObservationView> {
    snapshot.entities.filter_map(observation_picker(snapshot.header_timestamp))
}

/// A prediction of the feed as the records carry it: field by field.
pub open spec fn event_of(event: Option<StopTimeEventPayload>) -> Option<StopTimeEvent> {
    match event {
        Some(event) => Some(
            StopTimeEvent { time: event.time, delay: event.delay, uncertainty: event.uncertainty },
        ),
        None => None,
    }
}

/// The record of one stop's predictions; a missing sequence number is zero.
pub open spec fn stop_time_update_of(update: StopTimeUpdatePayloadView) -> StopTimeUpdateView {
    StopTimeUpdateView {
        stop_sequence: match update.stop_sequence {
            Some(sequence) => sequence,
            None => 0,
        },
        stop_id: update.stop_id,
        arrival: event_of(update.arrival),
        departure: event_of(update.departure),
    }
}

/// The records of a payload's stops: one per stop, in the payload's order.
pub open spec fn stop_time_updates_of(updates: Seq<StopTimeUpdatePayloadView>) -> Seq<
    StopTimeUpdateView,
> {
    updates.map_values(|update: StopTimeUpdatePayloadView| stop_time_update_of(update))
}

/// The trip update that a trip-update payload yields.
pub open spec fn trip_update_of(payload: TripUpdatePayloadView, header: Option<u64>) -> TripUpdateView {
    TripUpdateView {
        route_id: text_or_unknown(payload.trip.route_id),
        trip_id: text_or_unknown(payload.trip.trip_id),
        direction_id: direction_of(payload.trip.direction_id),
        vehicle_id: vehicle_id_of(payload.vehicle),
        stop_time_updates: stop_time_updates_of(payload.stop_time_updates),
        timestamp: resolve_timestamp(payload.timestamp, header),
    }
}

/// The trip update that an entity yields, if any.
pub open spec fn entity_trip_update(entity: FeedEntityView, header: Option<u64>) -> Option<
    TripUpdateView,
> {
    match entity.payload {
        EntityPayloadView::TripUpdate(payload) => Some(trip_update_of(payload, header)),
        _ => None,
    }
}

/// [`entity_trip_update`] under a fixed header timestamp.
pub open spec fn trip_update_picker(header: Option<u64>) -> spec_fn(FeedEntityView) -> Option<
    TripUpdateView,
> {
    |entity: FeedEntityView| entity_trip_update(entity, header)
}

/// The trip updates of a snapshot: those of its entities, in feed order.
pub open spec fn trip_updates_of(snapshot: FeedSnapshotView) -> Seq<TripUpdateView> {
    snapshot.entities.filter_map(trip_update_picker(snapshot.header_timestamp))
}

/// Reads 64 bits of unsigned seconds as signed seconds.
pub fn to_signed_seconds(seconds: u64) -> (r: i64)
    ensures
        r == signed_seconds(seconds),
{
    if seconds <= 0x7fff_ffff_ffff_ffff {
        seconds as i64
    } else {
        ((seconds - 0x8000_0000_0000_0000) as i64) + i64::MIN
    }
}

/// Reads 32 bits of an unsigned direction as a signed one.
pub fn to_signed_direction(direction: u32) -> (r: i32)
    ensures
        r == signed_direction(direction),
{
    if direction <= 0x7fff_ffff {
        direction as i32
    } else {
        ((direction - 0x8000_0000) as i32) + i32::MIN
    }
}

/// Resolves the timestamp of a record from the payload's own timestamp and
/// the feed header's.
pub fn timestamp_from(own: Option<u64>, header: Option<u64>) -> (r: i64)
    ensures
        r == resolve_timestamp(own, header),
{
    match own {
        Some(seconds) => to_signed_seconds(seconds),
        None => match header {
            Some(seconds) => to_signed_seconds(seconds),
            None => 0,
        },
    }
}

fn copy_text(text: &Option<String>) -> (r: Option<String>)
    ensures
        r.deep_view() == text.deep_view(),
{
    match text {
        Some(text) => Some(text.clone()),
        None => None,
    }
}

fn copy_text_or_unknown(text: &Option<String>) -> (r: String)
    ensures
        r@ == text_or_unknown(text.deep_view()),
{
    match text {
        Some(text) => text.clone(),
        None => String::from_str("unknown"),
    }
}

fn copy_direction(direction: Option<u32>) -> (r: Option<i32>)
    ensures
        r == direction_of(direction),
{
    match direction {
        Some(direction) => Some(to_signed_direction(direction)),
        None => None,
    }
}

fn copy_vehicle_id(vehicle: &Option<VehicleDescriptor>) -> (r: Option<String>)
    ensures
        r.deep_view() == vehicle_id_of(vehicle.deep_view()),
{
    match vehicle {
        Some(vehicle) => copy_text(&vehicle.id),
        None => None,
    }
}

fn copy_event(event: Option<StopTimeEventPayload>) -> (r: Option<StopTimeEvent>)
    ensures
        r == event_of(event),
{
    match event {
        Some(event) => Some(
            StopTimeEvent { time: event.time, delay: event.delay, uncertainty: event.uncertainty },
        ),
        None => None,
    }
}

/// Builds the record of one stop's predictions.
pub fn stop_time_update_from(update: &StopTimeUpdatePayload) -> (r: StopTimeUpdate)
    ensures
        r@ == stop_time_update_of(update@),
{
    StopTimeUpdate {
        stop_sequence: match update.stop_sequence {
            Some(sequence) => sequence,
            None => 0,
        },
        stop_id: copy_text(&update.stop_id),
        arrival: copy_event(update.arrival),
        departure: copy_event(update.departure),
    }
}

/// Builds the trip update of a trip-update payload, under the feed header's
/// timestamp.
pub fn trip_update_from(payload: &TripUpdatePayload, header: Option<u64>) -> (r: TripUpdate)
    ensures
        r@ == trip_update_of(payload@, header),
{
    let mut stops: Vec<StopTimeUpdate> = Vec::new();
    let mut i: usize = 0;
    while i < payload.stop_time_updates.len()
        invariant
            i <= payload.stop_time_updates.len(),
            stops.len() == i,
            forall|k: int|
                0 <= k < i ==> #[trigger] stops[k]@ == stop_time_update_of(
                    payload.stop_time_updates[k]@,
                ),
        decreases payload.stop_time_updates.len() - i,
    {
        stops.push(stop_time_update_from(&payload.stop_time_updates[i]));
        i = i + 1;
    }
    assert(stops.deep_view() =~= stop_time_updates_of(payload@.stop_time_updates));
    TripUpdate {
        route_id: copy_text_or_unknown(&payload.trip.route_id),
        trip_id: copy_text_or_unknown(&payload.trip.trip_id),
        direction_id: copy_direction(payload.trip.direction_id),
        vehicle_id: copy_vehicle_id(&payload.vehicle),
        stop_time_updates: stops,
        timestamp: timestamp_from(payload.timestamp, header),
    }
}

/// Builds the observation of a vehicle-position payload, under the feed
/// header's timestamp, or nothing where the payload lacks a trip descriptor
/// or a position.
pub fn observation_from(payload: &VehiclePositionPayload, header: Option<u64>) -> (r: Option<
    BusObservation,
>)
    ensures
        r.deep_view() == observation_of(payload@, header),
{
    let trip = match &payload.trip {
        Some(trip) => trip,
        None => {
            return None;
        },
    };
    let route_id = copy_text_or_unknown(&trip.route_id);
    let trip_id = copy_text(&trip.trip_id);
    let direction_id = copy_direction(trip.direction_id);
    let vehicle_id = match copy_vehicle_id(&payload.vehicle) {
        Some(id) => id,
        None => String::from_str("unknown"),
    };
    let position = match payload.position {
        Some(position) => position,
        None => {
            return None;
        },
    };
    Some(
        BusObservation {
            timestamp: timestamp_from(payload.timestamp, header),
            vehicle_id,
            route_id,
            trip_id,
            direction_id,
            latitude_bits: position.latitude_bits,
            longitude_bits: position.longitude_bits,
            current_stop_sequence: payload.current_stop_sequence,
            speed_bits: position.speed_bits,
            bearing_bits: position.bearing_bits,
        },
    )
}

/// Normalizes the vehicle positions of a snapshot: one observation for each
/// entity that carries a vehicle position with a trip descriptor and a
/// position, in feed order.
pub fn normalize_vehicle_positions(snapshot: &FeedSnapshot) -> (r: Vec<BusObservation>)
    ensures
        r.deep_view() == observations_of(snapshot@),
{
    let header = snapshot.header_timestamp;
    let ghost pick = observation_picker(header);
    let ghost entities = snapshot@.entities;
    let mut observations: Vec<BusObservation> = Vec::new();
    let mut i: usize = 0;
    assert(entities.take(0).filter_map(pick) =~= Seq::empty());
    while i < snapshot.entities.len()
        invariant
            i <= snapshot.entities.len(),
            header == snapshot.header_timestamp,
            pick == observation_picker(header),
            entities == snapshot@.entities,
            observations.deep_view() == entities.take(i as int).filter_map(pick),
        decreases snapshot.entities.len() - i,
    {
        let ghost before = observations.deep_view();
        proof {
            entities.lemma_filter_map_take_succ(pick, i as int);
        }
        if let EntityPayload::VehiclePosition(payload) = &snapshot.entities[i].payload {
            if let Some(observation) = observation_from(payload, header) {
                observations.push(observation);
                assert(observations.deep_view() =~= before.push(observation@));
            }
        }
        i = i + 1;
    }
    assert(entities.take(i as int) =~= entities);
    observations
}

/// Normalizes the trip updates of a snapshot: one for each entity that
/// carries a trip update, in feed order.
pub fn normalize_trip_updates(snapshot: &FeedSnapshot) -> (r: Vec<TripUpdate>)
    ensures
        r.deep_view() == trip_updates_of(snapshot@),
{
    let header = snapshot.header_timestamp;
    let ghost pick = trip_update_picker(header);
    let ghost entities = snapshot@.entities;
    let mut updates: Vec<TripUpdate> = Vec::new();
    let mut i: usize = 0;
    assert(entities.take(0).filter_map(pick) =~= Seq::empty());
    while i < snapshot.entities.len()
        invariant
            i <= snapshot.entities.len(),
            header == snapshot.header_timestamp,
            pick == trip_update_picker(header),
            entities == snapshot@.entities,
            updates.deep_view() == entities.take(i as int).filter_map(pick),
        decreases snapshot.entities.len() - i,
    {
        let ghost before = updates.deep_view();
        proof {
            entities.lemma_filter_map_take_succ(pick, i as int);
        }
        if let EntityPayload::TripUpdate(payload) = &snapshot.entities[i].payload {
            let update = trip_update_from(payload, header);
            updates.push(update);
            assert(updates.deep_view() =~= before.push(update@));
        }
        i = i + 1;
    }
    assert(entities.take(i as int) =~= entities);
    updates
}

} // verus!
