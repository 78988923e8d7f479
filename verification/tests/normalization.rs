use transit_feed::models::{BusObservation, StopTimeEvent, StopTimeUpdate, TripUpdate};
use transit_feed::normalize::{
    normalize_trip_updates, normalize_vehicle_positions, observation_from, stop_time_update_from,
    timestamp_from, to_signed_direction, to_signed_seconds, trip_update_from,
};
use transit_feed::snapshot::{
    EntityPayload, FeedEntity, FeedSnapshot, Position, StopTimeEventPayload,
    StopTimeUpdatePayload, TripDescriptor, TripUpdatePayload, VehicleDescriptor,
    VehiclePositionPayload,
};

fn descriptor(route: Option<&str>, trip: Option<&str>, direction: Option<u32>) -> TripDescriptor {
    TripDescriptor {
        trip_id: trip.map(|t| t.to_string()),
        route_id: route.map(|r| r.to_string()),
        direction_id: direction,
    }
}

fn place() -> Position {
    Position {
        latitude_bits: 34.0195f64.to_bits(),
        longitude_bits: (-118.4912f64).to_bits(),
        bearing_bits: Some(270.5f32.to_bits()),
        speed_bits: Some(8.25f32.to_bits()),
    }
}

fn full_vehicle() -> VehiclePositionPayload {
    VehiclePositionPayload {
        trip: Some(descriptor(Some("1"), Some("T-1"), Some(1))),
        vehicle: Some(VehicleDescriptor { id: Some("4021".to_string()) }),
        position: Some(place()),
        current_stop_sequence: Some(7),
        timestamp: Some(1_700_000_100),
    }
}

fn vehicle_entity(id: &str, payload: VehiclePositionPayload) -> FeedEntity {
    FeedEntity { id: id.to_string(), payload: EntityPayload::VehiclePosition(payload) }
}

fn stop(sequence: Option<u32>, id: Option<&str>) -> StopTimeUpdatePayload {
    StopTimeUpdatePayload {
        stop_sequence: sequence,
        stop_id: id.map(|s| s.to_string()),
        arrival: None,
        departure: None,
    }
}

fn full_trip() -> TripUpdatePayload {
    TripUpdatePayload {
        trip: descriptor(Some("2"), Some("T-2"), Some(0)),
        vehicle: Some(VehicleDescriptor { id: Some("5150".to_string()) }),
        stop_time_updates: vec![stop(Some(1), Some("A")), stop(Some(2), Some("B"))],
        timestamp: Some(1_700_000_200),
    }
}

fn trip_entity(id: &str, payload: TripUpdatePayload) -> FeedEntity {
    FeedEntity { id: id.to_string(), payload: EntityPayload::TripUpdate(payload) }
}

fn bare_entity(id: &str) -> FeedEntity {
    FeedEntity { id: id.to_string(), payload: EntityPayload::Neither }
}

fn snapshot(header: Option<u64>, entities: Vec<FeedEntity>) -> FeedSnapshot {
    FeedSnapshot { header_timestamp: header, entities }
}

#[test]
fn empty_snapshot_yields_nothing() {
    let s = snapshot(Some(5), vec![]);
    assert!(normalize_vehicle_positions(&s).is_empty());
    assert!(normalize_trip_updates(&s).is_empty());
}

#[test]
fn entities_without_payload_yield_nothing() {
    let s = snapshot(Some(5), vec![bare_entity("a"), bare_entity("b"), bare_entity("c")]);
    assert!(normalize_vehicle_positions(&s).is_empty());
    assert!(normalize_trip_updates(&s).is_empty());
}

#[test]
fn full_vehicle_position_is_copied_field_by_field() {
    let s = snapshot(Some(1_700_000_000), vec![vehicle_entity("e1", full_vehicle())]);
    let observations = normalize_vehicle_positions(&s);
    assert_eq!(
        observations,
        vec![BusObservation {
            timestamp: 1_700_000_100,
            vehicle_id: "4021".to_string(),
            route_id: "1".to_string(),
            trip_id: Some("T-1".to_string()),
            direction_id: Some(1),
            latitude_bits: 34.0195f64.to_bits(),
            longitude_bits: (-118.4912f64).to_bits(),
            current_stop_sequence: Some(7),
            speed_bits: Some(8.25f32.to_bits()),
            bearing_bits: Some(270.5f32.to_bits()),
        }]
    );
    assert_eq!(f64::from_bits(observations[0].latitude_bits), 34.0195);
    assert_eq!(f32::from_bits(observations[0].speed_bits.unwrap()), 8.25);
    assert!(normalize_trip_updates(&s).is_empty());
}

#[test]
fn vehicle_without_trip_is_excluded() {
    let mut no_trip = full_vehicle();
    no_trip.trip = None;
    let s = snapshot(
        Some(9),
        vec![
            vehicle_entity("e1", full_vehicle()),
            vehicle_entity("e2", no_trip.clone()),
            vehicle_entity("e3", full_vehicle()),
            vehicle_entity("e4", no_trip),
        ],
    );
    let observations = normalize_vehicle_positions(&s);
    assert_eq!(observations.len(), s.entities.len() - 2);
    let without = snapshot(
        Some(9),
        vec![vehicle_entity("e1", full_vehicle()), vehicle_entity("e3", full_vehicle())],
    );
    assert_eq!(observations, normalize_vehicle_positions(&without));
}

#[test]
fn vehicle_without_position_is_excluded() {
    let mut no_position = full_vehicle();
    no_position.position = None;
    assert_eq!(observation_from(&no_position, Some(1)), None);
    let s = snapshot(
        None,
        vec![vehicle_entity("e1", no_position), vehicle_entity("e2", full_vehicle())],
    );
    let observations = normalize_vehicle_positions(&s);
    assert_eq!(observations.len(), 1);
    assert_eq!(observations[0].vehicle_id, "4021");
}

#[test]
fn missing_vehicle_descriptor_becomes_unknown() {
    let mut payload = full_vehicle();
    payload.vehicle = None;
    let observation = observation_from(&payload, None).unwrap();
    assert_eq!(observation.vehicle_id, "unknown");
    assert_eq!(observation.route_id, "1");
}

#[test]
fn missing_vehicle_id_becomes_unknown() {
    let mut payload = full_vehicle();
    payload.vehicle = Some(VehicleDescriptor { id: None });
    let observation = observation_from(&payload, None).unwrap();
    assert_eq!(observation.vehicle_id, "unknown");
}

#[test]
fn missing_route_becomes_unknown() {
    let mut payload = full_vehicle();
    payload.trip = Some(descriptor(None, None, None));
    let observation = observation_from(&payload, None).unwrap();
    assert_eq!(observation.route_id, "unknown");
    assert_eq!(observation.trip_id, None);
    assert_eq!(observation.direction_id, None);

    let mut trip = full_trip();
    trip.trip = descriptor(None, None, None);
    let update = trip_update_from(&trip, None);
    assert_eq!(update.route_id, "unknown");
    assert_eq!(update.trip_id, "unknown");
    assert_eq!(update.direction_id, None);
}

#[test]
fn trip_update_vehicle_has_no_fallback() {
    let mut trip = full_trip();
    trip.vehicle = None;
    assert_eq!(trip_update_from(&trip, None).vehicle_id, None);
    trip.vehicle = Some(VehicleDescriptor { id: None });
    assert_eq!(trip_update_from(&trip, None).vehicle_id, None);
    trip.vehicle = Some(VehicleDescriptor { id: Some("x".to_string()) });
    assert_eq!(trip_update_from(&trip, None).vehicle_id, Some("x".to_string()));
}

#[test]
fn timestamp_prefers_own_then_header_then_zero() {
    assert_eq!(timestamp_from(Some(10), Some(20)), 10);
    assert_eq!(timestamp_from(Some(10), None), 10);
    assert_eq!(timestamp_from(None, Some(20)), 20);
    assert_eq!(timestamp_from(None, None), 0);
    assert_eq!(timestamp_from(Some(0), Some(20)), 0);
}

#[test]
fn records_fall_back_to_header_timestamp() {
    let mut vehicle = full_vehicle();
    vehicle.timestamp = None;
    let mut trip = full_trip();
    trip.timestamp = None;
    let with_header = snapshot(
        Some(1_700_000_000),
        vec![vehicle_entity("v", vehicle.clone()), trip_entity("t", trip.clone())],
    );
    assert_eq!(normalize_vehicle_positions(&with_header)[0].timestamp, 1_700_000_000);
    assert_eq!(normalize_trip_updates(&with_header)[0].timestamp, 1_700_000_000);
    let without_header = snapshot(None, vec![vehicle_entity("v", vehicle), trip_entity("t", trip)]);
    assert_eq!(normalize_vehicle_positions(&without_header)[0].timestamp, 0);
    assert_eq!(normalize_trip_updates(&without_header)[0].timestamp, 0);
}

#[test]
fn unsigned_values_keep_their_bits() {
    assert_eq!(to_signed_seconds(0), 0);
    assert_eq!(to_signed_seconds(i64::MAX as u64), i64::MAX);
    assert_eq!(to_signed_seconds(1u64 << 63), i64::MIN);
    assert_eq!(to_signed_seconds(u64::MAX), -1);
    assert_eq!(to_signed_direction(1), 1);
    assert_eq!(to_signed_direction(i32::MAX as u32), i32::MAX);
    assert_eq!(to_signed_direction(1u32 << 31), i32::MIN);
    assert_eq!(to_signed_direction(u32::MAX), -1);
    for value in [0u64, 1, 1 << 62, (1 << 63) - 1, 1 << 63, (1 << 63) + 1, u64::MAX - 1] {
        assert_eq!(to_signed_seconds(value), value as i64);
    }
}

#[test]
fn full_trip_update_is_copied_field_by_field() {
    let mut payload = full_trip();
    payload.stop_time_updates = vec![StopTimeUpdatePayload {
        stop_sequence: Some(3),
        stop_id: Some("S".to_string()),
        arrival: Some(StopTimeEventPayload { time: Some(100), delay: Some(-30), uncertainty: Some(5) }),
        departure: Some(StopTimeEventPayload { time: None, delay: None, uncertainty: None }),
    }];
    let s = snapshot(Some(1), vec![trip_entity("t", payload)]);
    assert_eq!(
        normalize_trip_updates(&s),
        vec![TripUpdate {
            route_id: "2".to_string(),
            trip_id: "T-2".to_string(),
            direction_id: Some(0),
            vehicle_id: Some("5150".to_string()),
            stop_time_updates: vec![StopTimeUpdate {
                stop_sequence: 3,
                stop_id: Some("S".to_string()),
                arrival: Some(StopTimeEvent { time: Some(100), delay: Some(-30), uncertainty: Some(5) }),
                departure: Some(StopTimeEvent { time: None, delay: None, uncertainty: None }),
            }],
            timestamp: 1_700_000_200,
        }]
    );
    assert!(normalize_vehicle_positions(&s).is_empty());
}

#[test]
fn missing_stop_sequence_is_zero() {
    let update = stop_time_update_from(&stop(None, Some("A")));
    assert_eq!(update.stop_sequence, 0);
    assert_eq!(update.stop_id, Some("A".to_string()));
    assert_eq!(update.arrival, None);
    assert_eq!(update.departure, None);
}

#[test]
fn stop_order_is_kept_with_duplicates() {
    let mut payload = full_trip();
    payload.stop_time_updates = vec![
        stop(Some(5), Some("e")),
        stop(Some(2), Some("b")),
        stop(Some(5), Some("e2")),
        stop(None, Some("z")),
        stop(Some(2), None),
        stop(None, None),
    ];
    let update = trip_update_from(&payload, None);
    let sequences: Vec<u32> = update.stop_time_updates.iter().map(|s| s.stop_sequence).collect();
    assert_eq!(sequences, vec![5, 2, 5, 0, 2, 0]);
    let ids: Vec<Option<String>> =
        update.stop_time_updates.iter().map(|s| s.stop_id.clone()).collect();
    assert_eq!(
        ids,
        vec![
            Some("e".to_string()),
            Some("b".to_string()),
            Some("e2".to_string()),
            Some("z".to_string()),
            None,
            None
        ]
    );
}

#[test]
fn trip_update_without_stops() {
    let mut payload = full_trip();
    payload.stop_time_updates = vec![];
    assert!(trip_update_from(&payload, None).stop_time_updates.is_empty());
}

#[test]
fn entity_order_is_kept_in_both_pipelines() {
    let mut a = full_vehicle();
    a.vehicle = Some(VehicleDescriptor { id: Some("a".to_string()) });
    let mut b = full_vehicle();
    b.vehicle = Some(VehicleDescriptor { id: Some("b".to_string()) });
    let mut t1 = full_trip();
    t1.trip = descriptor(Some("1"), Some("first"), None);
    let mut t2 = full_trip();
    t2.trip = descriptor(Some("1"), Some("second"), None);
    let s = snapshot(
        None,
        vec![
            trip_entity("1", t1),
            vehicle_entity("2", b),
            bare_entity("3"),
            vehicle_entity("4", a),
            trip_entity("5", t2),
        ],
    );
    let vehicles: Vec<String> =
        normalize_vehicle_positions(&s).into_iter().map(|o| o.vehicle_id).collect();
    assert_eq!(vehicles, vec!["b".to_string(), "a".to_string()]);
    let trips: Vec<String> = normalize_trip_updates(&s).into_iter().map(|t| t.trip_id).collect();
    assert_eq!(trips, vec!["first".to_string(), "second".to_string()]);
}

#[test]
fn normalizing_twice_gives_equal_records() {
    let s = snapshot(
        Some(77),
        vec![
            vehicle_entity("v", full_vehicle()),
            trip_entity("t", full_trip()),
            bare_entity("n"),
        ],
    );
    assert_eq!(normalize_vehicle_positions(&s), normalize_vehicle_positions(&s));
    assert_eq!(normalize_trip_updates(&s), normalize_trip_updates(&s));
    let copy = s.clone();
    assert_eq!(normalize_trip_updates(&s), normalize_trip_updates(&copy));
    assert_eq!(normalize_vehicle_positions(&s), normalize_vehicle_positions(&copy));
}

#[test]
fn payload_from_parts_prefers_trip_update() {
    assert_eq!(EntityPayload::from_parts(None, None), EntityPayload::Neither);
    assert_eq!(
        EntityPayload::from_parts(Some(full_vehicle()), None),
        EntityPayload::VehiclePosition(full_vehicle())
    );
    assert_eq!(
        EntityPayload::from_parts(None, Some(full_trip())),
        EntityPayload::TripUpdate(full_trip())
    );
    assert_eq!(
        EntityPayload::from_parts(Some(full_vehicle()), Some(full_trip())),
        EntityPayload::TripUpdate(full_trip())
    );
}
