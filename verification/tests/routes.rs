use transit_feed::filter::{count_route, filter_routes, on_any_route};
use transit_feed::models::{BusObservation, TripUpdate};
use transit_feed::stats::PollStats;

fn update(route: &str, trip: &str) -> TripUpdate {
    TripUpdate {
        route_id: route.to_string(),
        trip_id: trip.to_string(),
        direction_id: None,
        vehicle_id: None,
        stop_time_updates: Vec::new(),
        timestamp: 0,
    }
}

fn sighting(route: &str, vehicle: &str) -> BusObservation {
    BusObservation {
        timestamp: 0,
        vehicle_id: vehicle.to_string(),
        route_id: route.to_string(),
        trip_id: None,
        direction_id: None,
        latitude_bits: 0,
        longitude_bits: 0,
        current_stop_sequence: None,
        speed_bits: None,
        bearing_bits: None,
    }
}

fn trip_ids(updates: &[TripUpdate]) -> Vec<String> {
    updates.iter().map(|u| u.trip_id.clone()).collect()
}

#[test]
fn filter_single_route_keeps_order() {
    let records = vec![update("1", "a"), update("2", "b"), update("1", "c")];
    let kept = filter_routes(records, &["1"]);
    assert_eq!(kept, vec![update("1", "a"), update("1", "c")]);
}

#[test]
fn filter_several_routes_at_once() {
    let records = vec![
        update("3", "a"),
        update("2", "b"),
        update("1", "c"),
        update("10", "d"),
        update("2", "e"),
    ];
    let kept = filter_routes(records, &["1", "2"]);
    assert_eq!(trip_ids(&kept), vec!["b".to_string(), "c".to_string(), "e".to_string()]);
}

#[test]
fn filter_is_case_sensitive_and_whole_string() {
    let records = vec![
        update("r1", "lower"),
        update("R1", "upper"),
        update("R10", "longer"),
        update("R", "shorter"),
        update(" R1", "padded"),
    ];
    let kept = filter_routes(records, &["R1"]);
    assert_eq!(trip_ids(&kept), vec!["upper".to_string()]);
}

#[test]
fn filter_with_no_targets_keeps_nothing() {
    let records = vec![update("1", "a"), update("2", "b")];
    let targets: [&str; 0] = [];
    assert!(filter_routes(records, &targets).is_empty());
}

#[test]
fn filter_of_nothing_is_nothing() {
    let records: Vec<TripUpdate> = Vec::new();
    assert!(filter_routes(records, &["1"]).is_empty());
}

#[test]
fn filter_with_repeated_target_keeps_each_record_once() {
    let records = vec![update("1", "a"), update("2", "b")];
    let kept = filter_routes(records, &["1", "1"]);
    assert_eq!(trip_ids(&kept), vec!["a".to_string()]);
}

#[test]
fn filter_observations_by_route() {
    let records = vec![sighting("1", "x"), sighting("2", "y"), sighting("1", "z")];
    let kept = filter_routes(records, &["1"]);
    assert_eq!(kept, vec![sighting("1", "x"), sighting("1", "z")]);
}

#[test]
fn on_any_route_tests_each_target() {
    let record = update("2", "a");
    assert!(on_any_route(&record, &["1", "2"]));
    assert!(on_any_route(&record, &["2"]));
    assert!(!on_any_route(&record, &["1", "3"]));
    assert!(!on_any_route(&record, &["22", ""]));
}

#[test]
fn observation_is_route_exact_match() {
    let record = sighting("1", "x");
    assert!(record.is_route("1"));
    assert!(!record.is_route("11"));
    assert!(!record.is_route("unknown"));
}

#[test]
fn count_route_counts_exact_matches() {
    let records = vec![update("1", "a"), update("2", "b"), update("1", "c"), update("11", "d")];
    assert_eq!(count_route(&records, "1"), 2);
    assert_eq!(count_route(&records, "2"), 1);
    assert_eq!(count_route(&records, "11"), 1);
    assert_eq!(count_route(&records, "3"), 0);
    let none: Vec<TripUpdate> = Vec::new();
    assert_eq!(count_route(&none, "1"), 0);
}

#[test]
fn poll_stats_counts_route_one() {
    let observations =
        vec![sighting("1", "a"), sighting("2", "b"), sighting("1", "c"), sighting("10", "d")];
    let stats = PollStats::summarize(&observations, 1_700_000_000);
    assert_eq!(
        stats,
        PollStats { total_vehicles: 4, route_1_vehicles: 2, timestamp: 1_700_000_000 }
    );
    let empty = PollStats::summarize(&Vec::new(), -1);
    assert_eq!(empty, PollStats { total_vehicles: 0, route_1_vehicles: 0, timestamp: -1 });
}
