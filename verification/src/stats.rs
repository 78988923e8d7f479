//! Counts over the observations of one poll.

use vstd::prelude::*;

use crate::filter::{count_route, on_routes};
use crate::models::BusObservation;

verus! {

/// The counts of one poll.
#[derive(Debug, Clone, Copy, PartialEq, Eq)]
pub struct PollStats {
    /// Number of vehicles observed.
    pub total_vehicles: usize,
    /// Number of those on route `1`.
    pub route_1_vehicles: usize,
    /// When the poll was made, in seconds since the Unix epoch.
    pub timestamp: i64,
}

impl PollStats {
    /// Counts the observations of a poll made at `timestamp`.
    pub fn summarize(observations: &Vec<BusObservation>, timestamp: i64) -> (stats: PollStats)
        ensures
            stats.total_vehicles == observations@.len(),
            stats.route_1_vehicles == observations@.filter(
                on_routes::<BusObservation>(set!["1"@]),
            ).len(),
            stats.timestamp == timestamp,
    {
        PollStats {
            total_vehicles: observations.len(),
            route_1_vehicles: count_route(observations, "1"),
            timestamp,
        }
    }
}

} // verus!
