//! The normalized records: trip updates with their stop times, and vehicle
//! observations.

use vstd::prelude::*;
use vstd::string::*;

use crate::clock::{format_timestamp, timestamp_text};
use crate::text::{decimal_digits, push_decimal, same_text};

verus! {

/// A predicted arrival or departure.
#[derive(Debug, Clone, Copy, PartialEq, Eq)]
pub struct StopTimeEvent {
    /// Predicted time, in seconds since the Unix epoch.
    pub time: Option<i64>,
    /// Delay in seconds; positive is late, negative is early.
    pub delay: Option<i32>,
    /// Uncertainty of the prediction, in seconds.
    pub uncertainty: Option<i32>,
}

impl View for StopTimeEvent {
    type V = StopTimeEvent;

    open spec fn view(&self) -> StopTimeEvent {
        *self
    }
}

impl DeepView for StopTimeEvent {
    type V = StopTimeEvent;

    open spec fn deep_view(&self) -> StopTimeEvent {
        *self
    }
}

/// The predictions for one stop of a trip.
#[derive(Debug, Clone, PartialEq, Eq)]
pub struct StopTimeUpdate {
    /// Position of the stop along the trip.
    pub stop_sequence: u32,
    /// Identifier of the stop.
    pub stop_id: Option<String>,
    /// Predicted arrival.
    pub arrival: Option<StopTimeEvent>,
    /// Predicted departure.
    pub departure: Option<StopTimeEvent>,
}

/// What a [`StopTimeUpdate`] holds.
pub ghost struct StopTimeUpdateView {
    pub stop_sequence: u32,
    pub stop_id: Option<Seq<char>>,
    pub arrival: Option<StopTimeEvent>,
    pub departure: Option<StopTimeEvent>,
}

impl View for StopTimeUpdate {
    type V = StopTimeUpdateView;

    open spec fn view(&self) -> StopTimeUpdateView {
        StopTimeUpdateView {
            stop_sequence: self.stop_sequence,
            stop_id: self.stop_id.deep_view(),
            arrival: self.arrival,
            departure: self.departure,
        }
    }
}

impl DeepView for StopTimeUpdate {
    type V = StopTimeUpdateView;

    open spec fn deep_view(&self) -> StopTimeUpdateView {
        self@
    }
}

/// A trip with its real-time predictions.
#[derive(Debug, Clone, PartialEq, Eq)]
pub struct TripUpdate {
    /// Route of the trip.
    pub route_id: String,
    /// Identifier of the trip.
    pub trip_id: String,
    /// Direction of travel, 0 or 1 by convention.
    pub direction_id: Option<i32>,
    /// Vehicle serving the trip, where the feed names one.
    pub vehicle_id: Option<String>,
    /// Predictions per stop, in the order of the feed.
    pub stop_time_updates: Vec<StopTimeUpdate>,
    /// When the update was generated, in seconds since the Unix epoch.
    pub timestamp: i64,
}

/// What a [`TripUpdate`] holds.
pub ghost struct TripUpdateView {
    pub route_id: Seq<char>,
    pub trip_id: Seq<char>,
    pub direction_id: Option<i32>,
    pub vehicle_id: Option<Seq<char>>,
    pub stop_time_updates: Seq<StopTimeUpdateView>,
    pub timestamp: i64,
}

impl View for TripUpdate {
    type V = TripUpdateView;

    open spec fn view(&self) -> TripUpdateView {
        TripUpdateView {
            route_id: self.route_id@,
            trip_id: self.trip_id@,
            direction_id: self.direction_id,
            vehicle_id: self.vehicle_id.deep_view(),
            stop_time_updates: self.stop_time_updates.deep_view(),
            timestamp: self.timestamp,
        }
    }
}

impl DeepView for TripUpdate {
    type V = TripUpdateView;

    open spec fn deep_view(&self) -> TripUpdateView {
        self@
    }
}

/// One sighting of a vehicle.
///
/// Coordinates and measurements are carried as the bit patterns of their
/// IEEE 754 values and are never computed on.
#[derive(Debug, Clone, PartialEq, Eq)]
pub struct BusObservation {
    /// When the vehicle was seen, in seconds since the Unix epoch.
    pub timestamp: i64,
    /// Identifier of the vehicle.
    pub vehicle_id: String,
    /// Route the vehicle is serving.
    pub route_id: String,
    /// Trip the vehicle is serving.
    pub trip_id: Option<String>,
    /// Direction of travel, 0 or 1 by convention.
    pub direction_id: Option<i32>,
    /// Latitude in degrees, as a binary64 bit pattern.
    pub latitude_bits: u64,
    /// Longitude in degrees, as a binary64 bit pattern.
    pub longitude_bits: u64,
    /// Position of the current stop along the trip.
    pub current_stop_sequence: Option<u32>,
    /// Speed in meters per second, as a binary32 bit pattern.
    pub speed_bits: Option<u32>,
    /// Bearing in degrees, as a binary32 bit pattern.
    pub bearing_bits: Option<u32>,
}

/// What a [`BusObservation`] holds.
pub ghost struct BusObservationView {
    pub timestamp: i64,
    pub vehicle_id: Seq<char>,
    pub route_id: Seq<char>,
    pub trip_id: Option<Seq<char>>,
    pub direction_id: Option<i32>,
    pub latitude_bits: u64,
    pub longitude_bits: u64,
    pub current_stop_sequence: Option<u32>,
    pub speed_bits: Option<u32>,
    pub bearing_bits: Option<u32>,
}

impl View for BusObservation {
    type V = BusObservationView;

    open spec fn view(&self) -> BusObservationView {
        BusObservationView {
            timestamp: self.timestamp,
            vehicle_id: self.vehicle_id@,
            route_id: self.route_id@,
            trip_id: self.trip_id.deep_view(),
            direction_id: self.direction_id,
            latitude_bits: self.latitude_bits,
            longitude_bits: self.longitude_bits,
            current_stop_sequence: self.current_stop_sequence,
            speed_bits: self.speed_bits,
            bearing_bits: self.bearing_bits,
        }
    }
}

impl DeepView for BusObservation {
    type V = BusObservationView;

    open spec fn deep_view(&self) -> BusObservationView {
        self@
    }
}

/// The label of a delay of `delay` seconds: `on time` for zero, else the
/// whole minutes and remaining seconds of its magnitude, followed by `late`
/// for a positive and `early` for a negative delay.
pub open spec fn delay_text(delay: int) -> Seq<char> {
    let magnitude = if delay < 0 {
        -delay
    } else {
        delay
    };
    if delay == 0 {
        "on time"@
    } else {
        decimal_digits((magnitude / 60) as nat) + "m "@ + decimal_digits((magnitude % 60) as nat)
            + "s "@ + (if delay > 0 {
            "late"@
        } else {
            "early"@
        })
    }
}

/// The word shown for a direction of travel.
pub open spec fn direction_text(direction_id: Option<i32>) -> Seq<char> {
    match direction_id {
        Some(0) => "Outbound"@,
        Some(1) => "Inbound"@,
        _ => "Unknown"@,
    }
}

/// The one-line summary of a trip update: route, trip, direction, number of
/// stops with predictions, and the vehicle or `N/A`.
pub open spec fn trip_update_text(update: TripUpdateView) -> Seq<char> {
    "Route "@ + update.route_id + " | Trip "@ + update.trip_id + " | "@ + direction_text(
        update.direction_id,
    ) + " | "@ + decimal_digits(update.stop_time_updates.len()) + " stops with updates | Vehicle: "@
        + (match update.vehicle_id {
        Some(vehicle) => vehicle,
        None => "N/A"@,
    })
}

/// The part of a stop line that shows one prediction behind `prefix`: its
/// delay where it has one, else its time of day where it has a time, else
/// nothing.
pub open spec fn event_text(prefix: Seq<char>, event: Option<StopTimeEvent>) -> Seq<char> {
    match event {
        Some(StopTimeEvent { delay: Some(delay), .. }) => prefix + delay_text(delay as int),
        Some(StopTimeEvent { delay: None, time: Some(time), .. }) => prefix + timestamp_text(
            time as int,
        ),
        _ => Seq::empty(),
    }
}

/// The line shown for the predictions at one stop: the stop's sequence
/// number, its identifier in parentheses where known, then arrival and
/// departure.
pub open spec fn stop_time_update_text(update: StopTimeUpdateView) -> Seq<char> {
    "  Stop #"@ + decimal_digits(update.stop_sequence as nat) + (match update.stop_id {
        Some(stop) => " ("@ + stop + ")"@,
        None => Seq::empty(),
    }) + event_text(" | Arrival: "@, update.arrival) + event_text(
        " | Departure: "@,
        update.departure,
    )
}

/// Appends to `out` what a stop line shows of one prediction.
fn push_event(out: &mut String, prefix: &str, event: &Option<StopTimeEvent>)
    ensures
        final(out)@ == old(out)@ + event_text(prefix@, *event),
{
    if let Some(event) = event {
        if let Some(delay) = event.delay {
            let label = TripUpdate::format_delay(delay);
            out.append(prefix);
            out.append(label.as_str());
        } else if let Some(time) = event.time {
            let label = format_timestamp(time);
            out.append(prefix);
            out.append(label.as_str());
        }
    }
    assert(final(out)@ =~= old(out)@ + event_text(prefix@, *event));
}

impl StopTimeUpdate {
    /// The line shown for this stop's predictions.
    pub fn to_text(&self) -> (r: String)
        ensures
            r@ == stop_time_update_text(self@),
    {
        let mut r = String::from_str("  Stop #");
        push_decimal(&mut r, self.stop_sequence as u64);
        if let Some(stop) = &self.stop_id {
            r.append(" (");
            r.append(stop.as_str());
            r.append(")");
        }
        push_event(&mut r, " | Arrival: ", &self.arrival);
        push_event(&mut r, " | Departure: ", &self.departure);
        assert(r@ =~= stop_time_update_text(self@));
        r
    }
}

impl TripUpdate {
    /// The one-line summary of this trip update.
    pub fn to_text(&self) -> (r: String)
        ensures
            r@ == trip_update_text(self@),
    {
        let mut r = String::from_str("Route ");
        r.append(self.route_id.as_str());
        r.append(" | Trip ");
        r.append(self.trip_id.as_str());
        r.append(" | ");
        match self.direction_id {
            Some(0) => r.append("Outbound"),
            Some(1) => r.append("Inbound"),
            _ => r.append("Unknown"),
        }
        r.append(" | ");
        push_decimal(&mut r, self.stop_time_updates.len() as u64);
        r.append(" stops with updates | Vehicle: ");
        match &self.vehicle_id {
            Some(vehicle) => r.append(vehicle.as_str()),
            None => r.append("N/A"),
        }
        assert(r@ =~= trip_update_text(self@));
        r
    }

    /// Whether this trip runs on exactly the route `route_id`.
    pub fn is_route(&self, route_id: &str) -> (r: bool)
        ensures
            r == (self@.route_id == route_id@),
    {
        same_text(self.route_id.as_str(), route_id)
    }

    /// Formats a delay in seconds for a reader.
    pub fn format_delay(delay_seconds: i32) -> (r: String)
        ensures
            r@ == delay_text(delay_seconds as int),
    {
        if delay_seconds == 0 {
            return String::from_str("on time");
        }
        let magnitude: u64 = if delay_seconds < 0 {
            (-(delay_seconds as i64)) as u64
        } else {
            delay_seconds as u64
        };
        let mut r = String::new();
        push_decimal(&mut r, magnitude / 60);
        r.append("m ");
        push_decimal(&mut r, magnitude % 60);
        r.append("s ");
        if delay_seconds > 0 {
            r.append("late");
        } else {
            r.append("early");
        }
        assert(r@ =~= delay_text(delay_seconds as int));
        r
    }
}

impl BusObservation {
    /// Whether this vehicle was seen on exactly the route `route_id`.
    pub fn is_route(&self, route_id: &str) -> (r: bool)
        ensures
            r == (self@.route_id == route_id@),
    {
        same_text(self.route_id.as_str(), route_id)
    }
}

} // verus!
