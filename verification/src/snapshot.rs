//! One decoded poll of the feed: a header timestamp and the entities in feed
//! order, each field present or absent as the feed had it.

use vstd::prelude::*;

verus! {

/// The trip a payload refers to.
#[derive(Debug, Clone, PartialEq, Eq)]
pub struct TripDescriptor {
    pub trip_id: Option<String>,
    pub route_id: Option<String>,
    pub direction_id: Option<u32>,
}

/// What a [`TripDescriptor`] holds.
pub ghost struct TripDescriptorView {
    pub trip_id: Option<Seq<char>>,
    pub route_id: Option<Seq<char>>,
    pub direction_id: Option<u32>,
}

impl View for TripDescriptor {
    type V = TripDescriptorView;

    open spec fn view(&self) -> TripDescriptorView {
        TripDescriptorView {
            trip_id: self.trip_id.deep_view(),
            route_id: self.route_id.deep_view(),
            direction_id: self.direction_id,
        }
    }
}

impl DeepView for TripDescriptor {
    type V = TripDescriptorView;

    open spec fn deep_view(&self) -> TripDescriptorView {
        self@
    }
}

/// The vehicle a payload refers to.
#[derive(Debug, Clone, PartialEq, Eq)]
pub struct VehicleDescriptor {
    pub id: Option<String>,
}

/// What a [`VehicleDescriptor`] holds.
pub ghost struct VehicleDescriptorView {
    pub id: Option<Seq<char>>,
}

impl View for VehicleDescriptor {
    type V = VehicleDescriptorView;

    open spec fn view(&self) -> VehicleDescriptorView {
        VehicleDescriptorView { id: self.id.deep_view() }
    }
}

impl DeepView for VehicleDescriptor {
    type V = VehicleDescriptorView;

    open spec fn deep_view(&self) -> VehicleDescriptorView {
        self@
    }
}

/// Where a vehicle is, with coordinates and measurements as the bit
/// patterns of their IEEE 754 values: binary64 for latitude and longitude,
/// binary32 for bearing and speed.
#[derive(Debug, Clone, Copy, PartialEq, Eq)]
pub struct Position {
    pub latitude_bits: u64,
    pub longitude_bits: u64,
    pub bearing_bits: Option<u32>,
    pub speed_bits: Option<u32>,
}

impl View for Position {
    type V = Position;

    open spec fn view(&self) -> Position {
        *self
    }
}

impl DeepView for Position {
    type V = Position;

    open spec fn deep_view(&self) -> Position {
        *self
    }
}

/// The vehicle-position payload of an entity.
#[derive(Debug, Clone, PartialEq, Eq)]
pub struct VehiclePositionPayload {
    pub trip: Option<TripDescriptor>,
    pub vehicle: Option<VehicleDescriptor>,
    pub position: Option<Position>,
    pub current_stop_sequence: Option<u32>,
    /// When the position was measured, in seconds since the Unix epoch.
    pub timestamp: Option<u64>,
}

/// What a [`VehiclePositionPayload`] holds.
pub ghost struct VehiclePositionPayloadView {
    pub trip: Option<TripDescriptorView>,
    pub vehicle: Option<VehicleDescriptorView>,
    pub position: Option<Position>,
    pub current_stop_sequence: Option<u32>,
    pub timestamp: Option<u64>,
}

impl View for VehiclePositionPayload {
    type V = VehiclePositionPayloadView;

    open spec fn view(&self) -> VehiclePositionPayloadView {
        VehiclePositionPayloadView {
            trip: self.trip.deep_view(),
            vehicle: self.vehicle.deep_view(),
            position: self.position,
            current_stop_sequence: self.current_stop_sequence,
            timestamp: self.timestamp,
        }
    }
}

impl DeepView for VehiclePositionPayload {
    type V = VehiclePositionPayloadView;

    open spec fn deep_view(&self) -> VehiclePositionPayloadView {
        self@
    }
}

/// A predicted arrival or departure as the feed carries it.
#[derive(Debug, Clone, Copy, PartialEq, Eq)]
pub struct StopTimeEventPayload {
    pub time: Option<i64>,
    pub delay: Option<i32>,
    pub uncertainty: Option<i32>,
}

impl View for StopTimeEventPayload {
    type V = StopTimeEventPayload;

    open spec fn view(&self) -> StopTimeEventPayload {
        *self
    }
}

impl DeepView for StopTimeEventPayload {
    type V = StopTimeEventPayload;

    open spec fn deep_view(&self) -> StopTimeEventPayload {
        *self
    }
}

/// The predictions for one stop as the feed carries them.
#[derive(Debug, Clone, PartialEq, Eq)]
pub struct StopTimeUpdatePayload {
    pub stop_sequence: Option<u32>,
    pub stop_id: Option<String>,
    pub arrival: Option<StopTimeEventPayload>,
    pub departure: Option<StopTimeEventPayload>,
}

/// What a [`StopTimeUpdatePayload`] holds.
pub ghost struct StopTimeUpdatePayloadView {
    pub stop_sequence: Option<u32>,
    pub stop_id: Option<Seq<char>>,
    pub arrival: Option<StopTimeEventPayload>,
    pub departure: Option<StopTimeEventPayload>,
}

impl View for StopTimeUpdatePayload {
    type V = StopTimeUpdatePayloadView;

    open spec fn view(&self) -> StopTimeUpdatePayloadView {
        StopTimeUpdatePayloadView {
            stop_sequence: self.stop_sequence,
            stop_id: self.stop_id.deep_view(),
            arrival: self.arrival,
            departure: self.departure,
        }
    }
}

impl DeepView for StopTimeUpdatePayload {
    type V = StopTimeUpdatePayloadView;

    open spec fn deep_view(&self) -> StopTimeUpdatePayloadView {
        self@
    }
}

/// The trip-update payload of an entity. Its trip descriptor is always
/// there: the feed format requires it.
#[derive(Debug, Clone, PartialEq, Eq)]
pub struct TripUpdatePayload {
    pub trip: TripDescriptor,
    pub vehicle: Option<VehicleDescriptor>,
    pub stop_time_updates: Vec<StopTimeUpdatePayload>,
    /// When the update was generated, in seconds since the Unix epoch.
    pub timestamp: Option<u64>,
}

/// What a [`TripUpdatePayload`] holds.
pub ghost struct TripUpdatePayloadView {
    pub trip: TripDescriptorView,
    pub vehicle: Option<VehicleDescriptorView>,
    pub stop_time_updates: Seq<StopTimeUpdatePayloadView>,
    pub timestamp: Option<u64>,
}

impl View for TripUpdatePayload {
    type V = TripUpdatePayloadView;

    open spec fn view(&self) -> TripUpdatePayloadView {
        TripUpdatePayloadView {
            trip: self.trip@,
            vehicle: self.vehicle.deep_view(),
            stop_time_updates: self.stop_time_updates.deep_view(),
            timestamp: self.timestamp,
        }
    }
}

impl DeepView for TripUpdatePayload {
    type V = TripUpdatePayloadView;

    open spec fn deep_view(&self) -> TripUpdatePayloadView {
        self@
    }
}

/// What an entity carries: a vehicle position, a trip update, or neither.
#[derive(Debug, Clone, PartialEq, Eq)]
pub enum EntityPayload {
    VehiclePosition(VehiclePositionPayload),
    TripUpdate(TripUpdatePayload),
    Neither,
}

/// What an [`EntityPayload`] holds.
pub ghost enum EntityPayloadView {
    VehiclePosition(VehiclePositionPayloadView),
    TripUpdate(TripUpdatePayloadView),
    Neither,
}

impl View for EntityPayload {
    type V = EntityPayloadView;

    open spec fn view(&self) -> EntityPayloadView {
        match self {
            EntityPayload::VehiclePosition(vehicle) => EntityPayloadView::VehiclePosition(vehicle@),
            EntityPayload::TripUpdate(update) => EntityPayloadView::TripUpdate(update@),
            EntityPayload::Neither => EntityPayloadView::Neither,
        }
    }
}

impl DeepView for EntityPayload {
    type V = EntityPayloadView;

    open spec fn deep_view(&self) -> EntityPayloadView {
        self@
    }
}

/// The payload of an entity whose two optional parts are `vehicle` and
/// `trip_update`: the trip update where there is one, else the vehicle
/// position where there is one, else neither.
pub open spec fn payload_of_parts(
    vehicle: Option<VehiclePositionPayloadView>,
    trip_update: Option<TripUpdatePayloadView>,
) -> EntityPayloadView {
    match (trip_update, vehicle) {
        (Some(update), _) => EntityPayloadView::TripUpdate(update),
        (None, Some(position)) => EntityPayloadView::VehiclePosition(position),
        (None, None) => EntityPayloadView::Neither,
    }
}

impl EntityPayload {
    /// Builds the payload of an entity from its two optional parts. An
    /// entity that carries both counts as a trip update.
    pub fn from_parts(
        vehicle: Option<VehiclePositionPayload>,
        trip_update: Option<TripUpdatePayload>,
    ) -> (r: EntityPayload)
        ensures
            r@ == payload_of_parts(vehicle.deep_view(), trip_update.deep_view()),
    {
        match trip_update {
            Some(update) => EntityPayload::TripUpdate(update),
            None => match vehicle {
                Some(position) => EntityPayload::VehiclePosition(position),
                None => EntityPayload::Neither,
            },
        }
    }
}

/// One entity of the feed.
#[derive(Debug, Clone, PartialEq, Eq)]
pub struct FeedEntity {
    pub id: String,
    pub payload: EntityPayload,
}

/// What a [`FeedEntity`] holds.
pub ghost struct FeedEntityView {
    pub id: Seq<char>,
    pub payload: EntityPayloadView,
}

impl View for FeedEntity {
    type V = FeedEntityView;

    open spec fn view(&self) -> FeedEntityView {
        FeedEntityView { id: self.id@, payload: self.payload@ }
    }
}

impl DeepView for FeedEntity {
    type V = FeedEntityView;

    open spec fn deep_view(&self) -> FeedEntityView {
        self@
    }
}

/// One decoded poll of the feed.
#[derive(Debug, Clone, PartialEq, Eq)]
pub struct FeedSnapshot {
    /// When the feed was generated, in seconds since the Unix epoch.
    pub header_timestamp: Option<u64>,
    /// The entities in feed order.
    pub entities: Vec<FeedEntity>,
}

/// What a [`FeedSnapshot`] holds.
pub ghost struct FeedSnapshotView {
    pub header_timestamp: Option<u64>,
    pub entities: Seq<FeedEntityView>,
}

impl View for FeedSnapshot {
    type V = FeedSnapshotView;

    open spec fn view(&self) -> FeedSnapshotView {
        FeedSnapshotView {
            header_timestamp: self.header_timestamp,
            entities: self.entities.deep_view(),
        }
    }
}

impl DeepView for FeedSnapshot {
    type V = FeedSnapshotView;

    open spec fn deep_view(&self) -> FeedSnapshotView {
        self@
    }
}

} // verus!
