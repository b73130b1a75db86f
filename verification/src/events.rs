//! Event envelope and variants, and the wire message types exchanged
//! with subscribers. Events are immutable once constructed.

use vstd::prelude::*;
use crate::domain::{
    Alert, Drone, DroneId, DroneStatus, Mission, MissionId, MissionStatus, Telemetry,
    TrackingResult, WaypointId,
};
use crate::geo::GeoPos;
use crate::sys::fresh_uuid;

verus! {

/// Kind tag of an event.
#[derive(PartialEq, Eq, Structural, Clone, Copy, Debug)]
pub enum EventType {
    DronePositionUpdated,
    DroneStatusChanged,
    DroneTelemetryUpdated,
    DroneConnected,
    DroneDisconnected,
    MissionStarted,
    MissionCompleted,
    MissionPaused,
    MissionAborted,
    WaypointReached,
    WaypointDeparted,
    CvTrackingUpdate,
    HaloDetected,
    TrackingLost,
    AlertRaised,
    AlertAcknowledged,
    AlertResolved,
    SystemHealthUpdate,
    ConnectionEstablished,
    ConnectionLost,
}

impl EventType {
    /// The wire tag of the event kind.
    pub fn label(&self) -> (r: &'static str)
        ensures
            *self == EventType::DronePositionUpdated ==> r@ == "DRONE_POSITION_UPDATED"@,
            *self == EventType::DroneStatusChanged ==> r@ == "DRONE_STATUS_CHANGED"@,
            *self == EventType::DroneTelemetryUpdated ==> r@ == "DRONE_TELEMETRY_UPDATED"@,
            *self == EventType::DroneConnected ==> r@ == "DRONE_CONNECTED"@,
            *self == EventType::DroneDisconnected ==> r@ == "DRONE_DISCONNECTED"@,
            *self == EventType::MissionStarted ==> r@ == "MISSION_STARTED"@,
            *self == EventType::MissionCompleted ==> r@ == "MISSION_COMPLETED"@,
            *self == EventType::MissionPaused ==> r@ == "MISSION_PAUSED"@,
            *self == EventType::MissionAborted ==> r@ == "MISSION_ABORTED"@,
            *self == EventType::WaypointReached ==> r@ == "WAYPOINT_REACHED"@,
            *self == EventType::WaypointDeparted ==> r@ == "WAYPOINT_DEPARTED"@,
            *self == EventType::CvTrackingUpdate ==> r@ == "CV_TRACKING_UPDATE"@,
            *self == EventType::HaloDetected ==> r@ == "HALO_DETECTED"@,
            *self == EventType::TrackingLost ==> r@ == "TRACKING_LOST"@,
            *self == EventType::AlertRaised ==> r@ == "ALERT_RAISED"@,
            *self == EventType::AlertAcknowledged ==> r@ == "ALERT_ACKNOWLEDGED"@,
            *self == EventType::AlertResolved ==> r@ == "ALERT_RESOLVED"@,
            *self == EventType::SystemHealthUpdate ==> r@ == "SYSTEM_HEALTH_UPDATE"@,
            *self == EventType::ConnectionEstablished ==> r@ == "CONNECTION_ESTABLISHED"@,
            *self == EventType::ConnectionLost ==> r@ == "CONNECTION_LOST"@,
    {
        match self {
            EventType::DronePositionUpdated => "DRONE_POSITION_UPDATED",
            EventType::DroneStatusChanged => "DRONE_STATUS_CHANGED",
            EventType::DroneTelemetryUpdated => "DRONE_TELEMETRY_UPDATED",
            EventType::DroneConnected => "DRONE_CONNECTED",
            EventType::DroneDisconnected => "DRONE_DISCONNECTED",
            EventType::MissionStarted => "MISSION_STARTED",
            EventType::MissionCompleted => "MISSION_COMPLETED",
            EventType::MissionPaused => "MISSION_PAUSED",
            EventType::MissionAborted => "MISSION_ABORTED",
            EventType::WaypointReached => "WAYPOINT_REACHED",
            EventType::WaypointDeparted => "WAYPOINT_DEPARTED",
            EventType::CvTrackingUpdate => "CV_TRACKING_UPDATE",
            EventType::HaloDetected => "HALO_DETECTED",
            EventType::TrackingLost => "TRACKING_LOST",
            EventType::AlertRaised => "ALERT_RAISED",
            EventType::AlertAcknowledged => "ALERT_ACKNOWLEDGED",
            EventType::AlertResolved => "ALERT_RESOLVED",
            EventType::SystemHealthUpdate => "SYSTEM_HEALTH_UPDATE",
            EventType::ConnectionEstablished => "CONNECTION_ESTABLISHED",
            EventType::ConnectionLost => "CONNECTION_LOST",
        }
    }
}

/// Drone position update payload.
#[derive(Clone, Debug)]
pub struct DronePositionEvent {
    pub drone_id: DroneId,
    pub position: GeoPos,
    pub telemetry: Telemetry,
}

/// Drone status change payload.
#[derive(Clone, Debug)]
pub struct DroneStatusEvent {
    pub drone_id: DroneId,
    pub old_status: DroneStatus,
    pub new_status: DroneStatus,
}

/// Drone telemetry update payload.
#[derive(Clone, Debug)]
pub struct DroneTelemetryEvent {
    pub drone_id: DroneId,
    pub telemetry: Telemetry,
}

/// Drone connection payload.
#[derive(Clone, Debug)]
pub struct DroneConnectionEvent {
    pub drone_id: DroneId,
    pub connected: bool,
    pub peer_id: Option<String>,
}

/// Mission lifecycle payload.
#[derive(Clone, Debug)]
pub struct MissionEvent {
    pub mission_id: MissionId,
    pub status: MissionStatus,
    pub message: Option<String>,
}

/// Kind of waypoint passage.
#[derive(PartialEq, Eq, Structural, Clone, Copy, Debug)]
pub enum WaypointEventType {
    Arrived,
    Departed,
    Flyover,
    Skipped,
}

/// Waypoint passage payload.
#[derive(Clone, Debug)]
pub struct WaypointEvent {
    pub drone_id: DroneId,
    pub waypoint_id: WaypointId,
    pub position: GeoPos,
    pub event_type: WaypointEventType,
}

/// Visual-tracking payload.
#[derive(Clone, Debug)]
pub struct CvTrackingEvent {
    pub results: Vec<TrackingResult>,
}

/// Alert payload.
#[derive(Clone, Debug)]
pub struct AlertEvent {
    pub alert: Alert,
}

/// System health payload.
#[derive(Clone, Debug)]
pub struct SystemEvent {
    pub component: String,
    pub status: String,
    pub message: Option<String>,
}

/// Full state snapshot payload, sent on initial connection.
#[derive(Clone, Debug)]
pub struct FullStateEvent {
    pub drones: Vec<Drone>,
    pub mission: Option<Mission>,
    pub tracking_results: Vec<TrackingResult>,
}

/// Payload variants of the event envelope.
#[derive(Debug)]
pub enum EventPayload {
    DronePosition(DronePositionEvent),
    DroneStatus(DroneStatusEvent),
    DroneTelemetry(DroneTelemetryEvent),
    DroneConnection(DroneConnectionEvent),
    Mission(MissionEvent),
    Waypoint(WaypointEvent),
    CvTracking(CvTrackingEvent),
    Alert(AlertEvent),
    System(SystemEvent),
    FullState(FullStateEvent),
}

impl Clone for EventPayload {
    fn clone(&self) -> (r: EventPayload)
        ensures
            (self is DronePosition ==> r is DronePosition),
            (self is DroneStatus ==> r is DroneStatus),
            (self is DroneTelemetry ==> r is DroneTelemetry),
            (self is DroneConnection ==> r is DroneConnection),
            (self is Mission ==> r is Mission),
            (self is Waypoint ==> r is Waypoint),
            (self is CvTracking ==> r is CvTracking),
            (self is Alert ==> r is Alert),
            (self is System ==> r is System),
            (self is FullState ==> r is FullState),
    {
        match self {
            EventPayload::DronePosition(p) => EventPayload::DronePosition(p.clone()),
            EventPayload::DroneStatus(p) => EventPayload::DroneStatus(p.clone()),
            EventPayload::DroneTelemetry(p) => EventPayload::DroneTelemetry(p.clone()),
            EventPayload::DroneConnection(p) => EventPayload::DroneConnection(p.clone()),
            EventPayload::Mission(p) => EventPayload::Mission(p.clone()),
            EventPayload::Waypoint(p) => EventPayload::Waypoint(p.clone()),
            EventPayload::CvTracking(p) => EventPayload::CvTracking(p.clone()),
            EventPayload::Alert(p) => EventPayload::Alert(p.clone()),
            EventPayload::System(p) => EventPayload::System(p.clone()),
            EventPayload::FullState(p) => EventPayload::FullState(p.clone()),
        }
    }
}

/// Whether two envelopes carry the same identity: identifier, time and
/// kind. Identifiers are drawn at random per event, so this identifies
/// one published event.
pub open spec fn same_event(a: Event, b: Event) -> bool {
    a.id == b.id && a.timestamp_ms == b.timestamp_ms && a.event_type == b.event_type
}

/// Event envelope: identifier, time, kind and payload.
#[derive(Debug)]
pub struct Event {
    pub id: u128,
    pub timestamp_ms: i64,
    pub event_type: EventType,
    pub payload: EventPayload,
}

impl Clone for Event {
    fn clone(&self) -> (r: Event)
        ensures
            same_event(r, *self),
            r.id == self.id,
            r.timestamp_ms == self.timestamp_ms,
            r.event_type == self.event_type,
    {
        Event {
            id: self.id,
            timestamp_ms: self.timestamp_ms,
            event_type: self.event_type,
            payload: self.payload.clone(),
        }
    }
}

impl Event {
    /// A fresh event stamped at `at_ms`; the identifier is randomly drawn.
    pub fn new(at_ms: i64, event_type: EventType, payload: EventPayload) -> (r: Event)
        ensures
            r.timestamp_ms == at_ms,
            r.event_type == event_type,
            r.payload == payload,
    {
        Event { id: fresh_uuid(), timestamp_ms: at_ms, event_type, payload }
    }

    pub fn drone_position_updated(
        at_ms: i64,
        drone_id: DroneId,
        position: GeoPos,
        telemetry: Telemetry,
    ) -> (r: Event)
        ensures
            r.timestamp_ms == at_ms,
            r.event_type == EventType::DronePositionUpdated,
            r.payload matches EventPayload::DronePosition(p) && p.drone_id == drone_id
                && p.position == position && p.telemetry == telemetry,
    {
        Event::new(
            at_ms,
            EventType::DronePositionUpdated,
            EventPayload::DronePosition(DronePositionEvent { drone_id, position, telemetry }),
        )
    }

    pub fn drone_status_changed(
        at_ms: i64,
        drone_id: DroneId,
        old_status: DroneStatus,
        new_status: DroneStatus,
    ) -> (r: Event)
        ensures
            r.timestamp_ms == at_ms,
            r.event_type == EventType::DroneStatusChanged,
            r.payload matches EventPayload::DroneStatus(p) && p.drone_id == drone_id
                && p.old_status == old_status && p.new_status == new_status,
    {
        Event::new(
            at_ms,
            EventType::DroneStatusChanged,
            EventPayload::DroneStatus(DroneStatusEvent { drone_id, old_status, new_status }),
        )
    }

    pub fn waypoint_reached(at_ms: i64, drone_id: DroneId, waypoint_id: WaypointId, position: GeoPos) -> (r:
        Event)
        ensures
            r.timestamp_ms == at_ms,
            r.event_type == EventType::WaypointReached,
            r.payload matches EventPayload::Waypoint(p) && p.drone_id == drone_id && p.waypoint_id
                == waypoint_id && p.position == position && p.event_type
                == WaypointEventType::Arrived,
    {
        Event::new(
            at_ms,
            EventType::WaypointReached,
            EventPayload::Waypoint(
                WaypointEvent {
                    drone_id,
                    waypoint_id,
                    position,
                    event_type: WaypointEventType::Arrived,
                },
            ),
        )
    }

    pub fn cv_tracking_update(at_ms: i64, result: TrackingResult) -> (r: Event)
        ensures
            r.timestamp_ms == at_ms,
            r.event_type == EventType::CvTrackingUpdate,
            r.payload matches EventPayload::CvTracking(p) && p.results@.len() == 1,
    {
        let mut results: Vec<TrackingResult> = Vec::new();
        results.push(result);
        Event::new(at_ms, EventType::CvTrackingUpdate, EventPayload::CvTracking(CvTrackingEvent { results }))
    }

    pub fn alert(at_ms: i64, alert: Alert) -> (r: Event)
        ensures
            r.timestamp_ms == at_ms,
            r.event_type == EventType::AlertRaised,
            r.payload matches EventPayload::Alert(p) && p.alert == alert,
    {
        Event::new(at_ms, EventType::AlertRaised, EventPayload::Alert(AlertEvent { alert }))
    }
}

/// Message sent from the server to a subscriber.
#[derive(Clone, Debug)]
pub enum ServerMessage {
    InitialState(FullStateEvent),
    Event(Event),
    EventBatch(Vec<Event>),
    Error { code: String, message: String },
    Ping { timestamp: i64 },
}

/// Message sent from a subscriber to the server.
#[derive(Clone, Debug)]
pub enum ClientMessage {
    Subscribe { drone_ids: Option<Vec<DroneId>> },
    Unsubscribe { drone_ids: Option<Vec<DroneId>> },
    RequestState,
    DroneCommand(DroneCommand),
    Pong { timestamp: i64 },
}

/// A command addressed to one drone.
#[derive(Clone, Debug)]
pub struct DroneCommand {
    pub drone_id: DroneId,
    pub command: DroneCommandType,
}

/// Command variants.
#[derive(Clone, Debug)]
pub enum DroneCommandType {
    Start,
    Pause,
    Resume,
    ReturnToBase,
    EmergencyStop,
    GoToWaypoint { waypoint_id: WaypointId },
    SetSpeed { speed_ckmh: u32 },
    SetArmed { armed: bool },
}

} // verus!
