use drone_convoy::bus::{EventBus, Recv};
use drone_convoy::codec::{parse_position_event, render_position_event};
use drone_convoy::domain::{Drone, DroneId, DroneStatus, Telemetry};
use drone_convoy::events::{ClientMessage, Event, EventPayload, ServerMessage};
use drone_convoy::hub::{ClientState, HubAction, WebSocketHub};
use drone_convoy::geo::GeoPos;

fn status_event(at: i64, n: u32) -> Event {
    Event::drone_status_changed(
        at,
        DroneId::new(&format!("REAPER-{:02}", n)),
        DroneStatus::Standby,
        DroneStatus::Moving,
    )
}

#[test]
fn test_event_bus_creation() {
    let bus = EventBus::new(100);
    assert_eq!(bus.get_event_count(), 0);
}

#[test]
fn test_event_publishing() {
    let mut bus = EventBus::new(100);
    bus.publish(status_event(1, 1));
    assert_eq!(bus.get_event_count(), 1);
}

#[test]
fn test_event_history() {
    let mut bus = EventBus::new(100);
    for i in 0..5 {
        bus.publish(status_event(i as i64, i));
    }
    let recent = bus.get_recent(3);
    assert_eq!(recent.len(), 3);
}

#[test]
fn test_subscription() {
    let mut bus = EventBus::new(100);
    let mut rx = bus.subscribe();

    let ev = status_event(42, 1);
    let id = ev.id;
    bus.publish(ev);

    match bus.receive(&mut rx) {
        Recv::Next(e) => {
            assert_eq!(e.id, id);
            assert_eq!(e.timestamp_ms, 42);
        }
        _ => panic!("expected an event"),
    }
    assert!(matches!(bus.receive(&mut rx), Recv::Empty));
}

#[test]
fn test_unlagged_subscriber_sees_contiguous_suffix() {
    // A subscriber that keeps up receives exactly the publish order from
    // its registration point.
    let mut bus = EventBus::new(16);
    bus.publish(status_event(0, 0)); // Before registration: not seen.
    let mut rx = bus.subscribe();

    let mut ids = Vec::new();
    for i in 1..=10 {
        let ev = status_event(i as i64, i);
        ids.push(ev.id);
        bus.publish(ev);
    }
    let mut got = Vec::new();
    loop {
        match bus.receive(&mut rx) {
            Recv::Next(e) => got.push(e.id),
            Recv::Empty => break,
            Recv::Lagged(_) => panic!("unexpected lag"),
        }
    }
    assert_eq!(got, ids);
}

#[test]
fn test_slow_subscriber_observes_lag() {
    // The bus retains a bounded window; a subscriber far behind gets a
    // lag report and continues from the oldest retained event.
    let mut bus = EventBus::new(1);
    let mut rx = bus.subscribe();
    for i in 0..2000 {
        bus.publish(status_event(i as i64, (i % 100) as u32));
    }
    match bus.receive(&mut rx) {
        Recv::Lagged(n) => assert!(n >= 1000),
        _ => panic!("expected a lag report"),
    }
    // After the lag report, receiving proceeds.
    assert!(matches!(bus.receive(&mut rx), Recv::Next(_)));
}

#[test]
fn test_hub_creation() {
    let hub = WebSocketHub::new();
    assert_eq!(hub.client_count(), 0);
}

#[test]
fn test_client_registration() {
    let mut hub = WebSocketHub::new();
    let id: u128 = 7;

    hub.register_client(id, 1000);
    assert_eq!(hub.client_count(), 1);
    assert!(hub.is_client_connected(id));

    hub.unregister_client(id);
    assert_eq!(hub.client_count(), 0);
    assert!(!hub.is_client_connected(id));
}

#[test]
fn test_subscriptions() {
    let mut hub = WebSocketHub::new();
    let id: u128 = 9;
    hub.register_client(id, 1000);

    hub.subscribe(
        id,
        Some(vec![DroneId::new("REAPER-01"), DroneId::new("REAPER-02")]),
    );
    hub.unsubscribe(id, Some(vec![DroneId::new("REAPER-01")]));

    hub.unregister_client(id);
}

#[test]
fn test_handled_message_count() {
    let mut hub = WebSocketHub::new();
    assert_eq!(hub.message_count(), 0);
    let _ = hub.handle_client_message(ClientMessage::RequestState);
    assert_eq!(hub.message_count(), 1);
}

#[test]
fn test_message_dispatch() {
    let mut hub = WebSocketHub::new();
    let action = hub.handle_client_message(ClientMessage::Subscribe {
        drone_ids: Some(vec![DroneId::new("REAPER-01")]),
    });
    assert!(matches!(action, HubAction::SetSubscriptions(_)));
    let action = hub.handle_client_message(ClientMessage::Pong { timestamp: 5 });
    assert!(matches!(action, HubAction::Heartbeat(5)));
}

#[test]
fn test_subscriber_handshake_and_broadcast() {
    // The handshake frame is the initial state; the first forwarded event
    // after a position update is a position-updated frame naming the
    // drone.
    let drones = vec![Drone::new("REAPER-01", "Alpha Lead")];
    let first = WebSocketHub::initial_state_message(drones, None, Vec::new());
    match &first {
        ServerMessage::InitialState(s) => {
            assert_eq!(s.drones.len(), 1);
            assert!(s.mission.is_none());
        }
        _ => panic!("handshake must be the initial state"),
    }

    let mut engine = drone_convoy::fleet::DroneTracker::new(
        drone_convoy::fleet::TrackerConfig::default(),
    );
    engine.register_drone(Drone::new("REAPER-01", "Alpha Lead"));
    let outcome = engine.update_drone_position(
        &DroneId::new("REAPER-01"),
        &GeoPos::new(34_555_300, 69_207_500, 0),
        &Telemetry::default(),
        1234,
    );
    assert_eq!(outcome.events.len(), 1);
    let ev = &outcome.events[0];
    assert_eq!(
        ev.event_type,
        drone_convoy::events::EventType::DronePositionUpdated
    );
    match &ev.payload {
        EventPayload::DronePosition(p) => {
            let frame =
                render_position_event(ev.id, ev.timestamp_ms, &p.drone_id, &p.position, &p.telemetry);
            assert!(frame.contains("\"event_type\":\"DRONE_POSITION_UPDATED\""));
            assert!(frame.contains("REAPER-01"));
        }
        _ => panic!("wrong payload"),
    }
}

#[test]
fn test_position_event_round_trip() {
    // Rendering then parsing a position event preserves every field,
    // the identifier included.
    let id: u128 = 0x1234_5678_9abc_def0_1122_3344_5566_7788;
    let drone_id = DroneId::new("REAPER-07");
    let position = GeoPos::new(34_555_300, -69_207_500, 3_000_000);
    let telemetry = Telemetry::with_values(42, 77, 99, 35_000, 12_345);

    let frame = render_position_event(id, -1234, &drone_id, &position, &telemetry);
    let parsed = parse_position_event(&frame).expect("frame must parse");

    assert_eq!(parsed.id, id);
    assert_eq!(parsed.timestamp_ms, -1234);
    assert_eq!(parsed.drone_id.as_str(), "REAPER-07");
    assert_eq!(parsed.position.lat_udeg, 34_555_300);
    assert_eq!(parsed.position.lng_udeg, -69_207_500);
    assert_eq!(parsed.position.alt_mm, 3_000_000);
    assert_eq!(parsed.telemetry_battery, 42);
    assert_eq!(parsed.telemetry_fuel, 77);
    assert_eq!(parsed.telemetry_health, 99);
    assert_eq!(parsed.telemetry_speed_ckmh, 35_000);
    assert_eq!(parsed.telemetry_heading_cdeg, 12_345);
    assert_eq!(parsed.telemetry_signal, 100);
}

#[test]
fn test_malformed_frame_rejected() {
    assert!(parse_position_event("{\"nope\":1}").is_none());
    assert!(parse_position_event("").is_none());
    // A well-formed frame with trailing garbage is rejected too.
    let frame = render_position_event(
        1,
        2,
        &DroneId::new("X"),
        &GeoPos::new(0, 0, 0),
        &Telemetry::default(),
    );
    let mut with_junk = frame.clone();
    with_junk.push_str("junk");
    assert!(parse_position_event(&with_junk).is_none());
    assert!(parse_position_event(&frame).is_some());
}

#[test]
fn test_subscription_filter() {
    let event = Event::drone_position_updated(
        1,
        DroneId::new("REAPER-01"),
        GeoPos::new(0, 0, 0),
        Telemetry::default(),
    );

    // No filter: everything passes.
    let all = ClientState { subscriptions: None, connected_at_ms: 0 };
    assert!(WebSocketHub::should_forward(&all, &event));

    // A filter naming the drone passes its events.
    let listed = ClientState {
        subscriptions: Some(vec![DroneId::new("REAPER-01")]),
        connected_at_ms: 0,
    };
    assert!(WebSocketHub::should_forward(&listed, &event));

    // A filter naming other drones blocks them.
    let other = ClientState {
        subscriptions: Some(vec![DroneId::new("REAPER-02")]),
        connected_at_ms: 0,
    };
    assert!(!WebSocketHub::should_forward(&other, &event));

    // Events about no particular drone pass any filter.
    let system = status_event(5, 3);
    let _ = system; // Status events do name a drone; use an alert instead.
    let alert_event = Event::alert(
        6,
        drone_convoy::domain::Alert::new(
            drone_convoy::domain::AlertSeverity::Info,
            drone_convoy::domain::AlertType::WeatherAlert,
            "front moving in".to_string(),
        ),
    );
    assert!(WebSocketHub::should_forward(&other, &alert_event));
}

#[test]
fn test_get_recent_returns_latest_in_order() {
    let mut bus = EventBus::new(16);
    for n in 0..5u32 {
        bus.publish(status_event(1_000 + n as i64, n));
    }
    let recent = bus.get_recent(3);
    assert_eq!(recent.len(), 3);
    // Oldest first among the last three published.
    assert_eq!(recent[0].timestamp_ms, 1_002);
    assert_eq!(recent[2].timestamp_ms, 1_004);
    // Asking for more than is retained hands everything back.
    assert_eq!(bus.get_recent(100).len(), 5);
}

#[test]
fn test_unsubscribe_removes_listed_ids() {
    let mut hub = WebSocketHub::new();
    hub.register_client(7, 1_000);
    hub.subscribe(7, Some(vec![DroneId::new("A"), DroneId::new("B"), DroneId::new("C")]));
    hub.unsubscribe(7, Some(vec![DroneId::new("B")]));
    let ev_a = status_event(1, 1);
    // Forwarding decisions follow the narrowed filter.
    let filtered = ClientState {
        subscriptions: Some(vec![DroneId::new("A"), DroneId::new("C")]),
        connected_at_ms: 1_000,
    };
    assert!(WebSocketHub::should_forward(&filtered, &ev_a) == false);
    // Clearing with no list leaves an empty filter that admits only
    // events about no particular drone.
    hub.unsubscribe(7, None);
    assert!(!hub.forwards(7, &ev_a));
}

#[test]
fn test_forwards_applies_client_filter() {
    let mut hub = WebSocketHub::new();
    hub.register_client(9, 1_000);
    // A fresh session has no filter: everything is forwarded.
    let ev = Event::drone_status_changed(
        1,
        DroneId::new("REAPER-01"),
        DroneStatus::Standby,
        DroneStatus::Moving,
    );
    assert!(hub.forwards(9, &ev));
    // After subscribing to another drone, the event is filtered out.
    hub.subscribe(9, Some(vec![DroneId::new("REAPER-02")]));
    assert!(!hub.forwards(9, &ev));
    // Subscribing to the named drone admits it again.
    hub.subscribe(9, Some(vec![DroneId::new("REAPER-01")]));
    assert!(hub.forwards(9, &ev));
}
