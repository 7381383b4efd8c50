use vinted_event_tracker::{
    SendFailure, register_step, request_headers, HeaderName, AddrFamily, Delivery, Enqueued, DispatchQueue, HttpRelay, LinkAction,
    LinkEvent, LinkState, Metadata, Noop, ReconnectSupervisor, RegisterStep, Registry, Relay,
    RelayState, SetRelayError, Tracker, TrackError, Udp, UdpRelay, RECONNECT_DELAY_MS,
};

fn http_relay() -> Relay {
    Relay::Http(HttpRelay::new(reqwest::Url::parse("http://localhost:8888").unwrap()))
}

fn payload(iteration: i32) -> Result<Vec<u8>, serde_json::Error> {
    let mut map = std::collections::BTreeMap::new();
    map.insert("iteration", iteration);
    serde_json::to_vec(&map)
}

#[test]
fn udp_parses_local_addr_correctly() {
    assert_eq!(Udp::local_addr_v4(), "0.0.0.0:0");
    assert_eq!(Udp::local_addr_v6(), "[::]:0");
}

#[test]
fn udp_relay_parses_local_addr_correctly() {
    assert_eq!(UdpRelay::local_addr_v4(), "0.0.0.0:0");
    assert_eq!(UdpRelay::local_addr_v6(), "[::]:0");
}

#[test]
fn local_addr_follows_first_remote_family() {
    assert_eq!(UdpRelay::local_addr_for(&[AddrFamily::V4, AddrFamily::V6]).ok(), Some("0.0.0.0:0"));
    assert_eq!(UdpRelay::local_addr_for(&[AddrFamily::V6]).ok(), Some("[::]:0"));
    assert!(matches!(UdpRelay::local_addr_for(&[]), Err(TrackError::NoRemoteAddr)));
}

#[test]
fn noop_new_is_noop() {
    assert_eq!(Noop::new(), Noop);
}

#[test]
fn register_steps_follow_observed_state() {
    assert_eq!(register_step(RelayState::Uninitialized), RegisterStep::Install);
    assert_eq!(register_step(RelayState::Initializing), RegisterStep::WaitThenRefuse);
    assert_eq!(register_step(RelayState::Initialized), RegisterStep::Refuse);
}

#[test]
fn registry_has_single_winner() {
    let mut registry: Registry<u32> = Registry::new();
    assert!(registry.relay().is_none());
    assert_eq!(registry.state(), RelayState::Uninitialized);
    assert_eq!(registry.set_relay(1), Ok(()));
    for other in 2..10 {
        assert_eq!(registry.set_relay(other), Err(SetRelayError));
    }
    assert_eq!(registry.relay(), Some(&1));
    assert_eq!(registry.state(), RelayState::Initialized);
    assert_eq!(
        SetRelayError.message(),
        "attempted to set relay after the relay was already initialized"
    );
}

#[test]
fn http_then_udp_registration_and_tracked_document() {
    let mut tracker = Tracker::new(16);
    assert_eq!(tracker.set_relay(http_relay()), Ok(()));
    let udp = Relay::Udp(UdpRelay::new(String::from("127.0.0.1:5005")));
    assert_eq!(tracker.set_relay(udp), Err(SetRelayError));
    match tracker.relay() {
        Relay::Http(h) => assert_eq!(h.url().as_str(), "http://localhost:8888/"),
        _ => panic!("the first relay must stay registered"),
    }
    let metadata = Metadata::new("test", String::from("fr"), 1700000000000, None);
    let r = tracker.track(metadata, payload(1));
    assert_eq!(r.ok(), Some(Delivery::Queued));
    assert_eq!(tracker.queued(), 1);
    let message = tracker.take_next().unwrap();
    assert_eq!(
        std::str::from_utf8(&message.bytes).unwrap(),
        "{\"event\":\"test\",\"portal\":\"fr\",\"time\":1700000000000,\"iteration\":1}"
    );
    assert_eq!(message.metadata.portal(), "fr");
    let headers = request_headers(&message.metadata);
    let portal = headers.iter().find(|h| h.name == HeaderName::Portal).unwrap();
    assert_eq!(portal.name.as_str(), "X-Portal");
    assert_eq!(portal.value, b"fr".to_vec());
    assert!(tracker.take_next().is_none());
}

#[test]
fn unregistered_tracker_discards_events() {
    let mut tracker = Tracker::new(4);
    assert!(matches!(tracker.relay(), Relay::Noop(Noop)));
    for i in 0..10 {
        let metadata = Metadata::new("e", String::from("p"), 1, None);
        assert_eq!(tracker.track(metadata, payload(i)).ok(), Some(Delivery::Discarded));
    }
    assert_eq!(tracker.queued(), 0);
}

#[test]
fn failed_serialization_is_not_queued() {
    let mut tracker = Tracker::new(4);
    assert!(tracker.set_relay(http_relay()).is_ok());
    let mut bad = std::collections::BTreeMap::new();
    bad.insert(vec![0u8], 1);
    let metadata = Metadata::new("e", String::from("p"), 1, None);
    let r = tracker.track(metadata, serde_json::to_vec(&bad));
    assert!(matches!(r, Err(TrackError::SerdeJson(_))));
    assert_eq!(tracker.queued(), 0);
}

#[test]
fn tracked_events_are_delivered_in_order() {
    let mut tracker = Tracker::new(100);
    assert!(tracker.set_relay(http_relay()).is_ok());
    for i in 0..50 {
        let metadata = Metadata::new("e", String::from("p"), i as u128, None);
        assert_eq!(tracker.track(metadata, payload(i)).ok(), Some(Delivery::Queued));
    }
    for i in 0..50 {
        let message = tracker.take_next().unwrap();
        assert_eq!(message.metadata.time(), i as u128);
    }
    assert!(tracker.take_next().is_none());
}

#[test]
fn full_queue_drops_newest() {
    let mut tracker = Tracker::new(2);
    assert!(tracker.set_relay(http_relay()).is_ok());
    let outcomes: Vec<Delivery> = (0..5)
        .map(|i| {
            let metadata = Metadata::new("e", String::from("p"), i as u128, None);
            tracker.track(metadata, payload(i)).ok().unwrap()
        })
        .collect();
    assert_eq!(
        outcomes,
        vec![Delivery::Queued, Delivery::Queued, Delivery::Dropped, Delivery::Dropped, Delivery::Dropped]
    );
    assert_eq!(tracker.take_next().unwrap().metadata.time(), 0);
    assert_eq!(tracker.take_next().unwrap().metadata.time(), 1);
    assert!(tracker.take_next().is_none());
}

#[test]
fn dispatch_queue_bounds_and_order() {
    let mut queue: DispatchQueue<u8> = DispatchQueue::new(3);
    assert!(queue.is_empty());
    assert_eq!(queue.capacity(), 3);
    assert_eq!(queue.enqueue(1), Enqueued::Accepted);
    assert_eq!(queue.enqueue(2), Enqueued::Accepted);
    assert_eq!(queue.enqueue(3), Enqueued::Accepted);
    assert_eq!(queue.enqueue(4), Enqueued::Dropped);
    assert_eq!(queue.len(), 3);
    assert_eq!(queue.dequeue(), Some(1));
    assert_eq!(queue.enqueue(5), Enqueued::Accepted);
    assert_eq!(queue.dequeue(), Some(2));
    assert_eq!(queue.dequeue(), Some(3));
    assert_eq!(queue.dequeue(), Some(5));
    assert_eq!(queue.dequeue(), None);
}

#[test]
fn zero_capacity_queue_drops_everything() {
    let mut queue: DispatchQueue<u8> = DispatchQueue::new(0);
    assert_eq!(queue.enqueue(1), Enqueued::Dropped);
    assert_eq!(queue.dequeue(), None);
}

fn sent(action: LinkAction<u32>) -> Option<u32> {
    match action {
        LinkAction::Send(m) => Some(m),
        _ => None,
    }
}

#[test]
fn reconnect_after_failed_bind_drains_queue_in_order() {
    let mut queue: DispatchQueue<u32> = DispatchQueue::new(3);
    let mut supervisor = ReconnectSupervisor::new(RECONNECT_DELAY_MS);
    assert_eq!(supervisor.link(), LinkState::Disconnected);
    assert!(matches!(supervisor.step(&mut queue, LinkEvent::Resume), LinkAction::Connect));
    assert_eq!(supervisor.link(), LinkState::Connecting);
    for m in 1..=5 {
        let _ = queue.enqueue(m);
    }
    assert!(matches!(
        supervisor.step(&mut queue, LinkEvent::ConnectFailed),
        LinkAction::Wait(10000)
    ));
    assert_eq!(supervisor.link(), LinkState::Disconnected);
    assert_eq!(queue.len(), 3);
    assert!(matches!(supervisor.step(&mut queue, LinkEvent::Resume), LinkAction::Connect));
    assert_eq!(sent(supervisor.step(&mut queue, LinkEvent::ConnectSucceeded)), Some(1));
    assert_eq!(supervisor.link(), LinkState::Connected);
    assert_eq!(sent(supervisor.step(&mut queue, LinkEvent::Sent)), Some(2));
    assert_eq!(sent(supervisor.step(&mut queue, LinkEvent::SendFailed)), Some(3));
    assert!(matches!(supervisor.step(&mut queue, LinkEvent::Sent), LinkAction::Idle));
    assert_eq!(queue.enqueue(6), Enqueued::Accepted);
    assert_eq!(sent(supervisor.step(&mut queue, LinkEvent::Resume)), Some(6));
}

#[test]
fn socket_failure_reconnects_and_keeps_queue() {
    let mut queue: DispatchQueue<u32> = DispatchQueue::new(8);
    let mut supervisor = ReconnectSupervisor::new(RECONNECT_DELAY_MS);
    let _ = supervisor.step(&mut queue, LinkEvent::Resume);
    assert!(matches!(supervisor.step(&mut queue, LinkEvent::ConnectSucceeded), LinkAction::Idle));
    let _ = queue.enqueue(7);
    let _ = queue.enqueue(8);
    assert!(matches!(
        supervisor.step(&mut queue, LinkEvent::SocketFailed),
        LinkAction::Wait(10000)
    ));
    assert_eq!(supervisor.link(), LinkState::Disconnected);
    assert_eq!(queue.len(), 2);
    assert!(matches!(supervisor.step(&mut queue, LinkEvent::Resume), LinkAction::Connect));
    assert_eq!(supervisor.link(), LinkState::Connecting);
    assert_eq!(sent(supervisor.step(&mut queue, LinkEvent::ConnectSucceeded)), Some(7));
    assert_eq!(sent(supervisor.step(&mut queue, LinkEvent::Sent)), Some(8));
}

#[test]
fn unexpected_reports_change_nothing() {
    let mut queue: DispatchQueue<u32> = DispatchQueue::new(2);
    let _ = queue.enqueue(1);
    let mut supervisor = ReconnectSupervisor::new(5);
    assert!(matches!(supervisor.step(&mut queue, LinkEvent::Sent), LinkAction::Idle));
    assert!(matches!(supervisor.step(&mut queue, LinkEvent::ConnectSucceeded), LinkAction::Idle));
    assert_eq!(supervisor.link(), LinkState::Disconnected);
    assert_eq!(queue.len(), 1);
}

#[test]
fn error_messages() {
    assert_eq!(TrackError::NoRemoteAddr.message(), "no remote address specified");
    assert_eq!(TrackError::PayloadNotObject.message(), "the payload is not a JSON object");
    let mut bad = std::collections::BTreeMap::new();
    bad.insert(vec![0u8], 1);
    let error = TrackError::SerdeJson(serde_json::to_vec(&bad).unwrap_err());
    assert_eq!(error.message(), "the event could not be serialized");
}

#[test]
fn send_failures_map_to_reports() {
    assert_eq!(SendFailure::NotConnected.report(), LinkEvent::SocketFailed);
    assert_eq!(SendFailure::BrokenPipe.report(), LinkEvent::SocketFailed);
    assert_eq!(SendFailure::Other.report(), LinkEvent::SendFailed);
}

#[test]
fn non_object_payload_is_refused_and_not_queued() {
    let mut tracker = Tracker::new(4);
    assert!(tracker.set_relay(http_relay()).is_ok());
    let metadata = Metadata::new("e", String::from("p"), 1, None);
    let r = tracker.track(metadata, serde_json::to_vec(&vec![1, 2, 3]));
    assert!(matches!(r, Err(TrackError::PayloadNotObject)));
    assert_eq!(tracker.queued(), 0);
}

#[test]
fn registered_noop_relay_discards_events() {
    let mut tracker = Tracker::new(2);
    assert!(tracker.set_relay(Relay::Noop(Noop::new())).is_ok());
    for i in 0..5 {
        let metadata = Metadata::new("e", String::from("p"), 1, None);
        assert_eq!(tracker.track(metadata, payload(i)).ok(), Some(Delivery::Discarded));
    }
    assert_eq!(tracker.queued(), 0);
    assert!(matches!(tracker.set_relay(http_relay()), Err(SetRelayError)));
}

#[test]
fn state_codes_round_trip() {
    for state in [RelayState::Uninitialized, RelayState::Initializing, RelayState::Initialized] {
        assert_eq!(RelayState::from_code(state.code()), state);
    }
    assert_eq!(RelayState::Uninitialized.code(), 0);
    assert_eq!(RelayState::Initializing.code(), 1);
    assert_eq!(RelayState::Initialized.code(), 2);
    assert_eq!(RelayState::from_code(7), RelayState::Initialized);
}

#[test]
fn dropped_events_do_not_stop_later_ones() {
    let mut tracker = Tracker::new(1);
    assert!(tracker.set_relay(http_relay()).is_ok());
    let first = Metadata::new("e", String::from("p"), 1, None);
    assert_eq!(tracker.track(first, payload(1)).ok(), Some(Delivery::Queued));
    let second = Metadata::new("e", String::from("p"), 2, None);
    assert_eq!(tracker.track(second, payload(2)).ok(), Some(Delivery::Dropped));
    assert_eq!(tracker.take_next().unwrap().metadata.time(), 1);
    let third = Metadata::new("e", String::from("p"), 3, None);
    assert_eq!(tracker.track(third, payload(3)).ok(), Some(Delivery::Queued));
    assert_eq!(tracker.take_next().unwrap().metadata.time(), 3);
}

#[test]
fn custom_relay_events_are_queued_in_order() {
    let mut tracker = Tracker::new(4);
    assert!(tracker.set_relay(Relay::Custom).is_ok());
    assert!(matches!(tracker.relay(), Relay::Custom));
    for i in 0..3 {
        let metadata = Metadata::new("e", String::from("p"), i as u128, None);
        assert_eq!(tracker.track(metadata, payload(i)).ok(), Some(Delivery::Queued));
    }
    for i in 0..3 {
        assert_eq!(tracker.take_next().unwrap().metadata.time(), i as u128);
    }
}

#[test]
fn unit_payload_adds_no_fields() {
    let mut tracker = Tracker::new(4);
    assert!(tracker.set_relay(Relay::Custom).is_ok());
    let metadata = Metadata::new("e", String::from("p"), 3, Some(1));
    assert_eq!(tracker.track(metadata, serde_json::to_vec(&())).ok(), Some(Delivery::Queued));
    let message = tracker.take_next().unwrap();
    assert_eq!(
        std::str::from_utf8(&message.bytes).unwrap(),
        "{\"event\":\"e\",\"portal\":\"p\",\"time\":3,\"debug_pin\":1}"
    );
}
