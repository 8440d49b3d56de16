use iot_edge::eventpb::{Event, EventMessage, EventType};
use iot_edge::mq::{CentralMessageQueue, Error, OutgoingMessage, Property, QOS};

/// A transport that counts what it is given and sends nothing.
struct FakeTransport {
    calls: usize,
    last: Option<OutgoingMessage>,
}

impl FakeTransport {
    fn new() -> FakeTransport {
        FakeTransport { calls: 0, last: None }
    }

    fn send(&mut self, message: OutgoingMessage) -> Result<(), String> {
        self.calls += 1;
        self.last = Some(message);
        Ok(())
    }
}

/// Publishes as a caller does: the queue decides, the transport sends.
fn deliver(
    queue: &CentralMessageQueue,
    transport: &mut FakeTransport,
    event: EventMessage,
) -> Result<(), Error> {
    let message = queue.publish(event, &Vec::new())?;
    let outcome = transport.send(message);
    queue.published(outcome)
}

fn connected(device_id: &str) -> CentralMessageQueue {
    let mut queue = CentralMessageQueue::new("tcp://broker.local:1883", device_id);
    assert_eq!(queue.connect(Ok(())), Ok(()));
    queue
}

fn movement(body: Vec<u8>) -> EventMessage {
    EventMessage { event: Some(Event::MovementInfo(body)) }
}

fn invaded(body: Vec<u8>) -> EventMessage {
    EventMessage { event: Some(Event::InvadedInfo(body)) }
}

fn user(key: &str, value: &str) -> Property {
    Property::UserProperty(key.to_string(), value.to_string())
}

fn value_of(message: &OutgoingMessage, key: &str) -> Vec<String> {
    let mut found = Vec::new();
    for property in &message.properties {
        if let Property::UserProperty(k, v) = property {
            if k == key {
                found.push(v.clone());
            }
        }
    }
    found
}

#[test]
fn new_message_has_every_part_in_its_place() {
    let trace = vec![
        ("traceparent".to_string(), "00-0af7651916cd43dd8448eb211c80319c-b7ad6b7169203331-01".to_string()),
        ("tracestate".to_string(), "congo=t61rcWkgMzE".to_string()),
    ];
    let message = OutgoingMessage::new(
        EventType::Invaded,
        vec![0x12, 0x01, 0x2a],
        "018f3f5e-7c1a-7b2c-9d3e-0123456789ab".to_string(),
        "edge-01",
        "2024-05-03T09:15:27.123456789Z".to_string(),
        &trace,
    );
    assert_eq!(
        message,
        OutgoingMessage {
            topic: "iot/events/v1/invaded".to_string(),
            payload: vec![0x12, 0x01, 0x2a],
            properties: vec![
                Property::ContentType("application/x-google-protobuf".to_string()),
                user("event_id", "018f3f5e-7c1a-7b2c-9d3e-0123456789ab"),
                user("device_id", "edge-01"),
                user("emitted_at", "2024-05-03T09:15:27.123456789Z"),
                user("traceparent", "00-0af7651916cd43dd8448eb211c80319c-b7ad6b7169203331-01"),
                user("tracestate", "congo=t61rcWkgMzE"),
            ],
            qos: 0,
        }
    );
}

#[test]
fn new_message_without_trace_has_four_properties() {
    let message = OutgoingMessage::new(
        EventType::Movement,
        vec![],
        "id".to_string(),
        "",
        "now".to_string(),
        &Vec::new(),
    );
    assert_eq!(message.topic, "iot/events/v1/movement");
    assert_eq!(message.payload, Vec::<u8>::new());
    assert_eq!(
        message.properties,
        vec![
            Property::ContentType("application/x-google-protobuf".to_string()),
            user("event_id", "id"),
            user("device_id", ""),
            user("emitted_at", "now"),
        ]
    );
    assert_eq!(message.qos, QOS);
    assert_eq!(QOS, 0);
}

#[test]
fn topic_follows_the_variant() {
    let queue = connected("edge-01");
    let message = queue.publish(movement(vec![1]), &Vec::new()).unwrap();
    assert_eq!(message.topic, "iot/events/v1/movement");
    let message = queue.publish(invaded(vec![1]), &Vec::new()).unwrap();
    assert_eq!(message.topic, "iot/events/v1/invaded");
}

#[test]
fn publish_movement_from_edge_01() {
    let queue = connected("edge-01");
    let mut transport = FakeTransport::new();
    assert_eq!(deliver(&queue, &mut transport, movement(vec![4, 5, 6])), Ok(()));
    assert_eq!(transport.calls, 1);
    let message = transport.last.unwrap();
    assert_eq!(message.topic, "iot/events/v1/movement");
    assert_eq!(value_of(&message, "device_id"), vec!["edge-01".to_string()]);
    assert_eq!(message.qos, 0);

    // the payload decodes to a movement with the same report
    let mut rest = message.payload.as_slice();
    let (tag, wire_type) = prost::encoding::decode_key(&mut rest).unwrap();
    assert_eq!(tag, 1);
    assert_eq!(wire_type, prost::encoding::WireType::LengthDelimited);
    let len = prost::encoding::decode_varint(&mut rest).unwrap();
    assert_eq!(len, 3);
    assert_eq!(rest, &[4, 5, 6]);
}

#[test]
fn publish_without_variant_sends_nothing() {
    let queue = connected("edge-01");
    let mut transport = FakeTransport::new();
    let r = deliver(&queue, &mut transport, EventMessage { event: None });
    assert_eq!(r, Err(Error::NoEventGiven));
    assert_eq!(transport.calls, 0);
    assert!(transport.last.is_none());
}

#[test]
fn publish_without_variant_is_no_event_given() {
    let queue = connected("edge-01");
    let trace = vec![("traceparent".to_string(), "x".to_string())];
    assert_eq!(queue.publish(EventMessage { event: None }, &trace), Err(Error::NoEventGiven));
}

#[test]
fn content_type_is_the_same_for_every_variant() {
    let queue = connected("edge-01");
    for event in [movement(vec![]), movement(vec![1, 2]), invaded(vec![]), invaded(vec![9; 500])] {
        let message = queue.publish(event, &Vec::new()).unwrap();
        assert_eq!(
            message.properties[0],
            Property::ContentType("application/x-google-protobuf".to_string())
        );
        let others = message.properties[1..]
            .iter()
            .filter(|p| matches!(p, Property::ContentType(_)))
            .count();
        assert_eq!(others, 0);
    }
}

#[test]
fn properties_come_in_their_order() {
    let queue = connected("edge-07");
    let trace = vec![
        ("traceparent".to_string(), "a".to_string()),
        ("tracestate".to_string(), "b".to_string()),
        ("traceparent".to_string(), "c".to_string()),
    ];
    let message = queue.publish(invaded(vec![1]), &trace).unwrap();
    assert_eq!(message.properties.len(), 7);
    assert!(matches!(&message.properties[1], Property::UserProperty(k, _) if k == "event_id"));
    assert_eq!(message.properties[2], user("device_id", "edge-07"));
    assert!(matches!(&message.properties[3], Property::UserProperty(k, _) if k == "emitted_at"));
    assert_eq!(message.properties[4], user("traceparent", "a"));
    assert_eq!(message.properties[5], user("tracestate", "b"));
    assert_eq!(message.properties[6], user("traceparent", "c"));
}

#[test]
fn event_id_is_a_version_7_identifier() {
    let queue = connected("edge-01");
    let message = queue.publish(movement(vec![1]), &Vec::new()).unwrap();
    let ids = value_of(&message, "event_id");
    assert_eq!(ids.len(), 1);
    let id = &ids[0];
    assert_eq!(id.len(), 36);
    for (i, c) in id.chars().enumerate() {
        if i == 8 || i == 13 || i == 18 || i == 23 {
            assert_eq!(c, '-');
        } else {
            assert!(c.is_ascii_digit() || ('a'..='f').contains(&c));
        }
    }
    assert_eq!(id.as_bytes()[14], b'7');
    assert!(matches!(id.as_bytes()[19], b'8' | b'9' | b'a' | b'b'));
    let parsed = uuid::Uuid::parse_str(id).unwrap();
    assert_eq!(parsed.get_version_num(), 7);
    assert_eq!(parsed.to_string(), *id);
}

#[test]
fn event_ids_are_unique_and_increasing() {
    let queue = connected("edge-01");
    let mut ids: Vec<String> = Vec::new();
    for _ in 0..200 {
        let message = queue.publish(movement(vec![1]), &Vec::new()).unwrap();
        let found = value_of(&message, "event_id");
        assert_eq!(found.len(), 1);
        ids.push(found[0].clone());
    }
    for pair in ids.windows(2) {
        assert!(pair[0] < pair[1]);
    }
}

#[test]
fn trace_context_may_bring_a_second_event_id() {
    let queue = connected("edge-01");
    let trace = vec![("event_id".to_string(), "from-the-trace".to_string())];
    let message = queue.publish(movement(vec![1]), &trace).unwrap();
    let ids = value_of(&message, "event_id");
    assert_eq!(ids.len(), 2);
    assert_eq!(ids[1], "from-the-trace");
    assert_ne!(ids[0], "from-the-trace");
}

#[test]
fn emitted_at_is_rfc_3339_to_the_nanosecond_in_utc() {
    let queue = connected("edge-01");
    let before = chrono::Utc::now();
    let message = queue.publish(invaded(vec![1]), &Vec::new()).unwrap();
    let after = chrono::Utc::now();
    let stamps = value_of(&message, "emitted_at");
    assert_eq!(stamps.len(), 1);
    let stamp = &stamps[0];
    assert_eq!(stamp.len(), 30);
    assert!(stamp.ends_with('Z'));
    assert_eq!(stamp.as_bytes()[10], b'T');
    assert_eq!(stamp.as_bytes()[19], b'.');
    assert!(stamp[20..29].chars().all(|c| c.is_ascii_digit()));
    let parsed = chrono::DateTime::parse_from_rfc3339(stamp).unwrap();
    assert_eq!(parsed.offset().local_minus_utc(), 0);
    assert!(before <= parsed && parsed <= after);
    assert_eq!(
        parsed.to_rfc3339_opts(chrono::SecondsFormat::Nanos, true),
        *stamp
    );
}

#[test]
fn connect_failure_is_a_connection_error() {
    let mut queue = CentralMessageQueue::new("tcp://broker.local:1883", "edge-01");
    assert!(!queue.is_connected());
    let r = queue.connect(Err("connection refused".to_string()));
    assert_eq!(r, Err(Error::Connection("connection refused".to_string())));
    assert!(!queue.is_connected());

    // only after a later attempt has succeeded may the caller publish
    assert_eq!(queue.connect(Ok(())), Ok(()));
    assert!(queue.is_connected());
    let mut transport = FakeTransport::new();
    assert_eq!(deliver(&queue, &mut transport, movement(vec![1])), Ok(()));
    assert_eq!(transport.calls, 1);
}

#[test]
fn connect_failure_after_success_disconnects() {
    let mut queue = connected("edge-01");
    assert!(queue.is_connected());
    let r = queue.connect(Err("lost".to_string()));
    assert_eq!(r, Err(Error::Connection("lost".to_string())));
    assert!(!queue.is_connected());
}

#[test]
fn queue_keeps_what_it_was_made_with() {
    let mut queue = CentralMessageQueue::new("ssl://broker.example:8883", "edge-42");
    assert_eq!(queue.server_uri(), "ssl://broker.example:8883");
    assert_eq!(queue.device_id(), "edge-42");
    let _ = queue.connect(Err("no route".to_string()));
    assert_eq!(queue.server_uri(), "ssl://broker.example:8883");
    assert_eq!(queue.device_id(), "edge-42");
    let _ = queue.connect(Ok(()));
    assert_eq!(queue.server_uri(), "ssl://broker.example:8883");
    assert_eq!(queue.device_id(), "edge-42");
}

#[test]
fn transport_failure_is_a_transport_error() {
    let queue = connected("edge-01");
    assert_eq!(queue.published(Ok(())), Ok(()));
    assert_eq!(
        queue.published(Err("Client disconnected".to_string())),
        Err(Error::Transport("Client disconnected".to_string()))
    );
    assert!(queue.is_connected());
}

#[test]
fn payload_is_the_encoded_event() {
    let queue = connected("edge-01");
    let body: Vec<u8> = (0..300).map(|i| (i % 256) as u8).collect();
    let event = invaded(body.clone());
    let expected = event.encode().unwrap();
    let message = queue.publish(event, &Vec::new()).unwrap();
    assert_eq!(message.payload, expected);
    assert_eq!(&message.payload[..3], &[0x12, 0xac, 0x02]);
    assert_eq!(&message.payload[3..], body.as_slice());
}
