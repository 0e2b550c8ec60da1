use rekt::broker::Broker;
use rekt::codec::{decode, encode, Datagram};
use rekt::config::{Config, ConfigOptions, DebugOptions, PeriodOptions, ServerOptions};
use rekt::datagrams::data_request::DtgData;
use rekt::datagrams::latency_requests::DtgPing;
use rekt::datagrams::topic_request::DtgTopicRequest;
use rekt::enums::datagram_type::{display_datagram_type, DatagramType};
use rekt::enums::object_request_action::ObjectRequestAction;
use rekt::enums::topic_action::TopicAction;
use rekt::enums::topic_response::TopicResponse;
use rekt::errors::{ProtocolError, QueueError, RegistryError};
use rekt::handler::{handler_step, HandlerAction, HandlerEvent, HandlerState};
use rekt::pipeline::{worker_step, DispatchQueue, WorkerStep};
use rekt::session::{ClientSession, ConnectionId, Packet, SessionRegistry};
use rekt::subscription::SubscriptionIndex;

// -------------------------------------------------------
//   Wire codec entry point
// -------------------------------------------------------

#[test]
fn test_ping_wire_example() {
    // The canonical example: Ping{ping_id=127} is exactly [0x62, 127] and
    // reads back as the same value.
    let ping = DtgPing::new(127);
    assert_eq!(ping.as_bytes(), vec![0x62u8, 127]);
    let back = decode(&[0x62u8, 127]).unwrap();
    match back {
        Datagram::Ping(p) => {
            assert_eq!(p.ping_id, 127);
            assert_eq!(p.datagram_type, DatagramType::Ping);
        }
        _ => panic!("expected a ping"),
    }
}

#[test]
fn test_topic_request_wire_example() {
    // The canonical example: a subscribe to topic 641635874654 is the
    // opcode, the zero action byte, then the id little-endian.
    let request = DtgTopicRequest::new(TopicAction::Subscribe, 641635874654);
    let mut expected: Vec<u8> = vec![0x45u8, 0x00];
    expected.extend(641635874654u64.to_le_bytes());
    assert_eq!(request.as_bytes(), expected);
}

#[test]
fn test_decode_encode_round_trip_all_types() {
    let datagrams: Vec<Vec<u8>> = vec![
        vec![0xF0],
        encode(&Datagram::Ping(DtgPing::new(9))),
        encode(&Datagram::Data(DtgData::new(7, 42, b"payload".to_vec()))),
        encode(&Datagram::TopicRequest(DtgTopicRequest::new(TopicAction::Unsubscribe, 3))),
    ];
    for bytes in datagrams {
        let value = decode(&bytes).unwrap();
        assert_eq!(encode(&value), bytes);
    }
}

#[test]
fn test_decode_too_short_every_type() {
    // One byte fewer than each type's fixed minimum size is rejected.
    let minimums: Vec<(u8, usize)> = vec![
        (0xF0, 1),
        (0xF1, 11),
        (0xF2, 3),
        (0xFF, 2),
        (0x30, 1),
        (0x00, 9),
        (0x60, 1),
        (0x61, 1),
        (0x62, 2),
        (0x72, 2),
        (0x45, 10),
        (0x05, 10),
        (0x15, 4),
        (0x48, 12),
        (0x08, 18),
        (0x18, 12),
        (0x42, 15),
    ];
    for (opcode, minimum) in minimums {
        let mut buffer = vec![opcode];
        buffer.resize(minimum - 1, 0);
        if buffer.is_empty() {
            assert_eq!(decode(&buffer).unwrap_err(), ProtocolError::TooShort);
        } else {
            assert_eq!(
                decode(&buffer).unwrap_err(),
                ProtocolError::TooShort,
                "opcode {:#x}",
                opcode
            );
        }
    }
    assert_eq!(decode(&[]).unwrap_err(), ProtocolError::TooShort);
}

#[test]
fn test_decode_declared_length_validated() {
    // A data header that declares more payload than the buffer holds is
    // rejected, never read out of bounds.
    let data = DtgData::new(1, 5, b"abcdef".to_vec());
    let mut bytes = data.as_bytes();
    bytes.truncate(bytes.len() - 1);
    assert_eq!(decode(&bytes).unwrap_err(), ProtocolError::TooShort);
}

#[test]
fn test_decode_unknown_opcode() {
    // An unlisted opcode is forward-compatible: it decodes to Unknown
    // rather than failing, whatever follows it.
    for opcode in [0x99u8, 0xAA, 0xFA, 0x01] {
        let value = decode(&[opcode, 1, 2, 3]).unwrap();
        assert!(matches!(value, Datagram::Unknown));
    }
}

#[test]
fn test_display_datagram_type() {
    assert_eq!(display_datagram_type(DatagramType::Connect), "Connect");
    assert_eq!(display_datagram_type(DatagramType::Data), "Data");
    assert_eq!(display_datagram_type(DatagramType::Unknown), "Unknown");
}

// -------------------------------------------------------
//   Subscription index
// -------------------------------------------------------

#[test]
fn test_double_subscribe_detected() {
    let mut index = SubscriptionIndex::new();
    assert_eq!(
        index.apply_topic_action(11, 7, TopicAction::Subscribe),
        TopicResponse::SubSuccess
    );
    assert_eq!(
        index.apply_topic_action(11, 7, TopicAction::Subscribe),
        TopicResponse::SubFailure
    );
}

#[test]
fn test_unsubscribe_unsubscribed_detected() {
    let mut index = SubscriptionIndex::new();
    assert_eq!(
        index.apply_topic_action(11, 7, TopicAction::Unsubscribe),
        TopicResponse::UnsubFailure
    );
    assert_eq!(
        index.apply_topic_action(11, 7, TopicAction::Subscribe),
        TopicResponse::SubSuccess
    );
    assert_eq!(
        index.apply_topic_action(11, 7, TopicAction::Unsubscribe),
        TopicResponse::UnsubSuccess
    );
    assert_eq!(
        index.apply_topic_action(11, 7, TopicAction::Unsubscribe),
        TopicResponse::UnsubFailure
    );
}

#[test]
fn test_remove_client_clears_every_topic() {
    let mut index = SubscriptionIndex::new();
    for topic in [1u64, 2, 3] {
        assert_eq!(
            index.apply_topic_action(11, topic, TopicAction::Subscribe),
            TopicResponse::SubSuccess
        );
    }
    assert_eq!(
        index.apply_topic_action(22, 2, TopicAction::Subscribe),
        TopicResponse::SubSuccess
    );
    index.remove_client(11);
    for topic in [1u64, 2, 3] {
        // Subscribing again succeeds, so client 11 is in no set any more.
        assert_eq!(
            index.apply_topic_action(11, topic, TopicAction::Subscribe),
            TopicResponse::SubSuccess,
            "topic {}",
            topic
        );
    }
    // The other client was not touched.
    assert_eq!(
        index.apply_topic_action(22, 2, TopicAction::Subscribe),
        TopicResponse::SubFailure
    );
}

#[test]
fn test_fan_out_one_item_per_subscriber() {
    let mut index = SubscriptionIndex::new();
    index.apply_topic_action(11, 7, TopicAction::Subscribe);
    index.apply_topic_action(22, 7, TopicAction::Subscribe);
    let out = index.fan_out(7, &b"x".to_vec());
    assert_eq!(out.len(), 2);
    let mut ids: Vec<u64> = out.iter().map(|pair| pair.0).collect();
    ids.sort();
    assert_eq!(ids, vec![11, 22]);
    for pair in &out {
        assert_eq!(pair.1, b"x".to_vec());
    }
    assert_eq!(index.fan_out(8, &b"x".to_vec()).len(), 0);
}

#[test]
fn test_object_action_deltas() {
    let mut index = SubscriptionIndex::new();
    let (added, removed) = index.apply_object_action(
        5,
        ObjectRequestAction::Create,
        &vec![1, 2, 3],
    );
    assert_eq!(added, vec![1, 2, 3]);
    assert_eq!(removed, Vec::<u64>::new());
    let (added, removed) = index.apply_object_action(
        5,
        ObjectRequestAction::Update,
        &vec![2, 3, 4],
    );
    assert_eq!(added, vec![4]);
    assert_eq!(removed, vec![1]);
}

// -------------------------------------------------------
//   Session registry
// -------------------------------------------------------

#[test]
fn test_registry_insert_get_remove() {
    let mut registry = SessionRegistry::new();
    let connection = ConnectionId::new(7, 4242);
    let session = ClientSession::new(99, connection, 1000);
    assert!(registry.insert(session).is_ok());
    assert_eq!(registry.len(), 1);

    let held = registry.get(&connection).unwrap();
    assert_eq!(held.id, 99);
    assert_eq!(held.last_seen, 1000);

    let duplicate = ClientSession::new(100, connection, 2000);
    assert_eq!(
        registry.insert(duplicate).unwrap_err(),
        RegistryError::DuplicateConnection
    );

    let removed = registry.remove(&connection).unwrap();
    assert_eq!(removed.id, 99);
    assert!(registry.get(&connection).is_none());
    assert_eq!(registry.len(), 0);
}

// -------------------------------------------------------
//   Dispatch pipeline
// -------------------------------------------------------

#[test]
fn test_queue_fills_to_capacity_and_counts_drops() {
    let mut queue = DispatchQueue::new(3);
    let source = ConnectionId::new(1, 1);
    for i in 0..5u8 {
        let outcome = queue.try_enqueue(Packet::new(source, vec![i]));
        if i < 3 {
            assert!(outcome.is_ok());
        } else {
            assert_eq!(outcome.unwrap_err(), QueueError::QueueFull);
        }
    }
    assert_eq!(queue.len(), 3);
    assert_eq!(queue.capacity_limit(), 3);
    assert_eq!(queue.dropped_packets(), 2);
    // Exactly the first packets stayed, in arrival order.
    for i in 0..3u8 {
        assert_eq!(queue.dequeue().unwrap().datagram, vec![i]);
    }
    assert!(queue.dequeue().is_none());
}

#[test]
fn test_worker_step_decisions() {
    let source = ConnectionId::new(1, 1);
    assert!(matches!(worker_step(false, None), WorkerStep::Exit));
    assert!(matches!(
        worker_step(false, Some(Packet::new(source, vec![]))),
        WorkerStep::Exit
    ));
    assert!(matches!(worker_step(true, None), WorkerStep::Wait));
    assert!(matches!(
        worker_step(true, Some(Packet::new(source, vec![0x60]))),
        WorkerStep::Process(_)
    ));
}

// -------------------------------------------------------
//   Broker dispatch
// -------------------------------------------------------

#[test]
fn test_fan_out_two_subscribers() {
    // Two clients subscribed to topic 7; one Data on topic 7 earns exactly
    // two outbound writes, one per subscriber, each carrying payload "x".
    let mut broker = Broker::new(5);
    let conn_a = ConnectionId::new(10, 1111);
    let conn_b = ConnectionId::new(20, 2222);
    let (id_a, _ack_a) = broker.register_connection(conn_a, 0).unwrap();
    let (id_b, _ack_b) = broker.register_connection(conn_b, 0).unwrap();

    let subscribe = DtgTopicRequest::new(TopicAction::Subscribe, 7).as_bytes();
    let out_a = broker.process_packet(&Packet::new(conn_a, subscribe.clone()), 1);
    let out_b = broker.process_packet(&Packet::new(conn_b, subscribe), 1);
    assert_eq!(out_a.len(), 1);
    assert_eq!(out_b.len(), 1);

    let data = DtgData::new(1, 7, b"x".to_vec()).as_bytes();
    let out = broker.process_packet(&Packet::new(conn_a, data), 2);
    assert_eq!(out.len(), 2);
    let mut ids: Vec<u64> = out.iter().map(|o| o.client_id).collect();
    ids.sort();
    let mut expected = vec![id_a, id_b];
    expected.sort();
    assert_eq!(ids, expected);
    for item in &out {
        match decode(&item.bytes).unwrap() {
            Datagram::Data(forwarded) => {
                assert_eq!(forwarded.topic_id, 7);
                assert_eq!(forwarded.payload, b"x".to_vec());
            }
            _ => panic!("expected a data datagram"),
        }
    }
}

#[test]
fn test_dispatch_ping_earns_pong() {
    let mut broker = Broker::new(5);
    let conn = ConnectionId::new(10, 1111);
    broker.register_connection(conn, 0).unwrap();
    let ping = DtgPing::new(33).as_bytes();
    let out = broker.process_packet(&Packet::new(conn, ping), 1);
    assert_eq!(out.len(), 1);
    assert_eq!(out[0].bytes, vec![0x72u8, 33]);
}

#[test]
fn test_dispatch_discards_unregistered_source() {
    let mut broker = Broker::new(5);
    let out = broker.process_packet(
        &Packet::new(ConnectionId::new(1, 1), DtgPing::new(1).as_bytes()),
        0,
    );
    assert_eq!(out.len(), 0);
}

#[test]
fn test_dispatch_discards_undecodable_packet() {
    let mut broker = Broker::new(5);
    let conn = ConnectionId::new(10, 1111);
    broker.register_connection(conn, 0).unwrap();
    let out = broker.process_packet(&Packet::new(conn, vec![]), 0);
    assert_eq!(out.len(), 0);
}

#[test]
fn test_register_duplicate_and_remove_missing() {
    let mut broker = Broker::new(5);
    let conn = ConnectionId::new(10, 1111);
    broker.register_connection(conn, 0).unwrap();
    assert_eq!(
        broker.register_connection(conn, 1).unwrap_err(),
        RegistryError::DuplicateConnection
    );
    assert!(broker.remove_session(&conn).is_ok());
    assert_eq!(
        broker.remove_session(&conn).unwrap_err(),
        RegistryError::MissingSession
    );
}

#[test]
fn test_teardown_unsubscribes_everywhere() {
    let mut broker = Broker::new(5);
    let conn_a = ConnectionId::new(10, 1111);
    let conn_b = ConnectionId::new(20, 2222);
    broker.register_connection(conn_a, 0).unwrap();
    let (id_b, _) = broker.register_connection(conn_b, 0).unwrap();

    let subscribe = DtgTopicRequest::new(TopicAction::Subscribe, 7).as_bytes();
    broker.process_packet(&Packet::new(conn_a, subscribe.clone()), 1);
    broker.process_packet(&Packet::new(conn_b, subscribe), 1);

    broker.remove_session(&conn_a).unwrap();

    // Only the surviving subscriber receives the fan-out.
    let data = DtgData::new(1, 7, b"x".to_vec()).as_bytes();
    let out = broker.process_packet(&Packet::new(conn_b, data), 2);
    assert_eq!(out.len(), 1);
    assert_eq!(out[0].client_id, id_b);
}

#[test]
fn test_connect_ack_carries_id_and_period() {
    let mut broker = Broker::new(9);
    let conn = ConnectionId::new(10, 1111);
    let (id, ack) = broker.register_connection(conn, 0).unwrap();
    match decode(&ack).unwrap() {
        Datagram::ConnectAck(ack) => {
            assert_eq!(ack.peer_id, id);
            assert_eq!(ack.heartbeat_period, 9);
        }
        _ => panic!("expected a connect acknowledgement"),
    }
}

#[test]
fn test_dispatch_heartbeat_refreshes_last_seen() {
    let mut broker = Broker::new(5);
    let conn = ConnectionId::new(10, 1111);
    broker.register_connection(conn, 100).unwrap();
    assert_eq!(broker.registry.get(&conn).unwrap().last_seen, 100);
    let heartbeat = vec![0x60u8];
    let out = broker.process_packet(&Packet::new(conn, heartbeat), 250);
    assert_eq!(out.len(), 0);
    assert_eq!(broker.registry.get(&conn).unwrap().last_seen, 250);
}

#[test]
fn test_dispatch_object_request_earns_ack() {
    let mut broker = Broker::new(5);
    let conn = ConnectionId::new(10, 1111);
    let (id, _) = broker.register_connection(conn, 0).unwrap();
    let request = rekt::datagrams::object_requests::DtgObjectRequest::new(
        ObjectRequestAction::Create,
        77,
        vec![1, 2, 3],
    )
    .as_bytes();
    let out = broker.process_packet(&Packet::new(conn, request), 1);
    assert_eq!(out.len(), 1);
    assert_eq!(out[0].client_id, id);
    match decode(&out[0].bytes).unwrap() {
        Datagram::ObjectRequestAck(ack) => {
            assert_eq!(ack.flag, 0x01);
            assert_eq!(ack.object_id, 77);
            assert_eq!(ack.final_object_id, 77);
        }
        _ => panic!("expected an object acknowledgement"),
    }
}

#[test]
fn test_dispatch_server_status_counts_clients() {
    let mut broker = Broker::new(5);
    let conn_a = ConnectionId::new(10, 1111);
    let conn_b = ConnectionId::new(20, 2222);
    broker.register_connection(conn_a, 0).unwrap();
    broker.register_connection(conn_b, 0).unwrap();
    let out = broker.process_packet(&Packet::new(conn_a, vec![0x30u8]), 1);
    assert_eq!(out.len(), 1);
    match decode(&out[0].bytes).unwrap() {
        Datagram::ServerStatusAck(ack) => {
            assert_eq!(ack.connected_client, 2);
        }
        _ => panic!("expected a status acknowledgement"),
    }
}

// -------------------------------------------------------
//   Session handler
// -------------------------------------------------------

#[test]
fn test_handler_transitions() {
    let source = ConnectionId::new(10, 1111);
    let (state, action) = handler_step(
        HandlerState::Connecting,
        source,
        HandlerEvent::SessionRegistered,
    );
    assert_eq!(state, HandlerState::Established);
    assert!(matches!(action, HandlerAction::Continue));

    let (state, action) = handler_step(
        HandlerState::Established,
        source,
        HandlerEvent::UnitReceived(vec![0x62, 1]),
    );
    assert_eq!(state, HandlerState::Established);
    match action {
        HandlerAction::Enqueue(packet) => {
            assert_eq!(packet.source, source);
            assert_eq!(packet.datagram, vec![0x62, 1]);
        }
        _ => panic!("expected an enqueue"),
    }

    let (state, action) = handler_step(
        HandlerState::Established,
        source,
        HandlerEvent::UnitReceived(vec![]),
    );
    assert_eq!(state, HandlerState::Established);
    assert!(matches!(action, HandlerAction::DiscardUnit));

    let (state, action) = handler_step(
        HandlerState::Established,
        source,
        HandlerEvent::SessionMissing,
    );
    assert_eq!(state, HandlerState::Closed);
    assert!(matches!(action, HandlerAction::Teardown));

    let (state, action) = handler_step(
        HandlerState::Established,
        source,
        HandlerEvent::TransportError,
    );
    assert_eq!(state, HandlerState::Closed);
    assert!(matches!(action, HandlerAction::Teardown));
}

// -------------------------------------------------------
//   Configuration
// -------------------------------------------------------

#[test]
fn test_config_defaults() {
    let config = Config::from_options(ConfigOptions { server: None, period: None, debug: None });
    assert_eq!(config.port, 3838);
    assert_eq!(config.packet_buffer_size, 1000);
    assert_eq!(config.heart_beat_period, 5);
    assert_eq!(config.ping_period, 5);
    assert_eq!(config.debug_level, "trace");
    assert!(config.debug_datagram_handler);
    assert!(config.debug_object_handler);
}

#[test]
fn test_config_values_and_port_parsing() {
    let options = ConfigOptions {
        server: Some(ServerOptions {
            port: Some("4321".to_string()),
            packet_buffer_size: Some(64),
        }),
        period: Some(PeriodOptions { heartbeat_period: Some(10), ping_period: None }),
        debug: Some(DebugOptions {
            debug_level: Some("info".to_string()),
            debug_datagram_handler: Some(false),
            debug_ping_sender: None,
            debug_data_handler: None,
            debug_heartbeat_checker: None,
            debug_topic_handler: None,
            debug_client_manager: None,
            debug_object_handler: None,
        }),
    };
    let config = Config::from_options(options);
    assert_eq!(config.port, 4321);
    assert_eq!(config.packet_buffer_size, 64);
    assert_eq!(config.heart_beat_period, 10);
    assert_eq!(config.ping_period, 5);
    assert_eq!(config.debug_level, "info");
    assert!(!config.debug_datagram_handler);
    assert!(config.debug_ping_sender);

    // A port that does not read as a u16 falls back to the default.
    for bad in ["", "port", "70000", "12a"] {
        let config = Config::from_options(ConfigOptions {
            server: Some(ServerOptions { port: Some(bad.to_string()), packet_buffer_size: None }),
            period: None,
            debug: None,
        });
        assert_eq!(config.port, 3838, "port string {:?}", bad);
    }
}
