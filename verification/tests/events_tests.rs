use std::collections::BTreeMap;

use aetheris_protocol::error::EncodeError;
use aetheris_protocol::events::{
    ComponentUpdate, FragmentedEvent, GameEvent, NetworkEvent, ReplicationEvent, WireEvent,
};
use aetheris_protocol::serde_encoder::SerdeEncoder;
use aetheris_protocol::text::text_contains;
use aetheris_protocol::types::{ClientId, ComponentKind, NetworkId};

#[test]
fn test_network_event_is_wire() {
    assert!(
        NetworkEvent::Ping {
            client_id: ClientId(1),
            tick: 100
        }
        .is_wire()
    );
    assert!(
        NetworkEvent::GameEvent {
            client_id: ClientId(1),
            event: GameEvent::AsteroidDepleted {
                network_id: NetworkId(1)
            }
        }
        .is_wire()
    );
    assert!(
        NetworkEvent::ReplicationBatch {
            client_id: ClientId(1),
            events: vec![]
        }
        .is_wire()
    );
    assert!(!NetworkEvent::ClientConnected(ClientId(1)).is_wire());
    assert!(!NetworkEvent::ClientDisconnected(ClientId(1)).is_wire());
}

#[test]
fn test_wire_event_conversion_roundtrip() {
    let wire = WireEvent::GameEvent(GameEvent::AsteroidDepleted {
        network_id: NetworkId(42),
    });
    let client_id = ClientId(7);
    let network = wire.clone().into_network_event(client_id);

    if let NetworkEvent::GameEvent {
        client_id: cid,
        event,
    } = network
    {
        assert_eq!(cid, client_id);
        assert_eq!(
            event,
            GameEvent::AsteroidDepleted {
                network_id: NetworkId(42)
            }
        );
    } else {
        panic!("Conversion failed to preserve GameEvent variant");
    }

    // Test ReplicationBatch conversion
    let event = ReplicationEvent {
        network_id: NetworkId(1),
        component_kind: ComponentKind(1),
        payload: vec![1, 2, 3],
        tick: 100,
    };
    let batch_wire = WireEvent::ReplicationBatch(vec![event.clone()]);
    let batch_network = batch_wire.into_network_event(client_id);
    if let NetworkEvent::ReplicationBatch {
        client_id: cid,
        events,
    } = batch_network
    {
        assert_eq!(cid, client_id);
        assert!(!events.is_empty());
        assert_eq!(events[0].tick, 100);
        assert_eq!(events[0].payload, vec![1, 2, 3]);
        assert_eq!(events[0].network_id, NetworkId(1));
        assert_eq!(events[0].component_kind, ComponentKind(1));
    } else {
        panic!("Conversion failed to preserve ReplicationBatch variant");
    }
}

#[test]
fn test_disconnected_not_serializable() {
    let event = NetworkEvent::Disconnected(ClientId(42));

    // Attempting to encode a local-only event should return an error
    let result = SerdeEncoder::to_wire_event(&event);
    assert!(result.is_err());
    if let Err(EncodeError::Io(e)) = result {
        assert!(e.to_string().contains("Cannot encode local-only variant"));
    } else {
        panic!("Expected EncodeError::Io with local-only message, got {result:?}");
    }
}

#[test]
fn test_game_event_roundtrip() {
    let encoder = SerdeEncoder::new();
    let game_event = GameEvent::AsteroidDepleted {
        network_id: NetworkId(123),
    };
    let event = NetworkEvent::GameEvent {
        client_id: ClientId(1), // Masked to 0 on the wire and restored on server poll
        event: game_event.clone(),
    };

    let wire = SerdeEncoder::to_wire_event(&event).unwrap();
    let decoded = encoder.decode_wire(Ok(wire)).unwrap();

    if let NetworkEvent::GameEvent {
        client_id,
        event: decoded_event,
    } = decoded
    {
        assert_eq!(
            client_id,
            ClientId(0),
            "Wire decoding should default client_id to 0"
        );
        match decoded_event {
            GameEvent::AsteroidDepleted { network_id } => {
                assert_eq!(network_id, NetworkId(123));
            }
            GameEvent::Possession { .. } | GameEvent::SystemManifest { .. } => {
                panic!("Unexpected event type in roundtrip test");
            }
        }
    } else {
        panic!("Decoded event is not a GameEvent: {decoded:?}");
    }
}

#[test]
fn every_local_only_event_is_refused() {
    let local = vec![
        NetworkEvent::ClientConnected(ClientId(1)),
        NetworkEvent::ClientDisconnected(ClientId(1)),
        NetworkEvent::UnreliableMessage { client_id: ClientId(1), data: vec![1] },
        NetworkEvent::ReliableMessage { client_id: ClientId(1), data: vec![1] },
        NetworkEvent::SessionClosed(ClientId(1)),
        NetworkEvent::StreamReset(ClientId(1)),
        NetworkEvent::Disconnected(ClientId(1)),
    ];
    for event in &local {
        assert!(!event.is_wire());
        assert!(matches!(SerdeEncoder::to_wire_event(event), Err(EncodeError::Io(_))));
    }
}

#[test]
fn wire_form_drops_the_client_and_keeps_the_rest() {
    let spawn = NetworkEvent::Spawn {
        client_id: ClientId(5),
        entity_type: 3,
        x_bits: 1.5f32.to_bits(),
        y_bits: (-2.0f32).to_bits(),
        rot_bits: 0.25f32.to_bits(),
    };
    assert_eq!(
        SerdeEncoder::to_wire_event(&spawn).unwrap(),
        WireEvent::Spawn {
            entity_type: 3,
            x_bits: 1.5f32.to_bits(),
            y_bits: (-2.0f32).to_bits(),
            rot_bits: 0.25f32.to_bits(),
        }
    );
    let ping = NetworkEvent::Ping { client_id: ClientId(5), tick: 77 };
    let wire = SerdeEncoder::to_wire_event(&ping).unwrap();
    assert_eq!(wire, WireEvent::Ping { tick: 77 });
    assert_eq!(wire.into_network_event(ClientId(5)), ping);

    let mut manifest = BTreeMap::new();
    manifest.insert("tick_rate".to_string(), "60".to_string());
    let event = NetworkEvent::GameEvent {
        client_id: ClientId(2),
        event: GameEvent::SystemManifest { manifest: manifest.clone() },
    };
    assert_eq!(
        SerdeEncoder::to_wire_event(&event).unwrap(),
        WireEvent::GameEvent(GameEvent::SystemManifest { manifest })
    );

    let fragment = FragmentedEvent { message_id: 123, fragment_index: 1, total_fragments: 5, payload: vec![1, 2, 3] };
    let event = NetworkEvent::Fragment { client_id: ClientId(0), fragment: fragment.clone() };
    assert_eq!(SerdeEncoder::to_wire_event(&event).unwrap(), WireEvent::Fragment(fragment));
}

#[test]
fn decode_wire_reports_malformed_input() {
    let encoder = SerdeEncoder::new();
    match encoder.decode_wire(Err("invalid marker".to_string())) {
        Err(EncodeError::MalformedPayload { offset, message }) => {
            assert_eq!(offset, 0);
            assert_eq!(message, "invalid marker");
        }
        other => panic!("unexpected {other:?}"),
    }
    assert_eq!(
        encoder.decode_wire(Ok(WireEvent::StartSession)).unwrap(),
        NetworkEvent::StartSession { client_id: ClientId(0) }
    );
}

#[test]
fn place_payload_frames_behind_the_header() {
    let encoder = SerdeEncoder::new();
    let event = ReplicationEvent {
        network_id: NetworkId(42),
        component_kind: ComponentKind(1),
        payload: vec![1, 2, 3, 4],
        tick: 100,
    };
    let mut buffer = [9u8; 8];
    assert_eq!(encoder.place_payload(&event, Some(3), &mut buffer).unwrap(), 7);
    assert_eq!(buffer, [9, 9, 9, 1, 2, 3, 4, 9]);

    let mut small = [0u8; 6];
    match encoder.place_payload(&event, Some(3), &mut small) {
        Err(EncodeError::BufferOverflow { needed, available }) => {
            assert_eq!(needed, 7);
            assert_eq!(available, 6);
        }
        other => panic!("unexpected {other:?}"),
    }
    assert_eq!(small, [0u8; 6]);

    // A header that did not fit is an overflow with the estimate of 32 bytes.
    let mut tiny = [5u8; 1];
    match encoder.place_payload(&event, None, &mut tiny) {
        Err(EncodeError::BufferOverflow { needed, available }) => {
            assert_eq!(needed, 32);
            assert_eq!(available, 1);
        }
        other => panic!("unexpected {other:?}"),
    }
    assert_eq!(tiny, [5u8; 1]);
}

#[test]
fn local_only_events_are_refused_by_name() {
    let events = vec![
        NetworkEvent::ClientConnected(ClientId(7)),
        NetworkEvent::ClientDisconnected(ClientId(0)),
        NetworkEvent::UnreliableMessage { client_id: ClientId(1), data: vec![1, 20, 255] },
        NetworkEvent::ReliableMessage { client_id: ClientId(2), data: vec![] },
        NetworkEvent::SessionClosed(ClientId(3)),
        NetworkEvent::StreamReset(ClientId(18446744073709551615)),
        NetworkEvent::Disconnected(ClientId(42)),
    ];
    for event in events {
        match SerdeEncoder::to_wire_event(&event) {
            Err(e @ EncodeError::Io(_)) => {
                let expected =
                    format!("I/O error: Cannot encode local-only variant as wire event: {event:?}");
                assert_eq!(e.to_string(), expected);
            }
            other => panic!("unexpected {other:?}"),
        }
    }
    match SerdeEncoder::to_wire_event(&NetworkEvent::UnreliableMessage {
        client_id: ClientId(1),
        data: vec![1, 2],
    }) {
        Err(EncodeError::Io(e)) => assert_eq!(
            e.to_string(),
            "Cannot encode local-only variant as wire event: UnreliableMessage { client_id: ClientId(1), data: [1, 2] }"
        ),
        other => panic!("unexpected {other:?}"),
    }
}

#[test]
fn split_payload_cuts_after_the_header() {
    let encoder = SerdeEncoder::new();
    let bytes = [0x93, 42, 1, 100, 7, 8];
    let update = encoder
        .split_payload(Ok((NetworkId(42), ComponentKind(1), 100)), 4, &bytes)
        .unwrap();
    assert_eq!(
        update,
        ComponentUpdate {
            network_id: NetworkId(42),
            component_kind: ComponentKind(1),
            payload: vec![7, 8],
            tick: 100,
        }
    );
    match encoder.split_payload(Err("eof".to_string()), 2, &bytes) {
        Err(EncodeError::MalformedPayload { offset, message }) => {
            assert_eq!(offset, 2);
            assert_eq!(message, "eof");
        }
        other => panic!("unexpected {other:?}"),
    }
    match encoder.split_payload(Ok((NetworkId(1), ComponentKind(1), 1)), 9, &bytes) {
        Err(EncodeError::MalformedPayload { offset, message }) => {
            assert_eq!(offset, 9);
            assert_eq!(message, "Payload slice out of bounds");
        }
        other => panic!("unexpected {other:?}"),
    }
    assert_eq!(encoder.max_encoded_size(), 1200);
    assert_eq!(encoder.codec_id(), 1);
}

#[test]
fn write_failures_by_description() {
    let encoder = SerdeEncoder::new();
    match encoder.write_failure("failed to write: unexpected end of file".to_string(), 12) {
        EncodeError::BufferOverflow { needed, available } => {
            assert_eq!(needed, 256);
            assert_eq!(available, 12);
        }
        other => panic!("unexpected {other:?}"),
    }
    assert!(matches!(
        encoder.write_failure("invalid value write: x".to_string(), 3),
        EncodeError::BufferOverflow { needed: 256, available: 3 }
    ));
    match encoder.write_failure("unexpected end".to_string(), 3) {
        EncodeError::Io(e) => assert_eq!(e.to_string(), "unexpected end"),
        other => panic!("unexpected {other:?}"),
    }
    assert_eq!(
        encoder.write_failure("disk on fire".to_string(), 3).to_string(),
        "I/O error: disk on fire"
    );
}

#[test]
fn text_search() {
    assert!(text_contains("abcabd", "abd"));
    assert!(text_contains("abc", ""));
    assert!(text_contains("", ""));
    assert!(!text_contains("ab", "abc"));
    assert!(!text_contains("aXbc", "abc"));
    assert!(text_contains("h\u{e9}llo w\u{f6}rld", "\u{f6}r"));
}

#[test]
fn received_events_are_wire_events_and_round_trip() {
    let wires = vec![
        WireEvent::Ping { tick: 1 },
        WireEvent::Pong { tick: 2 },
        WireEvent::Auth { session_token: "tok".to_string() },
        WireEvent::StressTest { count: 3, rotate: true },
        WireEvent::ClearWorld,
        WireEvent::StartSession,
        WireEvent::RequestSystemManifest,
        WireEvent::ReplicationBatch(vec![]),
    ];
    for wire in wires {
        let event = wire.clone().into_network_event(ClientId(9));
        assert!(event.is_wire());
        assert_eq!(SerdeEncoder::to_wire_event(&event).unwrap(), wire);
    }
}

#[test]
fn framed_payload_is_cut_out_again() {
    let encoder = SerdeEncoder::new();
    let event = ReplicationEvent {
        network_id: NetworkId(5),
        component_kind: ComponentKind(2),
        payload: vec![10, 20, 30],
        tick: 8,
    };
    let mut buffer = [0xAAu8; 16];
    let written = encoder.place_payload(&event, Some(4), &mut buffer).unwrap();
    let update = encoder
        .split_payload(Ok((NetworkId(5), ComponentKind(2), 8)), 4, &buffer[..written])
        .unwrap();
    assert_eq!(update.payload, event.payload);
    assert_eq!(&buffer[..4], &[0xAA; 4]);
}
