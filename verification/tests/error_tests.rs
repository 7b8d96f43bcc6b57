use std::io::{Error as IoError, ErrorKind};

use aetheris_protocol::error::{EncodeError, TransportError, WorldError};
use aetheris_protocol::types::{ClientId, ComponentKind, NetworkId};

#[test]
fn test_error_displays() {
    // TransportError
    let err1 = TransportError::ClientNotConnected(ClientId(42));
    assert_eq!(err1.to_string(), "Client ClientId(42) is not connected");

    let err2 = TransportError::PayloadTooLarge {
        size: 1500,
        max: 1200,
    };
    assert_eq!(err2.to_string(), "Datagram exceeds MTU limit (1500 > 1200)");

    let err3 = TransportError::Io(IoError::new(ErrorKind::ConnectionReset, "connection reset"));
    assert_eq!(err3.to_string(), "Transport I/O error: connection reset");

    // EncodeError
    let err4 = EncodeError::BufferOverflow {
        needed: 256,
        available: 128,
    };
    assert_eq!(
        err4.to_string(),
        "Buffer overflow: need 256 bytes, have 128"
    );

    let err5 = EncodeError::MalformedPayload {
        offset: 10,
        message: "unexpected EOF".to_string(),
    };
    assert_eq!(
        err5.to_string(),
        "Malformed payload at byte offset 10: unexpected EOF"
    );

    let err6 = EncodeError::UnknownComponent(ComponentKind(99));
    assert_eq!(
        err6.to_string(),
        "Unknown component kind: ComponentKind(99)"
    );

    // WorldError
    let err7 = WorldError::EntityNotFound(NetworkId(123));
    assert_eq!(err7.to_string(), "Entity NetworkId(123) not found");

    let err8 = WorldError::EntityAlreadyExists(NetworkId(456));
    assert_eq!(err8.to_string(), "Entity NetworkId(456) already exists");
}

#[test]
fn remaining_error_messages() {
    assert_eq!(TransportError::LockPoisoned.to_string(), "Lock poisoned");
    let io = EncodeError::Io(IoError::other("disk on fire"));
    assert_eq!(io.to_string(), "I/O error: disk on fire");
    assert_eq!(
        TransportError::ClientNotConnected(ClientId(0)).to_string(),
        "Client ClientId(0) is not connected"
    );
    assert_eq!(
        WorldError::EntityNotFound(NetworkId(u64::MAX)).to_string(),
        "Entity NetworkId(18446744073709551615) not found"
    );
}
