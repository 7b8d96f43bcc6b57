//! Protocol error types and the messages that describe them.

use vstd::prelude::*;
use vstd::string::StringExecFns;

use crate::text::{decimal, u16_decimal, u64_decimal, usize_decimal};
use crate::types::{ClientId, ComponentKind, NetworkId};

verus! {

/// Declares `std::io::Error` so that the library's errors can carry one.
#[verifier::external_type_specification]
#[verifier::external_body]
pub struct ExIoError(std::io::Error);

/// The description that an I/O error made by `io::Error::other` carries:
/// the text of the payload it was made from, which it keeps and displays.
/// `None` for an error that carries no such payload (one that comes from the
/// operating system, whose text is not a function of the value).
pub uninterp spec fn io_error_message(e: std::io::Error) -> Option<Seq<char>>;

/// `std::io::Error`'s `Display` (through `to_string`). An error made from a
/// payload displays the payload; what any other error prints (an operating
/// system message) is not stated.
#[verifier::external_body]
pub(crate) fn io_error_text(e: &std::io::Error) -> (r: String)
    ensures
        io_error_message(*e) matches Some(m) ==> r@ == m,
{
    e.to_string()
}

/// `std::io::Error::other` with `message` as its payload: the error carries
/// `message` as its description.
#[verifier::external_body]
pub(crate) fn io_error_other(message: String) -> (r: std::io::Error)
    ensures
        io_error_message(r) == Some(message@),
{
    std::io::Error::other(message)
}

/// Errors from the transport layer.
#[derive(Debug)]
pub enum TransportError {
    /// The specified client is not connected.
    ClientNotConnected(ClientId),
    /// The datagram sent is larger than the MTU.
    PayloadTooLarge {
        /// The calculated size.
        size: usize,
        /// The MTU limit.
        max: usize,
    },
    /// An underlying I/O error occurred.
    Io(std::io::Error),
    /// A mutex was poisoned.
    LockPoisoned,
}

/// Errors from the serialization layer.
#[derive(Debug)]
pub enum EncodeError {
    /// The buffer was insufficiently sized.
    BufferOverflow {
        /// Needed bytes.
        needed: usize,
        /// Provided bytes.
        available: usize,
    },
    /// The payload could not be parsed cleanly.
    MalformedPayload {
        /// The byte offset at which parsing failed.
        offset: usize,
        /// The descriptive error message.
        message: String,
    },
    /// Discovered a component kind that is not registered.
    UnknownComponent(ComponentKind),
    /// An underlying I/O error occurred.
    Io(std::io::Error),
}

/// Errors from the ECS adapter.
#[derive(Debug, PartialEq, Eq, Structural)]
pub enum WorldError {
    /// An entity was required but not found.
    EntityNotFound(NetworkId),
    /// The entity already exists.
    EntityAlreadyExists(NetworkId),
}

impl TransportError {
    /// The message that describes the error.
    pub fn to_string(&self) -> (r: String)
        ensures
            match self {
                TransportError::ClientNotConnected(c) => r@ == "Client ClientId("@ + decimal(
                    c.0 as nat,
                ) + ") is not connected"@,
                TransportError::PayloadTooLarge { size, max } => r@ == "Datagram exceeds MTU limit ("@
                    + decimal(*size as nat) + " > "@ + decimal(*max as nat) + ")"@,
                TransportError::Io(e) => match io_error_message(*e) {
                    Some(m) => r@ == "Transport I/O error: "@ + m,
                    None => exists|detail: Seq<char>| r@ == "Transport I/O error: "@ + detail,
                },
                TransportError::LockPoisoned => r@ == "Lock poisoned"@,
            },
    {
        match self {
            TransportError::ClientNotConnected(c) => {
                let mut s = String::from_str("Client ClientId(");
                s.append(u64_decimal(c.0).as_str());
                s.append(") is not connected");
                s
            },
            TransportError::PayloadTooLarge { size, max } => {
                let mut s = String::from_str("Datagram exceeds MTU limit (");
                s.append(usize_decimal(*size).as_str());
                s.append(" > ");
                s.append(usize_decimal(*max).as_str());
                s.append(")");
                s
            },
            TransportError::Io(e) => {
                let detail = io_error_text(e);
                let mut s = String::from_str("Transport I/O error: ");
                s.append(detail.as_str());
                s
            },
            TransportError::LockPoisoned => String::from_str("Lock poisoned"),
        }
    }
}

impl EncodeError {
    /// The message that describes the error.
    pub fn to_string(&self) -> (r: String)
        ensures
            match self {
                EncodeError::BufferOverflow { needed, available } => r@ == "Buffer overflow: need "@
                    + decimal(*needed as nat) + " bytes, have "@ + decimal(*available as nat),
                EncodeError::MalformedPayload { offset, message } => r@
                    == "Malformed payload at byte offset "@ + decimal(*offset as nat) + ": "@
                    + message@,
                EncodeError::UnknownComponent(kind) => r@ == "Unknown component kind: ComponentKind("@
                    + decimal(kind.0 as nat) + ")"@,
                EncodeError::Io(e) => match io_error_message(*e) {
                    Some(m) => r@ == "I/O error: "@ + m,
                    None => exists|detail: Seq<char>| r@ == "I/O error: "@ + detail,
                },
            },
    {
        match self {
            EncodeError::BufferOverflow { needed, available } => {
                let mut s = String::from_str("Buffer overflow: need ");
                s.append(usize_decimal(*needed).as_str());
                s.append(" bytes, have ");
                s.append(usize_decimal(*available).as_str());
                s
            },
            EncodeError::MalformedPayload { offset, message } => {
                let mut s = String::from_str("Malformed payload at byte offset ");
                s.append(usize_decimal(*offset).as_str());
                s.append(": ");
                s.append(message.as_str());
                s
            },
            EncodeError::UnknownComponent(kind) => {
                let mut s = String::from_str("Unknown component kind: ComponentKind(");
                s.append(u16_decimal(kind.0).as_str());
                s.append(")");
                s
            },
            EncodeError::Io(e) => {
                let detail = io_error_text(e);
                let mut s = String::from_str("I/O error: ");
                s.append(detail.as_str());
                s
            },
        }
    }
}

impl WorldError {
    /// The message that describes the error.
    pub fn to_string(&self) -> (r: String)
        ensures
            match self {
                WorldError::EntityNotFound(id) => r@ == "Entity NetworkId("@ + decimal(id.0 as nat)
                    + ") not found"@,
                WorldError::EntityAlreadyExists(id) => r@ == "Entity NetworkId("@ + decimal(
                    id.0 as nat,
                ) + ") already exists"@,
            },
    {
        match self {
            WorldError::EntityNotFound(id) => {
                let mut s = String::from_str("Entity NetworkId(");
                s.append(u64_decimal(id.0).as_str());
                s.append(") not found");
                s
            },
            WorldError::EntityAlreadyExists(id) => {
                let mut s = String::from_str("Entity NetworkId(");
                s.append(u64_decimal(id.0).as_str());
                s.append(") already exists");
                s
            },
        }
    }
}

} // verus!
