//! The framing and event mapping of the MessagePack encoder.
//!
//! The MessagePack encoding of the packet header and of whole wire events is
//! done by `rmp-serde` on serde types outside this library; what the library
//! does around it is here: which events may be encoded and in which wire
//! form, how a decoded wire event becomes an event, and how a replication
//! payload is framed behind its header and cut out again.

use vstd::prelude::*;
use vstd::slice::{slice_subrange, slice_to_vec};
use vstd::string::StringExecFns;

use crate::error::{io_error_message, io_error_other, EncodeError};
use crate::events::{
    batch_view, ComponentUpdate, NetworkEvent, NetworkEventRecord, ReplicationEvent, WireEvent,
};
use crate::text::{bytes_debug, bytes_text, decimal, occurs_in, text_contains, u64_decimal};
use crate::types::{ClientId, ComponentKind, NetworkId};
use crate::MAX_SAFE_PAYLOAD_SIZE;

verus! {

/// A client id in `Debug` form: `ClientId(42)`.
pub open spec fn client_text(c: ClientId) -> Seq<char> {
    "ClientId("@ + decimal(c.0 as nat) + ")"@
}

/// A local-only event in `Debug` form, as its derived `Debug` writes it
/// (`Disconnected(ClientId(42))`,
/// `UnreliableMessage { client_id: ClientId(1), data: [1, 2] }`). Empty for
/// an event that has a wire form.
pub open spec fn local_only_text(event: NetworkEventRecord) -> Seq<char> {
    match event {
        NetworkEventRecord::ClientConnected(c) => "ClientConnected("@ + client_text(c) + ")"@,
        NetworkEventRecord::ClientDisconnected(c) => "ClientDisconnected("@ + client_text(c) + ")"@,
        NetworkEventRecord::UnreliableMessage { client_id, data } => "UnreliableMessage { client_id: "@
            + client_text(client_id) + ", data: "@ + bytes_text(data) + " }"@,
        NetworkEventRecord::ReliableMessage { client_id, data } => "ReliableMessage { client_id: "@
            + client_text(client_id) + ", data: "@ + bytes_text(data) + " }"@,
        NetworkEventRecord::SessionClosed(c) => "SessionClosed("@ + client_text(c) + ")"@,
        NetworkEventRecord::StreamReset(c) => "StreamReset("@ + client_text(c) + ")"@,
        NetworkEventRecord::Disconnected(c) => "Disconnected("@ + client_text(c) + ")"@,
        _ => Seq::empty(),
    }
}

/// The message with which a local-only event is refused: it names the event
/// in its `Debug` form.
pub open spec fn refusal_message(event: NetworkEventRecord) -> Seq<char> {
    "Cannot encode local-only variant as wire event: "@ + local_only_text(event)
}

fn client_debug(c: ClientId) -> (r: String)
    ensures
        r@ == client_text(c),
{
    let mut s = String::from_str("ClientId(");
    s.append(u64_decimal(c.0).as_str());
    s.append(")");
    s
}

/// Writes the message with which `event` is refused when it has no wire form.
fn refusal_text(event: &NetworkEvent) -> (r: String)
    ensures
        r@ == refusal_message(event@),
{
    let mut s = String::from_str("Cannot encode local-only variant as wire event: ");
    match event {
        NetworkEvent::ClientConnected(c) => {
            s.append("ClientConnected(");
            s.append(client_debug(*c).as_str());
            s.append(")");
        },
        NetworkEvent::ClientDisconnected(c) => {
            s.append("ClientDisconnected(");
            s.append(client_debug(*c).as_str());
            s.append(")");
        },
        NetworkEvent::UnreliableMessage { client_id, data } => {
            s.append("UnreliableMessage { client_id: ");
            s.append(client_debug(*client_id).as_str());
            s.append(", data: ");
            s.append(bytes_debug(data).as_str());
            s.append(" }");
        },
        NetworkEvent::ReliableMessage { client_id, data } => {
            s.append("ReliableMessage { client_id: ");
            s.append(client_debug(*client_id).as_str());
            s.append(", data: ");
            s.append(bytes_debug(data).as_str());
            s.append(" }");
        },
        NetworkEvent::SessionClosed(c) => {
            s.append("SessionClosed(");
            s.append(client_debug(*c).as_str());
            s.append(")");
        },
        NetworkEvent::StreamReset(c) => {
            s.append("StreamReset(");
            s.append(client_debug(*c).as_str());
            s.append(")");
        },
        NetworkEvent::Disconnected(c) => {
            s.append("Disconnected(");
            s.append(client_debug(*c).as_str());
            s.append(")");
        },
        _ => {
            assert(local_only_text(event@) =~= Seq::<char>::empty());
        },
    }
    s
}

/// A failure to write an encoded event into a caller's buffer, by the
/// encoder's description of it: running out of room (the writer met the end
/// of the buffer) is a buffer overflow, anything else an I/O error.
pub open spec fn write_failure_is_overflow(message: Seq<char>) -> bool {
    occurs_in(message, "unexpected end of file"@) || occurs_in(message, "invalid value write"@)
}

/// `buffer` after `payload` is placed right behind a header of `header_len`
/// bytes: the header and the bytes after the payload are untouched.
pub open spec fn framed(buffer: Seq<u8>, header_len: int, payload: Seq<u8>) -> Seq<u8> {
    buffer.take(header_len) + payload + buffer.skip(header_len + payload.len())
}

/// The payload of an encoded replication event: the bytes after its header.
pub open spec fn payload_after(encoded: Seq<u8>, header_len: int) -> Seq<u8> {
    encoded.skip(header_len)
}

/// Law: the payload framed behind a header is cut out again unchanged from
/// the encoded bytes, and the header bytes are left as they were.
pub proof fn law_framed_payload_is_recovered(buffer: Seq<u8>, header_len: int, payload: Seq<u8>)
    requires
        0 <= header_len,
        header_len + payload.len() <= buffer.len(),
    ensures
        payload_after(framed(buffer, header_len, payload).take(header_len + payload.len()), header_len)
            == payload,
        framed(buffer, header_len, payload).take(header_len) == buffer.take(header_len),
        framed(buffer, header_len, payload).len() == buffer.len(),
{
    let f = framed(buffer, header_len, payload);
    assert(payload_after(f.take(header_len + payload.len()), header_len) =~= payload);
    assert(f.take(header_len) =~= buffer.take(header_len));
}

/// Law: framing writes the payload byte for byte right behind the header
/// and leaves every other byte of the buffer as it was; cutting out the
/// payload takes the bytes after the header, in order.
pub proof fn law_framing_places_the_payload_behind_the_header(
    buffer: Seq<u8>,
    header_len: int,
    payload: Seq<u8>,
    encoded: Seq<u8>,
)
    requires
        0 <= header_len,
        header_len + payload.len() <= buffer.len(),
    ensures
        framed(buffer, header_len, payload).len() == buffer.len(),
        forall|i: int| 0 <= i < payload.len() ==> #[trigger] framed(buffer, header_len, payload)[header_len + i]
            == payload[i],
        forall|i: int|
            0 <= i < buffer.len() && !(header_len <= i < header_len + payload.len()) ==> #[trigger] framed(
                buffer,
                header_len,
                payload,
            )[i] == buffer[i],
        header_len <= encoded.len() ==> payload_after(encoded, header_len).len() == encoded.len()
            - header_len,
        forall|i: int|
            0 <= i < encoded.len() - header_len ==> #[trigger] payload_after(encoded, header_len)[i]
                == encoded[header_len + i],
{
}

/// A `serde`-based encoder that uses MessagePack for binary serialization.
///
/// A replication event is written as a fixed header followed by the raw
/// component payload.
#[derive(Debug, Default)]
pub struct SerdeEncoder;

fn clone_batch(events: &Vec<ReplicationEvent>) -> (r: Vec<ReplicationEvent>)
    ensures
        batch_view(r@) == batch_view(events@),
{
    let r = events.clone();
    assert(batch_view(r@) =~= batch_view(events@)) by {
        assert forall|i: int| 0 <= i < r@.len() implies #[trigger] r@[i]@ == events@[i]@ by {
            assert(vstd::pervasive::cloned::<ReplicationEvent>(events[i], r[i]));
        }
    }
    r
}

impl SerdeEncoder {
    /// Creates a new `SerdeEncoder`.
    pub fn new() -> (r: Self)
        ensures
            r == SerdeEncoder,
    {
        SerdeEncoder
    }

    /// Identifies this codec on the wire (1 = serde / MessagePack).
    pub fn codec_id(&self) -> (r: u32)
        ensures
            r == 1,
    {
        1
    }

    /// The maximum possible encoded size for a single event.
    pub fn max_encoded_size(&self) -> (r: usize)
        ensures
            r == MAX_SAFE_PAYLOAD_SIZE,
    {
        MAX_SAFE_PAYLOAD_SIZE
    }

    /// The wire form of an event: the event without the client it concerns.
    ///
    /// A local-only event (connections, raw transport messages, session
    /// notifications) has none and is refused with an I/O error whose
    /// description names the event.
    pub fn to_wire_event(event: &NetworkEvent) -> (r: Result<WireEvent, EncodeError>)
        ensures
            match event@.to_wire() {
                Some(wire) => r matches Ok(w) && w@ == wire,
                None => r matches Err(EncodeError::Io(e)) && io_error_message(e) == Some(
                    refusal_message(event@),
                ),
            },
    {
        match event {
            NetworkEvent::Ping { tick, .. } => Ok(WireEvent::Ping { tick: *tick }),
            NetworkEvent::Pong { tick } => Ok(WireEvent::Pong { tick: *tick }),
            NetworkEvent::Auth { session_token } => Ok(
                WireEvent::Auth { session_token: session_token.clone() },
            ),
            NetworkEvent::Fragment { fragment, .. } => Ok(WireEvent::Fragment(fragment.clone())),
            NetworkEvent::StressTest { count, rotate, .. } => Ok(
                WireEvent::StressTest { count: *count, rotate: *rotate },
            ),
            NetworkEvent::Spawn { entity_type, x_bits, y_bits, rot_bits, .. } => Ok(
                WireEvent::Spawn {
                    entity_type: *entity_type,
                    x_bits: *x_bits,
                    y_bits: *y_bits,
                    rot_bits: *rot_bits,
                },
            ),
            NetworkEvent::ClearWorld { .. } => Ok(WireEvent::ClearWorld),
            NetworkEvent::StartSession { .. } => Ok(WireEvent::StartSession),
            NetworkEvent::RequestSystemManifest { .. } => Ok(WireEvent::RequestSystemManifest),
            NetworkEvent::GameEvent { event, .. } => Ok(WireEvent::GameEvent(event.clone())),
            NetworkEvent::ReplicationBatch { events, .. } => Ok(
                WireEvent::ReplicationBatch(clone_batch(events)),
            ),
            _ => Err(EncodeError::Io(io_error_other(refusal_text(event)))),
        }
    }

    /// The event a decoded wire message stands for. The client id is not on
    /// the wire: it is left as `ClientId(0)` for the transport or server to
    /// fill in. A message that did not decode (`Err` with the decoder's
    /// description) is a malformed payload at offset 0.
    pub fn decode_wire(&self, decoded: Result<WireEvent, String>) -> (r: Result<NetworkEvent, EncodeError>)
        ensures
            match decoded {
                Ok(wire) => r matches Ok(event) && event@ == wire@.to_network(ClientId(0)),
                Err(message) => r matches Err(EncodeError::MalformedPayload { offset, message: m })
                    && offset == 0 && m == message,
            },
    {
        let wire_event = match decoded {
            Ok(wire_event) => wire_event,
            Err(message) => return Err(EncodeError::MalformedPayload { offset: 0, message }),
        };
        Ok(
            match wire_event {
                WireEvent::Ping { tick } => NetworkEvent::Ping { client_id: ClientId(0), tick },
                WireEvent::Pong { tick } => NetworkEvent::Pong { tick },
                WireEvent::Auth { session_token } => NetworkEvent::Auth { session_token },
                WireEvent::Fragment(fragment) => NetworkEvent::Fragment {
                    client_id: ClientId(0),
                    fragment,
                },
                WireEvent::StressTest { count, rotate } => NetworkEvent::StressTest {
                    client_id: ClientId(0),
                    count,
                    rotate,
                },
                WireEvent::Spawn { entity_type, x_bits, y_bits, rot_bits } => NetworkEvent::Spawn {
                    client_id: ClientId(0),
                    entity_type,
                    x_bits,
                    y_bits,
                    rot_bits,
                },
                WireEvent::ClearWorld => NetworkEvent::ClearWorld { client_id: ClientId(0) },
                WireEvent::StartSession => NetworkEvent::StartSession { client_id: ClientId(0) },
                WireEvent::RequestSystemManifest => NetworkEvent::RequestSystemManifest {
                    client_id: ClientId(0),
                },
                WireEvent::GameEvent(event) => NetworkEvent::GameEvent {
                    client_id: ClientId(0),
                    event,
                },
                WireEvent::ReplicationBatch(events) => NetworkEvent::ReplicationBatch {
                    client_id: ClientId(0),
                    events,
                },
            },
        )
    }

    /// The error for a failed write of an encoded event into a buffer of
    /// `available` bytes, given the encoder's description of the failure.
    /// A buffer overflow names an estimate of 256 bytes needed.
    pub fn write_failure(&self, message: String, available: usize) -> (r: EncodeError)
        ensures
            write_failure_is_overflow(message@) ==> (r matches EncodeError::BufferOverflow {
                needed,
                available: a,
            } && needed == 256 && a == available),
            !write_failure_is_overflow(message@) ==> (r matches EncodeError::Io(e)
                && io_error_message(e) == Some(message@)),
    {
        if text_contains(message.as_str(), "unexpected end of file") || text_contains(
            message.as_str(),
            "invalid value write",
        ) {
            EncodeError::BufferOverflow {
                needed: 256,  // an estimate
                available,
            }
        } else {
            EncodeError::Io(io_error_other(message))
        }
    }

    /// Completes the encoding of a replication event given what writing its
    /// header into the front of `buffer` gave: `Some(header_len)`, the bytes
    /// written, or `None` where the header did not fit. The payload is copied
    /// right behind the header and the total length returned.
    ///
    /// A header that did not fit is a buffer overflow with an estimate of 32
    /// bytes needed (the header is about 20). If the payload does not fit,
    /// the error names the bytes needed and available. On either error the
    /// buffer is left as it was.
    pub fn place_payload(&self, event: &ReplicationEvent, header_len: Option<usize>, buffer: &mut [u8]) -> (r:
        Result<usize, EncodeError>)
        requires
            header_len matches Some(h) ==> h + event.payload@.len() <= usize::MAX,
        ensures
            final(buffer)@.len() == old(buffer)@.len(),
            header_len is None ==> {
                &&& r matches Err(EncodeError::BufferOverflow { needed: n, available: a })
                &&& n == 32
                &&& a == old(buffer)@.len()
                &&& final(buffer)@ == old(buffer)@
            },
            header_len matches Some(header_len) ==> ({
                let needed = header_len + event.payload@.len();
                if needed > old(buffer)@.len() {
                    &&& r matches Err(EncodeError::BufferOverflow { needed: n, available: a })
                    &&& n == needed
                    &&& a == old(buffer)@.len()
                    &&& final(buffer)@ == old(buffer)@
                } else {
                    &&& r matches Ok(total)
                    &&& total == needed
                    &&& final(buffer)@ == framed(old(buffer)@, header_len as int, event.payload@)
                }
            }),
    {
        let header_len = match header_len {
            Some(written) => written,
            None => {
                return Err(EncodeError::BufferOverflow {
                    needed: 32,  // the header is small (about 20 bytes)
                    available: buffer.len(),
                });
            },
        };
        let payload_len = event.payload.len();
        let total_needed = header_len + payload_len;
        if total_needed > buffer.len() {
            return Err(EncodeError::BufferOverflow { needed: total_needed, available: buffer.len() });
        }
        let ghost initial = buffer@;
        let mut i: usize = 0;
        while i < payload_len
            invariant
                i <= payload_len,
                payload_len == event.payload@.len(),
                total_needed == header_len + payload_len,
                total_needed <= initial.len(),
                buffer@.len() == initial.len(),
                buffer@ == initial.take(header_len as int) + event.payload@.take(i as int)
                    + initial.skip(header_len + i),
            decreases payload_len - i,
        {
            buffer[header_len + i] = event.payload[i];
            proof {
                assert(buffer@ =~= initial.take(header_len as int) + event.payload@.take(i + 1)
                    + initial.skip(header_len + i + 1));
            }
            i = i + 1;
        }
        assert(event.payload@.take(i as int) =~= event.payload@);
        Ok(total_needed)
    }

    /// Completes the decoding of a replication event given what decoding the
    /// header from the front of `buffer` gave: its fields, or the decoder's
    /// description of the failure, and `header_len`, the bytes it read. The
    /// bytes after the header are the payload.
    pub fn split_payload(
        &self,
        header: Result<(NetworkId, ComponentKind, u64), String>,
        header_len: usize,
        buffer: &[u8],
    ) -> (r: Result<ComponentUpdate, EncodeError>)
        ensures
            match header {
                Err(message) => r matches Err(EncodeError::MalformedPayload { offset, message: m })
                    && offset == header_len && m == message,
                Ok((network_id, component_kind, tick)) => if header_len > buffer@.len() {
                    &&& r matches Err(EncodeError::MalformedPayload { offset, message: m })
                    &&& offset == header_len
                    &&& m@ == "Payload slice out of bounds"@
                } else {
                    &&& r matches Ok(update)
                    &&& update.network_id == network_id
                    &&& update.component_kind == component_kind
                    &&& update.tick == tick
                    &&& update.payload@ == payload_after(buffer@, header_len as int)
                },
            },
    {
        let (network_id, component_kind, tick) = match header {
            Ok(fields) => fields,
            Err(message) => return Err(EncodeError::MalformedPayload { offset: header_len, message }),
        };
        if header_len > buffer.len() {
            return Err(
                EncodeError::MalformedPayload {
                    offset: header_len,
                    message: String::from_str("Payload slice out of bounds"),
                },
            );
        }
        let payload = slice_to_vec(slice_subrange(buffer, header_len, buffer.len()));
        assert(payload@ =~= buffer@.skip(header_len as int));
        Ok(ComponentUpdate { network_id, component_kind, payload, tick })
    }
}

} // verus!
