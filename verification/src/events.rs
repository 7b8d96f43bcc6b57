//! Protocol events: what crosses the wire and what the transport reports.
//!
//! Positions and rotations travel as the IEEE-754 bit patterns of their
//! `f32` values (`f32::to_bits`); the library only carries them through.

use std::collections::BTreeMap;

use vstd::prelude::*;

use crate::types::{ClientId, ComponentKind, NetworkId};

verus! {

/// A reliable discrete game event.
#[derive(Debug, PartialEq, Eq)]
pub enum GameEvent {
    /// An asteroid was completely depleted of its ore.
    AsteroidDepleted {
        /// The network ID of the asteroid that was depleted.
        network_id: NetworkId,
    },
    /// Explicitly informs a client that they now own/control a specific entity.
    Possession {
        /// The network ID of the entity now owned by the client.
        network_id: NetworkId,
    },
    /// Sends extensible server-side metadata (versions, counters, debug data).
    SystemManifest {
        /// The collection of metadata key-value pairs.
        manifest: BTreeMap<String, String>,
    },
}

/// The content of a [`GameEvent`], as contracts speak of it.
pub enum GameEventRecord {
    AsteroidDepleted { network_id: NetworkId },
    Possession { network_id: NetworkId },
    SystemManifest { manifest: Map<String, String> },
}

impl View for GameEvent {
    type V = GameEventRecord;

    open spec fn view(&self) -> GameEventRecord {
        match self {
            GameEvent::AsteroidDepleted { network_id } => GameEventRecord::AsteroidDepleted {
                network_id: *network_id,
            },
            GameEvent::Possession { network_id } => GameEventRecord::Possession {
                network_id: *network_id,
            },
            GameEvent::SystemManifest { manifest } => GameEventRecord::SystemManifest {
                manifest: manifest@,
            },
        }
    }
}

impl Clone for GameEvent {
    fn clone(&self) -> (r: Self)
        ensures
            r@ == self@,
    {
        match self {
            GameEvent::AsteroidDepleted { network_id } => GameEvent::AsteroidDepleted {
                network_id: *network_id,
            },
            GameEvent::Possession { network_id } => GameEvent::Possession { network_id: *network_id },
            GameEvent::SystemManifest { manifest } => GameEvent::SystemManifest {
                manifest: manifest.clone(),
            },
        }
    }
}

impl GameEvent {
    /// Converts a `GameEvent` into a `WireEvent`.
    pub fn into_wire_event(self) -> (r: WireEvent)
        ensures
            r == WireEvent::GameEvent(self),
    {
        WireEvent::GameEvent(self)
    }
}

/// An event representing a fragment of a larger message.
/// Used for MTU stability to prevent packet drops and enable reassembly.
#[derive(Debug, PartialEq, Eq)]
pub struct FragmentedEvent {
    /// Unique identifier for the fragmented message.
    pub message_id: u32,
    /// The index of this fragment (0-based).
    pub fragment_index: u16,
    /// Total number of fragments for this message.
    pub total_fragments: u16,
    /// The raw payload of this fragment.
    pub payload: Vec<u8>,
}

/// The content of a [`FragmentedEvent`], as contracts speak of it.
pub struct FragmentRecord {
    pub message_id: u32,
    pub fragment_index: u16,
    pub total_fragments: u16,
    pub payload: Seq<u8>,
}

impl View for FragmentedEvent {
    type V = FragmentRecord;

    open spec fn view(&self) -> FragmentRecord {
        FragmentRecord {
            message_id: self.message_id,
            fragment_index: self.fragment_index,
            total_fragments: self.total_fragments,
            payload: self.payload@,
        }
    }
}

impl Clone for FragmentedEvent {
    fn clone(&self) -> (r: Self)
        ensures
            r@ == self@,
    {
        let payload = self.payload.clone();
        assert(payload@ =~= self.payload@);
        FragmentedEvent {
            message_id: self.message_id,
            fragment_index: self.fragment_index,
            total_fragments: self.total_fragments,
            payload,
        }
    }
}

/// A change to one component of one entity: the content of a
/// [`ReplicationEvent`] or a [`ComponentUpdate`], as contracts speak of it.
pub struct ComponentRecord {
    pub network_id: NetworkId,
    pub component_kind: ComponentKind,
    pub payload: Seq<u8>,
    pub tick: u64,
}

/// An event representing a change to a single component on a single entity.
/// Produced by the world adapter's delta extraction on the server.
#[derive(Debug, PartialEq, Eq)]
pub struct ReplicationEvent {
    /// Which entity changed.
    pub network_id: NetworkId,
    /// Which component type changed.
    pub component_kind: ComponentKind,
    /// The serialized delta payload (only the changed fields).
    pub payload: Vec<u8>,
    /// The server tick at which this change was recorded.
    pub tick: u64,
}

impl View for ReplicationEvent {
    type V = ComponentRecord;

    open spec fn view(&self) -> ComponentRecord {
        ComponentRecord {
            network_id: self.network_id,
            component_kind: self.component_kind,
            payload: self.payload@,
            tick: self.tick,
        }
    }
}

impl Clone for ReplicationEvent {
    fn clone(&self) -> (r: Self)
        ensures
            r@ == self@,
    {
        let payload = self.payload.clone();
        assert(payload@ =~= self.payload@);
        ReplicationEvent {
            network_id: self.network_id,
            component_kind: self.component_kind,
            payload,
            tick: self.tick,
        }
    }
}

/// An inbound update to be applied to the ECS.
/// Produced by an encoder's decoding on the receiving end.
#[derive(Debug, PartialEq, Eq)]
pub struct ComponentUpdate {
    /// The entity to update.
    pub network_id: NetworkId,
    /// Which component type to update.
    pub component_kind: ComponentKind,
    /// The deserialized field values.
    pub payload: Vec<u8>,
    /// The tick this update originated from.
    pub tick: u64,
}

impl View for ComponentUpdate {
    type V = ComponentRecord;

    open spec fn view(&self) -> ComponentRecord {
        ComponentRecord {
            network_id: self.network_id,
            component_kind: self.component_kind,
            payload: self.payload@,
            tick: self.tick,
        }
    }
}

impl Clone for ComponentUpdate {
    fn clone(&self) -> (r: Self)
        ensures
            r@ == self@,
    {
        let payload = self.payload.clone();
        assert(payload@ =~= self.payload@);
        ComponentUpdate {
            network_id: self.network_id,
            component_kind: self.component_kind,
            payload,
            tick: self.tick,
        }
    }
}

/// The contents of a batch of replication events.
pub open spec fn batch_view(events: Seq<ReplicationEvent>) -> Seq<ComponentRecord> {
    events.map_values(|e: ReplicationEvent| e@)
}

/// Events produced by polling the transport.
#[derive(Debug, Clone, PartialEq)]
pub enum NetworkEvent {
    /// A new client has connected and been assigned a `ClientId`.
    ClientConnected(ClientId),
    /// A client has disconnected (graceful or timeout).
    ClientDisconnected(ClientId),
    /// Raw unreliable data received from a client.
    UnreliableMessage {
        /// The client that sent the message.
        client_id: ClientId,
        /// The raw message bytes.
        data: Vec<u8>,
    },
    /// Raw reliable data received from a client.
    ReliableMessage {
        /// The client that sent the message.
        client_id: ClientId,
        /// The raw message bytes.
        data: Vec<u8>,
    },
    /// A heartbeat ping from a client.
    Ping {
        /// The client that sent the ping.
        client_id: ClientId,
        /// The client's tick/timestamp when the ping was sent.
        tick: u64,
    },
    /// A heartbeat pong from the server.
    Pong {
        /// The original tick/timestamp from the ping.
        tick: u64,
    },
    /// A session authentication request from the client.
    Auth {
        /// The session token obtained from the control plane.
        session_token: String,
    },
    /// A WebTransport session was closed by the remote or due to error.
    SessionClosed(ClientId),
    /// A WebTransport stream was reset.
    StreamReset(ClientId),
    /// A fragment of a larger message.
    Fragment {
        /// The client that sent the fragment.
        client_id: ClientId,
        /// The fragment data.
        fragment: FragmentedEvent,
    },
    /// A testing command to trigger a stress test.
    StressTest {
        /// The client that requested the stress test.
        client_id: ClientId,
        /// Number of entities to spawn.
        count: u16,
        /// Whether spawned entities should rotate.
        rotate: bool,
    },
    /// A testing command to spawn a specific entity.
    Spawn {
        /// The client that requested the spawn.
        client_id: ClientId,
        /// Which entity type to spawn.
        entity_type: u16,
        /// Position X (bit pattern of an `f32`).
        x_bits: u32,
        /// Position Y (bit pattern of an `f32`).
        y_bits: u32,
        /// Initial rotation (bit pattern of an `f32`).
        rot_bits: u32,
    },
    /// A command to clear all entities from the world.
    ClearWorld {
        /// The client that requested the clear.
        client_id: ClientId,
    },
    /// Client requests to start a gameplay session.
    StartSession {
        /// The client starting the session.
        client_id: ClientId,
    },
    /// A request from a client to receive the current system manifest.
    RequestSystemManifest {
        /// The client that requested the manifest.
        client_id: ClientId,
    },
    /// A local event indicating the client transport has been disconnected.
    Disconnected(ClientId),
    /// A discrete game event (e.g. depletion, destruction).
    GameEvent {
        /// The client involved (or targeted).
        client_id: ClientId,
        /// The event data.
        event: GameEvent,
    },
    /// A batch of replication updates sent together to save bandwidth/packets.
    ReplicationBatch {
        /// The client that should receive the batch.
        client_id: ClientId,
        /// The collection of updates.
        events: Vec<ReplicationEvent>,
    },
}

/// The content of a [`NetworkEvent`], as contracts speak of it.
pub enum NetworkEventRecord {
    ClientConnected(ClientId),
    ClientDisconnected(ClientId),
    UnreliableMessage { client_id: ClientId, data: Seq<u8> },
    ReliableMessage { client_id: ClientId, data: Seq<u8> },
    Ping { client_id: ClientId, tick: u64 },
    Pong { tick: u64 },
    Auth { session_token: Seq<char> },
    SessionClosed(ClientId),
    StreamReset(ClientId),
    Fragment { client_id: ClientId, fragment: FragmentRecord },
    StressTest { client_id: ClientId, count: u16, rotate: bool },
    Spawn { client_id: ClientId, entity_type: u16, x_bits: u32, y_bits: u32, rot_bits: u32 },
    ClearWorld { client_id: ClientId },
    StartSession { client_id: ClientId },
    RequestSystemManifest { client_id: ClientId },
    Disconnected(ClientId),
    GameEvent { client_id: ClientId, event: GameEventRecord },
    ReplicationBatch { client_id: ClientId, events: Seq<ComponentRecord> },
}

impl View for NetworkEvent {
    type V = NetworkEventRecord;

    open spec fn view(&self) -> NetworkEventRecord {
        match self {
            NetworkEvent::ClientConnected(c) => NetworkEventRecord::ClientConnected(*c),
            NetworkEvent::ClientDisconnected(c) => NetworkEventRecord::ClientDisconnected(*c),
            NetworkEvent::UnreliableMessage { client_id, data } =>
                NetworkEventRecord::UnreliableMessage { client_id: *client_id, data: data@ },
            NetworkEvent::ReliableMessage { client_id, data } =>
                NetworkEventRecord::ReliableMessage { client_id: *client_id, data: data@ },
            NetworkEvent::Ping { client_id, tick } => NetworkEventRecord::Ping {
                client_id: *client_id,
                tick: *tick,
            },
            NetworkEvent::Pong { tick } => NetworkEventRecord::Pong { tick: *tick },
            NetworkEvent::Auth { session_token } => NetworkEventRecord::Auth {
                session_token: session_token@,
            },
            NetworkEvent::SessionClosed(c) => NetworkEventRecord::SessionClosed(*c),
            NetworkEvent::StreamReset(c) => NetworkEventRecord::StreamReset(*c),
            NetworkEvent::Fragment { client_id, fragment } => NetworkEventRecord::Fragment {
                client_id: *client_id,
                fragment: fragment@,
            },
            NetworkEvent::StressTest { client_id, count, rotate } =>
                NetworkEventRecord::StressTest { client_id: *client_id, count: *count, rotate: *rotate },
            NetworkEvent::Spawn { client_id, entity_type, x_bits, y_bits, rot_bits } =>
                NetworkEventRecord::Spawn {
                client_id: *client_id,
                entity_type: *entity_type,
                x_bits: *x_bits,
                y_bits: *y_bits,
                rot_bits: *rot_bits,
            },
            NetworkEvent::ClearWorld { client_id } => NetworkEventRecord::ClearWorld {
                client_id: *client_id,
            },
            NetworkEvent::StartSession { client_id } => NetworkEventRecord::StartSession {
                client_id: *client_id,
            },
            NetworkEvent::RequestSystemManifest { client_id } =>
                NetworkEventRecord::RequestSystemManifest { client_id: *client_id },
            NetworkEvent::Disconnected(c) => NetworkEventRecord::Disconnected(*c),
            NetworkEvent::GameEvent { client_id, event } => NetworkEventRecord::GameEvent {
                client_id: *client_id,
                event: event@,
            },
            NetworkEvent::ReplicationBatch { client_id, events } =>
                NetworkEventRecord::ReplicationBatch {
                client_id: *client_id,
                events: batch_view(events@),
            },
        }
    }
}

impl NetworkEventRecord {
    /// The variants that may be sent over the wire; the others are local
    /// transport notifications.
    pub open spec fn is_wire(self) -> bool {
        match self {
            NetworkEventRecord::Ping { .. }
            | NetworkEventRecord::Pong { .. }
            | NetworkEventRecord::Auth { .. }
            | NetworkEventRecord::Fragment { .. }
            | NetworkEventRecord::StressTest { .. }
            | NetworkEventRecord::Spawn { .. }
            | NetworkEventRecord::ClearWorld { .. }
            | NetworkEventRecord::StartSession { .. }
            | NetworkEventRecord::RequestSystemManifest { .. }
            | NetworkEventRecord::GameEvent { .. }
            | NetworkEventRecord::ReplicationBatch { .. } => true,
            _ => false,
        }
    }

    /// The wire form of an event: the event without the client it concerns,
    /// or `None` for a local-only event.
    pub open spec fn to_wire(self) -> Option<WireEventRecord> {
        match self {
            NetworkEventRecord::Ping { tick, .. } => Some(WireEventRecord::Ping { tick }),
            NetworkEventRecord::Pong { tick } => Some(WireEventRecord::Pong { tick }),
            NetworkEventRecord::Auth { session_token } => Some(
                WireEventRecord::Auth { session_token },
            ),
            NetworkEventRecord::Fragment { fragment, .. } => Some(
                WireEventRecord::Fragment(fragment),
            ),
            NetworkEventRecord::StressTest { count, rotate, .. } => Some(
                WireEventRecord::StressTest { count, rotate },
            ),
            NetworkEventRecord::Spawn { entity_type, x_bits, y_bits, rot_bits, .. } => Some(
                WireEventRecord::Spawn { entity_type, x_bits, y_bits, rot_bits },
            ),
            NetworkEventRecord::ClearWorld { .. } => Some(WireEventRecord::ClearWorld),
            NetworkEventRecord::StartSession { .. } => Some(WireEventRecord::StartSession),
            NetworkEventRecord::RequestSystemManifest { .. } => Some(
                WireEventRecord::RequestSystemManifest,
            ),
            NetworkEventRecord::GameEvent { event, .. } => Some(WireEventRecord::GameEvent(event)),
            NetworkEventRecord::ReplicationBatch { events, .. } => Some(
                WireEventRecord::ReplicationBatch(events),
            ),
            _ => None,
        }
    }

    /// The client an event concerns, for the variants that name one.
    pub open spec fn client(self) -> Option<ClientId> {
        match self {
            NetworkEventRecord::ClientConnected(c) => Some(c),
            NetworkEventRecord::ClientDisconnected(c) => Some(c),
            NetworkEventRecord::UnreliableMessage { client_id, .. } => Some(client_id),
            NetworkEventRecord::ReliableMessage { client_id, .. } => Some(client_id),
            NetworkEventRecord::Ping { client_id, .. } => Some(client_id),
            NetworkEventRecord::SessionClosed(c) => Some(c),
            NetworkEventRecord::StreamReset(c) => Some(c),
            NetworkEventRecord::Fragment { client_id, .. } => Some(client_id),
            NetworkEventRecord::StressTest { client_id, .. } => Some(client_id),
            NetworkEventRecord::Spawn { client_id, .. } => Some(client_id),
            NetworkEventRecord::ClearWorld { client_id } => Some(client_id),
            NetworkEventRecord::StartSession { client_id } => Some(client_id),
            NetworkEventRecord::RequestSystemManifest { client_id } => Some(client_id),
            NetworkEventRecord::Disconnected(c) => Some(c),
            NetworkEventRecord::GameEvent { client_id, .. } => Some(client_id),
            NetworkEventRecord::ReplicationBatch { client_id, .. } => Some(client_id),
            NetworkEventRecord::Pong { .. } | NetworkEventRecord::Auth { .. } => None,
        }
    }
}

impl NetworkEvent {
    /// Returns true if this event is capable of being sent over the wire.
    pub fn is_wire(&self) -> (r: bool)
        ensures
            r == self@.is_wire(),
    {
        match self {
            Self::Ping { .. }
            | Self::Pong { .. }
            | Self::Auth { .. }
            | Self::Fragment { .. }
            | Self::StressTest { .. }
            | Self::Spawn { .. }
            | Self::ClearWorld { .. }
            | Self::StartSession { .. }
            | Self::RequestSystemManifest { .. }
            | Self::GameEvent { .. }
            | Self::ReplicationBatch { .. } => true,
            Self::ClientConnected(_)
            | Self::ClientDisconnected(_)
            | Self::UnreliableMessage { .. }
            | Self::ReliableMessage { .. }
            | Self::SessionClosed(_)
            | Self::StreamReset(_)
            | Self::Disconnected(_) => false,
        }
    }
}

/// A restricted view of `NetworkEvent` for over-the-wire transport.
/// Prevents local-only variants (like `ClientConnected`) from being sent/received.
#[derive(Debug, Clone, PartialEq)]
pub enum WireEvent {
    /// A heartbeat ping.
    Ping {
        /// The client's tick/timestamp when the ping was sent.
        tick: u64,
    },
    /// A heartbeat pong.
    Pong {
        /// The original tick/timestamp from the ping.
        tick: u64,
    },
    /// A session authentication request.
    Auth {
        /// The session token.
        session_token: String,
    },
    /// A fragment of a larger message.
    Fragment(FragmentedEvent),
    /// A testing command to trigger a stress test.
    StressTest {
        /// Number of entities to spawn.
        count: u16,
        /// Whether spawned entities should rotate.
        rotate: bool,
    },
    /// A testing command to spawn a specific entity.
    Spawn {
        /// Which entity type to spawn.
        entity_type: u16,
        /// Position X (bit pattern of an `f32`).
        x_bits: u32,
        /// Position Y (bit pattern of an `f32`).
        y_bits: u32,
        /// Initial rotation (bit pattern of an `f32`).
        rot_bits: u32,
    },
    /// A command to clear all entities from the world.
    ClearWorld,
    /// Client requests to start a gameplay session.
    StartSession,
    /// A request to receive the current system manifest.
    RequestSystemManifest,
    /// A discrete game event.
    GameEvent(GameEvent),
    /// A batch of replication updates.
    ReplicationBatch(Vec<ReplicationEvent>),
}

/// The content of a [`WireEvent`], as contracts speak of it.
pub enum WireEventRecord {
    Ping { tick: u64 },
    Pong { tick: u64 },
    Auth { session_token: Seq<char> },
    Fragment(FragmentRecord),
    StressTest { count: u16, rotate: bool },
    Spawn { entity_type: u16, x_bits: u32, y_bits: u32, rot_bits: u32 },
    ClearWorld,
    StartSession,
    RequestSystemManifest,
    GameEvent(GameEventRecord),
    ReplicationBatch(Seq<ComponentRecord>),
}

impl View for WireEvent {
    type V = WireEventRecord;

    open spec fn view(&self) -> WireEventRecord {
        match self {
            WireEvent::Ping { tick } => WireEventRecord::Ping { tick: *tick },
            WireEvent::Pong { tick } => WireEventRecord::Pong { tick: *tick },
            WireEvent::Auth { session_token } => WireEventRecord::Auth {
                session_token: session_token@,
            },
            WireEvent::Fragment(f) => WireEventRecord::Fragment(f@),
            WireEvent::StressTest { count, rotate } => WireEventRecord::StressTest {
                count: *count,
                rotate: *rotate,
            },
            WireEvent::Spawn { entity_type, x_bits, y_bits, rot_bits } => WireEventRecord::Spawn {
                entity_type: *entity_type,
                x_bits: *x_bits,
                y_bits: *y_bits,
                rot_bits: *rot_bits,
            },
            WireEvent::ClearWorld => WireEventRecord::ClearWorld,
            WireEvent::StartSession => WireEventRecord::StartSession,
            WireEvent::RequestSystemManifest => WireEventRecord::RequestSystemManifest,
            WireEvent::GameEvent(e) => WireEventRecord::GameEvent(e@),
            WireEvent::ReplicationBatch(events) => WireEventRecord::ReplicationBatch(
                batch_view(events@),
            ),
        }
    }
}

impl WireEventRecord {
    /// The event a wire message stands for once the client it came from is
    /// known. The client id is not transmitted; it is supplied here.
    pub open spec fn to_network(self, client_id: ClientId) -> NetworkEventRecord {
        match self {
            WireEventRecord::Ping { tick } => NetworkEventRecord::Ping { client_id, tick },
            WireEventRecord::Pong { tick } => NetworkEventRecord::Pong { tick },
            WireEventRecord::Auth { session_token } => NetworkEventRecord::Auth { session_token },
            WireEventRecord::Fragment(fragment) => NetworkEventRecord::Fragment {
                client_id,
                fragment,
            },
            WireEventRecord::StressTest { count, rotate } => NetworkEventRecord::StressTest {
                client_id,
                count,
                rotate,
            },
            WireEventRecord::Spawn { entity_type, x_bits, y_bits, rot_bits } =>
                NetworkEventRecord::Spawn { client_id, entity_type, x_bits, y_bits, rot_bits },
            WireEventRecord::ClearWorld => NetworkEventRecord::ClearWorld { client_id },
            WireEventRecord::StartSession => NetworkEventRecord::StartSession { client_id },
            WireEventRecord::RequestSystemManifest => NetworkEventRecord::RequestSystemManifest {
                client_id,
            },
            WireEventRecord::GameEvent(event) => NetworkEventRecord::GameEvent { client_id, event },
            WireEventRecord::ReplicationBatch(events) => NetworkEventRecord::ReplicationBatch {
                client_id,
                events,
            },
        }
    }
}

impl WireEvent {
    /// Converts a `WireEvent` into a `NetworkEvent` for a specific client context.
    pub fn into_network_event(self, client_id: ClientId) -> (r: NetworkEvent)
        ensures
            r@ == self@.to_network(client_id),
    {
        match self {
            Self::Ping { tick } => NetworkEvent::Ping { client_id, tick },
            Self::Pong { tick } => NetworkEvent::Pong { tick },
            Self::Auth { session_token } => NetworkEvent::Auth { session_token },
            Self::Fragment(fragment) => NetworkEvent::Fragment { client_id, fragment },
            Self::StressTest { count, rotate } => NetworkEvent::StressTest {
                client_id,
                count,
                rotate,
            },
            Self::Spawn { entity_type, x_bits, y_bits, rot_bits } => NetworkEvent::Spawn {
                client_id,
                entity_type,
                x_bits,
                y_bits,
                rot_bits,
            },
            Self::ClearWorld => NetworkEvent::ClearWorld { client_id },
            Self::StartSession => NetworkEvent::StartSession { client_id },
            Self::RequestSystemManifest => NetworkEvent::RequestSystemManifest { client_id },
            Self::GameEvent(event) => NetworkEvent::GameEvent { client_id, event },
            Self::ReplicationBatch(events) => NetworkEvent::ReplicationBatch { client_id, events },
        }
    }
}

/// Law: an event received from the wire is always one that may be sent over
/// the wire.
pub proof fn law_received_events_are_wire_events(wire: WireEventRecord, client_id: ClientId)
    ensures
        wire.to_network(client_id).is_wire(),
{
}

/// Law: an event has a wire form exactly when it may be sent over the wire.
pub proof fn law_wire_form_exists_iff_wire(event: NetworkEventRecord)
    ensures
        event.to_wire() is Some <==> event.is_wire(),
{
}

/// Law: taking the wire form of a received event gives back the wire message.
pub proof fn law_wire_form_of_received_event(wire: WireEventRecord, client_id: ClientId)
    ensures
        wire.to_network(client_id).to_wire() == Some(wire),
{
}

/// Law: a wire event sent and received again is the event that was sent,
/// once the receiver supplies the sender's client id (for the variants that
/// name a client).
pub proof fn law_sent_event_is_received_unchanged(event: NetworkEventRecord, client_id: ClientId)
    requires
        event.is_wire(),
        event.client() is Some ==> event.client() == Some(client_id),
    ensures
        event.to_wire() matches Some(wire) && wire.to_network(client_id) == event,
{
}

/// Law: the wire form of an event carries the event's own fields unchanged
/// (its tick, token, fragment, stress-test and spawn parameters, game event
/// or replication batch); only the client it concerns is left out.
pub proof fn law_wire_form_keeps_the_fields(event: NetworkEventRecord)
    ensures
        match event {
            NetworkEventRecord::Ping { tick, .. } => event.to_wire() == Some(
                WireEventRecord::Ping { tick },
            ),
            NetworkEventRecord::Pong { tick } => event.to_wire() == Some(WireEventRecord::Pong { tick }),
            NetworkEventRecord::Auth { session_token } => event.to_wire() == Some(
                WireEventRecord::Auth { session_token },
            ),
            NetworkEventRecord::Fragment { fragment, .. } => event.to_wire() == Some(
                WireEventRecord::Fragment(fragment),
            ),
            NetworkEventRecord::StressTest { count, rotate, .. } => event.to_wire() == Some(
                WireEventRecord::StressTest { count, rotate },
            ),
            NetworkEventRecord::Spawn { entity_type, x_bits, y_bits, rot_bits, .. } =>
                event.to_wire() == Some(WireEventRecord::Spawn { entity_type, x_bits, y_bits, rot_bits }),
            NetworkEventRecord::ClearWorld { .. } => event.to_wire() == Some(WireEventRecord::ClearWorld),
            NetworkEventRecord::StartSession { .. } => event.to_wire() == Some(
                WireEventRecord::StartSession,
            ),
            NetworkEventRecord::RequestSystemManifest { .. } => event.to_wire() == Some(
                WireEventRecord::RequestSystemManifest,
            ),
            NetworkEventRecord::GameEvent { event: game_event, .. } => event.to_wire() == Some(
                WireEventRecord::GameEvent(game_event),
            ),
            NetworkEventRecord::ReplicationBatch { events, .. } => event.to_wire() == Some(
                WireEventRecord::ReplicationBatch(events),
            ),
            _ => event.to_wire() is None,
        },
{
}

/// Law: an event received from the wire carries the message's fields
/// unchanged (a game event is handed over as it came, a batch as it came),
/// with the receiving client filled in for the variants that name one.
pub proof fn law_received_event_keeps_the_fields(wire: WireEventRecord, client_id: ClientId)
    ensures
        match wire {
            WireEventRecord::Ping { tick } => wire.to_network(client_id) == NetworkEventRecord::Ping {
                client_id,
                tick,
            },
            WireEventRecord::Pong { tick } => wire.to_network(client_id) == NetworkEventRecord::Pong {
                tick,
            },
            WireEventRecord::Auth { session_token } => wire.to_network(client_id)
                == NetworkEventRecord::Auth { session_token },
            WireEventRecord::Fragment(fragment) => wire.to_network(client_id)
                == NetworkEventRecord::Fragment { client_id, fragment },
            WireEventRecord::StressTest { count, rotate } => wire.to_network(client_id)
                == NetworkEventRecord::StressTest { client_id, count, rotate },
            WireEventRecord::Spawn { entity_type, x_bits, y_bits, rot_bits } => wire.to_network(
                client_id,
            ) == NetworkEventRecord::Spawn { client_id, entity_type, x_bits, y_bits, rot_bits },
            WireEventRecord::ClearWorld => wire.to_network(client_id)
                == NetworkEventRecord::ClearWorld { client_id },
            WireEventRecord::StartSession => wire.to_network(client_id)
                == NetworkEventRecord::StartSession { client_id },
            WireEventRecord::RequestSystemManifest => wire.to_network(client_id)
                == NetworkEventRecord::RequestSystemManifest { client_id },
            WireEventRecord::GameEvent(event) => wire.to_network(client_id)
                == NetworkEventRecord::GameEvent { client_id, event },
            WireEventRecord::ReplicationBatch(events) => wire.to_network(client_id)
                == NetworkEventRecord::ReplicationBatch { client_id, events },
        },
{
}

} // verus!
