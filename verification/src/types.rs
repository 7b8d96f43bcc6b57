//! Protocol-level primitive types.

use vstd::prelude::*;
use vstd::string::StringExecFns;

use crate::text::{decimal, usize_decimal};

pub use crate::allocator::{AllocatorError, NetworkIdAllocator};

verus! {

/// Version of the wire protocol.
pub const PROTOCOL_VERSION: u32 = 3;

/// A globally unique entity identifier used in all network communication.
/// Assigned by the server. Immutable for the lifetime of the entity.
///
/// This is not the ECS's internal entity ID: the world adapter translates
/// between `NetworkId` and the ECS's local handle.
#[derive(Debug, Clone, Copy, PartialEq, Eq, PartialOrd, Ord, Hash, Structural)]
pub struct NetworkId(pub u64);

/// Minimum ID value for dynamically allocated entities (agents, beams, ...).
/// IDs below this value are reserved for static world infrastructure.
pub const MIN_DYNAMIC_NETWORK_ID: u64 = 100;

/// The ECS's internal entity handle. Opaque to the network layer.
#[derive(Debug, Clone, Copy, PartialEq, Eq, PartialOrd, Ord, Hash, Structural)]
pub struct LocalId(pub u64);

/// A unique identifier for a connected client session.
/// Assigned by the transport layer on connection, released on disconnect.
#[derive(Debug, Clone, Copy, PartialEq, Eq, PartialOrd, Ord, Hash, Structural)]
pub struct ClientId(pub u64);

/// A component type identifier. Used by the encoder to determine how to
/// serialize or deserialize a specific component's fields.
///
/// Reservation policy:
/// - `0-1023` (except 128): engine core (replicated).
/// - `1024-2047`: official engine extensions.
/// - `128`: reserved for input commands (transient, inbound only).
/// - `32768+`: reserved for non-replicated or inbound variants.
#[derive(Debug, Clone, Copy, PartialEq, Eq, PartialOrd, Ord, Hash, Structural)]
pub struct ComponentKind(pub u16);

/// The `ComponentKind` codes of the protocol.
///
/// Discriminant for client-to-server input commands.
pub const INPUT_COMMAND_KIND: u16 = 128;

/// Replicated component for workspace definition.
pub const WORKSPACE_DEFINITION_KIND: u16 = 129;

/// Replicated component for workspace bounds.
pub const WORKSPACE_BOUNDS_KIND: u16 = 130;

/// Replicated component for workspace membership.
pub const WORKSPACE_MEMBERSHIP_KIND: u16 = 131;

/// Replicated component for the extraction beam state.
pub const EXTRACTION_BEAM_KIND: u16 = 1024;

/// Replicated component for agent data store state (replicated to owner).
pub const DATA_STORE_KIND: u16 = 1025;

/// Replicated component for resource payload depletion tracking.
pub const RESOURCE_KIND: u16 = 1026;

/// Replicated component for primary tool state.
pub const TOOL_KIND: u16 = 1027;

/// Replicated component for priority pool state.
pub const PRIORITY_POOL_KIND: u16 = 1028;

/// Replicated component for integrity pool state.
pub const INTEGRITY_POOL_KIND: u16 = 1029;

/// Replicated component for data drop state.
pub const DATA_DROP_KIND: u16 = 1030;

/// Replicated component for beam marker state (an engine core component).
pub const BEAM_MARKER_KIND: u16 = 13;

/// Action bitflag: use primary tool.
pub const ACTION_USE_TOOL: u32 = 1 << 2;

/// Constant identifiers for entity types used in replication and rendering.
pub const ENTITY_TYPE_AGENT: u16 = 1;
pub const ENTITY_TYPE_AI_AGENT: u16 = 2;
pub const ENTITY_TYPE_HEAVY_AGENT: u16 = 3;
pub const ENTITY_TYPE_CARRIER_AGENT: u16 = 4;
pub const ENTITY_TYPE_RESOURCE: u16 = 5;
pub const ENTITY_TYPE_DATA_DROP: u16 = 6;
pub const ENTITY_TYPE_TRAINING_TARGET: u16 = 10;
pub const ENTITY_TYPE_BEAM: u16 = 20;

/// The default vitals `(max_integrity, max_priority)` of an entity type.
pub open spec fn default_properties_of(entity_type: u16) -> (u16, u16) {
    if entity_type == ENTITY_TYPE_AGENT || entity_type == ENTITY_TYPE_AI_AGENT {
        (200, 100)
    } else if entity_type == ENTITY_TYPE_HEAVY_AGENT {
        (1500, 500)
    } else if entity_type == ENTITY_TYPE_CARRIER_AGENT {
        (600, 200)
    } else if entity_type == ENTITY_TYPE_RESOURCE {
        (500, 0)
    } else if entity_type == ENTITY_TYPE_TRAINING_TARGET {
        (100, 50)
    } else if entity_type == ENTITY_TYPE_DATA_DROP || entity_type == ENTITY_TYPE_BEAM {
        (1, 0)
    } else {
        (100, 100)
    }
}

/// Returns the default authoritative vitals (`max_integrity`, `max_priority`) for a given entity type.
pub fn get_default_properties(entity_type: u16) -> (r: (u16, u16))
    ensures
        r == default_properties_of(entity_type),
{
    match entity_type {
        ENTITY_TYPE_AGENT | ENTITY_TYPE_AI_AGENT => (200, 100),
        ENTITY_TYPE_HEAVY_AGENT => (1500, 500),
        ENTITY_TYPE_CARRIER_AGENT => (600, 200),
        ENTITY_TYPE_RESOURCE => (500, 0),
        ENTITY_TYPE_TRAINING_TARGET => (100, 50),
        ENTITY_TYPE_DATA_DROP | ENTITY_TYPE_BEAM => (1, 0),
        _ => (100, 100),
    }
}


/// Unique identifier for a tool type.
#[derive(Debug, Clone, Copy, PartialEq, Eq, PartialOrd, Ord, Hash, Structural)]
pub struct ToolId(pub u8);

/// A globally unique zone identifier.
#[derive(Debug, Clone, Copy, PartialEq, Eq, PartialOrd, Ord, Hash, Structural)]
pub struct ZoneId(pub u64);

/// Agent classification for rendering and property selection.
#[derive(Debug, Clone, Copy, PartialEq, Eq, Structural)]
pub enum AgentKind {
    Standard,
    Heavy,
    Carrier,
}

/// Payload types extracted from resources.
#[derive(Debug, Clone, Copy, PartialEq, Eq, Structural)]
pub enum PayloadType {
    RawPayload,
}

/// Beam delivery classification.
#[derive(Debug, Clone, Copy, PartialEq, Eq, Structural)]
pub enum InteractionBeamType {
    PulseBeam,
    TrackingBeam,
}

/// NPC drone behavior state machine.
#[derive(Debug, Clone, Copy, PartialEq, Eq, Structural)]
pub enum AIState {
    Patrol,
    Aggro,
    Combat,
    Return,
}

/// Individual input actions performed by a player in a single tick.
///
/// Axis values travel as the IEEE-754 bit patterns of their `f32` values.
#[derive(Debug, Clone, Copy, PartialEq, Structural)]
pub enum PlayerInputKind {
    /// Directional thrust/movement.
    Move { x_bits: u32, y_bits: u32 },
    /// Toggle extraction beam on a specific target.
    ToggleExtraction { target: NetworkId },
    /// Fire primary tool.
    FireTool,
    /// Cursor movement for external compositors or UI integration
    /// (normalized positions in `[0, 1]`).
    CursorMove { x_bits: u32, y_bits: u32 },
}

/// Maximum allowed actions in a single `InputCommand` to prevent payload DoS.
pub const MAX_ACTIONS: usize = 128;

/// Bitmask of all currently supported action flags.
pub const ALLOWED_ACTIONS_MASK: u32 = ACTION_USE_TOOL;

/// Aggregated user input for a single simulation tick.
#[derive(Debug, Clone)]
pub struct InputCommand {
    /// The client-side tick this input was generated at.
    pub tick: u64,
    /// List of actions performed in this tick.
    pub actions: Vec<PlayerInputKind>,
    /// Bitmask of actions for high-frequency binary inputs.
    pub actions_mask: u32,
    /// The tick of the last server state the client saw before sending this input.
    pub last_seen_input_tick: Option<u64>,
}

impl InputCommand {
    /// Validates the command against protocol constraints.
    ///
    /// Returns an error message if the command exceeds `MAX_ACTIONS` or has
    /// unknown bits in `actions_mask`.
    pub fn validate(&self) -> (r: Result<(), &'static str>)
        ensures
            self.actions@.len() > MAX_ACTIONS ==> (r matches Err(m) && m@
                == "Too many actions in InputCommand"@),
            self.actions@.len() <= MAX_ACTIONS && (self.actions_mask & !ALLOWED_ACTIONS_MASK) != 0
                ==> (r matches Err(m) && m@ == "Unknown bits in actions_mask"@),
            self.actions@.len() <= MAX_ACTIONS && (self.actions_mask & !ALLOWED_ACTIONS_MASK) == 0
                ==> r is Ok,
    {
        if self.actions.len() > MAX_ACTIONS {
            return Err("Too many actions in InputCommand");
        }
        if (self.actions_mask & !ALLOWED_ACTIONS_MASK) != 0 {
            return Err("Unknown bits in actions_mask");
        }
        Ok(())
    }
}

/// Replicated state for an agent's data store.
#[derive(Debug, Clone, Copy, Default, PartialEq, Eq, Structural)]
pub struct DataStore {
    pub payload_count: u16,
    pub capacity: u16,
}

/// Replicated state for a resource's remaining payload.
#[derive(Debug, Clone, Copy, Default, PartialEq, Eq, Structural)]
pub struct Resource {
    pub payload_remaining: u16,
    pub total_capacity: u16,
}

/// Replicated state for an agent's primary tool.
#[derive(Debug, Clone, Copy, Default, PartialEq, Eq, Structural)]
pub struct Tool {
    pub cooldown_ticks: u16,
    pub last_fired_tick: u64,
}

/// Replicated state for an agent's priority pool.
#[derive(Debug, Clone, Copy, Default, PartialEq, Eq, Structural)]
pub struct PriorityPool {
    pub current: u16,
    pub max: u16,
}

/// Replicated state for an agent's integrity pool.
#[derive(Debug, Clone, Copy, Default, PartialEq, Eq, Structural)]
pub struct IntegrityPool {
    pub current: u16,
    pub max: u16,
}

/// Replicated state for a data drop entity.
#[derive(Debug, Clone, Copy, Default, PartialEq, Eq, Structural)]
pub struct DataDrop {
    pub amount: u16,
}

/// Basic properties for any agent entity.
///
/// Zero values in maxima (`max_integrity`, `max_priority`, `max_energy`)
/// represent an uninitialized or dead state. Logic that performs divisions or
/// percentage calculations must verify non-zero maxima.
#[derive(Debug, Clone, Copy, PartialEq, Eq, Structural)]
pub struct AgentProperties {
    pub integrity: u16,
    pub max_integrity: u16,
    pub priority: u16,
    pub max_priority: u16,
    pub energy: u16,
    pub max_energy: u16,
    pub priority_regen_per_s: u16,
    pub energy_regen_per_s: u16,
}

impl Default for AgentProperties {
    /// Returns a baseline valid state (100 integrity, priority and energy, no regeneration).
    fn default() -> (r: Self)
        ensures
            r == (AgentProperties {
                integrity: 100,
                max_integrity: 100,
                priority: 100,
                max_priority: 100,
                energy: 100,
                max_energy: 100,
                priority_regen_per_s: 0,
                energy_regen_per_s: 0,
            }),
    {
        AgentProperties {
            integrity: 100,
            max_integrity: 100,
            priority: 100,
            max_priority: 100,
            energy: 100,
            max_energy: 100,
            priority_regen_per_s: 0,
            energy_regen_per_s: 0,
        }
    }
}

/// Maximum byte length (UTF-8) for [`WorkspaceName`] and [`PermissionString`].
pub const MAX_WORKSPACE_STRING_BYTES: usize = 64;

/// The length in bytes of the UTF-8 encoding of `s`.
pub open spec fn utf8_len(s: Seq<char>) -> nat {
    vstd::utf8::encode_utf8(s).len()
}

/// Error returned when a [`WorkspaceName`] or [`PermissionString`] exceeds the
/// allowed byte length.
#[derive(Debug, Clone, PartialEq, Eq, Structural)]
pub struct WorkspaceStringError {
    /// Actual byte length of the rejected string.
    pub len: usize,
    /// Maximum allowed byte length ([`MAX_WORKSPACE_STRING_BYTES`]).
    pub max: usize,
}

impl WorkspaceStringError {
    /// The message that describes the error.
    pub fn to_string(&self) -> (r: String)
        ensures
            r@ == "string too long: "@ + decimal(self.len as nat) + " bytes exceeds the maximum of "@
                + decimal(self.max as nat) + " bytes"@,
    {
        let mut s = String::from_str("string too long: ");
        s.append(usize_decimal(self.len).as_str());
        s.append(" bytes exceeds the maximum of ");
        s.append(usize_decimal(self.max).as_str());
        s.append(" bytes");
        s
    }
}

/// The outcome of checking a workspace string: refused with its length when
/// its UTF-8 encoding is longer than [`MAX_WORKSPACE_STRING_BYTES`].
pub open spec fn workspace_string_check(s: Seq<char>) -> Result<(), WorkspaceStringError> {
    if utf8_len(s) > MAX_WORKSPACE_STRING_BYTES {
        Err(WorkspaceStringError { len: utf8_len(s) as usize, max: MAX_WORKSPACE_STRING_BYTES })
    } else {
        Ok(())
    }
}

fn validate_workspace_string(s: &str) -> (r: Result<(), WorkspaceStringError>)
    ensures
        r == workspace_string_check(s@),
{
    // The byte length of the string (`str::len`), read through its bytes.
    let len = s.as_bytes().len();
    if len > MAX_WORKSPACE_STRING_BYTES {
        return Err(WorkspaceStringError { len, max: MAX_WORKSPACE_STRING_BYTES });
    }
    Ok(())
}

/// A validated workspace name.
///
/// Guaranteed not to exceed [`MAX_WORKSPACE_STRING_BYTES`] bytes (UTF-8).
#[derive(Debug, PartialEq, Eq, PartialOrd, Ord, Hash)]
pub struct WorkspaceName(String);

impl Clone for WorkspaceName {
    fn clone(&self) -> (r: Self)
        ensures
            r == *self,
    {
        proof {
            use_type_invariant(self);
        }
        WorkspaceName(self.0.clone())
    }
}

impl View for WorkspaceName {
    type V = Seq<char>;

    closed spec fn view(&self) -> Seq<char> {
        self.0@
    }
}

/// The outcome of making a workspace name (or permission token) of `s`.
pub open spec fn workspace_name_of(s: String) -> Result<WorkspaceName, WorkspaceStringError> {
    match workspace_string_check(s@) {
        Ok(()) => Ok(WorkspaceName::from_checked(s)),
        Err(e) => Err(e),
    }
}

impl WorkspaceName {
    #[verifier::type_invariant]
    spec fn fits(&self) -> bool {
        utf8_len(self.0@) <= MAX_WORKSPACE_STRING_BYTES
    }

    /// The name that holds `s`, for a string that fits.
    pub closed spec fn from_checked(s: String) -> WorkspaceName {
        WorkspaceName(s)
    }

    /// The name holds the text it was made of.
    pub broadcast proof fn lemma_from_checked_view(s: String)
        ensures
            #[trigger] WorkspaceName::from_checked(s)@ == s@,
    {
    }

    /// Creates a `WorkspaceName`, returning [`WorkspaceStringError`] if `s`
    /// exceeds [`MAX_WORKSPACE_STRING_BYTES`] bytes.
    pub fn new(s: String) -> (r: Result<Self, WorkspaceStringError>)
        ensures
            r == workspace_name_of(s),
    {
        match validate_workspace_string(s.as_str()) {
            Ok(()) => Ok(Self(s)),
            Err(e) => Err(e),
        }
    }

    /// Returns the name as a string slice.
    pub fn as_str(&self) -> (r: &str)
        ensures
            r@ == self@,
            utf8_len(r@) <= MAX_WORKSPACE_STRING_BYTES,
    {
        proof {
            use_type_invariant(self);
        }
        self.0.as_str()
    }
}


impl WorkspaceName {
    /// The text the name holds.
    pub closed spec fn text(self) -> String {
        self.0
    }
}

impl TryFrom<String> for WorkspaceName {
    type Error = WorkspaceStringError;

    fn try_from(s: String) -> (r: Result<Self, Self::Error>)
        ensures
            r == workspace_name_of(s),
    {
        Self::new(s)
    }
}

impl vstd::std_specs::convert::TryFromSpecImpl<String> for WorkspaceName {
    open spec fn obeys_try_from_spec() -> bool {
        true
    }

    open spec fn try_from_spec(s: String) -> Result<Self, Self::Error> {
        workspace_name_of(s)
    }
}

impl From<WorkspaceName> for String {
    fn from(n: WorkspaceName) -> (r: String)
        ensures
            r == n.text(),
    {
        n.0
    }
}

impl vstd::std_specs::convert::FromSpecImpl<WorkspaceName> for String {
    open spec fn obeys_from_spec() -> bool {
        true
    }

    open spec fn from_spec(n: WorkspaceName) -> String {
        n.text()
    }
}

/// A validated access-control permission token.
///
/// Guaranteed not to exceed [`MAX_WORKSPACE_STRING_BYTES`] bytes (UTF-8).
#[derive(Debug, PartialEq, Eq, PartialOrd, Ord, Hash)]
pub struct PermissionString(String);

impl View for PermissionString {
    type V = Seq<char>;

    closed spec fn view(&self) -> Seq<char> {
        self.0@
    }
}

impl Clone for PermissionString {
    fn clone(&self) -> (r: Self)
        ensures
            r == *self,
    {
        proof {
            use_type_invariant(self);
        }
        PermissionString(self.0.clone())
    }
}

/// The outcome of making a permission token of `s`.
pub open spec fn permission_string_of(s: String) -> Result<PermissionString, WorkspaceStringError> {
    match workspace_string_check(s@) {
        Ok(()) => Ok(PermissionString::from_checked(s)),
        Err(e) => Err(e),
    }
}

impl PermissionString {
    #[verifier::type_invariant]
    spec fn fits(&self) -> bool {
        utf8_len(self.0@) <= MAX_WORKSPACE_STRING_BYTES
    }

    /// The token that holds `s`, for a string that fits.
    pub closed spec fn from_checked(s: String) -> PermissionString {
        PermissionString(s)
    }

    /// The text the token holds.
    pub closed spec fn text(self) -> String {
        self.0
    }

    /// The token holds the text it was made of.
    pub broadcast proof fn lemma_from_checked_view(s: String)
        ensures
            #[trigger] PermissionString::from_checked(s)@ == s@,
    {
    }

    /// Creates a `PermissionString`, returning [`WorkspaceStringError`] if `s`
    /// exceeds [`MAX_WORKSPACE_STRING_BYTES`] bytes.
    pub fn new(s: String) -> (r: Result<Self, WorkspaceStringError>)
        ensures
            r == permission_string_of(s),
    {
        match validate_workspace_string(s.as_str()) {
            Ok(()) => Ok(Self(s)),
            Err(e) => Err(e),
        }
    }

    /// Returns the permission token as a string slice.
    pub fn as_str(&self) -> (r: &str)
        ensures
            r@ == self@,
            utf8_len(r@) <= MAX_WORKSPACE_STRING_BYTES,
    {
        proof {
            use_type_invariant(self);
        }
        self.0.as_str()
    }
}

impl TryFrom<String> for PermissionString {
    type Error = WorkspaceStringError;

    fn try_from(s: String) -> (r: Result<Self, Self::Error>)
        ensures
            r == permission_string_of(s),
    {
        Self::new(s)
    }
}

impl vstd::std_specs::convert::TryFromSpecImpl<String> for PermissionString {
    open spec fn obeys_try_from_spec() -> bool {
        true
    }

    open spec fn try_from_spec(s: String) -> Result<Self, Self::Error> {
        permission_string_of(s)
    }
}

impl From<PermissionString> for String {
    fn from(p: PermissionString) -> (r: String)
        ensures
            r == p.text(),
    {
        p.0
    }
}

impl vstd::std_specs::convert::FromSpecImpl<PermissionString> for String {
    open spec fn obeys_from_spec() -> bool {
        true
    }

    open spec fn from_spec(p: PermissionString) -> String {
        p.text()
    }
}

/// Access control policy for the workspace.
#[derive(Debug, Clone, PartialEq, Eq)]
pub enum WorkspaceAccessPolicy {
    /// Anyone can enter.
    Open,
    /// Only clients holding the specified [`PermissionString`] token can enter.
    Permission(PermissionString),
    /// Only explicitly invited clients can enter.
    InviteOnly,
    /// Locked: no one can enter.
    Locked,
}

/// Defines a spatial region as a workspace.
#[derive(Debug, Clone)]
pub struct WorkspaceDefinition {
    /// Human-readable workspace identifier.
    pub name: WorkspaceName,
    pub capacity: u32,
    pub access: WorkspaceAccessPolicy,
    pub is_template: bool,
}

/// Defines which workspace an entity currently belongs to.
#[derive(Debug, Clone, Copy, PartialEq, Eq, Hash, Structural)]
pub struct WorkspaceMembership(pub NetworkId);

/// Law: a workspace name and a permission token are made of a string
/// exactly when its UTF-8 encoding is at most `MAX_WORKSPACE_STRING_BYTES`
/// bytes long; the value made holds the string's text, and a string that is
/// too long is refused with its byte length and the maximum.
pub proof fn law_workspace_strings_accept_exactly_the_short_ones(s: String)
    ensures
        workspace_name_of(s) is Ok <==> utf8_len(s@) <= MAX_WORKSPACE_STRING_BYTES,
        permission_string_of(s) is Ok <==> utf8_len(s@) <= MAX_WORKSPACE_STRING_BYTES,
        workspace_name_of(s) matches Ok(name) ==> name@ == s@,
        permission_string_of(s) matches Ok(token) ==> token@ == s@,
        workspace_name_of(s) matches Err(e) ==> e.len == utf8_len(s@) as usize && e.max
            == MAX_WORKSPACE_STRING_BYTES,
        permission_string_of(s) matches Err(e) ==> e.len == utf8_len(s@) as usize && e.max
            == MAX_WORKSPACE_STRING_BYTES,
        workspace_string_check(s@) is Ok <==> utf8_len(s@) <= MAX_WORKSPACE_STRING_BYTES,
        workspace_string_check(s@) matches Err(e) ==> e.len == utf8_len(s@) as usize && e.max
            == MAX_WORKSPACE_STRING_BYTES,
{
    WorkspaceName::lemma_from_checked_view(s);
    PermissionString::lemma_from_checked_view(s);
}

} // verus!
