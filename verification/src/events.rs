//! Structured events of the UI: priorities, categories, payloads and connection status.
use vstd::prelude::*;
use crate::text::copy_str;

verus! {

/// Event priority levels for routing decisions.
#[derive(Debug, Clone, Copy, PartialEq, Eq, Structural, PartialOrd, Ord)]
pub enum EventPriority {
    Low,
    Normal,
    High,
    Critical,
}

impl EventPriority {
    /// Short label of the priority.
    pub fn label(&self) -> (r: &'static str)
        ensures
            r@ == match *self {
                EventPriority::Low => "LOW"@,
                EventPriority::Normal => "NORM"@,
                EventPriority::High => "HIGH"@,
                EventPriority::Critical => "CRIT"@,
            },
    {
        match self {
            EventPriority::Low => "LOW",
            EventPriority::Normal => "NORM",
            EventPriority::High => "HIGH",
            EventPriority::Critical => "CRIT",
        }
    }
}

/// Event category for routing.
#[derive(Debug, Clone, Copy, PartialEq, Eq, Structural)]
pub enum EventCategory {
    Connection,
    Snapshot,
    UserAction,
    Alert,
    Order,
}

impl EventCategory {
    /// Short label of the category.
    pub fn label(&self) -> (r: &'static str)
        ensures
            r@ == match *self {
                EventCategory::Connection => "conn"@,
                EventCategory::Snapshot => "snap"@,
                EventCategory::UserAction => "user"@,
                EventCategory::Alert => "alert"@,
                EventCategory::Order => "order"@,
            },
    {
        match self {
            EventCategory::Connection => "conn",
            EventCategory::Snapshot => "snap",
            EventCategory::UserAction => "user",
            EventCategory::Alert => "alert",
            EventCategory::Order => "order",
        }
    }
}

/// What a connection status refers to.
#[derive(Debug, Clone, Copy, PartialEq, Eq, Structural)]
pub enum ConnectionTarget {
    Nats,
}

impl ConnectionTarget {
    /// Short label of the target.
    pub fn label(&self) -> (r: &'static str)
        ensures
            r@ == "NATS"@,
    {
        match self {
            ConnectionTarget::Nats => "NATS",
        }
    }
}

/// State of a connection.
#[derive(Debug, Clone, Copy, PartialEq, Eq, Structural)]
pub enum ConnectionState {
    Starting,
    Connected,
    Retrying,
}

/// Badge text of a connection state.
pub open spec fn spec_connection_state_label(s: ConnectionState) -> Seq<char> {
    match s {
        ConnectionState::Starting => "START"@,
        ConnectionState::Connected => "UP"@,
        ConnectionState::Retrying => "DOWN"@,
    }
}

impl ConnectionState {
    /// Badge text of the state.
    pub fn label(&self) -> (r: &'static str)
        ensures
            r@ == spec_connection_state_label(*self),
    {
        match self {
            ConnectionState::Starting => "START",
            ConnectionState::Connected => "UP",
            ConnectionState::Retrying => "DOWN",
        }
    }
}

/// A connection state with a human-readable detail.
#[derive(Debug, Clone)]
pub struct ConnectionStatus {
    pub state: ConnectionState,
    pub detail: String,
}

impl ConnectionStatus {
    /// A status with the given state and detail text.
    pub fn new(state: ConnectionState, detail: &str) -> (r: Self)
        ensures
            r.state == state,
            r.detail@ == detail@,
    {
        ConnectionStatus { state, detail: copy_str(detail) }
    }
}

/// Source of a snapshot.
#[derive(Debug, Clone, Copy, PartialEq, Eq, Structural)]
pub enum SnapshotSource {
    Nats,
}

impl SnapshotSource {
    /// Short label of the source.
    pub fn label(&self) -> (r: &'static str)
        ensures
            r@ == "NATS"@,
    {
        match self {
            SnapshotSource::Nats => "NATS",
        }
    }
}

/// Event payloads by category.
#[derive(Debug, Clone)]
pub enum EventPayload {
    ConnectionChanged(ConnectionStatus),
    SnapshotReceived { source: SnapshotSource, age_secs: i64 },
    KeyPressed { key: String, tab: String },
    TabChanged(String),
    AlertReceived { level: String, message: String },
    OrderUpdated { order_id: String, status: String },
}

/// Base event envelope with metadata; `timestamp_ms` is milliseconds since the Unix epoch.
#[derive(Debug, Clone)]
pub struct Event {
    pub id: String,
    pub priority: EventPriority,
    pub category: EventCategory,
    pub timestamp_ms: i64,
    pub payload: EventPayload,
}

/// `uuid::Uuid::new_v4()` rendered with `to_string()`: a random version-4 UUID in
/// lowercase hyphenated form, 36 characters with hyphens at positions 8, 13, 18 and 23.
/// Which random value comes back is not stated.
#[verifier::external_body]
fn new_uuid_v4_string() -> (r: String)
    ensures
        r@.len() == 36,
        r@[8] == '-' && r@[13] == '-' && r@[18] == '-' && r@[23] == '-',
{
    uuid::Uuid::new_v4().to_string()
}

/// `chrono::Utc::now().timestamp_millis()`: the current wall-clock time in milliseconds
/// since the Unix epoch. Nothing is stated of the value, which depends on the clock.
#[verifier::external_body]
fn utc_now_millis() -> (r: i64) {
    chrono::Utc::now().timestamp_millis()
}

impl Event {
    /// A new event with a fresh random id and the current time.
    pub fn new(priority: EventPriority, category: EventCategory, payload: EventPayload) -> (r: Self)
        ensures
            r.priority == priority,
            r.category == category,
            r.payload == payload,
            r.id@.len() == 36,
    {
        let id = new_uuid_v4_string();
        let timestamp_ms = utc_now_millis();
        Event { id, priority, category, timestamp_ms, payload }
    }
}

} // verus!
