use vstd::prelude::*;

use crate::error::ErrorKind;

verus! {

/// The kind of entity a management request reads.
#[derive(Debug, Clone, Copy, PartialEq, Eq, Structural)]
pub enum ManagementEntity {
    /// The event hub itself.
    EventHub,
    /// One partition of the event hub.
    Partition,
}

impl ManagementEntity {
    /// The `type` application property of the request.
    pub fn entity_type(&self) -> (r: &'static str)
        ensures
            *self == ManagementEntity::EventHub ==> r@ == "com.microsoft:eventhub"@,
            *self == ManagementEntity::Partition ==> r@ == "com.microsoft:partition"@,
    {
        proof {
            reveal_strlit("com.microsoft:eventhub");
            reveal_strlit("com.microsoft:partition");
        }
        match self {
            ManagementEntity::EventHub => "com.microsoft:eventhub",
            ManagementEntity::Partition => "com.microsoft:partition",
        }
    }
}

/// The operation of every management request: a read.
pub const READ_OPERATION: &'static str = "READ";

/// A read request to the management node; it carries the current access token.
#[derive(Debug, Clone, PartialEq, Eq)]
pub struct ManagementRequest {
    pub entity: ManagementEntity,
    pub event_hub_name: String,
    pub partition_id: Option<String>,
    pub security_token: String,
}

impl ManagementRequest {
    /// Reads the properties of the event hub.
    pub fn event_hub_properties(event_hub_name: String, security_token: String) -> (r: ManagementRequest)
        ensures
            r.entity == ManagementEntity::EventHub,
            r.event_hub_name == event_hub_name,
            r.partition_id is None,
            r.security_token == security_token,
    {
        ManagementRequest { entity: ManagementEntity::EventHub, event_hub_name, partition_id: None, security_token }
    }

    /// Reads the properties of one partition.
    pub fn partition_properties(event_hub_name: String, partition_id: String, security_token: String) -> (r:
        ManagementRequest)
        ensures
            r.entity == ManagementEntity::Partition,
            r.event_hub_name == event_hub_name,
            r.partition_id == Some(partition_id),
            r.security_token == security_token,
    {
        ManagementRequest {
            entity: ManagementEntity::Partition,
            event_hub_name,
            partition_id: Some(partition_id),
            security_token,
        }
    }
}

/// What the management node reports of an event hub.
#[derive(Debug, Clone, PartialEq, Eq)]
pub struct EventHubProperties {
    pub name: String,
    /// Creation instant, in milliseconds since the Unix epoch.
    pub created_at_ms: i64,
    /// Partition ids in the order the service reports them.
    pub partition_ids: Vec<String>,
}

impl EventHubProperties {
    /// The partition ids, in the order the service reported them.
    pub fn into_partition_ids(self) -> (r: Vec<String>)
        ensures
            r == self.partition_ids,
    {
        self.partition_ids
    }
}

/// What the management node reports of a partition.
#[derive(Debug, Clone, PartialEq, Eq)]
pub struct PartitionProperties {
    pub event_hub_name: String,
    pub partition_id: String,
    pub beginning_sequence_number: i64,
    pub last_enqueued_sequence_number: i64,
    pub last_enqueued_offset: i64,
    /// Instant of the last enqueue, in milliseconds since the Unix epoch.
    pub last_enqueued_time_ms: i64,
    pub is_empty: bool,
}

/// State of the management link: connected, or being rebuilt after a failure.
#[derive(Debug, Clone, Copy, PartialEq, Eq, Structural)]
pub enum ManagementLinkState {
    Connected,
    Recovering,
}

impl ManagementLinkState {
    /// A request may go out only on a connected link; while it is being
    /// rebuilt the call fails with a session-level error, which asks for recovery.
    pub fn check_call(&self) -> (r: Result<(), ErrorKind>)
        ensures
            *self == ManagementLinkState::Connected ==> r is Ok,
            *self == ManagementLinkState::Recovering ==> r == Err::<(), ErrorKind>(
                ErrorKind::SessionEnded,
            ),
    {
        match self {
            ManagementLinkState::Connected => Ok(()),
            ManagementLinkState::Recovering => Err(ErrorKind::SessionEnded),
        }
    }
}

} // verus!
