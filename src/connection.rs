use vstd::prelude::*;
use vstd::string::*;

use crate::error::ConnectionError;
use crate::retry::RetryOptions;

verus! {

/// Default time a connection may stay idle, in milliseconds.
pub const DEFAULT_IDLE_TIMEOUT_MS: u64 = 60_000;

/// The protocol and transport used to reach the service.
#[derive(Debug, Clone, Copy, PartialEq, Eq, Hash, Structural)]
pub enum TransportType {
    /// AMQP over TCP and TLS, port 5671.
    AmqpTcp,
    /// AMQP tunneled through WebSockets, port 443.
    AmqpWebSockets,
}

impl TransportType {
    /// The URL scheme of the transport.
    pub fn url_scheme(&self) -> (r: &'static str)
        ensures
            *self == TransportType::AmqpTcp ==> r@ == "amqps"@,
            *self == TransportType::AmqpWebSockets ==> r@ == "wss"@,
    {
        proof {
            reveal_strlit("amqps");
            reveal_strlit("wss");
        }
        match self {
            TransportType::AmqpTcp => "amqps",
            TransportType::AmqpWebSockets => "wss",
        }
    }
}

impl Default for TransportType {
    fn default() -> (r: TransportType)
        ensures
            r == TransportType::AmqpTcp,
    {
        TransportType::AmqpTcp
    }
}

/// The options of a connection.
#[derive(Debug, Clone, PartialEq, Eq, Hash)]
pub struct ConnectionOptions {
    /// Time a connection may go without traffic before it counts as idle, in milliseconds.
    pub connection_idle_timeout_ms: u64,
    /// The protocol and transport used to reach the service.
    pub transport_type: TransportType,
    /// A custom address to connect to instead of the namespace's own.
    pub custom_endpoint_address: Option<String>,
}

impl ConnectionOptions {
    /// Options with a one-minute idle timeout, AMQP over TCP and no custom endpoint.
    pub fn new() -> (r: ConnectionOptions)
        ensures
            r.connection_idle_timeout_ms == DEFAULT_IDLE_TIMEOUT_MS,
            r.transport_type == TransportType::AmqpTcp,
            r.custom_endpoint_address is None,
    {
        ConnectionOptions {
            connection_idle_timeout_ms: DEFAULT_IDLE_TIMEOUT_MS,
            transport_type: TransportType::AmqpTcp,
            custom_endpoint_address: None,
        }
    }
}

impl Default for ConnectionOptions {
    fn default() -> (r: ConnectionOptions)
        ensures
            r.connection_idle_timeout_ms == DEFAULT_IDLE_TIMEOUT_MS,
            r.transport_type == TransportType::AmqpTcp,
            r.custom_endpoint_address is None,
    {
        ConnectionOptions::new()
    }
}

impl Default for RetryOptions {
    fn default() -> (r: RetryOptions)
        ensures
            r == RetryOptions::new_spec(),
    {
        RetryOptions::new()
    }
}

/// The options of a consumer client.
#[derive(Debug, Clone, PartialEq, Eq)]
pub struct ConsumerClientOptions {
    pub connection_options: ConnectionOptions,
    pub retry_options: RetryOptions,
    /// The identifier of the consumer; one is generated when absent.
    pub identifier: Option<String>,
}

impl Default for ConsumerClientOptions {
    fn default() -> (r: ConsumerClientOptions)
        ensures
            r.connection_options.connection_idle_timeout_ms == DEFAULT_IDLE_TIMEOUT_MS,
            r.connection_options.transport_type == TransportType::AmqpTcp,
            r.connection_options.custom_endpoint_address is None,
            r.retry_options == RetryOptions::new_spec(),
            r.identifier is None,
    {
        ConsumerClientOptions {
            connection_options: ConnectionOptions::new(),
            retry_options: RetryOptions::new(),
            identifier: None,
        }
    }
}

/// The URL scheme of a transport.
pub open spec fn scheme_spec(t: TransportType) -> Seq<char> {
    if t == TransportType::AmqpTcp {
        "amqps"@
    } else {
        "wss"@
    }
}

/// `"{scheme}://{host}"`.
pub open spec fn service_endpoint_spec(scheme: Seq<char>, host: Seq<char>) -> Seq<char> {
    scheme + "://"@ + host
}

/// The service endpoint of a namespace for the chosen transport.
pub fn service_endpoint(transport_type: TransportType, host: &str) -> (r: String)
    ensures
        r@ == service_endpoint_spec(scheme_spec(transport_type), host@),
{
    proof {
        reveal_strlit("://");
    }
    let mut s = String::new();
    s.append(transport_type.url_scheme());
    s.append("://");
    s.append(host);
    s
}

/// `"{event_hub}"` or `"{event_hub}/Partitions/{partition_id}"`.
pub open spec fn producer_endpoint_spec(event_hub: Seq<char>, partition_id: Option<Seq<char>>) -> Seq<
    char,
> {
    match partition_id {
        Some(p) => event_hub + "/Partitions/"@ + p,
        None => event_hub,
    }
}

/// The target address of a sender: the event hub, or one of its partitions.
pub fn producer_endpoint(event_hub: &str, partition_id: Option<&str>) -> (r: String)
    ensures
        r@ == producer_endpoint_spec(
            event_hub@,
            match partition_id {
                Some(p) => Some(p@),
                None => None,
            },
        ),
{
    proof {
        reveal_strlit("/Partitions/");
    }
    let mut s = String::new();
    s.append(event_hub);
    match partition_id {
        Some(p) => {
            s.append("/Partitions/");
            s.append(p);
        },
        None => {},
    }
    s
}

/// `"{event_hub}/ConsumerGroups/{group}/Partitions/{partition_id}"`.
pub open spec fn consumer_endpoint_spec(
    event_hub: Seq<char>,
    consumer_group: Seq<char>,
    partition_id: Seq<char>,
) -> Seq<char> {
    event_hub + "/ConsumerGroups/"@ + consumer_group + "/Partitions/"@ + partition_id
}

/// The source address of a receiver.
pub fn consumer_endpoint(event_hub: &str, consumer_group: &str, partition_id: &str) -> (r: String)
    ensures
        r@ == consumer_endpoint_spec(event_hub@, consumer_group@, partition_id@),
{
    proof {
        reveal_strlit("/ConsumerGroups/");
        reveal_strlit("/Partitions/");
    }
    let mut s = String::new();
    s.append(event_hub);
    s.append("/ConsumerGroups/");
    s.append(consumer_group);
    s.append("/Partitions/");
    s.append(partition_id);
    s
}

/// The event hub a connection is for: the name given by the caller unless it
/// is absent or empty, else the one of the connection string.
pub fn resolve_event_hub_name(requested: Option<String>, from_connection_string: Option<String>) -> (r:
    Result<String, ConnectionError>)
    ensures
        (requested matches Some(s) && s@.len() > 0) ==> r == Ok::<String, ConnectionError>(
            requested.unwrap(),
        ),
        !(requested matches Some(s) && s@.len() > 0) ==> match from_connection_string {
            Some(s) => r == Ok::<String, ConnectionError>(s),
            None => r == Err::<String, ConnectionError>(ConnectionError::EventHubNameIsNotSpecified),
        },
{
    match requested {
        Some(s) => {
            if s.as_str().is_empty() {
                match from_connection_string {
                    Some(c) => Ok(c),
                    None => Err(ConnectionError::EventHubNameIsNotSpecified),
                }
            } else {
                Ok(s)
            }
        },
        None => match from_connection_string {
            Some(c) => Ok(c),
            None => Err(ConnectionError::EventHubNameIsNotSpecified),
        },
    }
}

/// Why a part of a shared-access credential was refused.
#[derive(Debug, Clone, Copy, PartialEq, Eq, Structural)]
pub enum CredentialPartError {
    /// The part is missing.
    Missing,
    /// The part is present but empty.
    Empty,
}

/// A part of a shared-access credential (key name or key) that must be present
/// and non-empty.
pub fn require_credential_part(part: Option<&str>) -> (r: Result<&str, CredentialPartError>)
    ensures
        match part {
            None => r == Err::<&str, CredentialPartError>(CredentialPartError::Missing),
            Some(s) => if s@.len() == 0 {
                r == Err::<&str, CredentialPartError>(CredentialPartError::Empty)
            } else {
                r == Ok::<&str, CredentialPartError>(s)
            },
        },
{
    match part {
        None => Err(CredentialPartError::Missing),
        Some(s) => {
            if s.is_empty() {
                Err(CredentialPartError::Empty)
            } else {
                Ok(s)
            }
        },
    }
}

/// The kind of token presented to the CBS node.
#[derive(Debug, Clone, Copy, PartialEq, Eq, Structural)]
pub enum TokenType {
    /// A token minted from an Event Hubs shared access signature.
    SharedAccessToken,
    /// Any other token, such as a bearer token of an identity provider.
    JsonWebToken,
}

impl TokenType {
    /// The token type of a credential.
    pub fn for_credential(is_shared_access_credential: bool) -> (r: TokenType)
        ensures
            is_shared_access_credential ==> r == TokenType::SharedAccessToken,
            !is_shared_access_credential ==> r == TokenType::JsonWebToken,
    {
        if is_shared_access_credential {
            TokenType::SharedAccessToken
        } else {
            TokenType::JsonWebToken
        }
    }

    /// The `type` of a put-token request carrying this token.
    pub fn entity_type(&self) -> (r: &'static str)
        ensures
            *self == TokenType::SharedAccessToken ==> r@ == "servicebus.windows.net:sastoken"@,
            *self == TokenType::JsonWebToken ==> r@ == "jwt"@,
    {
        proof {
            reveal_strlit("servicebus.windows.net:sastoken");
            reveal_strlit("jwt");
        }
        match self {
            TokenType::SharedAccessToken => "servicebus.windows.net:sastoken",
            TokenType::JsonWebToken => "jwt",
        }
    }
}

/// The scope asked of a generic token credential.
pub const DEFAULT_SCOPE: &'static str = "https://eventhubs.azure.net/.default";

/// Where a sender is reattached after a failure.
#[derive(Debug, Clone, Copy, PartialEq, Eq, Structural)]
pub enum ReattachSession {
    /// The old session has ended: begin a new one and resume the link on it.
    NewSession,
    /// Resume the link on its current session.
    CurrentSession,
}

/// Where a sender is reattached, given whether its session has ended.
pub fn reattach_session(session_ended: bool) -> (r: ReattachSession)
    ensures
        session_ended ==> r == ReattachSession::NewSession,
        !session_ended ==> r == ReattachSession::CurrentSession,
{
    if session_ended {
        ReattachSession::NewSession
    } else {
        ReattachSession::CurrentSession
    }
}

} // verus!
