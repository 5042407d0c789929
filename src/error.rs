use vstd::prelude::*;

verus! {

/// Coarse error taxonomy of the client.
#[derive(Debug, Clone, Copy, PartialEq, Eq, Structural)]
pub enum ErrorCategory {
    /// TCP/TLS/WebSocket failure, idle timeout, connection-level AMQP close.
    Transport,
    /// CBS put-token rejected, credential failure, token expired without refresh.
    Auth,
    /// Detach with a terminal condition (not-found, unauthorized-access, stolen).
    Link,
    /// Malformed frame or unexpected state.
    Protocol,
    /// The per-try timeout elapsed.
    Timeout,
    /// Invalid input reported to the caller.
    Validation,
    /// Operation on a disposed scope or a closed link.
    Closed,
    /// AMQP serialization or deserialization failure.
    Codec,
}

/// The concrete failure conditions the client distinguishes.
#[derive(Debug, Clone, Copy, PartialEq, Eq, Structural)]
pub enum ErrorKind {
    /// The AMQP session carrying the link has ended.
    SessionEnded,
    /// The link was detached by the peer.
    LinkDetached { closed: bool, has_retry_after: bool },
    /// The connection was closed after being idle for too long.
    IdleTimeout,
    /// An I/O error on the underlying transport.
    Io,
    /// The CBS put-token request was rejected; a fresh token may succeed.
    TokenRejected,
    /// Authorization was denied (for example a wrong key).
    AuthorizationDenied,
    /// The entity refused access and re-authorization cannot help.
    Unauthorized,
    /// The link's source or target does not exist.
    LinkNotFound,
    /// The link was taken over by a receiver with a higher owner level.
    LinkStolen,
    /// A quota of the namespace is permanently exceeded.
    QuotaExceeded,
    /// A malformed frame or an unexpected protocol state.
    Protocol,
    /// The per-try timeout elapsed.
    TryTimeout,
    /// The message is larger than the link allows.
    MessageTooLarge,
    /// The message id is empty.
    MessageIdEmpty,
    /// The message id is longer than allowed.
    MessageIdTooLong,
    /// The event batch cannot take another event.
    BatchFull,
    /// Both a partition id and a partition key were given.
    PartitionIdAndKey,
    /// The connection scope has been disposed.
    ScopeDisposed,
    /// The link has been closed.
    LinkClosed,
    /// An AMQP encoding or decoding failure.
    Codec,
}

/// Category of each error kind.
pub open spec fn category_of(k: ErrorKind) -> ErrorCategory {
    match k {
        ErrorKind::SessionEnded | ErrorKind::LinkDetached { .. } | ErrorKind::IdleTimeout
        | ErrorKind::Io => ErrorCategory::Transport,
        ErrorKind::TokenRejected | ErrorKind::AuthorizationDenied | ErrorKind::Unauthorized => {
            ErrorCategory::Auth
        },
        ErrorKind::LinkNotFound | ErrorKind::LinkStolen | ErrorKind::QuotaExceeded => {
            ErrorCategory::Link
        },
        ErrorKind::Protocol => ErrorCategory::Protocol,
        ErrorKind::TryTimeout => ErrorCategory::Timeout,
        ErrorKind::MessageTooLarge | ErrorKind::MessageIdEmpty | ErrorKind::MessageIdTooLong
        | ErrorKind::BatchFull | ErrorKind::PartitionIdAndKey => ErrorCategory::Validation,
        ErrorKind::ScopeDisposed | ErrorKind::LinkClosed => ErrorCategory::Closed,
        ErrorKind::Codec => ErrorCategory::Codec,
    }
}

/// Errors after which no retry can help.
pub open spec fn is_terminal_spec(k: ErrorKind) -> bool {
    match k {
        ErrorKind::AuthorizationDenied | ErrorKind::Unauthorized | ErrorKind::LinkNotFound
        | ErrorKind::QuotaExceeded => true,
        _ => match category_of(k) {
            ErrorCategory::Protocol | ErrorCategory::Validation | ErrorCategory::Closed
            | ErrorCategory::Codec => true,
            _ => false,
        },
    }
}

/// Connection-level errors, after which the transport is recovered before the next try.
pub open spec fn should_try_recover_spec(k: ErrorKind) -> bool {
    match k {
        ErrorKind::SessionEnded | ErrorKind::IdleTimeout | ErrorKind::Io => true,
        ErrorKind::LinkDetached { closed, has_retry_after } => closed && !has_retry_after,
        _ => false,
    }
}

/// Errors that mean the connection scope itself is gone.
pub open spec fn is_scope_disposed_spec(k: ErrorKind) -> bool {
    k == ErrorKind::ScopeDisposed
}

/// An error that tells whether recovering the transport may help, and whether
/// the connection scope has been disposed.
pub trait RecoverableError {
    spec fn recover_hint(&self) -> bool;

    spec fn disposed_hint(&self) -> bool;

    fn should_try_recover(&self) -> (r: bool)
        ensures
            r == self.recover_hint(),
    ;

    fn is_scope_disposed(&self) -> (r: bool)
        ensures
            r == self.disposed_hint(),
    ;
}

/// A transport that can rebuild itself after a connection-level failure.
pub trait RecoverableTransport {
    type RecoverError;

    fn recover(&mut self) -> Result<(), Self::RecoverError>;
}

impl ErrorKind {
    /// The category of this error.
    pub fn category(&self) -> (r: ErrorCategory)
        ensures
            r == category_of(*self),
    {
        match self {
            ErrorKind::SessionEnded | ErrorKind::LinkDetached { .. } | ErrorKind::IdleTimeout
            | ErrorKind::Io => ErrorCategory::Transport,
            ErrorKind::TokenRejected | ErrorKind::AuthorizationDenied
            | ErrorKind::Unauthorized => ErrorCategory::Auth,
            ErrorKind::LinkNotFound | ErrorKind::LinkStolen | ErrorKind::QuotaExceeded => {
                ErrorCategory::Link
            },
            ErrorKind::Protocol => ErrorCategory::Protocol,
            ErrorKind::TryTimeout => ErrorCategory::Timeout,
            ErrorKind::MessageTooLarge | ErrorKind::MessageIdEmpty
            | ErrorKind::MessageIdTooLong | ErrorKind::BatchFull
            | ErrorKind::PartitionIdAndKey => ErrorCategory::Validation,
            ErrorKind::ScopeDisposed | ErrorKind::LinkClosed => ErrorCategory::Closed,
            ErrorKind::Codec => ErrorCategory::Codec,
        }
    }

    /// Whether no retry can help after this error.
    pub fn is_terminal(&self) -> (r: bool)
        ensures
            r == is_terminal_spec(*self),
    {
        match self {
            ErrorKind::AuthorizationDenied | ErrorKind::Unauthorized | ErrorKind::LinkNotFound
            | ErrorKind::QuotaExceeded => true,
            _ => match self.category() {
                ErrorCategory::Protocol | ErrorCategory::Validation | ErrorCategory::Closed
                | ErrorCategory::Codec => true,
                _ => false,
            },
        }
    }
}

impl RecoverableError for ErrorKind {
    open spec fn recover_hint(&self) -> bool {
        should_try_recover_spec(*self)
    }

    open spec fn disposed_hint(&self) -> bool {
        is_scope_disposed_spec(*self)
    }

    fn should_try_recover(&self) -> (r: bool) {
        match self {
            ErrorKind::SessionEnded | ErrorKind::IdleTimeout | ErrorKind::Io => true,
            ErrorKind::LinkDetached { closed, has_retry_after } => *closed && !*has_retry_after,
            _ => false,
        }
    }

    fn is_scope_disposed(&self) -> (r: bool) {
        match self {
            ErrorKind::ScopeDisposed => true,
            _ => false,
        }
    }
}

/// Errors raised while setting up a connection.
#[derive(Debug, Clone, Copy, PartialEq, Eq, Structural)]
pub enum ConnectionError {
    /// The event hub name is not specified.
    EventHubNameIsNotSpecified,
}

impl ConnectionError {
    /// Human-readable description of the error.
    pub fn message(&self) -> (r: &'static str)
        ensures
            r@ == "The EventHub name is not specified"@,
    {
        proof {
            reveal_strlit("The EventHub name is not specified");
        }
        "The EventHub name is not specified"
    }
}

} // verus!
