use vstd::prelude::*;

use crate::connection::{ConnectionOptions, TokenType};
use crate::error::ConnectionError;
use crate::connection_string::{
    connection_setup, namespace_of, parse_spec, resource_address, setup_expected, value_of,
    ConnectionStringProperties, CredentialSource, FormatError, SetupError,
};
use crate::resource::{
    build_connection_signature_authorization_resource, lower_of, url_parses, BuildResourceError,
};
use crate::scope::{close_if_owned_spec, CloseAction, ScopeLifecycle};

verus! {

/// A credential for an event hub: a shared access credential, which mints
/// its tokens locally, or any other token credential `C`.
#[derive(Debug)]
pub enum EventHubTokenCredential<C> {
    SharedAccessCredential(CredentialSource),
    Other(C),
}

impl<C> EventHubTokenCredential<C> {
    /// A shared access credential.
    pub fn new(source: CredentialSource) -> (r: EventHubTokenCredential<C>)
        ensures
            r == EventHubTokenCredential::<C>::SharedAccessCredential(source),
    {
        EventHubTokenCredential::SharedAccessCredential(source)
    }

    /// Any other token credential.
    pub fn from_credential(credential: C) -> (r: EventHubTokenCredential<C>)
        ensures
            r == EventHubTokenCredential::<C>::Other(credential),
    {
        EventHubTokenCredential::Other(credential)
    }

    /// Whether the credential is based on an Event Hubs shared access policy.
    pub fn is_shared_access_credential(&self) -> (r: bool)
        ensures
            r == (self is SharedAccessCredential),
    {
        match self {
            EventHubTokenCredential::SharedAccessCredential(_) => true,
            EventHubTokenCredential::Other(_) => false,
        }
    }

    /// The type of the tokens this credential yields.
    pub fn token_type(&self) -> (r: TokenType)
        ensures
            r == (if self is SharedAccessCredential {
                TokenType::SharedAccessToken
            } else {
                TokenType::JsonWebToken
            }),
    {
        TokenType::for_credential(self.is_shared_access_credential())
    }
}

/// Why a connection could not be described from a connection string.
#[derive(Debug)]
pub enum ConnectionStringError {
    Format(FormatError),
    Setup(SetupError),
}

/// The outcome of building a connection from a connection string, as the
/// plain values a setup yields. A format error or a credential of another
/// kind maps to a stand-in error; the contract rules both out separately.
pub open spec fn setup_view_of<C>(r: Result<Connection<C>, ConnectionStringError>) -> Result<
    (Seq<char>, Seq<char>, CredentialSource),
    SetupError,
> {
    match r {
        Ok(c) => match c.credential_spec() {
            EventHubTokenCredential::SharedAccessCredential(s) => Ok(
                (c.namespace_spec(), c.event_hub_spec(), s),
            ),
            EventHubTokenCredential::Other(_) => Err(SetupError::Connection(ConnectionError::EventHubNameIsNotSpecified)),
        },
        Err(ConnectionStringError::Setup(e)) => Err(e),
        Err(ConnectionStringError::Format(_)) => Err(SetupError::Connection(ConnectionError::EventHubNameIsNotSpecified)),
    }
}

/// A connection to one event hub of a namespace: where it goes, how it
/// authenticates, and the lifecycle of the (possibly shared) scope.
pub struct Connection<C> {
    fully_qualified_namespace: String,
    event_hub_name: String,
    credential: EventHubTokenCredential<C>,
    lifecycle: ScopeLifecycle,
}

impl<C> Connection<C> {
    pub closed spec fn namespace_spec(&self) -> Seq<char> {
        self.fully_qualified_namespace@
    }

    pub closed spec fn event_hub_spec(&self) -> Seq<char> {
        self.event_hub_name@
    }

    pub closed spec fn credential_spec(&self) -> EventHubTokenCredential<C> {
        self.credential
    }

    pub closed spec fn lifecycle_spec(&self) -> ScopeLifecycle {
        self.lifecycle
    }

    pub open spec fn wf(&self) -> bool {
        self.lifecycle_spec().wf()
    }

    /// A connection with its own, not yet shared, scope.
    pub fn new_from_credential(
        fully_qualified_namespace: String,
        event_hub_name: String,
        credential: EventHubTokenCredential<C>,
    ) -> (r: Connection<C>)
        ensures
            r.wf(),
            r.namespace_spec() == fully_qualified_namespace@,
            r.event_hub_spec() == event_hub_name@,
            r.credential_spec() == credential,
            r.lifecycle_spec() == (ScopeLifecycle { holders: 1, shared: false, disposed: false }),
    {
        Connection {
            fully_qualified_namespace,
            event_hub_name,
            credential,
            lifecycle: ScopeLifecycle::new_owned(),
        }
    }

    /// A connection described by a connection string; the event hub given
    /// here takes precedence over the connection string's unless empty.
    pub fn new_from_connection_string(
        connection_string: &str,
        event_hub_name: Option<String>,
        options: &ConnectionOptions,
    ) -> (r: Result<Connection<C>, ConnectionStringError>)
        ensures
            match parse_spec(connection_string@) {
                Err(e) => r matches Err(ConnectionStringError::Format(f)) && f == e,
                Ok(()) => setup_expected(
                    setup_view_of(r),
                    namespace_of(value_of(connection_string@, "Endpoint"@).unwrap()).unwrap(),
                    value_of(connection_string@, "EntityPath"@),
                    value_of(connection_string@, "SharedAccessSignature"@),
                    value_of(connection_string@, "SharedAccessKeyName"@),
                    value_of(connection_string@, "SharedAccessKey"@),
                    match event_hub_name {
                        Some(s) => Some(s@),
                        None => None,
                    },
                    options.transport_type,
                ),
            },
            parse_spec(connection_string@) is Ok ==> !(r matches Err(ConnectionStringError::Format(_))),
            r matches Ok(c) ==> c.credential_spec() is SharedAccessCredential,
            r matches Ok(c) ==> c.wf() && c.lifecycle_spec() == (ScopeLifecycle {
                holders: 1,
                shared: false,
                disposed: false,
            }),
    {
        let props = match ConnectionStringProperties::parse(connection_string) {
            Ok(p) => p,
            Err(e) => return Err(ConnectionStringError::Format(e)),
        };
        let setup = match connection_setup(props, event_hub_name, options.transport_type) {
            Ok(s) => s,
            Err(e) => return Err(ConnectionStringError::Setup(e)),
        };
        Ok(
            Connection::new_from_credential(
                setup.fully_qualified_namespace,
                setup.event_hub_name,
                EventHubTokenCredential::new(setup.credential),
            ),
        )
    }

    /// A connection authenticated by a named shared access key; signatures
    /// are minted for the event hub's resource. An empty namespace leaves no
    /// basis for the resource and is refused.
    pub fn new_from_named_key_credential(
        fully_qualified_namespace: String,
        event_hub_name: String,
        key_name: String,
        key: String,
        options: &ConnectionOptions,
    ) -> (r: Result<Connection<C>, ConnectionStringError>)
        ensures
            fully_qualified_namespace@.len() == 0 ==> (r matches Err(ConnectionStringError::Format(f))
                && f == FormatError::EmptyNamespace),
            fully_qualified_namespace@.len() > 0 ==> match r {
                Ok(c) => {
                    &&& c.wf()
                    &&& c.namespace_spec() == fully_qualified_namespace@
                    &&& c.event_hub_spec() == event_hub_name@
                    &&& c.lifecycle_spec() == (ScopeLifecycle { holders: 1, shared: false, disposed: false })
                    &&& match c.credential_spec() {
                        EventHubTokenCredential::SharedAccessCredential(
                            CredentialSource::SharedAccessKey { resource, key_name: n, key: k },
                        ) => n == key_name && k == key && exists|t: Seq<char>| resource@ == lower_of(t),
                        _ => false,
                    }
                },
                Err(ConnectionStringError::Setup(SetupError::Resource(e))) => (e matches BuildResourceError::ParseError(
                    _,
                )) <==> !url_parses(resource_address(options.transport_type, fully_qualified_namespace@)),
                Err(_) => false,
            },
    {
        if fully_qualified_namespace.as_str().is_empty() {
            return Err(ConnectionStringError::Format(FormatError::EmptyNamespace));
        }
        let resource = match build_connection_signature_authorization_resource(
            options.transport_type,
            Some(fully_qualified_namespace.as_str()),
            Some(event_hub_name.as_str()),
        ) {
            Ok(r) => r,
            Err(e) => return Err(ConnectionStringError::Setup(SetupError::Resource(e))),
        };
        let source = CredentialSource::SharedAccessKey { resource, key_name, key };
        Ok(Connection::new_from_credential(
            fully_qualified_namespace,
            event_hub_name,
            EventHubTokenCredential::new(source),
        ))
    }

    /// A connection authenticated by a pre-minted shared access signature.
    pub fn new_from_sas_credential(
        fully_qualified_namespace: String,
        event_hub_name: String,
        signature: String,
    ) -> (r: Connection<C>)
        ensures
            r.wf(),
            r.namespace_spec() == fully_qualified_namespace@,
            r.event_hub_spec() == event_hub_name@,
            r.credential_spec() == EventHubTokenCredential::<C>::SharedAccessCredential(
                CredentialSource::SharedAccessSignature(signature),
            ),
    {
        Connection::new_from_credential(
            fully_qualified_namespace,
            event_hub_name,
            EventHubTokenCredential::new(CredentialSource::SharedAccessSignature(signature)),
        )
    }

    /// The fully qualified namespace the connection is associated with.
    pub fn fully_qualified_namespace(&self) -> (r: &str)
        ensures
            r@ == self.namespace_spec(),
    {
        self.fully_qualified_namespace.as_str()
    }

    /// The name of the event hub the connection is associated with.
    pub fn event_hub_name(&self) -> (r: &str)
        ensures
            r@ == self.event_hub_spec(),
    {
        self.event_hub_name.as_str()
    }

    /// The connection's credential.
    pub fn credential(&self) -> (r: &EventHubTokenCredential<C>)
        ensures
            *r == self.credential_spec(),
    {
        &self.credential
    }

    /// Whether the connection has been closed.
    pub fn is_closed(&self) -> (r: bool)
        ensures
            r == self.lifecycle_spec().disposed,
    {
        self.lifecycle.is_closed()
    }

    /// Whether the connection is owned; false once it was shared, even when
    /// only one holder is left.
    pub fn is_owned(&self) -> (r: bool)
        ensures
            r == !self.lifecycle_spec().shared,
    {
        self.lifecycle.is_owned()
    }

    /// Whether the connection is shared, even when only one holder is left.
    pub fn is_shared(&self) -> (r: bool)
        ensures
            r == self.lifecycle_spec().shared,
    {
        self.lifecycle.is_shared()
    }

    /// Counts one more holder of the shared connection and returns that
    /// holder's handle.
    pub fn clone_as_shared(&mut self) -> (r: SharedConnection)
        requires
            old(self).wf(),
            !old(self).lifecycle_spec().disposed,
            old(self).lifecycle_spec().holders < u64::MAX,
        ensures
            final(self).wf(),
            final(self).lifecycle_spec().holders == old(self).lifecycle_spec().holders + 1,
            final(self).lifecycle_spec().shared,
            !final(self).lifecycle_spec().disposed,
            final(self).namespace_spec() == old(self).namespace_spec(),
            final(self).event_hub_spec() == old(self).event_hub_spec(),
            final(self).credential_spec() == old(self).credential_spec(),
            r.namespace_spec() == old(self).namespace_spec(),
            r.event_hub_spec() == old(self).event_hub_spec(),
    {
        self.lifecycle.clone_as_shared();
        SharedConnection {
            fully_qualified_namespace: self.fully_qualified_namespace.clone(),
            event_hub_name: self.event_hub_name.clone(),
        }
    }

    /// A holder lets go of its handle: as `close_if_owned`.
    pub fn release(&mut self, _handle: SharedConnection) -> (r: CloseAction)
        requires
            old(self).wf(),
        ensures
            final(self).wf(),
            (final(self).lifecycle_spec(), r) == close_if_owned_spec(old(self).lifecycle_spec()),
            final(self).namespace_spec() == old(self).namespace_spec(),
            final(self).event_hub_spec() == old(self).event_hub_spec(),
    {
        self.lifecycle.close_if_owned()
    }

    /// Closes the connection whether it is owned or shared.
    pub fn close(&mut self) -> (r: CloseAction)
        requires
            old(self).wf(),
        ensures
            final(self).wf(),
            final(self).lifecycle_spec().disposed,
            old(self).lifecycle_spec().disposed ==> r == CloseAction::AlreadyClosed,
            !old(self).lifecycle_spec().disposed ==> r == CloseAction::CloseConnection,
    {
        self.lifecycle.close()
    }

    /// Lets go of one holder; the connection closes when owned or when this
    /// was the last holder of the shared connection.
    pub fn close_if_owned(&mut self) -> (r: CloseAction)
        requires
            old(self).wf(),
        ensures
            final(self).wf(),
            (final(self).lifecycle_spec(), r) == close_if_owned_spec(old(self).lifecycle_spec()),
            final(self).namespace_spec() == old(self).namespace_spec(),
            final(self).event_hub_spec() == old(self).event_hub_spec(),
    {
        self.lifecycle.close_if_owned()
    }
}

/// The handle of a further holder of a shared connection. It is always
/// shared, even once it is the last holder left.
pub struct SharedConnection {
    fully_qualified_namespace: String,
    event_hub_name: String,
}

impl SharedConnection {
    pub closed spec fn namespace_spec(&self) -> Seq<char> {
        self.fully_qualified_namespace@
    }

    pub closed spec fn event_hub_spec(&self) -> Seq<char> {
        self.event_hub_name@
    }

    pub fn fully_qualified_namespace(&self) -> (r: &str)
        ensures
            r@ == self.namespace_spec(),
    {
        self.fully_qualified_namespace.as_str()
    }

    pub fn event_hub_name(&self) -> (r: &str)
        ensures
            r@ == self.event_hub_spec(),
    {
        self.event_hub_name.as_str()
    }

    pub fn is_shared(&self) -> (r: bool)
        ensures
            r,
    {
        true
    }

    pub fn is_owned(&self) -> (r: bool)
        ensures
            !r,
    {
        false
    }
}

} // verus!
