use azeventhubs::connection::CredentialPartError;
use azeventhubs::connection_string::SetupError;
use azeventhubs::error::ConnectionError;
use azeventhubs::connection::{ConnectionOptions, TokenType};
use azeventhubs::connection_string::CredentialSource;
use azeventhubs::hub_connection::{Connection, ConnectionStringError, EventHubTokenCredential};
use azeventhubs::connection_string::FormatError;
use azeventhubs::scope::CloseAction;

struct BearerToken;

#[test]
fn connection_from_connection_string() {
    let options = ConnectionOptions::new();
    let c: Connection<BearerToken> = Connection::new_from_connection_string(
        "Endpoint=sb://ns.servicebus.windows.net/;SharedAccessKeyName=root;SharedAccessKey=k;EntityPath=hub",
        None,
        &options,
    )
    .ok()
    .unwrap();
    assert_eq!(c.fully_qualified_namespace(), "ns.servicebus.windows.net");
    assert_eq!(c.event_hub_name(), "hub");
    assert!(c.credential().is_shared_access_credential());
    assert_eq!(c.credential().token_type(), TokenType::SharedAccessToken);
    assert!(c.is_owned());
    assert!(!c.is_closed());
}

#[test]
fn connection_string_format_error_is_reported() {
    let r: Result<Connection<BearerToken>, _> =
        Connection::new_from_connection_string("SharedAccessKey=k", Some("hub".to_string()), &ConnectionOptions::new());
    assert!(matches!(r, Err(ConnectionStringError::Format(FormatError::MissingEndpoint))));
}

#[test]
fn connection_from_named_key_and_sas() {
    let c: Connection<BearerToken> = Connection::new_from_named_key_credential(
        "NS.servicebus.windows.net".to_string(),
        "Hub".to_string(),
        "root".to_string(),
        "k".to_string(),
        &ConnectionOptions::new(),
    )
    .ok()
    .unwrap();
    match c.credential() {
        EventHubTokenCredential::SharedAccessCredential(CredentialSource::SharedAccessKey { resource, key_name, key }) => {
            assert_eq!(resource, "amqps://ns.servicebus.windows.net/hub");
            assert_eq!(key_name, "root");
            assert_eq!(key, "k");
        }
        _ => panic!("expected a shared access key"),
    }
    let c: Connection<BearerToken> =
        Connection::new_from_sas_credential("ns".to_string(), "hub".to_string(), "sig".to_string());
    assert!(c.credential().is_shared_access_credential());
}

#[test]
fn connection_with_other_credential_and_shared_close() {
    let mut c = Connection::new_from_credential(
        "ns".to_string(),
        "hub".to_string(),
        EventHubTokenCredential::from_credential(BearerToken),
    );
    assert!(!c.credential().is_shared_access_credential());
    assert_eq!(c.credential().token_type(), TokenType::JsonWebToken);
    let handle = c.clone_as_shared();
    assert!(c.is_shared());
    assert!(!c.is_owned());
    assert_eq!(handle.fully_qualified_namespace(), "ns");
    assert_eq!(handle.event_hub_name(), "hub");
    assert!(handle.is_shared());
    assert!(!handle.is_owned());
    assert_eq!(c.release(handle), CloseAction::ReleaseHandle);
    assert!(!c.is_closed());
    assert_eq!(c.close_if_owned(), CloseAction::CloseConnection);
    assert!(c.is_closed());
    assert_eq!(c.close(), CloseAction::AlreadyClosed);
}

#[test]
fn named_key_connection_refuses_empty_namespace() {
    let r: Result<Connection<BearerToken>, _> = Connection::new_from_named_key_credential(
        String::new(),
        "hub".to_string(),
        "root".to_string(),
        "k".to_string(),
        &ConnectionOptions::new(),
    );
    assert!(matches!(r, Err(ConnectionStringError::Format(FormatError::EmptyNamespace))));
}

#[test]
fn connection_string_and_named_key_agree() {
    let options = ConnectionOptions::new();
    let a: Connection<BearerToken> = Connection::new_from_connection_string(
        "Endpoint=sb://ns.servicebus.windows.net/;SharedAccessKeyName=root;SharedAccessKey=k;EntityPath=hub",
        None,
        &options,
    )
    .ok()
    .unwrap();
    let b: Connection<BearerToken> = Connection::new_from_named_key_credential(
        "ns.servicebus.windows.net".to_string(),
        "hub".to_string(),
        "root".to_string(),
        "k".to_string(),
        &options,
    )
    .ok()
    .unwrap();
    assert_eq!(a.fully_qualified_namespace(), b.fully_qualified_namespace());
    assert_eq!(a.event_hub_name(), b.event_hub_name());
    match (a.credential(), b.credential()) {
        (EventHubTokenCredential::SharedAccessCredential(x), EventHubTokenCredential::SharedAccessCredential(y)) => {
            assert_eq!(x, y)
        }
        _ => panic!("expected shared access credentials"),
    }
}

#[test]
fn connection_string_without_hub_or_key_is_refused() {
    let options = ConnectionOptions::new();
    let r: Result<Connection<BearerToken>, _> = Connection::new_from_connection_string(
        "Endpoint=sb://ns.example/;SharedAccessKeyName=root;SharedAccessKey=k",
        None,
        &options,
    );
    assert!(matches!(
        r,
        Err(ConnectionStringError::Setup(SetupError::Connection(ConnectionError::EventHubNameIsNotSpecified)))
    ));
    let r: Result<Connection<BearerToken>, _> = Connection::new_from_connection_string(
        "Endpoint=sb://ns.example/;SharedAccessKeyName=root;EntityPath=hub",
        None,
        &options,
    );
    assert!(matches!(r, Err(ConnectionStringError::Setup(SetupError::Key(CredentialPartError::Missing)))));
    let c: Connection<BearerToken> = Connection::new_from_connection_string(
        "Endpoint=sb://ns.example/;SharedAccessSignature=sig;EntityPath=hub",
        None,
        &options,
    )
    .ok()
    .unwrap();
    assert_eq!(c.event_hub_name(), "hub");
}
