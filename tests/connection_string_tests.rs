use azeventhubs::connection::{CredentialPartError, TransportType};
use azeventhubs::connection_string::{
    connection_setup, ConnectionStringProperties, CredentialSource, FormatError, SetupError,
};
use azeventhubs::error::ConnectionError;
use azeventhubs::management::{
    EventHubProperties, ManagementEntity, ManagementLinkState, ManagementRequest, READ_OPERATION,
};
use azeventhubs::error::ErrorKind;

const WITH_KEY: &str = "Endpoint=sb://ns.servicebus.windows.net/;SharedAccessKeyName=root;SharedAccessKey=SECRET-REDACTED;EntityPath=hub";

#[test]
fn parses_all_parts() {
    let p = ConnectionStringProperties::parse(WITH_KEY).unwrap();
    assert_eq!(p.endpoint, "sb://ns.servicebus.windows.net/");
    assert_eq!(p.fully_qualified_namespace, "ns.servicebus.windows.net");
    assert_eq!(p.event_hub_name.as_deref(), Some("hub"));
    assert_eq!(p.shared_access_key_name.as_deref(), Some("root"));
    assert_eq!(p.shared_access_key.as_deref(), Some("SECRET-REDACTED"));
    assert_eq!(p.shared_access_signature, None);
}

#[test]
fn later_pairs_override_and_unknown_keys_are_ignored() {
    let p = ConnectionStringProperties::parse(
        "Endpoint=sb://a.example/;Foo=bar;;Endpoint=sb://b.example;EntityPath=x=y;",
    )
    .unwrap();
    assert_eq!(p.fully_qualified_namespace, "b.example");
    assert_eq!(p.event_hub_name.as_deref(), Some("x=y"));
}

#[test]
fn format_errors() {
    assert_eq!(ConnectionStringProperties::parse(""), Err(FormatError::MissingEndpoint));
    assert_eq!(
        ConnectionStringProperties::parse("SharedAccessKeyName=root"),
        Err(FormatError::MissingEndpoint)
    );
    assert_eq!(
        ConnectionStringProperties::parse("Endpoint=https://ns.example/"),
        Err(FormatError::InvalidEndpoint)
    );
    assert_eq!(ConnectionStringProperties::parse("Endpoint=sb:///"), Err(FormatError::EmptyNamespace));
    assert_eq!(
        ConnectionStringProperties::parse(
            "Endpoint=sb://ns.example/;SharedAccessSignature=SharedAccessSignature sr=x;SharedAccessKey=k"
        ),
        Err(FormatError::SignatureWithKey)
    );
}

#[test]
fn setup_with_key_builds_resource() {
    let p = ConnectionStringProperties::parse(WITH_KEY).unwrap();
    let setup = connection_setup(p, None, TransportType::AmqpTcp).unwrap();
    assert_eq!(setup.fully_qualified_namespace, "ns.servicebus.windows.net");
    assert_eq!(setup.event_hub_name, "hub");
    assert_eq!(
        setup.credential,
        CredentialSource::SharedAccessKey {
            resource: "amqps://ns.servicebus.windows.net/hub".to_string(),
            key_name: "root".to_string(),
            key: "SECRET-REDACTED".to_string(),
        }
    );
}

#[test]
fn setup_prefers_caller_event_hub_and_passes_signature_through() {
    let p = ConnectionStringProperties::parse(
        "Endpoint=sb://ns.example/;SharedAccessSignature=SharedAccessSignature sr=a&sig=b&se=1&skn=root;EntityPath=hub",
    )
    .unwrap();
    let setup = connection_setup(p, Some("other".to_string()), TransportType::AmqpWebSockets).unwrap();
    assert_eq!(setup.event_hub_name, "other");
    assert_eq!(
        setup.credential,
        CredentialSource::SharedAccessSignature("SharedAccessSignature sr=a&sig=b&se=1&skn=root".to_string())
    );
}

#[test]
fn setup_errors() {
    let p = ConnectionStringProperties::parse("Endpoint=sb://ns.example/;SharedAccessKeyName=root;SharedAccessKey=k").unwrap();
    assert!(matches!(
        connection_setup(p.clone(), Some(String::new()), TransportType::AmqpTcp),
        Err(SetupError::Connection(ConnectionError::EventHubNameIsNotSpecified))
    ));
    let p = ConnectionStringProperties::parse("Endpoint=sb://ns.example/;SharedAccessKey=k;EntityPath=h").unwrap();
    assert!(matches!(
        connection_setup(p, None, TransportType::AmqpTcp),
        Err(SetupError::KeyName(CredentialPartError::Missing))
    ));
    let p = ConnectionStringProperties::parse("Endpoint=sb://ns.example/;SharedAccessKeyName=root;SharedAccessKey=;EntityPath=h").unwrap();
    assert!(matches!(
        connection_setup(p, None, TransportType::AmqpTcp),
        Err(SetupError::Key(CredentialPartError::Empty))
    ));
}

#[test]
fn management_requests_and_properties() {
    let r = ManagementRequest::event_hub_properties("hub".to_string(), "token".to_string());
    assert_eq!(r.entity.entity_type(), "com.microsoft:eventhub");
    assert_eq!(r.partition_id, None);
    let r = ManagementRequest::partition_properties("hub".to_string(), "3".to_string(), "token".to_string());
    assert_eq!(r.entity, ManagementEntity::Partition);
    assert_eq!(r.entity.entity_type(), "com.microsoft:partition");
    assert_eq!(r.partition_id.as_deref(), Some("3"));
    assert_eq!(READ_OPERATION, "READ");
    let props = EventHubProperties {
        name: "hub".to_string(),
        created_at_ms: 0,
        partition_ids: vec!["0".to_string(), "1".to_string(), "2".to_string()],
    };
    assert_eq!(props.into_partition_ids(), vec!["0", "1", "2"]);
    assert_eq!(ManagementLinkState::Connected.check_call(), Ok(()));
    assert_eq!(ManagementLinkState::Recovering.check_call(), Err(ErrorKind::SessionEnded));
    assert!(ErrorKind::SessionEnded.category() == azeventhubs::error::ErrorCategory::Transport);
}
