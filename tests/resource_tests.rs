use azeventhubs::connection::TransportType;
use azeventhubs::resource::{
    build_connection_signature_authorization_resource, connection_endpoints, BuildResourceError,
    EndpointError,
};

#[test]
fn resource_without_namespace_is_empty() {
    assert_eq!(
        build_connection_signature_authorization_resource(TransportType::AmqpTcp, None, Some("hub")).unwrap(),
        ""
    );
    assert_eq!(
        build_connection_signature_authorization_resource(TransportType::AmqpTcp, Some(""), Some("hub")).unwrap(),
        ""
    );
}

#[test]
fn resource_is_normalized_and_lower_case() {
    assert_eq!(
        build_connection_signature_authorization_resource(
            TransportType::AmqpTcp,
            Some("MyNamespace.servicebus.windows.net"),
            Some("MyHub"),
        )
        .unwrap(),
        "amqps://mynamespace.servicebus.windows.net/myhub"
    );
    assert_eq!(
        build_connection_signature_authorization_resource(
            TransportType::AmqpWebSockets,
            Some("ns.servicebus.windows.net:5671"),
            Some("hub/"),
        )
        .unwrap(),
        "wss://ns.servicebus.windows.net/hub"
    );
    assert_eq!(
        build_connection_signature_authorization_resource(
            TransportType::AmqpTcp,
            Some("ns.servicebus.windows.net"),
            None,
        )
        .unwrap(),
        "amqps://ns.servicebus.windows.net"
    );
}

#[test]
fn resource_with_unparsable_namespace_fails() {
    let r = build_connection_signature_authorization_resource(TransportType::AmqpTcp, Some("ns:notaport"), Some("hub"));
    assert!(matches!(r, Err(BuildResourceError::ParseError(_))));
}

#[test]
fn endpoints_use_custom_address_with_transport_scheme() {
    let (service, connection) =
        connection_endpoints(TransportType::AmqpTcp, "ns.servicebus.windows.net", None).unwrap();
    assert_eq!(service.as_str(), "amqps://ns.servicebus.windows.net");
    assert_eq!(connection.as_str(), service.as_str());
    let (_, connection) = connection_endpoints(
        TransportType::AmqpTcp,
        "ns.servicebus.windows.net",
        Some("amqp://proxy.example.com:5672"),
    )
    .unwrap();
    assert_eq!(connection.as_str(), "amqps://proxy.example.com:5672");
    let r = connection_endpoints(TransportType::AmqpTcp, "ns.servicebus.windows.net", Some("not a url"));
    assert!(matches!(r, Err(EndpointError::ParseError(_))));
}
