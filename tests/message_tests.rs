use azeventhubs::message::{AmqpMessage, MessageId, SetMessageIdError, MAX_MESSAGE_ID_LENGTH};

#[test]
fn message_id_round_trip() {
    let mut m = AmqpMessage::from_body(b"Hello, world 0!".to_vec());
    assert_eq!(m.message_id(), None);
    m.set_message_id("id-1".to_string()).unwrap();
    assert_eq!(m.message_id().as_deref(), Some("id-1"));
    let longest = "x".repeat(MAX_MESSAGE_ID_LENGTH);
    m.set_message_id(longest.clone()).unwrap();
    assert_eq!(m.message_id(), Some(longest));
}

#[test]
fn message_id_validation() {
    let mut m = AmqpMessage::from_body(Vec::new());
    assert_eq!(m.set_message_id(String::new()), Err(SetMessageIdError::Empty));
    assert_eq!(
        m.set_message_id("x".repeat(129)),
        Err(SetMessageIdError::MaxLengthExceeded { length: 129, max_length: 128 })
    );
    // 64 two-byte characters are 128 bytes; 65 are too many.
    assert!(m.set_message_id("é".repeat(64)).is_ok());
    assert_eq!(
        m.set_message_id("é".repeat(65)),
        Err(SetMessageIdError::MaxLengthExceeded { length: 130, max_length: 128 })
    );
    assert_eq!(m.message_id(), Some("é".repeat(64)));
}

#[test]
fn message_id_text_forms() {
    assert_eq!(MessageId::Ulong(0).to_text(), "0");
    assert_eq!(MessageId::Ulong(18446744073709551615).to_text(), "18446744073709551615");
    let uuid = [
        0x67, 0xe5, 0x50, 0x44, 0x10, 0xb1, 0x42, 0x6f, 0x92, 0x47, 0xbb, 0x68, 0x0e, 0x5f, 0xe0, 0xc8,
    ];
    assert_eq!(MessageId::Uuid(uuid).to_text(), "67e55044-10b1-426f-9247-bb680e5fe0c8");
    assert_eq!(MessageId::Binary(vec![0x0a, 0xff, 0x10]).to_text(), "AFF10");
    assert_eq!(MessageId::Binary(Vec::new()).to_text(), "");
    assert_eq!(MessageId::String("abc".to_string()).to_text(), "abc");
}

#[test]
fn correlation_id_and_content_type() {
    let mut m = AmqpMessage::from_body(Vec::new());
    m.set_correlation_id(Some("corr".to_string()));
    m.set_content_type(Some("application/json".to_string()));
    assert_eq!(m.correlation_id().as_deref(), Some("corr"));
    assert_eq!(m.content_type().map(|s| s.as_str()), Some("application/json"));
    m.set_correlation_id(None);
    assert_eq!(m.correlation_id(), None);
    assert_eq!(m.content_type().map(|s| s.as_str()), Some("application/json"));
    assert_eq!(m.partition_key(), None);
    m.partition_key = Some("pk".to_string());
    assert_eq!(m.partition_key().map(|s| s.as_str()), Some("pk"));
}
