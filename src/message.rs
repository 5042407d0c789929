use vstd::prelude::*;

use crate::text::{
    append_decimal, binary_to_upper_hex, binary_upper_hex, decimal, uuid_text, uuid_to_lower_hex,
};

verus! {

/// Largest allowed message id, in bytes.
pub const MAX_MESSAGE_ID_LENGTH: usize = 128;

/// Length of a string in UTF-8 bytes.
pub open spec fn byte_len(s: Seq<char>) -> nat {
    vstd::utf8::encode_utf8(s).len()
}

/// An AMQP message id (also used for correlation ids).
#[derive(Debug, Clone, PartialEq, Eq)]
pub enum MessageId {
    Ulong(u64),
    Uuid([u8; 16]),
    Binary(Vec<u8>),
    String(String),
}

/// The text form of a message id: a string as is, an integer in decimal, a
/// UUID hyphenated in lower case, binary as upper-case hexadecimal.
pub open spec fn id_text(id: MessageId) -> Seq<char> {
    match id {
        MessageId::Ulong(n) => decimal(n as nat),
        MessageId::Uuid(b) => uuid_text(b@),
        MessageId::Binary(b) => binary_upper_hex(b@),
        MessageId::String(s) => s@,
    }
}

impl MessageId {
    /// The text form of this id.
    pub fn to_text(&self) -> (r: String)
        ensures
            r@ == id_text(*self),
    {
        match self {
            MessageId::Ulong(n) => {
                let mut s = String::new();
                append_decimal(&mut s, *n);
                s
            },
            MessageId::Uuid(b) => uuid_to_lower_hex(b),
            MessageId::Binary(b) => binary_to_upper_hex(b),
            MessageId::String(s) => s.clone(),
        }
    }
}

/// The standard properties of an AMQP message that the client reads and sets.
#[derive(Debug, Clone, PartialEq, Eq, Default)]
pub struct MessageProperties {
    pub message_id: Option<MessageId>,
    pub correlation_id: Option<MessageId>,
    pub content_type: Option<String>,
}

/// An AMQP message as the client sees it: body, standard properties and the
/// partition key annotation.
#[derive(Debug, Clone, PartialEq, Eq, Default)]
pub struct AmqpMessage {
    pub body: Vec<u8>,
    pub properties: Option<MessageProperties>,
    pub partition_key: Option<String>,
}

/// Why a message id was refused.
#[derive(Debug, Clone, Copy, PartialEq, Eq, Structural)]
pub enum SetMessageIdError {
    /// The id is empty.
    Empty,
    /// The id is longer than the maximum, in bytes.
    MaxLengthExceeded { length: usize, max_length: usize },
}

/// Properties with nothing set.
pub open spec fn empty_properties() -> MessageProperties {
    MessageProperties { message_id: None, correlation_id: None, content_type: None }
}

/// The message's properties, created empty when absent.
pub open spec fn properties_or_empty(m: AmqpMessage) -> MessageProperties {
    match m.properties {
        Some(p) => p,
        None => empty_properties(),
    }
}

/// The text of the message id, when there is one.
pub open spec fn message_id_spec(m: AmqpMessage) -> Option<Seq<char>> {
    match m.properties {
        Some(p) => match p.message_id {
            Some(id) => Some(id_text(id)),
            None => None,
        },
        None => None,
    }
}

/// The outcome of setting the message id `id` on `m`.
pub open spec fn set_message_id_spec(m: AmqpMessage, id: String) -> Result<
    AmqpMessage,
    SetMessageIdError,
> {
    if byte_len(id@) == 0 {
        Err(SetMessageIdError::Empty)
    } else if byte_len(id@) > MAX_MESSAGE_ID_LENGTH {
        Err(
            SetMessageIdError::MaxLengthExceeded {
                length: byte_len(id@) as usize,
                max_length: MAX_MESSAGE_ID_LENGTH,
            },
        )
    } else {
        Ok(
            AmqpMessage {
                properties: Some(
                    MessageProperties {
                        message_id: Some(MessageId::String(id)),
                        ..properties_or_empty(m)
                    },
                ),
                ..m
            },
        )
    }
}

impl AmqpMessage {
    /// A message with the given body and nothing else.
    pub fn from_body(body: Vec<u8>) -> (r: AmqpMessage)
        ensures
            r.body == body,
            r.properties is None,
            r.partition_key is None,
    {
        AmqpMessage { body, properties: None, partition_key: None }
    }

    /// The message id as text.
    pub fn message_id(&self) -> (r: Option<String>)
        ensures
            r is Some <==> message_id_spec(*self) is Some,
            r matches Some(s) ==> message_id_spec(*self) == Some(s@),
    {
        match &self.properties {
            Some(p) => match &p.message_id {
                Some(id) => Some(id.to_text()),
                None => None,
            },
            None => None,
        }
    }

    /// The correlation id as text.
    pub fn correlation_id(&self) -> (r: Option<String>)
        ensures
            r is Some <==> (self.properties matches Some(p) && p.correlation_id is Some),
            r matches Some(s) ==> (self.properties matches Some(p) && p.correlation_id matches Some(
                id,
            ) && s@ == id_text(id)),
    {
        match &self.properties {
            Some(p) => match &p.correlation_id {
                Some(id) => Some(id.to_text()),
                None => None,
            },
            None => None,
        }
    }

    /// The content type, when set.
    pub fn content_type(&self) -> (r: Option<&String>)
        ensures
            r is Some <==> (self.properties matches Some(p) && p.content_type is Some),
            r matches Some(s) ==> (self.properties matches Some(p) && p.content_type == Some(*s)),
    {
        match &self.properties {
            Some(p) => match &p.content_type {
                Some(c) => Some(c),
                None => None,
            },
            None => None,
        }
    }

    /// The partition key annotation, when set.
    pub fn partition_key(&self) -> (r: Option<&String>)
        ensures
            r is Some <==> self.partition_key is Some,
            r matches Some(s) ==> self.partition_key == Some(*s),
    {
        match &self.partition_key {
            Some(k) => Some(k),
            None => None,
        }
    }

    /// Sets the message id; it must be between 1 and 128 bytes long.
    pub fn set_message_id(&mut self, message_id: String) -> (r: Result<(), SetMessageIdError>)
        ensures
            match set_message_id_spec(*old(self), message_id) {
                Ok(m) => r is Ok && *final(self) == m,
                Err(e) => r == Err::<(), SetMessageIdError>(e) && *final(self) == *old(self),
            },
    {
        let length = message_id.as_str().as_bytes().len();
        if length == 0 {
            return Err(SetMessageIdError::Empty);
        }
        if length > MAX_MESSAGE_ID_LENGTH {
            return Err(SetMessageIdError::MaxLengthExceeded { length, max_length: MAX_MESSAGE_ID_LENGTH });
        }
        let id = Some(MessageId::String(message_id));
        match &mut self.properties {
            Some(p) => {
                p.message_id = id;
            },
            None => {
                self.properties = Some(
                    MessageProperties { message_id: id, correlation_id: None, content_type: None },
                );
            },
        }
        Ok(())
    }

    /// Sets or clears the correlation id.
    pub fn set_correlation_id(&mut self, id: Option<String>)
        ensures
            final(self).properties == Some(
                MessageProperties {
                    correlation_id: match id {
                        Some(s) => Some(MessageId::String(s)),
                        None => None,
                    },
                    ..properties_or_empty(*old(self))
                },
            ),
            final(self).body == old(self).body,
            final(self).partition_key == old(self).partition_key,
    {
        let correlation_id = match id {
            Some(s) => Some(MessageId::String(s)),
            None => None,
        };
        match &mut self.properties {
            Some(p) => {
                p.correlation_id = correlation_id;
            },
            None => {
                self.properties = Some(
                    MessageProperties { message_id: None, correlation_id, content_type: None },
                );
            },
        }
    }

    /// Sets or clears the content type.
    pub fn set_content_type(&mut self, content_type: Option<String>)
        ensures
            final(self).properties == Some(
                MessageProperties { content_type, ..properties_or_empty(*old(self)) },
            ),
            final(self).body == old(self).body,
            final(self).partition_key == old(self).partition_key,
    {
        match &mut self.properties {
            Some(p) => {
                p.content_type = content_type;
            },
            None => {
                self.properties = Some(
                    MessageProperties { message_id: None, correlation_id: None, content_type },
                );
            },
        }
    }
}

/// Round trip of the message id: an id of 1 to 128 bytes is accepted and read
/// back unchanged; an empty or longer one is refused.
pub proof fn lemma_message_id_round_trip(m: AmqpMessage, id: String)
    ensures
        0 < byte_len(id@) <= MAX_MESSAGE_ID_LENGTH ==> (set_message_id_spec(m, id) matches Ok(m2)
            && message_id_spec(m2) == Some(id@)),
        (byte_len(id@) == 0 || byte_len(id@) > MAX_MESSAGE_ID_LENGTH) ==> set_message_id_spec(
            m,
            id,
        ) is Err,
{
}

} // verus!
