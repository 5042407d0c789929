use vstd::prelude::*;
use vstd::string::*;

use crate::text::{append_signed_decimal, signed_decimal};

verus! {

/// A position in a partition's log from which a receiver starts.
#[derive(Debug, Clone, Copy, PartialEq, Eq, Structural)]
pub enum EventPosition {
    /// The event at `offset` (when inclusive) or the first one after it.
    Offset { offset: i64, is_inclusive: bool },
    /// The event with `sequence_number` (when inclusive) or the first one after it.
    SequenceNumber { sequence_number: i64, is_inclusive: bool },
    /// The first event enqueued after the instant, in milliseconds since the Unix epoch.
    EnqueuedTime(i64),
    /// Only events enqueued after the receiver attaches.
    Latest,
}

/// The offset that stands for the start of the log.
pub const START_OF_STREAM_OFFSET: i64 = -1;

/// The same position with offsets and sequence numbers made exclusive.
pub open spec fn exclusive_spec(p: EventPosition) -> EventPosition {
    match p {
        EventPosition::Offset { offset, .. } => EventPosition::Offset { offset, is_inclusive: false },
        EventPosition::SequenceNumber { sequence_number, .. } => EventPosition::SequenceNumber {
            sequence_number,
            is_inclusive: false,
        },
        _ => p,
    }
}

/// Whether a receiver opened at `p` may deliver the event at `offset`. Only
/// offset positions constrain offsets.
pub open spec fn admits_offset(p: EventPosition, offset: int) -> bool {
    match p {
        EventPosition::Offset { offset: n, is_inclusive } => offset > n || (is_inclusive && offset
            == n),
        _ => true,
    }
}

/// The comparison operator of a filter: `>=` when inclusive, else `>`.
pub open spec fn comparison(is_inclusive: bool) -> Seq<char> {
    if is_inclusive {
        seq!['>', '=']
    } else {
        seq!['>']
    }
}

/// The selector expression of the receiver's source filter.
pub open spec fn filter_expression_spec(p: EventPosition) -> Seq<char> {
    match p {
        EventPosition::Offset { offset, is_inclusive } => "amqp.annotation.x-opt-offset "@
            + comparison(is_inclusive) + " '"@ + signed_decimal(offset as int) + "'"@,
        EventPosition::SequenceNumber { sequence_number, is_inclusive } =>
            "amqp.annotation.x-opt-sequence-number "@ + comparison(is_inclusive) + " "@
            + signed_decimal(sequence_number as int),
        EventPosition::EnqueuedTime(millis) => "amqp.annotation.x-opt-enqueued-time > "@
            + signed_decimal(millis as int),
        EventPosition::Latest => "amqp.annotation.x-opt-offset > '@latest'"@,
    }
}

impl EventPosition {
    /// The start of the partition: offset `-1`, inclusive.
    pub fn earliest() -> (r: EventPosition)
        ensures
            r == (EventPosition::Offset { offset: -1i64, is_inclusive: true }),
    {
        EventPosition::Offset { offset: START_OF_STREAM_OFFSET, is_inclusive: true }
    }

    /// Only events enqueued after the receiver attaches.
    pub fn latest() -> (r: EventPosition)
        ensures
            r == EventPosition::Latest,
    {
        EventPosition::Latest
    }

    pub fn from_offset(offset: i64, is_inclusive: bool) -> (r: EventPosition)
        ensures
            r == (EventPosition::Offset { offset, is_inclusive }),
    {
        EventPosition::Offset { offset, is_inclusive }
    }

    pub fn from_sequence_number(sequence_number: i64, is_inclusive: bool) -> (r: EventPosition)
        ensures
            r == (EventPosition::SequenceNumber { sequence_number, is_inclusive }),
    {
        EventPosition::SequenceNumber { sequence_number, is_inclusive }
    }

    pub fn from_enqueued_time(millis: i64) -> (r: EventPosition)
        ensures
            r == EventPosition::EnqueuedTime(millis),
    {
        EventPosition::EnqueuedTime(millis)
    }

    /// The same position, exclusive of the event it names.
    pub fn exclusive(&self) -> (r: EventPosition)
        ensures
            r == exclusive_spec(*self),
    {
        match *self {
            EventPosition::Offset { offset, .. } => EventPosition::Offset {
                offset,
                is_inclusive: false,
            },
            EventPosition::SequenceNumber { sequence_number, .. } => EventPosition::SequenceNumber {
                sequence_number,
                is_inclusive: false,
            },
            p => p,
        }
    }

    /// Whether a receiver opened here may deliver the event at `offset`.
    pub fn admits(&self, offset: i64) -> (r: bool)
        ensures
            r == admits_offset(*self, offset as int),
    {
        match *self {
            EventPosition::Offset { offset: n, is_inclusive } => offset > n || (is_inclusive
                && offset == n),
            _ => true,
        }
    }

    /// The selector expression for the receiver's source filter.
    pub fn filter_expression(&self) -> (r: String)
        ensures
            r@ == filter_expression_spec(*self),
    {
        proof {
            reveal_strlit("amqp.annotation.x-opt-offset ");
            reveal_strlit("amqp.annotation.x-opt-sequence-number ");
            reveal_strlit("amqp.annotation.x-opt-enqueued-time > ");
            reveal_strlit("amqp.annotation.x-opt-offset > '@latest'");
            reveal_strlit(">=");
            reveal_strlit(">");
            reveal_strlit(" '");
            reveal_strlit("'");
            reveal_strlit(" ");
        }
        let mut s = String::new();
        match *self {
            EventPosition::Offset { offset, is_inclusive } => {
                s.append("amqp.annotation.x-opt-offset ");
                s.append(if is_inclusive { ">=" } else { ">" });
                s.append(" '");
                append_signed_decimal(&mut s, offset);
                s.append("'");
            },
            EventPosition::SequenceNumber { sequence_number, is_inclusive } => {
                s.append("amqp.annotation.x-opt-sequence-number ");
                s.append(if is_inclusive { ">=" } else { ">" });
                s.append(" ");
                append_signed_decimal(&mut s, sequence_number);
            },
            EventPosition::EnqueuedTime(millis) => {
                s.append("amqp.annotation.x-opt-enqueued-time > ");
                append_signed_decimal(&mut s, millis);
            },
            EventPosition::Latest => {
                s.append("amqp.annotation.x-opt-offset > '@latest'");
            },
        }
        proof {
            assert(s@ =~= filter_expression_spec(*self));
        }
        s
    }
}

} // verus!
