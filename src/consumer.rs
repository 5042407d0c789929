use vstd::prelude::*;

use crate::position::{admits_offset, exclusive_spec, EventPosition};

verus! {

/// Prefetch used when a consumer does not ask for one.
pub const DEFAULT_PREFETCH_COUNT: u32 = 300;

/// The immutable snapshot a consumer was opened with, used to rebuild it.
#[derive(Debug, Clone, PartialEq, Eq)]
pub struct ConsumerOptions {
    pub consumer_group: String,
    pub partition_id: String,
    pub event_position: EventPosition,
    pub prefetch_count: u32,
    pub owner_level: Option<i64>,
    pub track_last_enqueued_event_properties: bool,
    pub identifier: Option<String>,
}

/// The prefetch a consumer runs with.
pub fn effective_prefetch(requested: Option<u32>) -> (r: u32)
    ensures
        r == match requested {
            Some(p) => p,
            None => DEFAULT_PREFETCH_COUNT,
        },
{
    match requested {
        Some(p) => p,
        None => DEFAULT_PREFETCH_COUNT,
    }
}

/// Credit to grant before receiving one event: one when credit is manual
/// (no prefetch), none otherwise.
pub fn receive_one_credit(prefetch_count: u32) -> (r: Option<u32>)
    ensures
        prefetch_count == 0 ==> r == Some(1u32),
        prefetch_count != 0 ==> r is None,
{
    if prefetch_count == 0 {
        Some(1)
    } else {
        None
    }
}

/// Credit topped up when a single receive times out: `max(1, prefetch)`.
pub fn timeout_top_up_credit(prefetch_count: u32) -> (r: u32)
    ensures
        r == (if prefetch_count == 0 { 1 } else { prefetch_count }),
{
    if prefetch_count == 0 {
        1
    } else {
        prefetch_count
    }
}

/// Credit to grant before filling a buffer holding `len` of `capacity` events:
/// `max(capacity - len, 1)` (saturated to `u32`) when credit is manual, none otherwise.
pub fn batch_credit(prefetch_count: u32, capacity: usize, len: usize) -> (r: Option<u32>)
    requires
        len <= capacity,
    ensures
        prefetch_count != 0 ==> r is None,
        prefetch_count == 0 ==> r == Some(
            (if capacity - len == 0 {
                1
            } else if capacity - len > u32::MAX {
                u32::MAX as int
            } else {
                capacity - len
            }) as u32,
        ),
{
    if prefetch_count != 0 {
        return None;
    }
    let room = capacity - len;
    if room == 0 {
        Some(1)
    } else if room > u32::MAX as usize {
        Some(u32::MAX)
    } else {
        Some(room as u32)
    }
}

/// Every element is smaller than the ones after it.
pub open spec fn strictly_increasing(s: Seq<i64>) -> bool {
    forall|i: int, j: int| 0 <= i < j < s.len() ==> s[i] < s[j]
}

/// Where a consumer stands in its partition: the position it was (re)opened at,
/// the position of the last delivered event, and the offsets delivered so far.
pub struct ConsumerProgress {
    pub initial_position: EventPosition,
    pub current_event_position: Option<EventPosition>,
    pub delivered: Ghost<Seq<i64>>,
}

impl ConsumerProgress {
    /// The position the consumer would be reopened at, before making it exclusive.
    pub open spec fn effective_position(&self) -> EventPosition {
        match self.current_event_position {
            Some(p) => p,
            None => self.initial_position,
        }
    }

    /// The position a rebuilt receiver is opened at.
    pub open spec fn recovery_position_spec(&self) -> EventPosition {
        exclusive_spec(self.effective_position())
    }

    /// Delivered offsets only grow, and once anything was delivered the
    /// consumer stands just after the last delivered offset.
    pub open spec fn wf(&self) -> bool {
        &&& strictly_increasing(self.delivered@)
        &&& self.delivered@.len() > 0 ==> self.effective_position() == (EventPosition::Offset {
            offset: self.delivered@.last(),
            is_inclusive: false,
        })
        &&& self.current_event_position is Some ==> self.delivered@.len() > 0
    }

    /// Progress of a consumer opened at `position`, before any delivery.
    pub fn new(position: EventPosition) -> (r: ConsumerProgress)
        ensures
            r.wf(),
            r.initial_position == position,
            r.current_event_position is None,
            r.delivered@ == Seq::<i64>::empty(),
    {
        ConsumerProgress {
            initial_position: position,
            current_event_position: None,
            delivered: Ghost(Seq::empty()),
        }
    }

    /// Records a received event. An event without an offset is passed on and
    /// leaves the position alone. An event whose offset the current position
    /// does not admit (at or before an event already delivered) is refused
    /// and reported by `false`, so the position never regresses; any other
    /// event moves the position just past its offset. This is a guard, not
    /// deduplication: a broker that honours the receiver's filter and its
    /// delivery order never sends such an event, and the caller decides what
    /// to do with one that is refused.
    pub fn record_delivery(&mut self, offset: Option<i64>) -> (accepted: bool)
        requires
            old(self).wf(),
        ensures
            final(self).wf(),
            final(self).initial_position == old(self).initial_position,
            match offset {
                None => accepted && *final(self) == *old(self),
                Some(o) => {
                    &&& accepted == admits_offset(old(self).effective_position(), o as int)
                    &&& accepted ==> final(self).current_event_position == Some(
                        EventPosition::Offset { offset: o, is_inclusive: false },
                    ) && final(self).delivered@ == old(self).delivered@.push(o)
                    &&& !accepted ==> *final(self) == *old(self)
                },
            },
    {
        match offset {
            None => true,
            Some(o) => {
                let current = match self.current_event_position {
                    Some(p) => p,
                    None => self.initial_position,
                };
                if current.admits(o) {
                    self.current_event_position = Some(EventPosition::from_offset(o, false));
                    self.delivered = Ghost(self.delivered@.push(o));
                    true
                } else {
                    false
                }
            },
        }
    }

    /// The position a rebuilt receiver is opened at: the current position, or
    /// the initial one when nothing was delivered, made exclusive.
    pub fn recovery_position(&self) -> (r: EventPosition)
        ensures
            r == self.recovery_position_spec(),
    {
        let p = match self.current_event_position {
            Some(p) => p,
            None => self.initial_position,
        };
        p.exclusive()
    }

    /// Restarts the progress on a rebuilt receiver opened at the recovery
    /// position; the delivered history carries over.
    pub fn rebuild(&mut self) -> (r: EventPosition)
        requires
            old(self).wf(),
        ensures
            final(self).wf(),
            r == old(self).recovery_position_spec(),
            final(self).initial_position == r,
            final(self).current_event_position is None,
            final(self).delivered@ == old(self).delivered@,
            final(self).recovery_position_spec() == old(self).recovery_position_spec(),
    {
        let p = self.recovery_position();
        self.initial_position = p;
        self.current_event_position = None;
        p
    }
}

/// Monotonic progress: whatever faults and rebuilds happened, the offsets a
/// consumer delivered are strictly increasing.
pub proof fn lemma_monotonic_progress(p: ConsumerProgress)
    requires
        p.wf(),
    ensures
        forall|i: int, j: int| 0 <= i < j < p.delivered@.len() ==> p.delivered@[i] < p.delivered@[j],
{
}

/// No redelivery after recovery: a receiver rebuilt at the recovery position
/// admits none of the offsets delivered before.
pub proof fn lemma_no_redelivery_after_recovery(p: ConsumerProgress)
    requires
        p.wf(),
    ensures
        forall|i: int|
            0 <= i < p.delivered@.len() ==> !admits_offset(
                #[trigger] p.recovery_position_spec(),
                p.delivered@[i] as int,
            ),
{
    if p.delivered@.len() > 0 {
        assert forall|i: int| 0 <= i < p.delivered@.len() implies p.delivered@[i] <= p.delivered@.last() by {
            if i < p.delivered@.len() - 1 {
                assert(p.delivered@[i] < p.delivered@[p.delivered@.len() - 1]);
            }
        }
    }
}

/// The last event handed to the caller, kept only when the consumer tracks
/// the last enqueued event's properties.
pub struct LastEventTracker<E> {
    pub track: bool,
    pub last_received_event: Option<E>,
}

impl<E> LastEventTracker<E> {
    /// A tracker for a consumer opened with `options`; nothing received yet.
    pub fn for_options(options: &ConsumerOptions) -> (r: LastEventTracker<E>)
        ensures
            r.track == options.track_last_enqueued_event_properties,
            r.last_received_event is None,
    {
        LastEventTracker { track: options.track_last_enqueued_event_properties, last_received_event: None }
    }

    /// Notes the newest event handed to the caller; kept only when tracking.
    pub fn observe(&mut self, event: E)
        ensures
            final(self).track == old(self).track,
            old(self).track ==> final(self).last_received_event == Some(event),
            !old(self).track ==> final(self).last_received_event == old(self).last_received_event,
    {
        if self.track {
            self.last_received_event = Some(event);
        }
    }

    /// The last event handed to the caller, when tracking.
    pub fn last_received_event(&self) -> (r: Option<&E>)
        ensures
            r is Some <==> self.last_received_event is Some,
            r matches Some(e) ==> self.last_received_event == Some(*e),
    {
        match &self.last_received_event {
            Some(e) => Some(e),
            None => None,
        }
    }
}

impl ConsumerOptions {
    /// The options a consumer is rebuilt with: the same snapshot, opened at
    /// `position`.
    pub fn reopened_at(&self, position: EventPosition) -> (r: ConsumerOptions)
        ensures
            r.consumer_group@ == self.consumer_group@,
            r.partition_id@ == self.partition_id@,
            r.event_position == position,
            r.prefetch_count == self.prefetch_count,
            r.owner_level == self.owner_level,
            r.track_last_enqueued_event_properties == self.track_last_enqueued_event_properties,
            r.identifier == self.identifier,
    {
        ConsumerOptions {
            consumer_group: self.consumer_group.clone(),
            partition_id: self.partition_id.clone(),
            event_position: position,
            prefetch_count: self.prefetch_count,
            owner_level: self.owner_level,
            track_last_enqueued_event_properties: self.track_last_enqueued_event_properties,
            identifier: self.identifier.clone(),
        }
    }
}

} // verus!
