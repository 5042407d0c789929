use vstd::prelude::*;

verus! {

/// Options for creating an event batch.
#[derive(Debug, Clone, PartialEq, Eq, Default)]
pub struct CreateBatchOptions {
    /// Largest size the batch may reach; the link's maximum message size when absent.
    pub max_size_in_bytes: Option<u64>,
    pub partition_id: Option<String>,
    pub partition_key: Option<String>,
}

/// Why a batch could not be created.
#[derive(Debug, Clone, Copy, PartialEq, Eq, Structural)]
pub enum CreateBatchError {
    /// A partition id and a partition key were both given.
    PartitionIdAndKey,
    /// The requested size is larger than the link's maximum message size.
    MaxSizeExceedsLink,
}

/// Why an event could not be added to a batch.
#[derive(Debug, Clone, PartialEq, Eq)]
pub enum TryAddError {
    /// The batch already holds events and this one does not fit; it is handed back.
    BatchFull(Vec<u8>),
    /// The event does not fit even in an empty batch.
    MessageTooLarge,
}

/// Bytes an encoded message of `len` bytes takes inside a batch: the message
/// wrapped in an AMQP data section (descriptor, constructor and length).
pub open spec fn entry_size(len: nat) -> nat {
    if len <= 255 {
        len + 5
    } else {
        len + 8
    }
}

/// Total size of the batched messages.
pub open spec fn entries_size(msgs: Seq<Vec<u8>>) -> nat
    decreases msgs.len(),
{
    if msgs.len() == 0 {
        0
    } else {
        entries_size(msgs.drop_last()) + entry_size(msgs.last()@.len())
    }
}

/// A batch of encoded events bound for one send.
pub struct EventBatch {
    max_size_in_bytes: u64,
    overhead_in_bytes: u64,
    size_in_bytes: u64,
    messages: Vec<Vec<u8>>,
    partition_id: Option<String>,
    partition_key: Option<String>,
}

impl EventBatch {
    pub closed spec fn max_size_spec(&self) -> nat {
        self.max_size_in_bytes as nat
    }

    pub closed spec fn overhead_spec(&self) -> nat {
        self.overhead_in_bytes as nat
    }

    pub closed spec fn messages_spec(&self) -> Seq<Vec<u8>> {
        self.messages@
    }

    pub closed spec fn partition_id_spec(&self) -> Option<String> {
        self.partition_id
    }

    pub closed spec fn partition_key_spec(&self) -> Option<String> {
        self.partition_key
    }

    /// Size of the whole batch: envelope overhead plus every batched message.
    pub open spec fn size_spec(&self) -> nat {
        self.overhead_spec() + entries_size(self.messages_spec())
    }

    pub closed spec fn wf(&self) -> bool {
        &&& self.size_in_bytes as nat == self.size_spec()
        &&& self.messages@.len() > 0 ==> self.size_spec() <= self.max_size_spec()
    }

    /// An empty batch. `link_max_message_size` is the link's negotiated maximum
    /// message size and `overhead_in_bytes` the encoded size of the empty
    /// batch envelope.
    pub fn new(options: CreateBatchOptions, link_max_message_size: u64, overhead_in_bytes: u64) -> (r:
        Result<EventBatch, CreateBatchError>)
        ensures
            options.partition_id is Some && options.partition_key is Some ==> r == Err::<
                EventBatch,
                CreateBatchError,
            >(CreateBatchError::PartitionIdAndKey),
            !(options.partition_id is Some && options.partition_key is Some) && (
            options.max_size_in_bytes matches Some(m) && m > link_max_message_size) ==> r == Err::<
                EventBatch,
                CreateBatchError,
            >(CreateBatchError::MaxSizeExceedsLink),
            r matches Ok(b) ==> {
                &&& b.wf()
                &&& b.messages_spec().len() == 0
                &&& b.max_size_spec() == match options.max_size_in_bytes {
                    Some(m) => m,
                    None => link_max_message_size,
                }
                &&& b.overhead_spec() == overhead_in_bytes
                &&& b.partition_id_spec() == options.partition_id
                &&& b.partition_key_spec() == options.partition_key
            },
            r is Ok <==> !(options.partition_id is Some && options.partition_key is Some) && !(
            options.max_size_in_bytes matches Some(m) && m > link_max_message_size),
    {
        if options.partition_id.is_some() && options.partition_key.is_some() {
            return Err(CreateBatchError::PartitionIdAndKey);
        }
        let max = match options.max_size_in_bytes {
            Some(m) => {
                if m > link_max_message_size {
                    return Err(CreateBatchError::MaxSizeExceedsLink);
                }
                m
            },
            None => link_max_message_size,
        };
        Ok(EventBatch {
            max_size_in_bytes: max,
            overhead_in_bytes,
            size_in_bytes: overhead_in_bytes,
            messages: Vec::new(),
            partition_id: options.partition_id,
            partition_key: options.partition_key,
        })
    }

    /// Adds an encoded event when the batch stays within its maximum size.
    pub fn try_add(&mut self, message: Vec<u8>) -> (r: Result<(), TryAddError>)
        requires
            old(self).wf(),
        ensures
            final(self).wf(),
            final(self).max_size_spec() == old(self).max_size_spec(),
            final(self).overhead_spec() == old(self).overhead_spec(),
            final(self).partition_id_spec() == old(self).partition_id_spec(),
            final(self).partition_key_spec() == old(self).partition_key_spec(),
            ({
                let fits = old(self).size_spec() + entry_size(message@.len())
                    <= old(self).max_size_spec();
                &&& fits ==> r is Ok && final(self).messages_spec() == old(self).messages_spec().push(
                    message,
                )
                &&& !fits && old(self).messages_spec().len() > 0 ==> r == Err::<(), TryAddError>(
                    TryAddError::BatchFull(message),
                ) && final(self).messages_spec() == old(self).messages_spec()
                &&& !fits && old(self).messages_spec().len() == 0 ==> r == Err::<(), TryAddError>(
                    TryAddError::MessageTooLarge,
                ) && final(self).messages_spec() == old(self).messages_spec()
            }),
    {
        let len = message.len() as u64;
        let framing: u64 = if len <= 255 {
            5
        } else {
            8
        };
        let fits = self.size_in_bytes <= self.max_size_in_bytes && len <= self.max_size_in_bytes
            - self.size_in_bytes && framing <= self.max_size_in_bytes - self.size_in_bytes - len;
        if fits {
            let ghost before = self.messages@;
            self.size_in_bytes = self.size_in_bytes + len + framing;
            self.messages.push(message);
            proof {
                assert(self.messages@.drop_last() =~= before);
            }
            Ok(())
        } else if self.messages.len() > 0 {
            Err(TryAddError::BatchFull(message))
        } else {
            Err(TryAddError::MessageTooLarge)
        }
    }

    /// Number of events in the batch.
    pub fn len(&self) -> (r: usize)
        ensures
            r == self.messages_spec().len(),
    {
        self.messages.len()
    }

    pub fn is_empty(&self) -> (r: bool)
        ensures
            r == (self.messages_spec().len() == 0),
    {
        self.messages.len() == 0
    }

    /// Current size of the batch in bytes.
    pub fn size_in_bytes(&self) -> (r: u64)
        requires
            self.wf(),
        ensures
            r == self.size_spec(),
    {
        self.size_in_bytes
    }

    pub fn max_size_in_bytes(&self) -> (r: u64)
        ensures
            r == self.max_size_spec(),
    {
        self.max_size_in_bytes
    }

    /// The encoded events, in the order they were added.
    pub fn messages(&self) -> (r: &Vec<Vec<u8>>)
        ensures
            r@ == self.messages_spec(),
    {
        &self.messages
    }

    pub fn partition_id(&self) -> (r: &Option<String>)
        ensures
            *r == self.partition_id_spec(),
    {
        &self.partition_id
    }

    pub fn partition_key(&self) -> (r: &Option<String>)
        ensures
            *r == self.partition_key_spec(),
    {
        &self.partition_key
    }
}

/// Batch capacity: every non-empty well-formed batch, whatever sequence of
/// adds built it, stays within its maximum size.
pub proof fn lemma_batch_capacity(b: EventBatch)
    requires
        b.wf(),
        b.messages_spec().len() > 0,
    ensures
        b.overhead_spec() + entries_size(b.messages_spec()) <= b.max_size_spec(),
{
}

} // verus!
