//! Broadcast of console output with a ring of recent history.
//!
//! Every push goes to the ring first and is then handed to the broadcast
//! channel. The producer never waits: when the channel takes no message the
//! push is counted as dropped and the ring still holds it.

use vstd::prelude::*;
use vstd::string::StringSliceAdditionalSpecFns;
use crate::bytes::copy_range;
use crate::rate_limiter::current_time_ms;

verus! {

/// Default number of entries kept in the ring.
pub const DEFAULT_BUFFER_SIZE: usize = 500;

/// Default capacity of the broadcast channel.
pub const DEFAULT_CHANNEL_CAPACITY: usize = 1024;

/// A buffered message with the time it was pushed, in milliseconds.
#[derive(Debug, Clone)]
pub struct LogEntry {
    pub data: Vec<u8>,
    pub timestamp: i64,
}

/// The sending half of a `tokio` broadcast channel, carried as an opaque value.
#[verifier::external_type_specification]
#[verifier::external_body]
#[verifier::reject_recursive_types(T)]
pub struct ExBroadcastSender<T>(tokio::sync::broadcast::Sender<T>);

/// The receiving half of a `tokio` broadcast channel, carried as an opaque value.
#[verifier::external_type_specification]
#[verifier::external_body]
#[verifier::reject_recursive_types(T)]
pub struct ExBroadcastReceiver<T>(tokio::sync::broadcast::Receiver<T>);

/// Creates a channel with `tokio::sync::broadcast::channel`, which panics for
/// a capacity of zero or above half of `usize::MAX`.
#[verifier::external_body]
pub(crate) fn open_channel<T: Clone>(capacity: usize) -> (r: (
    tokio::sync::broadcast::Sender<T>,
    tokio::sync::broadcast::Receiver<T>,
))
    requires
        0 < capacity <= usize::MAX / 2,
{
    tokio::sync::broadcast::channel(capacity)
}

/// Sends with `Sender::send`, which never waits, and reports whether the
/// channel took the message. That depends on the receivers alive at the time.
#[verifier::external_body]
pub(crate) fn broadcast<T>(sender: &tokio::sync::broadcast::Sender<T>, data: T) -> (delivered: bool) {
    sender.send(data).is_ok()
}

/// Subscribes with `Sender::subscribe`: the receiver sees what is sent after.
#[verifier::external_body]
pub(crate) fn new_receiver<T>(sender: &tokio::sync::broadcast::Sender<T>) -> (r:
    tokio::sync::broadcast::Receiver<T>) {
    sender.subscribe()
}

/// The number of receivers alive, by `Sender::receiver_count`.
#[verifier::external_body]
pub(crate) fn count_receivers<T>(sender: &tokio::sync::broadcast::Sender<T>) -> (n: usize) {
    sender.receiver_count()
}

/// The ring after one more entry: at the size limit the oldest entry leaves
/// first.
pub open spec fn ring_after(ring: Seq<LogEntry>, entry: LogEntry, size: usize) -> Seq<LogEntry> {
    if ring.len() >= size && ring.len() > 0 {
        ring.drop_first().push(entry)
    } else {
        ring.push(entry)
    }
}

/// The dropped-message count after a push.
pub open spec fn dropped_after(dropped: u64, delivered: bool) -> u64 {
    if delivered || dropped == u64::MAX {
        dropped
    } else {
        (dropped + 1) as u64
    }
}

/// A pool of subscribers to one stream of byte messages, with a ring of the
/// most recent messages for late joiners.
pub struct SinkPool {
    sender: tokio::sync::broadcast::Sender<Vec<u8>>,
    _receiver: tokio::sync::broadcast::Receiver<Vec<u8>>,
    channel_capacity: usize,
    buffer: Vec<LogEntry>,
    buffer_size: usize,
    dropped_messages: u64,
}

impl SinkPool {
    /// The ring, oldest entry first.
    pub closed spec fn history(&self) -> Seq<LogEntry> {
        self.buffer@
    }

    /// The size limit of the ring.
    pub closed spec fn ring_size(&self) -> usize {
        self.buffer_size
    }

    /// The number of messages the broadcast channel was made to hold for a
    /// subscriber before it lags.
    pub closed spec fn capacity(&self) -> usize {
        self.channel_capacity
    }

    /// The number of pushes the channel did not take.
    pub closed spec fn dropped(&self) -> u64 {
        self.dropped_messages
    }

    /// A pool with the default channel capacity and ring size.
    pub fn new() -> (p: Self)
        ensures
            p.history().len() == 0,
            p.ring_size() == 500,
            p.capacity() == 1024,
            p.dropped() == 0,
    {
        SinkPool::with_buffer_size(DEFAULT_CHANNEL_CAPACITY, DEFAULT_BUFFER_SIZE)
    }

    /// A pool with the given channel capacity and the default ring size.
    pub fn with_capacity(capacity: usize) -> (p: Self)
        requires
            0 < capacity <= usize::MAX / 2,
        ensures
            p.history().len() == 0,
            p.ring_size() == 500,
            p.capacity() == capacity,
            p.dropped() == 0,
    {
        SinkPool::with_buffer_size(capacity, DEFAULT_BUFFER_SIZE)
    }

    /// A pool with the given channel capacity and ring size.
    pub fn with_buffer_size(channel_capacity: usize, buffer_size: usize) -> (p: Self)
        requires
            0 < channel_capacity <= usize::MAX / 2,
        ensures
            p.history().len() == 0,
            p.ring_size() == buffer_size,
            p.capacity() == channel_capacity,
            p.dropped() == 0,
    {
        let (sender, receiver) = open_channel(channel_capacity);
        SinkPool {
            sender,
            _receiver: receiver,
            channel_capacity,
            buffer: Vec::new(),
            buffer_size,
            dropped_messages: 0,
        }
    }

    /// The number of messages the broadcast channel was made to hold.
    pub fn channel_capacity(&self) -> (n: usize)
        ensures
            n == self.capacity(),
    {
        self.channel_capacity
    }

    /// A receiver of every message pushed from now on.
    pub fn subscribe(&self) -> (r: tokio::sync::broadcast::Receiver<Vec<u8>>) {
        new_receiver(&self.sender)
    }

    /// The ring, oldest entry first.
    pub fn get_history(&self) -> (r: &Vec<LogEntry>)
        ensures
            r@ == self.history(),
    {
        &self.buffer
    }

    /// The ring as text, oldest entry first, each message decoded leniently.
    pub fn get_history_strings(&self) -> (r: Vec<String>)
        ensures
            r@.len() == self.history().len(),
            forall|i: int|
                0 <= i < r@.len() ==> (#[trigger] r@[i])@ == crate::text::lossy_decode(
                    self.history()[i].data@,
                ),
    {
        let mut out: Vec<String> = Vec::new();
        let mut i: usize = 0;
        while i < self.buffer.len()
            invariant
                i <= self.buffer@.len(),
                out@.len() == i,
                forall|j: int|
                    0 <= j < i ==> (#[trigger] out@[j])@ == crate::text::lossy_decode(
                        self.buffer@[j].data@,
                    ),
            decreases self.buffer@.len() - i,
        {
            out.push(crate::text::lossy_text(self.buffer[i].data.as_slice()));
            i = i + 1;
        }
        out
    }

    /// The ring as text with the timestamp of each message.
    pub fn get_history_with_timestamps(&self) -> (r: Vec<(String, i64)>)
        ensures
            r@.len() == self.history().len(),
            forall|i: int|
                0 <= i < r@.len() ==> (#[trigger] r@[i]).0@ == crate::text::lossy_decode(
                    self.history()[i].data@,
                ) && r@[i].1 == self.history()[i].timestamp,
    {
        let mut out: Vec<(String, i64)> = Vec::new();
        let mut i: usize = 0;
        while i < self.buffer.len()
            invariant
                i <= self.buffer@.len(),
                out@.len() == i,
                forall|j: int|
                    0 <= j < i ==> (#[trigger] out@[j]).0@ == crate::text::lossy_decode(
                        self.buffer@[j].data@,
                    ) && out@[j].1 == self.buffer@[j].timestamp,
            decreases self.buffer@.len() - i,
        {
            out.push((crate::text::lossy_text(self.buffer[i].data.as_slice()), self.buffer[i].timestamp));
            i = i + 1;
        }
        out
    }

    /// Empties the ring.
    pub fn clear_buffer(&mut self)
        ensures
            final(self).history().len() == 0,
            final(self).ring_size() == old(self).ring_size(),
            final(self).capacity() == old(self).capacity(),
            final(self).dropped() == old(self).dropped(),
    {
        self.buffer = Vec::new();
    }

    /// Puts an entry into the ring and counts the push as dropped unless the
    /// channel took it.
    pub fn record(&mut self, data: Vec<u8>, timestamp: i64, delivered: bool)
        ensures
            final(self).history() == ring_after(
                old(self).history(),
                LogEntry { data, timestamp },
                old(self).ring_size(),
            ),
            final(self).dropped() == dropped_after(old(self).dropped(), delivered),
            final(self).ring_size() == old(self).ring_size(),
            final(self).capacity() == old(self).capacity(),
    {
        if self.buffer.len() >= self.buffer_size && self.buffer.len() > 0 {
            self.buffer.remove(0);
            assert(self.buffer@ =~= old(self).buffer@.drop_first());
        }
        self.buffer.push(LogEntry { data, timestamp });
        if !delivered && self.dropped_messages < u64::MAX {
            self.dropped_messages = self.dropped_messages + 1;
        }
    }

    /// Pushes a message with the given timestamp. The ring receives it
    /// whatever the channel does; the dropped count grows by one exactly when
    /// the channel did not take it.
    pub fn push_with_timestamp(&mut self, data: Vec<u8>, timestamp: i64)
        ensures
            final(self).history() == ring_after(
                old(self).history(),
                LogEntry { data, timestamp },
                old(self).ring_size(),
            ),
            final(self).ring_size() == old(self).ring_size(),
            final(self).capacity() == old(self).capacity(),
            final(self).dropped() == old(self).dropped() || final(self).dropped() == old(self).dropped() + 1,
    {
        let copy = copy_range(data.as_slice(), 0, data.len());
        let delivered = broadcast(&self.sender, copy);
        self.record(data, timestamp, delivered);
    }

    /// Pushes a message stamped with the current wall-clock time.
    pub fn push(&mut self, data: Vec<u8>)
        ensures
            final(self).history().len() >= 1,
            final(self).history().last().data == data,
            final(self).history().len() <= old(self).history().len() + 1,
            final(self).ring_size() == old(self).ring_size(),
            final(self).capacity() == old(self).capacity(),
    {
        let now: u64 = current_time_ms();
        let stamp: i64 = if now <= 9223372036854775807 { now as i64 } else { 9223372036854775807 };
        self.push_with_timestamp(data, stamp);
    }

    /// Pushes the bytes of a text.
    pub fn push_string(&mut self, data: &str)
        ensures
            final(self).history().len() >= 1,
            final(self).history().last().data@ == data.spec_bytes(),
            final(self).ring_size() == old(self).ring_size(),
            final(self).capacity() == old(self).capacity(),
    {
        let bytes = data.as_bytes();
        let owned = copy_range(bytes, 0, bytes.len());
        assert(bytes@.subrange(0, bytes@.len() as int) =~= bytes@);
        self.push(owned);
    }

    /// Pushes the bytes of a text with the given timestamp.
    pub fn push_string_with_timestamp(&mut self, data: &str, timestamp: i64)
        ensures
            final(self).history().len() >= 1,
            final(self).history().last().data@ == data.spec_bytes(),
            final(self).history().last().timestamp == timestamp,
            final(self).ring_size() == old(self).ring_size(),
            final(self).capacity() == old(self).capacity(),
    {
        let bytes = data.as_bytes();
        let owned = copy_range(bytes, 0, bytes.len());
        assert(bytes@.subrange(0, bytes@.len() as int) =~= bytes@);
        self.push_with_timestamp(owned, timestamp);
    }

    /// The number of receivers alive, the pool's own included.
    pub fn subscriber_count(&self) -> (n: usize) {
        count_receivers(&self.sender)
    }

    /// The number of entries in the ring.
    pub fn buffer_len(&self) -> (n: usize)
        ensures
            n == self.history().len(),
    {
        self.buffer.len()
    }

    /// The number of pushes the channel did not take.
    pub fn dropped_message_count(&self) -> (n: u64)
        ensures
            n == self.dropped(),
    {
        self.dropped_messages
    }

    /// Sets the dropped count back to zero.
    pub fn reset_dropped_count(&mut self)
        ensures
            final(self).dropped() == 0,
            final(self).history() == old(self).history(),
            final(self).ring_size() == old(self).ring_size(),
            final(self).capacity() == old(self).capacity(),
    {
        self.dropped_messages = 0;
    }
}

/// The ring keeps the order of pushes: after a push the new entry is last,
/// and what stays of the old ring stays in its order before it.
pub proof fn lemma_ring_keeps_order(ring: Seq<LogEntry>, entry: LogEntry, size: usize)
    ensures
        ring_after(ring, entry, size).last() == entry,
        ring_after(ring, entry, size).drop_last() == if ring.len() >= size && ring.len() > 0 {
            ring.drop_first()
        } else {
            ring
        },
        ring.len() <= size && size > 0 ==> ring_after(ring, entry, size).len() <= size,
{
    if ring.len() >= size && ring.len() > 0 {
        assert(ring.drop_first().push(entry).drop_last() =~= ring.drop_first());
    } else {
        assert(ring.push(entry).drop_last() =~= ring);
    }
}

} // verus!
