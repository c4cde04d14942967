//! The bounded FIFO handoff between the sample producer and the callback.
//!
//! The channel is the single synchronization boundary of the pipeline: the
//! generation loop is its only writer, the hardware callback its only reader.
//! This module verifies the state machine of that handoff — strict FIFO
//! order, the fixed capacity bound, and the tagged closed state that lets
//! both sides terminate deterministically. `push` and `pop` here are the
//! non-blocking core: `Err(Full)` and `Err(Empty)` mark exactly the states in
//! which a blocking producer or consumer would suspend, and the unverified
//! front end turns them into waits on a condition variable.

use vstd::prelude::*;

use crate::ConfigError;

verus! {

/// Derives the channel capacity from the sample rate: a slice of roughly
/// `1/LATENCY_DIVISOR` seconds of audio (4 ms at the default divisor), which
/// caps end-to-end latency while tolerating momentary producer jitter.
pub const LATENCY_DIVISOR: u32 = 250;

/// Why a channel operation did not hand over a sample.
#[derive(Clone, Copy, PartialEq, Eq, Structural, Debug)]
pub enum ChannelError {
    /// The channel holds `capacity` samples; a blocking producer would wait.
    Full,
    /// The channel holds no sample; a blocking consumer would wait.
    Empty,
    /// The channel was shut down: the terminal condition, surfaced instead of
    /// blocking forever.
    Closed,
}

/// A bounded FIFO queue of samples with a tagged closed state. Its view is
/// the sequence of buffered samples, oldest first.
pub struct SampleChannel<T> {
    items: Vec<T>,
    capacity: usize,
    closed: bool,
}

impl<T> View for SampleChannel<T> {
    type V = Seq<T>;

    closed spec fn view(&self) -> Seq<T> {
        self.items@
    }
}

/// The capacity a channel gets for a given sample rate.
pub fn channel_capacity(sample_rate: u32) -> (capacity: usize)
    ensures
        capacity == sample_rate / LATENCY_DIVISOR,
{
    (sample_rate / LATENCY_DIVISOR) as usize
}

impl<T> SampleChannel<T> {
    /// The fixed capacity, set at construction and never resized.
    pub closed spec fn spec_capacity(self) -> usize {
        self.capacity
    }

    /// Whether the channel was shut down.
    pub closed spec fn is_closed(self) -> bool {
        self.closed
    }

    /// Well-formedness: the buffer never exceeds the (positive) capacity.
    pub open spec fn wf(self) -> bool {
        &&& self@.len() <= self.spec_capacity()
        &&& self.spec_capacity() >= 1
    }

    /// Creates an empty, open channel. A zero capacity is a configuration
    /// error and is rejected, never coerced.
    pub fn new(capacity: usize) -> (result: Result<SampleChannel<T>, ConfigError>)
        ensures
            capacity >= 1 ==> (result matches Ok(c) && c.wf() && c@ == Seq::<T>::empty()
                && c.spec_capacity() == capacity && !c.is_closed()),
            capacity == 0 ==> result == Err::<SampleChannel<T>, ConfigError>(
                ConfigError::InvalidCapacity,
            ),
    {
        if capacity == 0 {
            return Err(ConfigError::InvalidCapacity);
        }
        Ok(SampleChannel { items: Vec::new(), capacity, closed: false })
    }

    /// Creates the channel sized for a sample rate, holding about 4 ms of
    /// audio. A sample rate below [`LATENCY_DIVISOR`] leaves no room to
    /// buffer even one sample and is rejected as a configuration error.
    pub fn for_sample_rate(sample_rate: u32) -> (result: Result<SampleChannel<T>, ConfigError>)
        ensures
            sample_rate / LATENCY_DIVISOR >= 1 ==> (result matches Ok(c) && c.wf() && c@
                == Seq::<T>::empty() && c.spec_capacity() == sample_rate / LATENCY_DIVISOR
                && !c.is_closed()),
            sample_rate / LATENCY_DIVISOR == 0 ==> result == Err::<SampleChannel<T>, ConfigError>(
                ConfigError::InvalidSampleRate,
            ),
    {
        let capacity = channel_capacity(sample_rate);
        if capacity == 0 {
            return Err(ConfigError::InvalidSampleRate);
        }
        match Self::new(capacity) {
            Ok(c) => Ok(c),
            Err(_) => Err(ConfigError::InvalidSampleRate),
        }
    }

    /// The fixed capacity.
    pub fn capacity(&self) -> (n: usize)
        ensures
            n == self.spec_capacity(),
    {
        self.capacity
    }

    /// The number of buffered samples.
    pub fn len(&self) -> (n: usize)
        ensures
            n == self@.len(),
    {
        self.items.len()
    }

    /// Appends a sample at the back. Succeeds if and only if the channel is
    /// open and below capacity; `Err(Full)` is the backpressure state in
    /// which a blocking producer suspends, and `Err(Closed)` tells a producer
    /// to terminate. A failed push leaves the channel unchanged.
    pub fn push(&mut self, value: T) -> (result: Result<(), ChannelError>)
        requires
            old(self).wf(),
        ensures
            final(self).wf(),
            final(self).spec_capacity() == old(self).spec_capacity(),
            final(self).is_closed() == old(self).is_closed(),
            old(self).is_closed() ==> result == Err::<(), ChannelError>(ChannelError::Closed)
                && final(self)@ == old(self)@,
            !old(self).is_closed() && old(self)@.len() == old(self).spec_capacity() ==> result
                == Err::<(), ChannelError>(ChannelError::Full) && final(self)@ == old(self)@,
            !old(self).is_closed() && old(self)@.len() < old(self).spec_capacity() ==> result
                == Ok::<(), ChannelError>(()) && final(self)@ == old(self)@.push(value),
    {
        if self.closed {
            return Err(ChannelError::Closed);
        }
        if self.items.len() == self.capacity {
            return Err(ChannelError::Full);
        }
        self.items.push(value);
        Ok(())
    }

    /// Removes and returns the oldest sample. Succeeds if and only if a
    /// sample is buffered — a closed channel still drains what it holds.
    /// On an empty channel, `Err(Empty)` is the starvation state in which a
    /// blocking consumer suspends, and `Err(Closed)` is the terminal
    /// condition once the producer has shut the channel down.
    pub fn pop(&mut self) -> (result: Result<T, ChannelError>)
        requires
            old(self).wf(),
        ensures
            final(self).wf(),
            final(self).spec_capacity() == old(self).spec_capacity(),
            final(self).is_closed() == old(self).is_closed(),
            old(self)@.len() >= 1 ==> (result matches Ok(v) && v == old(self)@[0] && final(self)@
                == old(self)@.drop_first()),
            old(self)@.len() == 0 && old(self).is_closed() ==> result == Err::<T, ChannelError>(
                ChannelError::Closed,
            ) && final(self)@ == old(self)@,
            old(self)@.len() == 0 && !old(self).is_closed() ==> result == Err::<T, ChannelError>(
                ChannelError::Empty,
            ) && final(self)@ == old(self)@,
    {
        if self.items.len() >= 1 {
            let value = self.items.remove(0);
            proof {
                assert(self.items@ =~= old(self).items@.drop_first());
            }
            Ok(value)
        } else if self.closed {
            Err(ChannelError::Closed)
        } else {
            Err(ChannelError::Empty)
        }
    }

    /// Shuts the channel down: pushes fail with `Closed` from now on, and
    /// pops fail with `Closed` once the buffered samples are drained, so both
    /// sides terminate instead of blocking forever. Buffered samples are
    /// kept; nothing is dropped.
    pub fn close(&mut self)
        ensures
            final(self)@ == old(self)@,
            final(self).spec_capacity() == old(self).spec_capacity(),
            final(self).is_closed(),
            old(self).wf() ==> final(self).wf(),
    {
        self.closed = true;
    }
}

/// Strict FIFO order: pushing `s1`, `s2`, `s3` onto an empty channel leaves
/// the view `[s1, s2, s3]` (by [`SampleChannel::push`]'s contract), and three
/// pops — each returning the view's head and dropping it (by
/// [`SampleChannel::pop`]'s contract) — hand back exactly `s1`, then `s2`,
/// then `s3`, leaving the channel empty.
pub proof fn lemma_fifo_order<T>(s1: T, s2: T, s3: T)
    ensures
        ({
            let q = Seq::<T>::empty().push(s1).push(s2).push(s3);
            &&& q[0] == s1
            &&& q.drop_first()[0] == s2
            &&& q.drop_first().drop_first()[0] == s3
            &&& q.drop_first().drop_first().drop_first() == Seq::<T>::empty()
        }),
{
    let q = Seq::<T>::empty().push(s1).push(s2).push(s3);
    assert(q.drop_first() =~= seq![s2, s3]);
    assert(q.drop_first().drop_first() =~= seq![s3]);
    assert(q.drop_first().drop_first().drop_first() =~= Seq::<T>::empty());
}

} // verus!
