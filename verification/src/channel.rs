//! State channels: single-slot, latest-value cells that tell their observers
//! when a value is pending.
//!
//! A channel keeps one current value and a generation counter that advances on
//! every `set`. Each observer remembers the generation it saw last, so any
//! number of writes between two observations collapse into the newest value.

use vstd::prelude::*;

verus! {

/// What an observer finds when it looks at a channel.
#[derive(Debug, PartialEq, Eq)]
pub enum Observation<T> {
    /// A value the observer had not seen yet: the latest one.
    Changed(T),
    /// Nothing new, and the producer is still there.
    Unchanged,
    /// Nothing new, and the producer is gone for good.
    Closed,
}

/// A value that `set` could not deliver because nobody observes the channel.
#[derive(Debug, PartialEq, Eq)]
pub struct Rejected<T> {
    pub value: T,
}

/// Mathematical model of a channel.
pub ghost struct ChannelView<T> {
    /// The latest value.
    pub value: T,
    /// Number of successful writes so far, counted modulo 2^64.
    pub generation: u64,
    /// Number of registered observers.
    pub observers: nat,
    /// Whether the producer is still there.
    pub open: bool,
}

impl<T> ChannelView<T> {
    /// A fresh channel around `initial`.
    pub open spec fn fresh(initial: T) -> Self {
        ChannelView { value: initial, generation: 0, observers: 0, open: true }
    }

    /// The generation that follows `generation`.
    pub open spec fn next_generation(generation: u64) -> u64 {
        if generation == u64::MAX {
            0
        } else {
            (generation + 1) as u64
        }
    }

    /// The channel after a delivered write of `value`.
    pub open spec fn set(self, value: T) -> Self {
        ChannelView { value, generation: Self::next_generation(self.generation), ..self }
    }

    /// The channel after the writes `values`, oldest first, were all delivered.
    pub open spec fn set_all(self, values: Seq<T>) -> Self
        decreases values.len(),
    {
        if values.len() == 0 {
            self
        } else {
            self.set_all(values.drop_last()).set(values.last())
        }
    }

    /// The channel with one more observer.
    pub open spec fn subscribed(self) -> Self {
        ChannelView { observers: self.observers + 1, ..self }
    }

    /// The channel with one observer fewer, if it had any.
    pub open spec fn unsubscribed(self) -> Self {
        ChannelView {
            observers: if self.observers > 0 {
                (self.observers - 1) as nat
            } else {
                0
            },
            ..self
        }
    }

    /// The channel after its producer left.
    pub open spec fn closed(self) -> Self {
        ChannelView { open: false, ..self }
    }

    /// What an observer that last saw generation `seen` finds.
    pub open spec fn observe(self, seen: u64) -> Observation<T> {
        if seen != self.generation {
            Observation::Changed(self.value)
        } else if self.open {
            Observation::Unchanged
        } else {
            Observation::Closed
        }
    }
}

/// A single-slot, latest-value cell with change notification.
#[derive(Debug)]
pub struct Channel<T> {
    value: T,
    generation: u64,
    observers: usize,
    open: bool,
}

impl<T> View for Channel<T> {
    type V = ChannelView<T>;

    closed spec fn view(&self) -> ChannelView<T> {
        ChannelView {
            value: self.value,
            generation: self.generation,
            observers: self.observers as nat,
            open: self.open,
        }
    }
}

/// One reader's position on a channel: the generation it saw last.
#[derive(Clone, Copy, Debug)]
pub struct Observer {
    seen: u64,
}

impl View for Observer {
    type V = u64;

    closed spec fn view(&self) -> u64 {
        self.seen
    }
}

impl<T> Channel<T> {
    /// Creates an open channel that holds `initial` and has no observers.
    pub fn new(initial: T) -> (channel: Self)
        ensures
            channel@ == ChannelView::fresh(initial),
    {
        Channel { value: initial, generation: 0, observers: 0, open: true }
    }

    /// Registers an observer. It counts the current value as already seen.
    pub fn subscribe(&mut self) -> (observer: Observer)
        requires
            old(self)@.observers < usize::MAX,
        ensures
            final(self)@ == old(self)@.subscribed(),
            observer@ == old(self)@.generation,
    {
        self.observers = self.observers + 1;
        Observer { seen: self.generation }
    }

    /// Takes an observer off the channel.
    pub fn unsubscribe(&mut self, observer: Observer)
        ensures
            final(self)@ == old(self)@.unsubscribed(),
    {
        if self.observers > 0 {
            self.observers = self.observers - 1;
        }
    }

    /// Overwrites the value and marks it pending for every observer. Fails,
    /// handing the value back and changing nothing, exactly when no observer
    /// is registered.
    pub fn set(&mut self, value: T) -> (result: Result<(), Rejected<T>>)
        ensures
            old(self)@.observers > 0 ==> result is Ok && final(self)@ == old(self)@.set(value),
            old(self)@.observers == 0 ==> result == Err::<(), Rejected<T>>(Rejected { value })
                && final(self)@ == old(self)@,
    {
        if self.observers == 0 {
            return Err(Rejected { value });
        }
        self.value = value;
        self.generation = if self.generation == u64::MAX {
            0
        } else {
            self.generation + 1
        };
        Ok(())
    }

    /// Records that the producer is gone. The last value stays readable, and
    /// observers that have not seen it yet still get it before they are told
    /// that the channel is closed.
    pub fn close(&mut self)
        ensures
            final(self)@ == old(self)@.closed(),
    {
        self.open = false;
    }

    /// The latest value.
    pub fn borrow(&self) -> (value: &T)
        ensures
            *value == self@.value,
    {
        &self.value
    }

    /// Number of registered observers.
    pub fn observer_count(&self) -> (count: usize)
        ensures
            count == self@.observers,
    {
        self.observers
    }

    /// Whether the producer is still there.
    pub fn is_open(&self) -> (open: bool)
        ensures
            open == self@.open,
    {
        self.open
    }
}

impl Observer {
    /// Whether the channel holds a value this observer has not seen.
    pub fn has_changed<T>(&self, channel: &Channel<T>) -> (changed: bool)
        ensures
            changed == (channel@.observe(self@) is Changed),
    {
        self.seen != channel.generation
    }

    /// Looks at the channel and marks its value as seen. A pending value is
    /// reported before a closed channel is.
    pub fn observe<'a, T>(&mut self, channel: &'a Channel<T>) -> (found: Observation<&'a T>)
        ensures
            final(self)@ == channel@.generation,
            match found {
                Observation::Changed(value) => channel@.observe(old(self)@) == Observation::Changed(
                    *value,
                ),
                Observation::Unchanged => channel@.observe(old(self)@) is Unchanged,
                Observation::Closed => channel@.observe(old(self)@) is Closed,
            },
    {
        if self.seen != channel.generation {
            self.seen = channel.generation;
            Observation::Changed(&channel.value)
        } else if channel.open {
            Observation::Unchanged
        } else {
            Observation::Closed
        }
    }
}

/// Delivered writes touch neither the observers nor the producer's presence;
/// the value is the newest one written, and the generation has advanced by
/// the number of writes, modulo 2^64.
pub proof fn lemma_set_all<T>(channel: ChannelView<T>, values: Seq<T>)
    ensures
        channel.set_all(values).observers == channel.observers,
        channel.set_all(values).open == channel.open,
        channel.set_all(values).generation as int == (channel.generation + values.len())
            % 0x1_0000_0000_0000_0000,
        values.len() > 0 ==> channel.set_all(values).value == values.last(),
        values.len() == 0 ==> channel.set_all(values) == channel,
    decreases values.len(),
{
    if values.len() > 0 {
        lemma_set_all(channel, values.drop_last());
    }
}

/// Coalescing: after any burst of writes between two observations, the
/// observer finds exactly the last value written, and on looking again finds
/// nothing new.
pub proof fn lemma_coalescing<T>(channel: ChannelView<T>, seen: u64, values: Seq<T>)
    requires
        seen == channel.generation,
        0 < values.len() < 0x1_0000_0000_0000_0000,
    ensures
        channel.set_all(values).observe(seen) == Observation::Changed(values.last()),
        !(channel.set_all(values).observe(channel.set_all(values).generation) is Changed),
{
    lemma_set_all(channel, values);
}

} // verus!
