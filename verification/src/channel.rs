//! The result channel: a single-use handoff of one value from the producer
//! that computes it to the consumer that waits for it.
//!
//! The channel is kept as one value that records what both halves have done
//! so far. A shell that shares it between threads puts it behind a lock and
//! wakes the waiting task after each operation of the producer.

use vstd::prelude::*;

verus! {

/// The life of a result channel.
#[derive(Debug, Clone, PartialEq, Eq)]
pub enum ResultChannel<T> {
    /// Both halves are alive and nothing has been sent.
    Waiting,
    /// The producer has sent this value and is gone; the consumer has not
    /// taken it yet.
    Filled(T),
    /// The producer is gone without having sent; the consumer has not been
    /// told yet.
    Abandoned,
    /// The consumer is gone; the producer is still alive and does not know.
    Orphaned,
    /// Both halves are gone.
    Closed,
}

/// What the consumer learns when it asks for the result.
#[derive(Debug, Clone, PartialEq, Eq)]
pub enum Delivery<T> {
    /// Nothing yet: the producer is alive and has not sent.
    Pending,
    /// The value that the producer sent.
    Ready(T),
    /// The producer is gone and there will never be a value.
    Cancelled,
    /// The consumer had already finished: it has nothing more to learn.
    Closed,
}

/// One operation of either half.
pub enum ChannelOp<T> {
    /// The producer sends this value and is used up.
    Send(T),
    /// The producer goes away.
    DropProducer,
    /// The consumer asks for the result.
    Receive,
    /// The consumer goes away.
    DropConsumer,
}

/// What an operation reports back.
pub enum ChannelReply<T> {
    /// The value was accepted for delivery.
    Accepted,
    /// The value was not accepted and is handed back.
    Refused(T),
    /// What the consumer learned.
    Received(Delivery<T>),
    /// Nothing to report.
    Gone,
}

impl<T> ResultChannel<T> {
    /// Whether the producer can still send.
    pub open spec fn producer_alive(self) -> bool {
        self is Waiting || self is Orphaned
    }

    /// Whether the consumer can still learn an outcome.
    pub open spec fn consumer_alive(self) -> bool {
        self is Waiting || self is Filled || self is Abandoned
    }

    /// Sending: the value is accepted exactly when both halves are alive.
    /// Either way the producer is used up. A value that is not accepted
    /// comes back, and nothing is ever delivered of it.
    pub open spec fn spec_send(self, value: T) -> (Self, Result<(), T>) {
        match self {
            ResultChannel::Waiting => (ResultChannel::Filled(value), Ok(())),
            ResultChannel::Orphaned => (ResultChannel::Closed, Err(value)),
            _ => (self, Err(value)),
        }
    }

    /// The producer going away: a consumer that still waits will be told.
    pub open spec fn spec_drop_producer(self) -> Self {
        match self {
            ResultChannel::Waiting => ResultChannel::Abandoned,
            ResultChannel::Orphaned => ResultChannel::Closed,
            _ => self,
        }
    }

    /// Asking for the result: a sent value is handed over, an abandoned
    /// channel reports the cancellation, and either ends the consumer.
    pub open spec fn spec_receive(self) -> (Self, Delivery<T>) {
        match self {
            ResultChannel::Waiting => (ResultChannel::Waiting, Delivery::Pending),
            ResultChannel::Filled(value) => (ResultChannel::Closed, Delivery::Ready(value)),
            ResultChannel::Abandoned => (ResultChannel::Closed, Delivery::Cancelled),
            _ => (self, Delivery::Closed),
        }
    }

    /// The consumer going away: a value that was sent but not taken is
    /// discarded.
    pub open spec fn spec_drop_consumer(self) -> Self {
        match self {
            ResultChannel::Waiting => ResultChannel::Orphaned,
            ResultChannel::Orphaned => ResultChannel::Orphaned,
            _ => ResultChannel::Closed,
        }
    }

    /// The channel after an operation, and what the operation reports.
    pub open spec fn spec_apply(self, op: ChannelOp<T>) -> (Self, ChannelReply<T>) {
        match op {
            ChannelOp::Send(value) => {
                let (next, result) = self.spec_send(value);
                (
                    next,
                    match result {
                        Ok(_) => ChannelReply::Accepted,
                        Err(back) => ChannelReply::Refused(back),
                    },
                )
            },
            ChannelOp::DropProducer => (self.spec_drop_producer(), ChannelReply::Gone),
            ChannelOp::Receive => {
                let (next, delivery) = self.spec_receive();
                (next, ChannelReply::Received(delivery))
            },
            ChannelOp::DropConsumer => (self.spec_drop_consumer(), ChannelReply::Gone),
        }
    }

    /// The values that are accepted for delivery in the course of `ops`.
    pub open spec fn accepted(self, ops: Seq<ChannelOp<T>>) -> Seq<T>
        decreases ops.len(),
    {
        if ops.len() == 0 {
            Seq::empty()
        } else {
            let (next, reply) = self.spec_apply(ops[0]);
            let rest = next.accepted(ops.drop_first());
            match (ops[0], reply) {
                (ChannelOp::Send(value), ChannelReply::Accepted) => seq![value] + rest,
                _ => rest,
            }
        }
    }

    /// The values that the consumer is handed in the course of `ops`.
    pub open spec fn delivered(self, ops: Seq<ChannelOp<T>>) -> Seq<T>
        decreases ops.len(),
    {
        if ops.len() == 0 {
            Seq::empty()
        } else {
            let (next, reply) = self.spec_apply(ops[0]);
            let rest = next.delivered(ops.drop_first());
            match reply {
                ChannelReply::Received(Delivery::Ready(value)) => seq![value] + rest,
                _ => rest,
            }
        }
    }

    /// How often the consumer is told of a cancellation in the course of
    /// `ops`.
    pub open spec fn cancellations(self, ops: Seq<ChannelOp<T>>) -> nat
        decreases ops.len(),
    {
        if ops.len() == 0 {
            0
        } else {
            let (next, reply) = self.spec_apply(ops[0]);
            let rest = next.cancellations(ops.drop_first());
            match reply {
                ChannelReply::Received(Delivery::Cancelled) => 1 + rest,
                _ => rest,
            }
        }
    }

    /// A fresh channel: both halves alive, nothing sent.
    pub fn new() -> (channel: Self)
        ensures
            channel == ResultChannel::<T>::Waiting,
    {
        ResultChannel::Waiting
    }

    /// The producer sends `value`. It is accepted if the consumer is still
    /// there to take it; otherwise it comes back unchanged.
    pub fn send(&mut self, value: T) -> (result: Result<(), T>)
        ensures
            (*final(self), result) == old(self).spec_send(value),
    {
        let mut before = ResultChannel::Closed;
        core::mem::swap(self, &mut before);
        match before {
            ResultChannel::Waiting => {
                *self = ResultChannel::Filled(value);
                Ok(())
            },
            ResultChannel::Orphaned => Err(value),
            other => {
                *self = other;
                Err(value)
            },
        }
    }

    /// The producer goes away without sending.
    pub fn drop_producer(&mut self)
        ensures
            *final(self) == old(self).spec_drop_producer(),
    {
        let mut before = ResultChannel::Closed;
        core::mem::swap(self, &mut before);
        match before {
            ResultChannel::Waiting => {
                *self = ResultChannel::Abandoned;
            },
            ResultChannel::Orphaned => {},
            other => {
                *self = other;
            },
        }
    }

    /// The consumer asks for the result.
    pub fn receive(&mut self) -> (delivery: Delivery<T>)
        ensures
            (*final(self), delivery) == old(self).spec_receive(),
    {
        let mut before = ResultChannel::Closed;
        core::mem::swap(self, &mut before);
        match before {
            ResultChannel::Waiting => {
                *self = ResultChannel::Waiting;
                Delivery::Pending
            },
            ResultChannel::Filled(value) => Delivery::Ready(value),
            ResultChannel::Abandoned => Delivery::Cancelled,
            other => {
                *self = other;
                Delivery::Closed
            },
        }
    }

    /// The consumer goes away without waiting any longer.
    pub fn drop_consumer(&mut self)
        ensures
            *final(self) == old(self).spec_drop_consumer(),
    {
        let mut before = ResultChannel::Closed;
        core::mem::swap(self, &mut before);
        match before {
            ResultChannel::Waiting => {
                *self = ResultChannel::Orphaned;
            },
            ResultChannel::Orphaned => {
                *self = ResultChannel::Orphaned;
            },
            _ => {},
        }
    }
}

/// What can still happen on a channel in a given state: at most one value is
/// accepted and only while the channel waits; the consumer learns at most one
/// outcome; and what it is handed is the accepted value, or the value that
/// already lies in the channel.
proof fn lemma_single_outcome<T>(state: ResultChannel<T>, ops: Seq<ChannelOp<T>>)
    ensures
        state.accepted(ops).len() <= 1,
        !(state is Waiting) ==> state.accepted(ops).len() == 0,
        state.delivered(ops).len() + state.cancellations(ops) <= 1,
        !state.consumer_alive() ==> state.delivered(ops).len() + state.cancellations(ops) == 0,
        state is Waiting && state.delivered(ops).len() == 1 ==> state.delivered(ops)
            == state.accepted(ops),
        state is Filled && state.delivered(ops).len() == 1 ==> state.delivered(ops)[0]
            == state->Filled_0,
        state is Abandoned ==> state.delivered(ops).len() == 0,
    decreases ops.len(),
{
    if ops.len() > 0 {
        let (next, reply) = state.spec_apply(ops[0]);
        lemma_single_outcome(next, ops.drop_first());
    }
}

/// A channel hands its consumer a value at most once, and only the one value
/// that it accepted from its producer; it accepts at most one value; and the
/// consumer is told of a cancellation at most once, and never after it was
/// handed a value.
pub proof fn channel_delivers_at_most_once<T>(ops: Seq<ChannelOp<T>>)
    ensures
        ResultChannel::<T>::Waiting.accepted(ops).len() <= 1,
        ResultChannel::<T>::Waiting.delivered(ops).len() <= 1,
        ResultChannel::<T>::Waiting.delivered(ops).len() == 1 ==> ResultChannel::<
            T,
        >::Waiting.delivered(ops) == ResultChannel::<T>::Waiting.accepted(ops),
        ResultChannel::<T>::Waiting.delivered(ops).len() + ResultChannel::<
            T,
        >::Waiting.cancellations(ops) <= 1,
{
    lemma_single_outcome(ResultChannel::<T>::Waiting, ops);
}

/// Sending after the consumer is gone does nothing: the value comes back
/// unchanged, and whatever happens afterwards, nothing is delivered.
pub proof fn sending_to_a_gone_consumer_is_a_no_op<T>(
    state: ResultChannel<T>,
    value: T,
    ops: Seq<ChannelOp<T>>,
)
    requires
        !state.consumer_alive(),
    ensures
        state.spec_send(value).1 == Err::<(), T>(value),
        !state.spec_send(value).0.consumer_alive(),
        state.spec_send(value).0.delivered(ops).len() == 0,
        state.spec_send(value).0.cancellations(ops) == 0,
{
    lemma_single_outcome(state.spec_send(value).0, ops);
}

/// A consumer that waits on a channel whose producer went away without
/// sending is told of the cancellation the first time it asks, and is never
/// told again nor handed a value, whatever happens afterwards.
pub proof fn waiting_after_producer_drop_is_cancelled_once<T>(ops: Seq<ChannelOp<T>>)
    ensures
        ResultChannel::<T>::Waiting.spec_drop_producer() == ResultChannel::<T>::Abandoned,
        ResultChannel::<T>::Abandoned.spec_receive() == (
            ResultChannel::<T>::Closed,
            Delivery::<T>::Cancelled,
        ),
        ResultChannel::<T>::Closed.cancellations(ops) == 0,
        ResultChannel::<T>::Closed.delivered(ops).len() == 0,
{
    lemma_single_outcome(ResultChannel::<T>::Closed, ops);
}

} // verus!
