//! One pending call: the interest it holds in the dispatcher, tied to the
//! producer half of its result channel.

use vstd::prelude::*;
use crate::channel::{Delivery, ResultChannel};
use crate::interest::{spec_decrement, InterestCounter, OperationGuard};

verus! {

/// A call that was handed to the platform, from the moment its callback is
/// registered. It holds one interest in the dispatcher for exactly as long as
/// its producer half is alive: until the callback has sent its result, or has
/// gone away without one.
pub struct PendingCall<T> {
    guard: Option<OperationGuard>,
    channel: ResultChannel<T>,
}

impl<T> PendingCall<T> {
    #[verifier::type_invariant]
    spec fn guard_follows_producer(&self) -> bool {
        self.guard is Some <==> self.channel.producer_alive()
    }

    /// The result channel of the call.
    pub closed spec fn channel(&self) -> ResultChannel<T> {
        self.channel
    }

    /// Whether the call still holds its interest in the dispatcher.
    pub open spec fn holds_interest(&self) -> bool {
        self.channel().producer_alive()
    }

    /// The count after the producer half of this call has ended: one less if
    /// the call still held its interest, and unchanged otherwise.
    pub open spec fn count_after_producer(&self, count: int) -> int {
        if self.holds_interest() {
            spec_decrement(count)
        } else {
            count
        }
    }

    /// Moves the call out, leaving one behind that is over on both sides.
    fn take(&mut self) -> (call: Self)
        ensures
            call == *old(self),
            call.guard is Some <==> call.channel.producer_alive(),
    {
        proof {
            use_type_invariant(&*self);
        }
        let mut call = PendingCall { guard: None, channel: ResultChannel::Closed };
        core::mem::swap(self, &mut call);
        call
    }

    /// Registers a new call: its interest is counted and its channel waits.
    /// The caller wakes the dispatcher afterwards, in case it sleeps.
    pub fn begin(counter: &mut InterestCounter) -> (call: Self)
        requires
            old(counter).value() < usize::MAX,
        ensures
            call.channel() == ResultChannel::<T>::Waiting,
            final(counter).value() == old(counter).value() + 1,
    {
        let guard = OperationGuard::acquire(counter);
        PendingCall { guard: Some(guard), channel: ResultChannel::new() }
    }

    /// The callback delivers `value`. The value is sent on the channel and
    /// the interest of the call is given up.
    pub fn complete(&mut self, counter: &mut InterestCounter, value: T) -> (result: Result<(), T>)
        ensures
            (final(self).channel(), result) == old(self).channel().spec_send(value),
            final(counter).value() == old(self).count_after_producer(old(counter).value()),
            !final(self).holds_interest(),
    {
        let PendingCall { guard, mut channel } = self.take();
        let result = channel.send(value);
        match guard {
            Some(guard) => guard.release(counter),
            None => {},
        }
        *self = PendingCall { guard: None, channel };
        result
    }

    /// The callback goes away without a result. The waiting consumer will be
    /// told, and the interest of the call is given up.
    pub fn abandon(&mut self, counter: &mut InterestCounter)
        ensures
            final(self).channel() == old(self).channel().spec_drop_producer(),
            final(counter).value() == old(self).count_after_producer(old(counter).value()),
            !final(self).holds_interest(),
    {
        let PendingCall { guard, mut channel } = self.take();
        channel.drop_producer();
        match guard {
            Some(guard) => guard.release(counter),
            None => {},
        }
        *self = PendingCall { guard: None, channel };
    }

    /// The waiting side asks for the result. The interest of the call is not
    /// touched: it ends with the producer.
    pub fn receive(&mut self) -> (delivery: Delivery<T>)
        ensures
            (final(self).channel(), delivery) == old(self).channel().spec_receive(),
            final(self).holds_interest() == old(self).holds_interest(),
    {
        let PendingCall { guard, mut channel } = self.take();
        let delivery = channel.receive();
        *self = PendingCall { guard, channel };
        delivery
    }

    /// The waiting side gives up. The call keeps its interest until its
    /// producer ends.
    pub fn stop_waiting(&mut self)
        ensures
            final(self).channel() == old(self).channel().spec_drop_consumer(),
            final(self).holds_interest() == old(self).holds_interest(),
    {
        let PendingCall { guard, mut channel } = self.take();
        channel.drop_consumer();
        *self = PendingCall { guard, channel };
    }
}

} // verus!
