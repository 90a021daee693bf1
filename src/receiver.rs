use vstd::prelude::*;
use crate::actor::{Actor, state_after, replies_after, lemma_replies_len};

verus! {

/// What the pump does after looking at its mailbox once.
#[derive(Debug, Clone, PartialEq, Eq)]
pub enum PumpStep<R> {
    /// A message was handled; this is the reply to pass back, if any.
    Handled(Option<R>),
    /// The mailbox is closed and drained: the pump ends.
    Stop,
}

/// The message pump of one actor: it owns the actor's state and applies the
/// messages taken from the mailbox to it, one at a time, in order.
///
/// It keeps, as ghost state, the actor it started from, every message
/// delivered so far and every reply given, so that its state is always the
/// result of those messages applied in order.
pub struct MessageReceiver<A: Actor> {
    actor: A,
    running: bool,
    initial: Ghost<A>,
    delivered: Ghost<Seq<A::Message>>,
    replies: Ghost<Seq<Option<A::Reply>>>,
}

impl<A: Actor> MessageReceiver<A> {
    /// The actor the pump was created with.
    pub closed spec fn initial(&self) -> A {
        self.initial@
    }

    /// The messages handled so far, in the order handled.
    pub closed spec fn delivered(&self) -> Seq<A::Message> {
        self.delivered@
    }

    /// The replies given so far, one per message handled.
    pub closed spec fn replies(&self) -> Seq<Option<A::Reply>> {
        self.replies@
    }

    /// The actor's current state.
    pub closed spec fn state(&self) -> A {
        self.actor
    }

    /// Whether the pump still takes messages.
    pub closed spec fn running(&self) -> bool {
        self.running
    }

    /// The actor's state and the replies given are those of the delivered
    /// messages, handled in order from the initial actor.
    pub closed spec fn wf(&self) -> bool {
        &&& self.actor == state_after(self.initial@, self.delivered@)
        &&& self.replies@ == replies_after(self.initial@, self.delivered@)
    }

    /// A pump that owns `actor` and has handled nothing yet.
    pub fn new(actor: A) -> (r: Self)
        ensures
            r.wf(),
            r.running(),
            r.initial() == actor,
            r.state() == actor,
            r.delivered() == Seq::<A::Message>::empty(),
            r.replies() == Seq::<Option<A::Reply>>::empty(),
    {
        MessageReceiver {
            actor,
            running: true,
            initial: Ghost(actor),
            delivered: Ghost(Seq::empty()),
            replies: Ghost(Seq::empty()),
        }
    }

    pub fn is_running(&self) -> (r: bool)
        ensures
            r == self.running(),
    {
        self.running
    }

    /// Reacts to one result of taking from the mailbox: `Some(msg)` is the
    /// next message, `None` means every sender is gone and nothing is left.
    /// A message is handled at once and exactly once; the end of the mailbox
    /// stops the pump and leaves the actor as it is.
    pub fn on_event(&mut self, event: Option<A::Message>) -> (r: PumpStep<A::Reply>)
        requires
            old(self).wf(),
            old(self).running(),
        ensures
            final(self).wf(),
            final(self).initial() == old(self).initial(),
            match event {
                Some(msg) => {
                    &&& final(self).running()
                    &&& final(self).delivered() == old(self).delivered().push(msg)
                    &&& final(self).state() == old(self).state().next(msg)
                    &&& r == PumpStep::Handled(old(self).state().answer(msg))
                    &&& final(self).replies() == old(self).replies().push(
                        old(self).state().answer(msg),
                    )
                },
                None => {
                    &&& !final(self).running()
                    &&& final(self).delivered() == old(self).delivered()
                    &&& final(self).state() == old(self).state()
                    &&& final(self).replies() == old(self).replies()
                    &&& r is Stop
                },
            },
    {
        match event {
            Some(msg) => {
                let ghost before = self.delivered@;
                let reply = self.actor.handle_message(msg);
                self.delivered = Ghost(before.push(msg));
                self.replies = Ghost(self.replies@.push(reply));
                proof {
                    assert(self.delivered@.drop_last() =~= before);
                }
                PumpStep::Handled(reply)
            },
            None => {
                self.running = false;
                PumpStep::Stop
            },
        }
    }

    /// Ends the pump and gives back the actor's final state.
    pub fn finish(self) -> (a: A)
        ensures
            a == self.state(),
    {
        self.actor
    }
}

} // verus!

verus! {

/// Messages are applied one at a time in the order they were delivered: at
/// every point the actor's state, and the replies given so far, are exactly
/// what handling the delivered messages in order from the initial state
/// gives, one reply per message.
pub proof fn lemma_state_follows_delivery<A: Actor>(pump: &MessageReceiver<A>)
    requires
        pump.wf(),
    ensures
        pump.state() == state_after(pump.initial(), pump.delivered()),
        pump.replies() == replies_after(pump.initial(), pump.delivered()),
        pump.replies().len() == pump.delivered().len(),
{
    lemma_replies_len(pump.initial(), pump.delivered());
}

} // verus!
