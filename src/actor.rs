use vstd::prelude::*;

verus! {

/// A unit of state that is changed only by the messages handed to it.
///
/// `next` and `answer` describe one step of the actor: the state it moves to
/// and the reply it gives (if any) for one message. The handler must follow
/// them exactly, and must handle every message it can be sent.
///
/// Faults: a handler reports trouble (a request it cannot serve) by declining
/// to answer, which the caller sees as `ActorError::NoReply`; the pump goes on
/// with the next message. The handlers verified here cannot panic.
pub trait Actor: Sized {
    type Message;
    type Reply;

    /// The state after handling `msg` in state `self`.
    spec fn next(self, msg: Self::Message) -> Self;

    /// The reply given for `msg` in state `self`; `None` when the actor
    /// declines to answer, which the caller sees as a missing reply.
    spec fn answer(self, msg: Self::Message) -> Option<Self::Reply>;

    fn handle_message(&mut self, msg: Self::Message) -> (r: Option<Self::Reply>)
        ensures
            *final(self) == old(self).next(msg),
            r == old(self).answer(msg),
    ;
}

/// The state of actor `a` after it has handled `msgs`, in order.
pub open spec fn state_after<A: Actor>(a: A, msgs: Seq<A::Message>) -> A
    decreases msgs.len(),
{
    if msgs.len() == 0 {
        a
    } else {
        state_after(a, msgs.drop_last()).next(msgs.last())
    }
}

/// The replies that actor `a` gives to `msgs`, handled in order.
pub open spec fn replies_after<A: Actor>(a: A, msgs: Seq<A::Message>) -> Seq<Option<A::Reply>>
    decreases msgs.len(),
{
    if msgs.len() == 0 {
        Seq::empty()
    } else {
        replies_after(a, msgs.drop_last()).push(
            state_after(a, msgs.drop_last()).answer(msgs.last()),
        )
    }
}

/// One reply per message handled.
pub proof fn lemma_replies_len<A: Actor>(a: A, msgs: Seq<A::Message>)
    ensures
        replies_after(a, msgs).len() == msgs.len(),
    decreases msgs.len(),
{
    if msgs.len() > 0 {
        lemma_replies_len(a, msgs.drop_last());
    }
}

} // verus!
