use vstd::prelude::*;

verus! {

/// A terminal failure seen by a caller of an actor.
#[derive(Debug, Clone, Copy, PartialEq, Eq, Structural)]
pub enum ActorError {
    /// The mailbox no longer has a consumer: the actor is gone.
    Closed,
    /// No reply will ever arrive: the request was refused by a closed
    /// mailbox, or its reply channel was abandoned.
    NoReply,
}

/// What a fire-and-forget send amounts to, given whether the mailbox accepted it.
pub fn send_outcome(accepted: bool) -> (r: Result<(), ActorError>)
    ensures
        accepted <==> r is Ok,
        !accepted ==> r == Err::<(), ActorError>(ActorError::Closed),
{
    if accepted {
        Ok(())
    } else {
        Err(ActorError::Closed)
    }
}

/// What a request amounts to, given whether the mailbox accepted the message
/// and what, if anything, came back on its reply channel. A request that a
/// closed mailbox refused was dropped before any handler saw it, so no reply
/// will ever arrive for it.
pub fn request_outcome<R>(accepted: bool, reply: Option<R>) -> (r: Result<R, ActorError>)
    ensures
        !accepted ==> r == Err::<R, ActorError>(ActorError::NoReply),
        accepted && reply is None ==> r == Err::<R, ActorError>(ActorError::NoReply),
        accepted && reply is Some ==> r == Ok::<R, ActorError>(reply->0),
{
    if !accepted {
        Err(ActorError::NoReply)
    } else {
        match reply {
            Some(v) => Ok(v),
            None => Err(ActorError::NoReply),
        }
    }
}

} // verus!
