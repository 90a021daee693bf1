use vstd::prelude::*;
use crate::actor::{Actor, state_after, replies_after};
use crate::receiver::{MessageReceiver, lemma_state_follows_delivery};

verus! {

/// A stateless actor that answers every message with the message itself.
pub struct EchoActor {}

impl EchoActor {
    pub fn new() -> (r: Self) {
        EchoActor {}
    }
}

impl Actor for EchoActor {
    type Message = Vec<u8>;
    type Reply = Vec<u8>;

    open spec fn next(self, msg: Vec<u8>) -> EchoActor {
        self
    }

    open spec fn answer(self, msg: Vec<u8>) -> Option<Vec<u8>> {
        Some(msg)
    }

    fn handle_message(&mut self, msg: Vec<u8>) -> (r: Option<Vec<u8>>) {
        Some(msg)
    }
}

proof fn lemma_echo_replies(a: EchoActor, msgs: Seq<Vec<u8>>)
    ensures
        state_after(a, msgs) == a,
        replies_after(a, msgs).len() == msgs.len(),
        forall|i: int| 0 <= i < msgs.len() ==> #[trigger] replies_after(a, msgs)[i] == Some(msgs[i]),
    decreases msgs.len(),
{
    if msgs.len() > 0 {
        lemma_echo_replies(a, msgs.drop_last());
    }
}

/// Every payload delivered to an echo actor's pump has come back unchanged,
/// whatever was delivered before it, and the actor itself never changes.
pub proof fn lemma_echo_round_trip(pump: &MessageReceiver<EchoActor>)
    requires
        pump.wf(),
    ensures
        pump.state() == pump.initial(),
        pump.replies().len() == pump.delivered().len(),
        forall|i: int|
            0 <= i < pump.delivered().len() ==> #[trigger] pump.replies()[i] == Some(
                pump.delivered()[i],
            ),
{
    lemma_state_follows_delivery(pump);
    lemma_echo_replies(pump.initial(), pump.delivered());
}

/// Sending the same payload twice gets the same reply twice: nothing of the
/// first message is left behind to change the second answer.
pub proof fn lemma_echo_repeat(a: EchoActor, before: Seq<Vec<u8>>, p: Vec<u8>)
    ensures
        replies_after(a, before.push(p).push(p)).last() == Some(p),
        replies_after(a, before.push(p).push(p))[before.len() as int] == Some(p),
{
    lemma_echo_replies(a, before.push(p).push(p));
}

} // verus!
