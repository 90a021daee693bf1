use vstd::prelude::*;
use crate::actor::{Actor, state_after, replies_after};
use crate::receiver::{MessageReceiver, lemma_state_follows_delivery};

verus! {

/// The request understood by the counter.
#[derive(Debug, Clone, Copy, PartialEq, Eq, Structural)]
pub enum MyActorMessage {
    /// Ask for the next unique id.
    GetNextUID,
}

/// An actor that hands out increasing ids: 1, 2, 3, ...
pub struct MyActor {
    pub counter: u64,
}

impl MyActor {
    pub fn new() -> (r: Self)
        ensures
            r.counter == 0,
    {
        MyActor { counter: 0 }
    }
}

impl Actor for MyActor {
    type Message = MyActorMessage;
    type Reply = u64;

    /// The counter goes up by one; once every id is used it stays put.
    open spec fn next(self, msg: MyActorMessage) -> MyActor {
        if self.counter < u64::MAX {
            MyActor { counter: (self.counter + 1) as u64 }
        } else {
            self
        }
    }

    /// The new counter value; no reply once every id is used.
    open spec fn answer(self, msg: MyActorMessage) -> Option<u64> {
        if self.counter < u64::MAX {
            Some((self.counter + 1) as u64)
        } else {
            None
        }
    }

    fn handle_message(&mut self, msg: MyActorMessage) -> (r: Option<u64>) {
        match msg {
            MyActorMessage::GetNextUID => {
                if self.counter < u64::MAX {
                    self.counter = self.counter + 1;
                    Some(self.counter)
                } else {
                    None
                }
            },
        }
    }
}

/// `n` requests for the next id.
pub open spec fn requests(n: nat) -> Seq<MyActorMessage> {
    Seq::new(n, |i: int| MyActorMessage::GetNextUID)
}

/// The ids 1..=n, in increasing order.
pub open spec fn ids_up_to(n: nat) -> Seq<Option<u64>> {
    Seq::new(n, |i: int| Some((i + 1) as u64))
}

/// A counter that starts at zero and handles `n` requests ends at `n` and
/// answers them with 1, 2, ..., n, in the order the requests reach it.
pub proof fn lemma_counter_answers_in_order(n: nat)
    requires
        n <= u64::MAX,
    ensures
        state_after(MyActor { counter: 0 }, requests(n)).counter == n,
        replies_after(MyActor { counter: 0 }, requests(n)) == ids_up_to(n),
    decreases n,
{
    if n > 0 {
        let m = (n - 1) as nat;
        assert(requests(n).drop_last() =~= requests(m));
        lemma_counter_answers_in_order(m);
        assert(replies_after(MyActor { counter: 0 }, requests(n)) =~= ids_up_to(n));
    } else {
        assert(requests(0) =~= Seq::<MyActorMessage>::empty());
        assert(ids_up_to(0) =~= Seq::<Option<u64>>::empty());
    }
}

/// Whatever the `k` requests of one or many handles, in any interleaving,
/// no id is lost and none is given twice: the ids 1 to `k` are each answered
/// exactly once, and no other id is answered.
pub proof fn lemma_counter_ids_unique(k: nat)
    requires
        k <= u64::MAX,
    ensures
        forall|id: u64|
            1 <= id <= k ==> #[trigger] ids_up_to(k).to_multiset().count(Some(id)) == 1,
        forall|id: u64|
            !(1 <= id <= k) ==> #[trigger] ids_up_to(k).to_multiset().count(Some(id)) == 0,
        ids_up_to(k).to_multiset().count(None) == 0,
{
    assert forall|id: u64| 1 <= id <= k implies #[trigger] ids_up_to(k).to_multiset().count(Some(id)) == 1 by {
        lemma_count_ids(k, id);
    }
    assert forall|id: u64| !(1 <= id <= k) implies #[trigger] ids_up_to(k).to_multiset().count(Some(id)) == 0 by {
        lemma_count_ids(k, id);
    }
    ids_up_to(k).to_multiset_ensures();
    assert(!ids_up_to(k).contains(None));
}

/// A pump that started a counter at zero has answered the requests it was
/// delivered, from however many handles, with 1, 2, ..., n in delivery
/// order, and its counter stands at n.
pub proof fn lemma_counter_pump_answers(pump: &MessageReceiver<MyActor>)
    requires
        pump.wf(),
        pump.initial().counter == 0,
        pump.delivered().len() <= u64::MAX,
    ensures
        pump.state().counter == pump.delivered().len(),
        pump.replies() == ids_up_to(pump.delivered().len()),
{
    let n = pump.delivered().len();
    assert(pump.delivered() =~= requests(n)) by {
        assert forall|i: int| 0 <= i < n implies pump.delivered()[i] == requests(n)[i] by {
            match pump.delivered()[i] {
                MyActorMessage::GetNextUID => {},
            }
        }
    }
    assert(pump.initial() == MyActor { counter: 0 });
    lemma_state_follows_delivery(pump);
    lemma_counter_answers_in_order(n);
}

proof fn lemma_count_ids(k: nat, id: u64)
    requires
        k <= u64::MAX,
    ensures
        ids_up_to(k).to_multiset().count(Some(id)) == (if 1 <= id <= k { 1nat } else { 0nat }),
    decreases k,
{
    ids_up_to(k).to_multiset_ensures();
    if k > 0 {
        let m = (k - 1) as nat;
        assert(ids_up_to(k) =~= ids_up_to(m).push(Some(k as u64)));
        ids_up_to(m).to_multiset_ensures();
        lemma_count_ids(m, id);
    } else {
        assert(ids_up_to(0) =~= Seq::<Option<u64>>::empty());
    }
}

} // verus!
