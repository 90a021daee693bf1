use vstd::prelude::*;
use crate::actor::{Actor, state_after, replies_after};

verus! {

/// The request understood by the cycling actor.
#[derive(Debug, Clone, Copy, PartialEq, Eq, Structural)]
pub enum MyActorMessage {
    /// Ask for the next value of the list.
    GetNextUID,
}

/// An actor that answers with the values of a fixed list, in order, starting
/// again from the front once the list is used up.
pub struct MyActor {
    pub index: usize,
    pub db: Vec<u64>,
}

impl MyActor {
    /// An actor that cycles through a copy of `db`, starting at its front.
    pub fn new(db: &Vec<u64>) -> (r: Self)
        ensures
            r.index == 0,
            r.db@ == db@,
    {
        MyActor { index: 0, db: db.clone() }
    }

    /// The position of the value given for the next request.
    pub open spec fn position(self) -> int {
        if self.index >= self.db@.len() {
            0
        } else {
            self.index as int
        }
    }
}

impl Actor for MyActor {
    type Message = MyActorMessage;
    type Reply = u64;

    /// Past the last value the actor starts again at the front; with an
    /// empty list it stays put.
    open spec fn next(self, msg: MyActorMessage) -> MyActor {
        if self.db@.len() == 0 {
            self
        } else {
            MyActor { index: (self.position() + 1) as usize, db: self.db }
        }
    }

    /// The value at the current position; no reply when the list is empty.
    open spec fn answer(self, msg: MyActorMessage) -> Option<u64> {
        if self.db@.len() == 0 {
            None
        } else {
            Some(self.db@[self.position()])
        }
    }

    fn handle_message(&mut self, msg: MyActorMessage) -> (r: Option<u64>) {
        match msg {
            MyActorMessage::GetNextUID => {
                if self.db.len() == 0 {
                    return None;
                }
                if self.index >= self.db.len() {
                    self.index = 0;
                }
                let x = self.db[self.index];
                self.index = self.index + 1;
                Some(x)
            },
        }
    }
}

/// `n` requests for the next value.
pub open spec fn requests(n: nat) -> Seq<MyActorMessage> {
    Seq::new(n, |i: int| MyActorMessage::GetNextUID)
}

/// An actor made from a non-empty list answers its `n` requests with the
/// list's values in order, again and again: request `i` gets the value at
/// `i` modulo the length. The list itself never changes.
pub proof fn lemma_cycles_through_list(db: Vec<u64>, n: nat)
    requires
        0 < db@.len() <= usize::MAX,
    ensures
        state_after(MyActor { index: 0, db }, requests(n)).db == db,
        state_after(MyActor { index: 0, db }, requests(n)).position() == (n as int) % (db@.len() as int),
        replies_after(MyActor { index: 0, db }, requests(n)).len() == n,
        forall|i: int|
            0 <= i < n ==> #[trigger] replies_after(MyActor { index: 0, db }, requests(n))[i]
                == Some(db@[i % (db@.len() as int)]),
    decreases n,
{
    let a = MyActor { index: 0, db };
    let len = db@.len() as int;
    if n == 0 {
        assert(requests(0) =~= Seq::<MyActorMessage>::empty());
        assert(0int % len == 0) by (nonlinear_arith)
            requires len > 0;
    } else {
        let m = (n - 1) as nat;
        assert(requests(n).drop_last() =~= requests(m));
        lemma_cycles_through_list(db, m);
        let prev = state_after(a, requests(m));
        let cur = state_after(a, requests(n));
        assert(cur == prev.next(MyActorMessage::GetNextUID));
        assert(0 <= (m as int) % len < len) by (nonlinear_arith)
            requires len > 0;
        lemma_mod_step(m as int, len);
        assert(cur.position() == (n as int) % len);
    }
}

proof fn lemma_mod_step(m: int, len: int)
    requires
        m >= 0,
        len > 0,
    ensures
        m % len + 1 == len ==> (m + 1) % len == 0,
        m % len + 1 < len ==> (m + 1) % len == m % len + 1,
{
    assert(m == (m / len) * len + m % len) by (nonlinear_arith)
        requires len > 0;
    if m % len + 1 == len {
        assert((m + 1) == (m / len + 1) * len) by (nonlinear_arith)
            requires m == (m / len) * len + m % len, m % len + 1 == len;
        vstd::arithmetic::div_mod::lemma_mod_multiples_basic(m / len + 1, len);
    } else if m % len + 1 < len {
        vstd::arithmetic::div_mod::lemma_fundamental_div_mod_converse(
            m + 1, len, m / len, m % len + 1,
        );
    }
}

} // verus!
