use actormodel::actor::Actor;
use actormodel::counter;
use actormodel::cycling;
use actormodel::echo::EchoActor;
use actormodel::outcome::{request_outcome, send_outcome, ActorError};
use actormodel::receiver::{MessageReceiver, PumpStep};

#[test]
fn counter_answers_one_to_ten_in_order() {
    let mut pump = MessageReceiver::new(counter::MyActor::new());
    for expected in 1..=10u64 {
        let step = pump.on_event(Some(counter::MyActorMessage::GetNextUID));
        assert_eq!(step, PumpStep::Handled(Some(expected)));
    }
    assert_eq!(pump.on_event(None), PumpStep::Stop);
    assert!(!pump.is_running());
    assert_eq!(pump.finish().counter, 10);
}

#[test]
fn two_handles_share_one_counter_without_loss_or_duplication() {
    let mut pump = MessageReceiver::new(counter::MyActor::new());
    let mut first: Vec<u64> = Vec::new();
    let mut second: Vec<u64> = Vec::new();
    // Requests of two handles reach the mailbox interleaved.
    for i in 0..20 {
        let step = pump.on_event(Some(counter::MyActorMessage::GetNextUID));
        let id = match step {
            PumpStep::Handled(Some(id)) => id,
            other => panic!("unexpected step {:?}", other),
        };
        if i % 3 == 0 { first.push(id) } else { second.push(id) }
    }
    let mut all: Vec<u64> = first.iter().chain(second.iter()).copied().collect();
    all.sort();
    assert_eq!(all, (1..=20u64).collect::<Vec<u64>>());
    assert!(first.windows(2).all(|w| w[0] < w[1]));
    assert!(second.windows(2).all(|w| w[0] < w[1]));
}

#[test]
fn counter_gives_no_reply_once_ids_are_used_up() {
    let mut actor = counter::MyActor { counter: u64::MAX - 1 };
    assert_eq!(actor.handle_message(counter::MyActorMessage::GetNextUID), Some(u64::MAX));
    assert_eq!(actor.handle_message(counter::MyActorMessage::GetNextUID), None);
    assert_eq!(actor.counter, u64::MAX);
    assert_eq!(request_outcome(true, None::<u64>), Err(ActorError::NoReply));
}

#[test]
fn cycling_actor_repeats_its_list() {
    let v = vec![10, 20, 30, 40, 50];
    let mut pump = MessageReceiver::new(cycling::MyActor::new(&v));
    let mut got: Vec<u64> = Vec::new();
    for _ in 0..10 {
        match pump.on_event(Some(cycling::MyActorMessage::GetNextUID)) {
            PumpStep::Handled(Some(x)) => got.push(x),
            other => panic!("unexpected step {:?}", other),
        }
    }
    assert_eq!(got, vec![10, 20, 30, 40, 50, 10, 20, 30, 40, 50]);
    let actor = pump.finish();
    assert_eq!(actor.db, v);
    assert_eq!(actor.index, 5);
}

#[test]
fn cycling_actor_with_empty_list_does_not_answer() {
    let mut actor = cycling::MyActor::new(&Vec::new());
    assert_eq!(actor.handle_message(cycling::MyActorMessage::GetNextUID), None);
    assert_eq!(actor.index, 0);
}

#[test]
fn cycling_actor_restarts_after_out_of_range_index() {
    let mut actor = cycling::MyActor { index: 7, db: vec![4, 5] };
    assert_eq!(actor.handle_message(cycling::MyActorMessage::GetNextUID), Some(4));
    assert_eq!(actor.index, 1);
}

#[test]
fn echo_returns_the_payload() {
    let mut pump = MessageReceiver::new(EchoActor::new());
    let p = vec![1u8, 2, 3];
    assert_eq!(pump.on_event(Some(p.clone())), PumpStep::Handled(Some(p)));
    assert_eq!(pump.on_event(Some(Vec::new())), PumpStep::Handled(Some(Vec::new())));
}

#[test]
fn echo_twice_gives_the_same_reply_twice() {
    let mut pump = MessageReceiver::new(EchoActor::new());
    let p = vec![9u8, 8];
    let a = pump.on_event(Some(p.clone()));
    let b = pump.on_event(Some(p.clone()));
    assert_eq!(a, b);
    assert_eq!(a, PumpStep::Handled(Some(p)));
}

#[test]
fn closed_mailbox_stops_the_pump_and_keeps_the_state() {
    let mut pump = MessageReceiver::new(counter::MyActor::new());
    assert!(pump.is_running());
    pump.on_event(Some(counter::MyActorMessage::GetNextUID));
    pump.on_event(Some(counter::MyActorMessage::GetNextUID));
    assert_eq!(pump.on_event(None), PumpStep::Stop);
    assert!(!pump.is_running());
    assert_eq!(pump.finish().counter, 2);
}

#[test]
fn send_outcomes() {
    assert_eq!(send_outcome(true), Ok(()));
    assert_eq!(send_outcome(false), Err(ActorError::Closed));
}

#[test]
fn request_outcomes() {
    assert_eq!(request_outcome(true, Some(7u64)), Ok(7));
    assert_eq!(request_outcome(true, None::<u64>), Err(ActorError::NoReply));
    assert_eq!(request_outcome(false, Some(7u64)), Err(ActorError::NoReply));
    assert_eq!(request_outcome(false, None::<u64>), Err(ActorError::NoReply));
}
