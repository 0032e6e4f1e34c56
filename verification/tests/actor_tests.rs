use async_sqlite::{ActorState, Command, Reply};

#[test]
fn run_queue_preserves_order() {
    // Ten operations submitted to one actor: one reply per submission, and
    // the resource observes them in exactly submission order.
    let mut actor = ActorState::new();
    let tickets: Vec<u64> = (0..10).collect();
    let replies = actor.run_queue(&tickets);
    assert_eq!(replies, tickets);
    assert_eq!(actor.applied, tickets);
    assert!(actor.alive);
}

#[test]
fn apply_invoke_appends_in_order() {
    let mut actor = ActorState::new();
    assert_eq!(actor.apply_invoke(7), 7);
    assert_eq!(actor.apply_invoke(3), 3);
    assert_eq!(actor.applied, vec![7, 3]);
}

#[test]
fn on_command_dispatch() {
    let mut actor = ActorState::new();
    let r = actor.on_command(Command::Invoke { ticket: 11 }, false);
    assert_eq!(r, Reply::OpDone { ticket: 11 });
    let r = actor.on_command(Command::Shutdown { ticket: 12 }, false);
    assert_eq!(r, Reply::CloseFailed { ticket: 12 });
    assert!(actor.alive, "a failed close leaves the actor accepting work");
    let r = actor.on_command(Command::Shutdown { ticket: 13 }, true);
    assert_eq!(r, Reply::CloseOk { ticket: 13 });
    assert!(!actor.alive);
    assert_eq!(actor.applied, vec![11]);
}

#[test]
fn apply_shutdown_failed_close_is_retryable() {
    let mut actor = ActorState::new();
    actor.apply_invoke(1);
    actor.apply_shutdown(false);
    assert!(actor.alive, "a failed close must leave the actor alive");
    assert_eq!(actor.applied, vec![1], "the resource trace is untouched");
    actor.apply_shutdown(true);
    assert!(!actor.alive, "a successful close terminates the actor");
}
