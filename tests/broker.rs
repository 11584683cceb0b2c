use std::sync::{Arc, Barrier, Mutex};

use heaven::{Authorization, Authorizations};
use tokio::sync::oneshot::error::TryRecvError;

const ALICE: u64 = 398874695069335571;
const BOB: u64 = 42;

#[test]
fn settling_an_unrequested_identity_does_nothing() {
    let mut registry = Authorizations::new();
    assert!(!registry.allow(BOB));
    assert!(!registry.deny(BOB));
    assert!(!registry.send(BOB, Authorization::Allow));
    // The failed settles left nothing behind that a later request would meet.
    let mut receiver = registry.request_authorization(BOB);
    assert!(matches!(receiver.try_recv(), Err(TryRecvError::Empty)));
    assert!(registry.deny(BOB));
    assert_eq!(receiver.try_recv(), Ok(Authorization::Deny));
}

#[test]
fn exactly_one_settle_per_request() {
    let mut registry = Authorizations::new();
    let _receiver = registry.request_authorization(ALICE);
    assert!(registry.allow(ALICE));
    assert!(!registry.allow(ALICE));
    assert!(!registry.deny(ALICE));
    assert!(!registry.send(ALICE, Authorization::Allow));
    let _again = registry.request_authorization(ALICE);
    assert!(registry.deny(ALICE));
    assert!(!registry.deny(ALICE));
}

#[test]
fn waiter_receives_the_settling_decision() {
    for decision in [Authorization::Allow, Authorization::Deny] {
        let mut registry = Authorizations::new();
        let receiver = registry.request_authorization(ALICE);
        assert!(registry.send(ALICE, decision));
        assert_eq!(receiver.blocking_recv(), Ok(decision));
    }
}

#[test]
fn waiter_on_another_thread_receives_the_decision() {
    let runtime = tokio::runtime::Runtime::new().unwrap();
    let registry = Arc::new(Mutex::new(Authorizations::new()));
    let receiver = registry.lock().unwrap().request_authorization(ALICE);
    let waiter = runtime.spawn(async move { receiver.await.ok() });
    assert!(registry.lock().unwrap().allow(ALICE));
    assert_eq!(runtime.block_on(waiter).unwrap(), Some(Authorization::Allow));
}

#[test]
fn concurrent_settles_have_one_winner() {
    let runtime = tokio::runtime::Runtime::new().unwrap();
    let registry = Arc::new(Mutex::new(Authorizations::new()));
    let receiver = registry.lock().unwrap().request_authorization(ALICE);
    let racers: usize = 8;
    let barrier = Arc::new(Barrier::new(racers));
    let mut tasks = Vec::new();
    for n in 0..racers {
        let registry = registry.clone();
        let barrier = barrier.clone();
        let decision = if n % 2 == 0 { Authorization::Allow } else { Authorization::Deny };
        tasks.push(runtime.spawn_blocking(move || {
            barrier.wait();
            let won = registry.lock().unwrap().send(ALICE, decision);
            (won, decision)
        }));
    }
    let results: Vec<(bool, Authorization)> = tasks
        .into_iter()
        .map(|task| runtime.block_on(task).unwrap())
        .collect();
    let winners: Vec<Authorization> = results.iter().filter(|r| r.0).map(|r| r.1).collect();
    assert_eq!(winners.len(), 1);
    assert_eq!(results.iter().filter(|r| !r.0).count(), racers - 1);
    assert_eq!(receiver.blocking_recv(), Ok(winners[0]));
}

#[test]
fn second_request_replaces_the_first() {
    let mut registry = Authorizations::new();
    let first = registry.request_authorization(ALICE);
    let mut second = registry.request_authorization(ALICE);
    assert!(matches!(second.try_recv(), Err(TryRecvError::Empty)));
    assert!(registry.deny(ALICE));
    assert!(!registry.allow(ALICE));
    // The first waiter's sender was dropped: it ends without a decision.
    assert!(first.blocking_recv().is_err());
    assert_eq!(second.try_recv(), Ok(Authorization::Deny));
}

#[test]
fn identities_do_not_affect_each_other() {
    let mut registry = Authorizations::new();
    let alice = registry.request_authorization(ALICE);
    let mut bob = registry.request_authorization(BOB);
    assert!(registry.allow(ALICE));
    assert!(matches!(bob.try_recv(), Err(TryRecvError::Empty)));
    assert!(!registry.allow(ALICE));
    assert!(registry.deny(BOB));
    assert_eq!(alice.blocking_recv(), Ok(Authorization::Allow));
    assert_eq!(bob.try_recv(), Ok(Authorization::Deny));
}

#[test]
fn deny_then_late_allow_scenario() {
    let mut registry = Authorizations::new();
    let waiter = registry.request_authorization(ALICE);
    assert!(registry.send(ALICE, Authorization::Deny));
    assert_eq!(waiter.blocking_recv(), Ok(Authorization::Deny));
    assert!(!registry.send(ALICE, Authorization::Allow));
}

#[test]
fn allow_without_request_scenario() {
    let mut registry = Authorizations::new();
    assert!(!registry.send(BOB, Authorization::Allow));
    assert!(!registry.deny(BOB));
}

#[test]
fn settle_after_waiter_gave_up_still_reports_delivery() {
    let mut registry = Authorizations::new();
    let receiver = registry.request_authorization(ALICE);
    drop(receiver);
    assert!(registry.allow(ALICE));
    assert!(!registry.allow(ALICE));
}
