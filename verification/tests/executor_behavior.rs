use spin_sdk::bridge::drive_send;
use spin_sdk::bridge::BridgeEvent;
use spin_sdk::bridge::PeekReply;
use spin_sdk::bridge::SubmitReply;
use spin_sdk::executor::handles_of;
use spin_sdk::executor::mark_ready;
use spin_sdk::executor::partition_ready;
use spin_sdk::executor::push_waker;
use spin_sdk::executor::run_decision;
use spin_sdk::executor::run_round;
use spin_sdk::executor::take_entries;
use spin_sdk::executor::Registry;
use spin_sdk::executor::RunStep;
use spin_sdk::guard::BodyGuard;
use spin_sdk::guard::BodyPair;

#[test]
fn pending_with_empty_registry_aborts_the_run() {
    let registry: Registry<u32> = Registry::new();
    assert_eq!(run_decision(false, &registry), RunStep::Fault);

    let mut registered: Registry<u32> = Registry::new();
    push_waker(&mut registered, 11, 1);
    assert_eq!(run_decision(false, &registered), RunStep::Wait);
    assert_eq!(run_decision(true, &registered), RunStep::Finish);
    assert_eq!(run_decision(true, &Registry::<u32>::new()), RunStep::Finish);
}

#[test]
fn registry_drains_atomically() {
    let mut registry: Registry<u32> = Registry::new();
    push_waker(&mut registry, 10, 1);
    push_waker(&mut registry, 20, 2);
    assert_eq!(registry.len(), 2);
    let entries = take_entries(&mut registry);
    assert_eq!(registry.len(), 0);
    assert_eq!(entries, vec![(10, 1), (20, 2)]);
    assert_eq!(handles_of(&entries), vec![10, 20]);
}

#[test]
fn readiness_positions_become_flags() {
    let flags = mark_ready(4, &vec![2, 0]);
    assert_eq!(flags, vec![true, false, true, false]);
    assert_eq!(mark_ready(0, &vec![]), Vec::<bool>::new());
}

#[test]
fn ready_entries_fire_and_the_rest_are_kept() {
    let entries: Vec<(u64, u32)> = vec![(10, 1), (20, 2), (30, 3)];
    let ready = vec![true, false, true];
    let (fired, kept) = partition_ready(entries, &ready);
    assert_eq!(fired, vec![1, 3]);
    assert_eq!(kept, vec![(20, 2)]);
}

#[test]
fn one_round_keeps_not_ready_entries_unchanged() {
    let mut registry: Registry<u32> = Registry::new();
    push_waker(&mut registry, 10, 1);
    push_waker(&mut registry, 20, 2);
    let fired = run_round(&mut registry, &vec![false, true]);
    assert_eq!(fired, vec![2]);
    assert_eq!(registry.len(), 1);
    let left = take_entries(&mut registry);
    assert_eq!(left, vec![(10, 1)]);

    let mut none_ready: Registry<u32> = Registry::new();
    push_waker(&mut none_ready, 7, 9);
    let fired = run_round(&mut none_ready, &vec![false]);
    assert_eq!(fired, Vec::<u32>::new());
    assert_eq!(take_entries(&mut none_ready), vec![(7, 9)]);
}

#[test]
fn body_finish_happens_exactly_once() {
    let mut guard = BodyGuard::new(40, 41);
    let mut finishes = 0;
    if let Some(pair) = guard.teardown() {
        assert_eq!(pair, BodyPair { stream: 40, body: 41 });
        finishes += 1;
    }
    if guard.teardown().is_some() {
        finishes += 1;
    }
    if guard.teardown().is_some() {
        finishes += 1;
    }
    assert_eq!(finishes, 1);
    assert!(!guard.is_armed());
}

#[test]
fn refused_submission_resolves_without_host_calls() {
    let (outcome, events) = drive_send(SubmitReply::Refused(5), vec![PeekReply::Ready(Ok(1))]);
    assert_eq!(outcome, Some(Err(5)));
    assert_eq!(events, Vec::<BridgeEvent>::new());
}

#[test]
fn pending_polls_subscribe_once_each() {
    let peeks = vec![
        PeekReply::NotReady,
        PeekReply::NotReady,
        PeekReply::Ready(Ok(42)),
    ];
    let (outcome, events) = drive_send(SubmitReply::Accepted, peeks);
    assert_eq!(outcome, Some(Ok(42)));
    assert_eq!(
        events,
        vec![
            BridgeEvent::Peek(PeekReply::NotReady),
            BridgeEvent::Subscribe,
            BridgeEvent::Peek(PeekReply::NotReady),
            BridgeEvent::Subscribe,
            BridgeEvent::Peek(PeekReply::Ready(Ok(42))),
        ]
    );
}

#[test]
fn finished_exchange_errors_resolve_verbatim() {
    let (outcome, events) = drive_send(SubmitReply::Accepted, vec![PeekReply::Ready(Err(3))]);
    assert_eq!(outcome, Some(Err(3)));
    assert_eq!(events, vec![BridgeEvent::Peek(PeekReply::Ready(Err(3)))]);
}
