use reconnectable_ws::dispatch::{dispatch, Dispatch, MessageKind};
use reconnectable_ws::reconnect::{
    all_succeeded, pending_action, replay_event, LoopAction, LoopEvent, LoopState, ReconnectLoop,
};
use reconnectable_ws::registry::SubscriptionRegistry;

fn feed(machine: &mut ReconnectLoop, events: &[LoopEvent]) -> Vec<LoopAction> {
    events.iter().map(|e| machine.step(*e)).collect()
}

#[test]
fn new_loop_is_idle() {
    let machine = ReconnectLoop::new(100);
    assert_eq!(machine.state(), LoopState::Idle);
    assert_eq!(machine.reattempt_interval_ms(), 100);
}

#[test]
fn fatal_error_replays_single_subscription() {
    let mut registry = SubscriptionRegistry::new();
    registry.append(("topicA", 1u32));
    let mut machine = ReconnectLoop::new(100);

    let d = dispatch(MessageKind::FatalSocketError);
    assert_eq!(d, Dispatch { forward: true, trigger: true });

    assert_eq!(machine.step(LoopEvent::Triggered), LoopAction::Construct);
    assert_eq!(machine.step(LoopEvent::Constructed), LoopAction::InstallAndReplay);
    let plan = registry.snapshot();
    assert_eq!(plan, vec![("topicA", 1u32)]);
    let outcomes = vec![true];
    assert_eq!(machine.step(replay_event(&outcomes)), LoopAction::AwaitTrigger);
    assert_eq!(machine.state(), LoopState::Idle);
}

#[test]
fn replay_keeps_subscribe_order_and_duplicates() {
    let mut registry = SubscriptionRegistry::new();
    assert_eq!(registry.len(), 0);
    for topic in ["s1", "s2", "s1", "s3"] {
        registry.append(topic.to_string());
    }
    assert_eq!(registry.len(), 4);
    assert_eq!(registry.snapshot(), vec!["s1", "s2", "s1", "s3"]);
}

#[test]
fn snapshot_does_not_see_later_appends() {
    let mut registry = SubscriptionRegistry::new();
    registry.append(1u8);
    let snap = registry.snapshot();
    registry.append(2u8);
    assert_eq!(snap, vec![1u8]);
    assert_eq!(registry.snapshot(), vec![1u8, 2u8]);
}

#[test]
fn empty_registry_snapshot_is_empty() {
    let registry: SubscriptionRegistry<u8> = SubscriptionRegistry::new();
    assert!(registry.snapshot().is_empty());
}

#[test]
fn construction_retried_k_times() {
    let k = 3;
    let mut machine = ReconnectLoop::new(250);
    let mut events = vec![LoopEvent::Triggered];
    for _ in 0..k {
        events.push(LoopEvent::ConstructionFailed);
        events.push(LoopEvent::Slept);
    }
    events.push(LoopEvent::Constructed);
    let actions = feed(&mut machine, &events);
    let constructs = actions.iter().filter(|a| **a == LoopAction::Construct).count();
    assert_eq!(constructs, k + 1);
    let mut expected = vec![LoopAction::Construct];
    for _ in 0..k {
        expected.push(LoopAction::Sleep { millis: 250 });
        expected.push(LoopAction::Construct);
    }
    expected.push(LoopAction::InstallAndReplay);
    assert_eq!(actions, expected);
    assert_eq!(machine.state(), LoopState::Replaying);
}

#[test]
fn failed_replay_restarts_episode() {
    let mut machine = ReconnectLoop::new(100);
    feed(&mut machine, &[LoopEvent::Triggered, LoopEvent::Constructed]);
    let outcomes = vec![true, false, true];
    assert!(!all_succeeded(&outcomes));
    assert_eq!(machine.step(replay_event(&outcomes)), LoopAction::Sleep { millis: 100 });
    assert_eq!(machine.state(), LoopState::Backoff);
    assert_eq!(machine.step(LoopEvent::Slept), LoopAction::Construct);
    assert_eq!(machine.step(LoopEvent::Constructed), LoopAction::InstallAndReplay);
    assert_eq!(machine.step(replay_event(&vec![true, true, true])), LoopAction::AwaitTrigger);
}

#[test]
fn backoff_waits_for_the_interval() {
    let mut machine = ReconnectLoop::new(7);
    feed(&mut machine, &[LoopEvent::Triggered, LoopEvent::ConstructionFailed]);
    assert_eq!(machine.step(LoopEvent::Triggered), LoopAction::Sleep { millis: 7 });
    assert_eq!(machine.step(LoopEvent::Constructed), LoopAction::Sleep { millis: 7 });
    assert_eq!(machine.state(), LoopState::Backoff);
}

#[test]
fn only_a_trigger_starts_an_episode() {
    for event in [
        LoopEvent::OwnersGone,
        LoopEvent::Constructed,
        LoopEvent::ConstructionFailed,
        LoopEvent::Replayed { all_ok: true },
        LoopEvent::Replayed { all_ok: false },
        LoopEvent::Slept,
    ] {
        let mut machine = ReconnectLoop::new(100);
        assert_eq!(machine.step(event), LoopAction::AwaitTrigger);
        assert_eq!(machine.state(), LoopState::Idle);
    }
    let mut machine = ReconnectLoop::new(100);
    assert_eq!(machine.step(LoopEvent::Triggered), LoopAction::Construct);
}

#[test]
fn only_fatal_errors_trigger() {
    assert_eq!(dispatch(MessageKind::Data), Dispatch { forward: true, trigger: false });
    assert_eq!(
        dispatch(MessageKind::ApplicationError),
        Dispatch { forward: true, trigger: false }
    );
    assert_eq!(
        dispatch(MessageKind::FatalSocketError),
        Dispatch { forward: true, trigger: true }
    );
}

#[test]
fn released_owners_end_the_loop() {
    let mut machine = ReconnectLoop::new(100);
    let actions = feed(
        &mut machine,
        &[LoopEvent::Triggered, LoopEvent::OwnersGone, LoopEvent::ChannelClosed],
    );
    assert_eq!(
        actions,
        vec![LoopAction::Construct, LoopAction::AwaitTrigger, LoopAction::Exit]
    );
    assert_eq!(machine.state(), LoopState::Stopped);
    assert_eq!(machine.step(LoopEvent::Triggered), LoopAction::Exit);
    assert_eq!(machine.step(LoopEvent::Constructed), LoopAction::Exit);
    assert_eq!(machine.state(), LoopState::Stopped);
}

#[test]
fn owners_gone_during_replay_ends_episode() {
    let mut machine = ReconnectLoop::new(100);
    feed(&mut machine, &[LoopEvent::Triggered, LoopEvent::Constructed]);
    assert_eq!(machine.step(LoopEvent::OwnersGone), LoopAction::AwaitTrigger);
    assert_eq!(machine.step(LoopEvent::ChannelClosed), LoopAction::Exit);
    assert_eq!(machine.state(), LoopState::Stopped);
}

#[test]
fn closed_channel_stops_idle_loop() {
    let mut machine = ReconnectLoop::new(0);
    assert_eq!(machine.step(LoopEvent::ChannelClosed), LoopAction::Exit);
    assert_eq!(machine.state(), LoopState::Stopped);
}

#[test]
fn all_succeeded_cases() {
    assert!(all_succeeded(&vec![]));
    assert!(all_succeeded(&vec![true, true]));
    assert!(!all_succeeded(&vec![false]));
    assert!(!all_succeeded(&vec![true, true, false]));
    assert_eq!(replay_event(&vec![]), LoopEvent::Replayed { all_ok: true });
    assert_eq!(replay_event(&vec![false, true]), LoopEvent::Replayed { all_ok: false });
}

#[test]
fn pending_actions() {
    assert_eq!(pending_action(LoopState::Idle, 5), LoopAction::AwaitTrigger);
    assert_eq!(pending_action(LoopState::Constructing, 5), LoopAction::Construct);
    assert_eq!(pending_action(LoopState::Replaying, 5), LoopAction::InstallAndReplay);
    assert_eq!(pending_action(LoopState::Backoff, 5), LoopAction::Sleep { millis: 5 });
    assert_eq!(pending_action(LoopState::Stopped, 5), LoopAction::Exit);
}

#[test]
fn largest_interval_is_kept() {
    let mut machine = ReconnectLoop::new(u64::MAX);
    feed(&mut machine, &[LoopEvent::Triggered]);
    assert_eq!(
        machine.step(LoopEvent::ConstructionFailed),
        LoopAction::Sleep { millis: u64::MAX }
    );
}
