use vstd::prelude::*;

use crate::dispatch::{triggers, MessageKind};

verus! {

/// Where the reconnect loop stands.
#[derive(Clone, Copy, Debug, PartialEq, Eq, Structural)]
pub enum LoopState {
    /// Waiting for a trigger.
    Idle,
    /// A new connection is being built.
    Constructing,
    /// The new connection is installed and the registry is being replayed on it.
    Replaying,
    /// Waiting out the reattempt interval before building again.
    Backoff,
    /// The loop has ended.
    Stopped,
}

/// What the driver of the loop observed after carrying out the last action.
#[derive(Clone, Copy, Debug, PartialEq, Eq, Structural)]
pub enum LoopEvent {
    /// A trigger was received from the trigger channel.
    Triggered,
    /// The trigger channel is closed: every sender is gone.
    ChannelClosed,
    /// The connection holder or the registry could no longer be reached.
    OwnersGone,
    /// A new connection was built.
    Constructed,
    /// Building a new connection failed.
    ConstructionFailed,
    /// Every replayed subscribe returned; `all_ok` tells whether all of them succeeded.
    Replayed { all_ok: bool },
    /// The reattempt interval has passed.
    Slept,
}

/// What the driver of the loop must do next.
#[derive(Clone, Copy, Debug, PartialEq, Eq, Structural)]
pub enum LoopAction {
    /// Wait for the next trigger, or for the channel to close.
    AwaitTrigger,
    /// Reach the holder and the registry, then build a new connection
    /// from the parameters captured at instantiation.
    Construct,
    /// Reach the holder and the registry, install the new connection, take a
    /// snapshot of the registry and replay every registration of it, in order,
    /// then report whether all succeeded.
    InstallAndReplay,
    /// Sleep for the given number of milliseconds.
    Sleep { millis: u64 },
    /// Leave the loop.
    Exit,
}

/// The action that a state waits on.
pub open spec fn pending(s: LoopState, interval: u64) -> LoopAction {
    match s {
        LoopState::Idle => LoopAction::AwaitTrigger,
        LoopState::Constructing => LoopAction::Construct,
        LoopState::Replaying => LoopAction::InstallAndReplay,
        LoopState::Backoff => LoopAction::Sleep { millis: interval },
        LoopState::Stopped => LoopAction::Exit,
    }
}

/// One step of the loop: the next state and the action to carry out.
///
/// An event that does not answer the state's pending action leaves the state
/// as it is and repeats that action.
pub open spec fn transition(s: LoopState, e: LoopEvent, interval: u64) -> (LoopState, LoopAction) {
    match (s, e) {
        (LoopState::Stopped, _) => (LoopState::Stopped, LoopAction::Exit),
        (LoopState::Idle, LoopEvent::Triggered) => (LoopState::Constructing, LoopAction::Construct),
        (LoopState::Idle, LoopEvent::ChannelClosed) => (LoopState::Stopped, LoopAction::Exit),
        (LoopState::Constructing, LoopEvent::Constructed) => (
            LoopState::Replaying,
            LoopAction::InstallAndReplay,
        ),
        (LoopState::Constructing, LoopEvent::ConstructionFailed) => (
            LoopState::Backoff,
            LoopAction::Sleep { millis: interval },
        ),
        (LoopState::Constructing, LoopEvent::OwnersGone) => (LoopState::Idle, LoopAction::AwaitTrigger),
        (LoopState::Replaying, LoopEvent::OwnersGone) => (LoopState::Idle, LoopAction::AwaitTrigger),
        (LoopState::Replaying, LoopEvent::Replayed { all_ok }) => if all_ok {
            (LoopState::Idle, LoopAction::AwaitTrigger)
        } else {
            (LoopState::Backoff, LoopAction::Sleep { millis: interval })
        },
        (LoopState::Backoff, LoopEvent::Slept) => (LoopState::Constructing, LoopAction::Construct),
        _ => (s, pending(s, interval)),
    }
}

/// The state reached and the actions issued when the events arrive one after another.
pub open spec fn run(s: LoopState, events: Seq<LoopEvent>, interval: u64) -> (LoopState, Seq<LoopAction>)
    decreases events.len(),
{
    if events.len() == 0 {
        (s, Seq::empty())
    } else {
        let (s1, a) = transition(s, events[0], interval);
        let (s2, rest) = run(s1, events.drop_first(), interval);
        (s2, seq![a] + rest)
    }
}

/// The background loop that rebuilds the connection and replays the registry.
///
/// It only decides: the driver carries out each action it returns and reports
/// what came of it as the next event.
pub struct ReconnectLoop {
    state: LoopState,
    reattempt_interval_ms: u64,
}

impl ReconnectLoop {
    pub closed spec fn state_spec(&self) -> LoopState {
        self.state
    }

    pub closed spec fn interval_spec(&self) -> u64 {
        self.reattempt_interval_ms
    }

    /// A loop waiting for its first trigger, which sleeps `reattempt_interval_ms`
    /// between attempts.
    pub fn new(reattempt_interval_ms: u64) -> (r: Self)
        ensures
            r.state_spec() == LoopState::Idle,
            r.interval_spec() == reattempt_interval_ms,
    {
        ReconnectLoop { state: LoopState::Idle, reattempt_interval_ms }
    }

    /// The current state.
    pub fn state(&self) -> (r: LoopState)
        ensures
            r == self.state_spec(),
    {
        self.state
    }

    /// The fixed interval between attempts, in milliseconds.
    pub fn reattempt_interval_ms(&self) -> (r: u64)
        ensures
            r == self.interval_spec(),
    {
        self.reattempt_interval_ms
    }

    /// Takes in what came of the last action and returns the next one.
    pub fn step(&mut self, event: LoopEvent) -> (action: LoopAction)
        ensures
            (final(self).state_spec(), action) == transition(
                old(self).state_spec(),
                event,
                old(self).interval_spec(),
            ),
            final(self).interval_spec() == old(self).interval_spec(),
    {
        let interval = self.reattempt_interval_ms;
        let (next, action) = match (self.state, event) {
            (LoopState::Stopped, _) => (LoopState::Stopped, LoopAction::Exit),
            (LoopState::Idle, LoopEvent::Triggered) => (LoopState::Constructing, LoopAction::Construct),
            (LoopState::Idle, LoopEvent::ChannelClosed) => (LoopState::Stopped, LoopAction::Exit),
            (LoopState::Constructing, LoopEvent::Constructed) => (
                LoopState::Replaying,
                LoopAction::InstallAndReplay,
            ),
            (LoopState::Constructing, LoopEvent::ConstructionFailed) => (
                LoopState::Backoff,
                LoopAction::Sleep { millis: interval },
            ),
            (LoopState::Constructing, LoopEvent::OwnersGone) => (
                LoopState::Idle,
                LoopAction::AwaitTrigger,
            ),
            (LoopState::Replaying, LoopEvent::OwnersGone) => (
                LoopState::Idle,
                LoopAction::AwaitTrigger,
            ),
            (LoopState::Replaying, LoopEvent::Replayed { all_ok }) => if all_ok {
                (LoopState::Idle, LoopAction::AwaitTrigger)
            } else {
                (LoopState::Backoff, LoopAction::Sleep { millis: interval })
            },
            (LoopState::Backoff, LoopEvent::Slept) => (LoopState::Constructing, LoopAction::Construct),
            (s, _) => (s, pending_action(s, interval)),
        };
        self.state = next;
        action
    }
}

/// The action that `s` waits on.
pub fn pending_action(s: LoopState, interval: u64) -> (r: LoopAction)
    ensures
        r == pending(s, interval),
{
    match s {
        LoopState::Idle => LoopAction::AwaitTrigger,
        LoopState::Constructing => LoopAction::Construct,
        LoopState::Replaying => LoopAction::InstallAndReplay,
        LoopState::Backoff => LoopAction::Sleep { millis: interval },
        LoopState::Stopped => LoopAction::Exit,
    }
}

/// Whether every replayed subscribe succeeded.
pub fn all_succeeded(outcomes: &Vec<bool>) -> (r: bool)
    ensures
        r == forall|i: int| 0 <= i < outcomes@.len() ==> outcomes@[i],
{
    let mut i: usize = 0;
    while i < outcomes.len()
        invariant
            i <= outcomes@.len(),
            forall|j: int| 0 <= j < i ==> outcomes@[j],
        decreases outcomes@.len() - i,
    {
        if !outcomes[i] {
            return false;
        }
        i = i + 1;
    }
    true
}

/// The event that reports a finished replay.
pub fn replay_event(outcomes: &Vec<bool>) -> (r: LoopEvent)
    ensures
        r == (LoopEvent::Replayed { all_ok: forall|i: int| 0 <= i < outcomes@.len() ==> outcomes@[i] }),
{
    LoopEvent::Replayed { all_ok: all_succeeded(outcomes) }
}

/// `block` written `k` times in a row.
pub open spec fn repeat<A>(block: Seq<A>, k: nat) -> Seq<A>
    decreases k,
{
    if k == 0 {
        Seq::empty()
    } else {
        block + repeat(block, (k - 1) as nat)
    }
}

/// Running two stretches of events is running the first, then the second
/// from where the first ended.
pub proof fn lemma_run_append(s: LoopState, first: Seq<LoopEvent>, second: Seq<LoopEvent>, interval: u64)
    ensures
        run(s, first + second, interval) == (
            run(run(s, first, interval).0, second, interval).0,
            run(s, first, interval).1 + run(run(s, first, interval).0, second, interval).1,
        ),
    decreases first.len(),
{
    if first.len() == 0 {
        assert(first + second =~= second);
        let rest = run(s, second, interval).1;
        assert(Seq::<LoopAction>::empty() + rest =~= rest);
    } else {
        let (s1, a) = transition(s, first[0], interval);
        assert((first + second).drop_first() =~= first.drop_first() + second);
        lemma_run_append(s1, first.drop_first(), second, interval);
        let mid = run(s1, first.drop_first(), interval);
        let last = run(mid.0, second, interval);
        assert(seq![a] + (mid.1 + last.1) =~= (seq![a] + mid.1) + last.1);
    }
}

proof fn lemma_failed_constructions(k: nat, interval: u64)
    ensures
        run(
            LoopState::Constructing,
            repeat(seq![LoopEvent::ConstructionFailed, LoopEvent::Slept], k),
            interval,
        ) == (
            LoopState::Constructing,
            repeat(seq![LoopAction::Sleep { millis: interval }, LoopAction::Construct], k),
        ),
    decreases k,
{
    let failed = seq![LoopEvent::ConstructionFailed, LoopEvent::Slept];
    let retried = seq![LoopAction::Sleep { millis: interval }, LoopAction::Construct];
    if k == 0 {
        assert(run(LoopState::Constructing, repeat(failed, k), interval).1 =~= repeat(retried, k));
    } else {
        lemma_failed_constructions((k - 1) as nat, interval);
        lemma_run_append(LoopState::Constructing, failed, repeat(failed, (k - 1) as nat), interval);
        reveal_with_fuel(run, 3);
        assert(failed.drop_first().drop_first() =~= Seq::<LoopEvent>::empty());
        assert(run(LoopState::Constructing, failed, interval).1 =~= retried);
    }
}

/// Construction is retried without bound: after a trigger, `k` failed
/// constructions and then a successful one issue exactly `k + 1` construction
/// attempts, each after the first preceded by a sleep of the reattempt
/// interval, and the loop then replays on the new connection.
pub proof fn lemma_construction_retries(k: nat, interval: u64)
    ensures
        run(
            LoopState::Idle,
            seq![LoopEvent::Triggered] + repeat(seq![LoopEvent::ConstructionFailed, LoopEvent::Slept], k)
                + seq![LoopEvent::Constructed],
            interval,
        ) == (
            LoopState::Replaying,
            seq![LoopAction::Construct] + repeat(
                seq![LoopAction::Sleep { millis: interval }, LoopAction::Construct],
                k,
            ) + seq![LoopAction::InstallAndReplay],
        ),
{
    let failed = repeat(seq![LoopEvent::ConstructionFailed, LoopEvent::Slept], k);
    let retried = repeat(seq![LoopAction::Sleep { millis: interval }, LoopAction::Construct], k);
    let head = seq![LoopEvent::Triggered];
    let tail = seq![LoopEvent::Constructed];
    lemma_failed_constructions(k, interval);
    lemma_run_append(LoopState::Idle, head + failed, tail, interval);
    lemma_run_append(LoopState::Idle, head, failed, interval);
    reveal_with_fuel(run, 2);
    assert(head.drop_first() =~= Seq::<LoopEvent>::empty());
    assert(tail.drop_first() =~= Seq::<LoopEvent>::empty());
    assert(run(LoopState::Idle, head, interval).1 =~= seq![LoopAction::Construct]);
    assert(run(LoopState::Constructing, tail, interval).1 =~= seq![LoopAction::InstallAndReplay]);
}

/// A failed replay restarts the whole episode: the loop sleeps, leaves the
/// backoff only once the interval has passed, and then builds a new
/// connection and replays the full snapshot on it.
pub proof fn lemma_failed_replay_restarts(interval: u64)
    ensures
        transition(LoopState::Replaying, LoopEvent::Replayed { all_ok: false }, interval) == (
            LoopState::Backoff,
            LoopAction::Sleep { millis: interval },
        ),
        forall|e: LoopEvent|
            e != LoopEvent::Slept ==> #[trigger] transition(LoopState::Backoff, e, interval) == (
                LoopState::Backoff,
                LoopAction::Sleep { millis: interval },
            ),
        transition(LoopState::Backoff, LoopEvent::Slept, interval) == (
            LoopState::Constructing,
            LoopAction::Construct,
        ),
        run(
            LoopState::Replaying,
            seq![LoopEvent::Replayed { all_ok: false }, LoopEvent::Slept, LoopEvent::Constructed],
            interval,
        ) == (
            LoopState::Replaying,
            seq![
                LoopAction::Sleep { millis: interval },
                LoopAction::Construct,
                LoopAction::InstallAndReplay,
            ],
        ),
{
    let events = seq![LoopEvent::Replayed { all_ok: false }, LoopEvent::Slept, LoopEvent::Constructed];
    reveal_with_fuel(run, 4);
    assert(events.drop_first() =~= seq![LoopEvent::Slept, LoopEvent::Constructed]);
    assert(events.drop_first().drop_first() =~= seq![LoopEvent::Constructed]);
    assert(events.drop_first().drop_first().drop_first() =~= Seq::<LoopEvent>::empty());
    assert(run(LoopState::Replaying, events, interval).1 =~= seq![
        LoopAction::Sleep { millis: interval },
        LoopAction::Construct,
        LoopAction::InstallAndReplay,
    ]);
}

/// Only an observed fatal socket error leads to a reconnect: no other kind of
/// message sends a trigger, and an idle loop builds a connection on a trigger
/// and on no other event.
pub proof fn lemma_only_triggers_reconnect(kind: MessageKind, e: LoopEvent, interval: u64)
    ensures
        triggers(kind) <==> kind == MessageKind::FatalSocketError,
        transition(LoopState::Idle, e, interval).1 == LoopAction::Construct <==> e == LoopEvent::Triggered,
        transition(LoopState::Idle, e, interval).0 != LoopState::Idle ==> (e == LoopEvent::Triggered
            || e == LoopEvent::ChannelClosed),
{
}

/// Once the holder and the registry are out of reach the episode ends
/// without a new connection, the loop stops when the trigger channel closes,
/// and a stopped loop stays stopped whatever comes.
pub proof fn lemma_release_ends_loop(events: Seq<LoopEvent>, interval: u64)
    ensures
        transition(LoopState::Constructing, LoopEvent::OwnersGone, interval) == (
            LoopState::Idle,
            LoopAction::AwaitTrigger,
        ),
        transition(LoopState::Replaying, LoopEvent::OwnersGone, interval) == (
            LoopState::Idle,
            LoopAction::AwaitTrigger,
        ),
        transition(LoopState::Idle, LoopEvent::ChannelClosed, interval) == (
            LoopState::Stopped,
            LoopAction::Exit,
        ),
        run(LoopState::Stopped, events, interval) == (
            LoopState::Stopped,
            Seq::new(events.len(), |i: int| LoopAction::Exit),
        ),
    decreases events.len(),
{
    if events.len() == 0 {
        assert(run(LoopState::Stopped, events, interval).1 =~= Seq::new(
            events.len(),
            |i: int| LoopAction::Exit,
        ));
    } else {
        lemma_release_ends_loop(events.drop_first(), interval);
        assert(run(LoopState::Stopped, events, interval).1 =~= Seq::new(
            events.len(),
            |i: int| LoopAction::Exit,
        ));
    }
}

} // verus!
