//! The guarantees the supervisor gives across whole runs.
//!
//! [`run_steps`] folds [`spec_step`] over a sequence of inputs; the
//! lemmas here state the contract the consumer can rely on: the registry
//! follows exactly the subscribe/unsubscribe commands, a reconnect
//! replays exactly the tracked subscriptions, duplicate commands send
//! nothing, missed heartbeats force a reconnect, backoff delays never
//! decrease and never pass the cap, and data messages are forwarded in
//! the order they arrived.

use vstd::prelude::*;
use vstd::seq_lib::*;

use crate::backoff::{backoff_spec, lemma_backoff_monotone_capped};
use crate::codec::{DirectiveV, InboundV};
use crate::subscription::SubscriptionV;
use crate::supervisor::{
    replay_actions, saturating_inc, spec_step, ActionV, EventV, InputV, SupervisorV,
};
use crate::MAX_RECONNECT_DELAY_MS;

verus! {

/// The state after a whole sequence of inputs, and everything the
/// environment was asked to do along the way, in order.
pub open spec fn run_steps(s: SupervisorV, inputs: Seq<InputV>) -> (SupervisorV, Seq<ActionV>)
    decreases inputs.len(),
{
    if inputs.len() == 0 {
        (s, Seq::empty())
    } else {
        let first = spec_step(s, inputs.first());
        let rest = run_steps(first.0, inputs.drop_first());
        (rest.0, first.1 + rest.1)
    }
}

/// What one input does to the set of wanted subscriptions: subscribe
/// adds an absent entry, unsubscribe drops a present one, everything
/// else leaves the registry alone.
pub open spec fn apply_command(subs: Seq<SubscriptionV>, input: InputV) -> Seq<SubscriptionV> {
    match input {
        InputV::Subscribe(x) => if subs.contains(x) {
            subs
        } else {
            subs.push(x)
        },
        InputV::Unsubscribe(x) => if subs.contains(x) {
            subs.remove_value(x)
        } else {
            subs
        },
        _ => subs,
    }
}

/// The subscriptions the consumer wants after a sequence of inputs.
pub open spec fn tracked_subs(subs: Seq<SubscriptionV>, inputs: Seq<InputV>) -> Seq<SubscriptionV>
    decreases inputs.len(),
{
    if inputs.len() == 0 {
        subs
    } else {
        tracked_subs(apply_command(subs, inputs.first()), inputs.drop_first())
    }
}

/// A message the supervisor forwards to the consumer rather than
/// consuming internally.
pub open spec fn is_data(m: InboundV) -> bool {
    !(m is Ping) && !(m is Pong)
}

/// Removing one position keeps a duplicate-free sequence duplicate-free.
proof fn lemma_remove_no_dup<A>(s: Seq<A>, i: int)
    requires
        s.no_duplicates(),
        0 <= i < s.len(),
    ensures
        s.remove(i).no_duplicates(),
{
    let r = s.remove(i);
    assert forall|a: int, b: int| 0 <= a < b < r.len() implies r[a] != r[b] by {
        let map_back = |x: int| if x < i { x } else { x + 1 };
        assert(r[a] == s[map_back(a)]);
        assert(r[b] == s[map_back(b)]);
    }
}

/// Every step preserves the supervisor's invariant.
pub proof fn lemma_step_wf(s: SupervisorV, input: InputV)
    requires
        s.wf(),
    ensures
        spec_step(s, input).0.wf(),
{
    match input {
        InputV::Subscribe(x) => {
            if !s.subs.contains(x) {
                let r = s.subs.push(x);
                assert forall|a: int, b: int| 0 <= a < b < r.len() implies r[a] != r[b] by {
                    if b < s.subs.len() {
                        assert(r[a] == s.subs[a] && r[b] == s.subs[b]);
                    } else {
                        assert(r[b] == x && r[a] == s.subs[a]);
                        if s.subs[a] == x {
                            assert(s.subs.contains(x));
                        }
                    }
                }
            }
        },
        InputV::Unsubscribe(x) => {
            if s.subs.contains(x) {
                s.subs.index_of_first_ensures(x);
                let i = s.subs.index_of_first(x)->Some_0;
                lemma_remove_no_dup(s.subs, i);
            }
        },
        _ => {},
    }
}

/// *Registry tracks commands.* Over any run, the registry ends up
/// holding exactly what the subscribe/unsubscribe commands left wanted —
/// connection events, frames and timers never touch it — and it never
/// repeats an entry.
pub proof fn lemma_registry_follows_commands(s: SupervisorV, inputs: Seq<InputV>)
    requires
        s.wf(),
    ensures
        run_steps(s, inputs).0.wf(),
        run_steps(s, inputs).0.subs == tracked_subs(s.subs, inputs),
    decreases inputs.len(),
{
    if inputs.len() == 0 {
    } else {
        let first = inputs.first();
        let s1 = spec_step(s, first).0;
        lemma_step_wf(s, first);
        assert(s1.subs == apply_command(s.subs, first));
        lemma_registry_follows_commands(s1, inputs.drop_first());
    }
}

/// After a successful connect from registry contents `subs`, the replay
/// holds a subscribe directive for a feed exactly when the registry
/// holds that feed, and no action appears twice.
proof fn lemma_replay_actions_exact(subs: Seq<SubscriptionV>)
    requires
        subs.no_duplicates(),
    ensures
        (seq![ActionV::Emit(EventV::Connected)] + replay_actions(subs)).no_duplicates(),
        forall|x: SubscriptionV|
            (seq![ActionV::Emit(EventV::Connected)] + replay_actions(subs)).contains(
                ActionV::Send(DirectiveV::Subscribe(x)),
            ) == subs.contains(x),
{
    let replay = seq![ActionV::Emit(EventV::Connected)] + replay_actions(subs);
    assert(replay.len() == 1 + subs.len());
    assert forall|a: int, b: int| 0 <= a < b < replay.len() implies replay[a] != replay[b] by {
        if a > 0 {
            assert(replay[a] == ActionV::Send(DirectiveV::Subscribe(subs[a - 1])));
            assert(replay[b] == ActionV::Send(DirectiveV::Subscribe(subs[b - 1])));
            assert(subs[a - 1] != subs[b - 1]);
        }
    }
    assert forall|x: SubscriptionV|
        replay.contains(ActionV::Send(DirectiveV::Subscribe(x))) == subs.contains(x) by {
        if subs.contains(x) {
            let j = choose|j: int| 0 <= j < subs.len() && subs[j] == x;
            assert(replay[j + 1] == ActionV::Send(DirectiveV::Subscribe(x)));
        }
        if replay.contains(ActionV::Send(DirectiveV::Subscribe(x))) {
            let j = choose|j: int|
                0 <= j < replay.len() && replay[j] == ActionV::Send(DirectiveV::Subscribe(x));
            assert(j >= 1);
            assert(subs[j - 1] == x);
        }
    }
}

/// *Replay completeness.* However subscribe/unsubscribe commands,
/// frames, timers and disconnects were interleaved, the next successful
/// connect emits the `Connected` event and then re-issues exactly the
/// currently wanted subscriptions as subscribe directives — a subscribe
/// directive goes out for a feed exactly when the registry tracks it,
/// and no directive is issued twice.
pub proof fn lemma_replay_completeness(s: SupervisorV, inputs: Seq<InputV>)
    requires
        s.wf(),
    ensures
        ({
            let current = run_steps(s, inputs).0;
            let replay = spec_step(current, InputV::ConnectSucceeded).1;
            &&& current.subs == tracked_subs(s.subs, inputs)
            &&& current.subs.no_duplicates()
            &&& current.state is Connecting ==> {
                &&& replay == seq![ActionV::Emit(EventV::Connected)] + replay_actions(
                    current.subs,
                )
                &&& replay.no_duplicates()
                &&& forall|x: SubscriptionV|
                    replay.contains(ActionV::Send(DirectiveV::Subscribe(x)))
                        == current.subs.contains(x)
            }
        }),
{
    lemma_registry_follows_commands(s, inputs);
    let current = run_steps(s, inputs).0;
    if current.state is Connecting {
        lemma_replay_actions_exact(current.subs);
    }
}

/// *Idempotence.* While connected, subscribing to a feed that is already
/// tracked sends nothing, and a feed is only ever subscribed once per
/// command: the first subscribe sends exactly one directive, a repeat
/// sends none. Unsubscribing a feed that is not tracked sends nothing
/// and changes nothing.
pub proof fn lemma_subscribe_idempotent(s: SupervisorV, x: SubscriptionV)
    requires
        s.wf(),
        s.state is Connected,
    ensures
        s.subs.contains(x) ==> spec_step(s, InputV::Subscribe(x)) == (s, Seq::<ActionV>::empty()),
        !s.subs.contains(x) ==> spec_step(s, InputV::Subscribe(x)).1 == seq![
            ActionV::Send(DirectiveV::Subscribe(x)),
        ],
        spec_step(spec_step(s, InputV::Subscribe(x)).0, InputV::Subscribe(x)).1
            == Seq::<ActionV>::empty(),
        !s.subs.contains(x) ==> spec_step(s, InputV::Unsubscribe(x)) == (
            s,
            Seq::<ActionV>::empty(),
        ),
{
    let s1 = spec_step(s, InputV::Subscribe(x)).0;
    if s.subs.contains(x) {
        assert(s1 == s);
    } else {
        assert(s1.subs == s.subs.push(x));
        assert(s1.subs[s.subs.len() as int] == x);
        assert(s1.subs.contains(x));
    }
}

/// *Liveness forces reconnect.* From a fresh connection, if two
/// consecutive heartbeat intervals pass without a pong, the next tick
/// emits `Disconnected` and starts a new connection attempt, even though
/// the socket itself reported no error.
pub proof fn lemma_liveness_forces_reconnect(s: SupervisorV)
    requires
        s.wf(),
        s.state is Connected,
        s.missed_pongs == 0,
    ensures
        ({
            let s1 = spec_step(s, InputV::HeartbeatTick).0;
            let s2 = spec_step(s1, InputV::HeartbeatTick).0;
            let third = spec_step(s2, InputV::HeartbeatTick);
            &&& spec_step(s, InputV::HeartbeatTick).1 == seq![ActionV::Send(DirectiveV::Ping)]
            &&& spec_step(s1, InputV::HeartbeatTick).1 == seq![ActionV::Send(DirectiveV::Ping)]
            &&& third.1 == seq![ActionV::Emit(EventV::Disconnected), ActionV::Connect]
            &&& third.0.state is Connecting
        }),
{
}

/// *Backoff is monotone then capped, and resets on success.* A failed
/// connection attempt asks the environment to sleep the backoff delay of
/// the current attempt counter and raises the counter; the delay of the
/// next failure is no smaller, no delay ever exceeds the cap, and a
/// successful connect resets the counter so the sequence starts over.
pub proof fn lemma_backoff_policy(s: SupervisorV)
    requires
        s.wf(),
        s.state is Connecting,
    ensures
        ({
            let failed = spec_step(s, InputV::ConnectFailed);
            &&& failed.1 == seq![ActionV::Sleep(backoff_spec(s.attempts))]
            &&& failed.0.attempts == saturating_inc(s.attempts)
            &&& backoff_spec(s.attempts) <= backoff_spec(saturating_inc(s.attempts))
            &&& backoff_spec(s.attempts) <= MAX_RECONNECT_DELAY_MS
            &&& spec_step(s, InputV::ConnectSucceeded).0.attempts == 0
        }),
{
    lemma_backoff_monotone_capped(s.attempts);
}

/// *Event ordering.* Data frames arriving on a live connection are
/// forwarded to the consumer as message events in exactly the order they
/// arrived, with nothing interleaved and the connection undisturbed.
pub proof fn lemma_event_ordering(s: SupervisorV, m1: InboundV, m2: InboundV, m3: InboundV)
    requires
        s.wf(),
        s.state is Connected,
        is_data(m1),
        is_data(m2),
        is_data(m3),
    ensures
        ({
            let inputs = seq![InputV::Frame(m1), InputV::Frame(m2), InputV::Frame(m3)];
            &&& run_steps(s, inputs).1 == seq![
                ActionV::Emit(EventV::Message(m1)),
                ActionV::Emit(EventV::Message(m2)),
                ActionV::Emit(EventV::Message(m3)),
            ]
            &&& run_steps(s, inputs).0 == s
        }),
{
    reveal_with_fuel(run_steps, 5);
    let inputs = seq![InputV::Frame(m1), InputV::Frame(m2), InputV::Frame(m3)];
    let i1 = seq![InputV::Frame(m2), InputV::Frame(m3)];
    let i2 = seq![InputV::Frame(m3)];
    assert(inputs.first() == InputV::Frame(m1));
    assert(inputs.drop_first() =~= i1);
    assert(i1.first() == InputV::Frame(m2));
    assert(i1.drop_first() =~= i2);
    assert(i2.first() == InputV::Frame(m3));
    assert(i2.drop_first() =~= Seq::<InputV>::empty());
    assert(spec_step(s, InputV::Frame(m1)).0 == s);
    assert(spec_step(s, InputV::Frame(m1)).1 == seq![ActionV::Emit(EventV::Message(m1))]);
    assert(spec_step(s, InputV::Frame(m2)).0 == s);
    assert(spec_step(s, InputV::Frame(m2)).1 == seq![ActionV::Emit(EventV::Message(m2))]);
    assert(spec_step(s, InputV::Frame(m3)).0 == s);
    assert(spec_step(s, InputV::Frame(m3)).1 == seq![ActionV::Emit(EventV::Message(m3))]);
    assert(run_steps(s, i2).0 == s);
    assert(run_steps(s, i2).1 =~= seq![ActionV::Emit(EventV::Message(m3))]);
    assert(run_steps(s, i1).0 == s);
    assert(run_steps(s, i1).1 =~= seq![
        ActionV::Emit(EventV::Message(m2)),
        ActionV::Emit(EventV::Message(m3)),
    ]);
    assert(run_steps(s, inputs).0 == s);
    assert(run_steps(s, inputs).1 =~= seq![
        ActionV::Emit(EventV::Message(m1)),
        ActionV::Emit(EventV::Message(m2)),
        ActionV::Emit(EventV::Message(m3)),
    ]);
}

} // verus!
