//! The connection supervisor state machine.
//!
//! The supervisor owns the connection state, the subscription registry,
//! the reconnect-attempt counter and the liveness monitor. It is a pure
//! state machine: the embedding program feeds it one [`Input`] at a
//! time — connect outcomes, heartbeat ticks, decoded frames, transport
//! failures, and consumer commands — and performs the [`Action`]s each
//! step returns, in order. [`spec_step`] is the single mathematical
//! description of every transition, and the executable [`Supervisor::step`]
//! is proved to follow it exactly.

use vstd::prelude::*;
use vstd::seq_lib::*;

use crate::backoff::{backoff_delay_ms, backoff_spec};
use crate::codec::{Directive, DirectiveV, Inbound, InboundV};
use crate::liveness::LivenessMonitor;
use crate::registry::SubscriptionRegistry;
use crate::subscription::{Subscription, SubscriptionV};
use crate::MAX_MISSED_PONGS;

verus! {

/// Connection lifecycle state, owned exclusively by the supervisor.
/// Consumers never poll it; they observe transitions as [`Event`]s.
#[derive(Clone, Copy, Debug, PartialEq, Eq, Structural)]
pub enum ConnState {
    Disconnected,
    Connecting,
    Connected,
}

/// What the consumer observes: connection lifecycle transitions and
/// decoded data messages, in the exact order the supervisor produced
/// them.
#[derive(Debug, Clone, PartialEq, Eq)]
pub enum Event {
    /// Connection established, including after a reconnect; tracked
    /// subscriptions have been replayed.
    Connected,
    /// Connection lost; the supervisor reconnects on its own.
    Disconnected,
    /// A decoded inbound data message.
    Message(Inbound),
}

/// The mathematical shape of an [`Event`].
pub enum EventV {
    Connected,
    Disconnected,
    Message(InboundV),
}

impl View for Event {
    type V = EventV;

    open spec fn view(&self) -> EventV {
        match self {
            Event::Connected => EventV::Connected,
            Event::Disconnected => EventV::Disconnected,
            Event::Message(m) => EventV::Message(m@),
        }
    }
}

/// What the environment tells the supervisor.
#[derive(Debug)]
pub enum Input {
    /// The reconnect delay has elapsed (or the loop has just started).
    RetryElapsed,
    /// A connection attempt finished successfully.
    ConnectSucceeded,
    /// A connection attempt failed or timed out.
    ConnectFailed,
    /// The fixed-interval heartbeat timer fired.
    HeartbeatTick,
    /// One frame was decoded from the transport.
    Frame(Inbound),
    /// The transport reported end-of-stream or a read error.
    TransportClosed,
    /// Writing a directive to the transport failed.
    SendFailed,
    /// The consumer wants this feed.
    Subscribe(Subscription),
    /// The consumer no longer wants this feed.
    Unsubscribe(Subscription),
}

/// The mathematical shape of an [`Input`].
pub enum InputV {
    RetryElapsed,
    ConnectSucceeded,
    ConnectFailed,
    HeartbeatTick,
    Frame(InboundV),
    TransportClosed,
    SendFailed,
    Subscribe(SubscriptionV),
    Unsubscribe(SubscriptionV),
}

impl View for Input {
    type V = InputV;

    open spec fn view(&self) -> InputV {
        match self {
            Input::RetryElapsed => InputV::RetryElapsed,
            Input::ConnectSucceeded => InputV::ConnectSucceeded,
            Input::ConnectFailed => InputV::ConnectFailed,
            Input::HeartbeatTick => InputV::HeartbeatTick,
            Input::Frame(m) => InputV::Frame(m@),
            Input::TransportClosed => InputV::TransportClosed,
            Input::SendFailed => InputV::SendFailed,
            Input::Subscribe(s) => InputV::Subscribe(s@),
            Input::Unsubscribe(s) => InputV::Unsubscribe(s@),
        }
    }
}

/// What the environment must do after a step, in order.
#[derive(Debug, Clone, PartialEq, Eq)]
pub enum Action {
    /// Deliver this event to the consumer.
    Emit(Event),
    /// Encode this directive and write it to the transport.
    Send(Directive),
    /// Begin a connection attempt and report how it went.
    Connect,
    /// Wait this many milliseconds, then report the retry delay elapsed.
    Sleep(u64),
}

/// The mathematical shape of an [`Action`].
pub enum ActionV {
    Emit(EventV),
    Send(DirectiveV),
    Connect,
    Sleep(u64),
}

impl View for Action {
    type V = ActionV;

    open spec fn view(&self) -> ActionV {
        match self {
            Action::Emit(e) => ActionV::Emit(e@),
            Action::Send(d) => ActionV::Send(d@),
            Action::Connect => ActionV::Connect,
            Action::Sleep(ms) => ActionV::Sleep(*ms),
        }
    }
}

/// The views of a sequence of actions.
pub open spec fn actions_view(v: Seq<Action>) -> Seq<ActionV> {
    Seq::new(v.len(), |i: int| v[i]@)
}

/// The mathematical state of the supervisor.
pub struct SupervisorV {
    pub state: ConnState,
    pub subs: Seq<SubscriptionV>,
    pub attempts: u32,
    pub missed_pongs: u8,
}

impl SupervisorV {
    /// The registry never repeats a subscription and the missed-pong
    /// counter never passes its threshold.
    pub open spec fn wf(self) -> bool {
        &&& self.subs.no_duplicates()
        &&& self.missed_pongs <= MAX_MISSED_PONGS
    }
}

/// The state a supervisor starts from: disconnected, nothing tracked.
pub open spec fn initial_state() -> SupervisorV {
    SupervisorV {
        state: ConnState::Disconnected,
        subs: Seq::empty(),
        attempts: 0,
        missed_pongs: 0,
    }
}

/// The replay after a successful (re)connect: one subscribe directive
/// per tracked subscription, in registry order.
pub open spec fn replay_actions(subs: Seq<SubscriptionV>) -> Seq<ActionV> {
    Seq::new(subs.len(), |i: int| ActionV::Send(DirectiveV::Subscribe(subs[i])))
}

/// The attempt counter after one more failure; it never wraps.
pub open spec fn saturating_inc(n: u32) -> u32 {
    if n == u32::MAX {
        n
    } else {
        (n + 1) as u32
    }
}

/// One transition of the supervisor: the state after input `input`, and
/// the actions the environment must perform, in order. Inputs that make
/// no sense in the current state change nothing.
pub open spec fn spec_step(s: SupervisorV, input: InputV) -> (SupervisorV, Seq<ActionV>) {
    match input {
        InputV::RetryElapsed => if s.state is Disconnected {
            (SupervisorV { state: ConnState::Connecting, ..s }, seq![ActionV::Connect])
        } else {
            (s, Seq::empty())
        },
        InputV::ConnectSucceeded => if s.state is Connecting {
            (
                SupervisorV { state: ConnState::Connected, attempts: 0, missed_pongs: 0, ..s },
                seq![ActionV::Emit(EventV::Connected)] + replay_actions(s.subs),
            )
        } else {
            (s, Seq::empty())
        },
        InputV::ConnectFailed => if s.state is Connecting {
            (
                SupervisorV {
                    state: ConnState::Disconnected,
                    attempts: saturating_inc(s.attempts),
                    ..s
                },
                seq![ActionV::Sleep(backoff_spec(s.attempts))],
            )
        } else {
            (s, Seq::empty())
        },
        InputV::HeartbeatTick => if s.state is Connected {
            if s.missed_pongs >= MAX_MISSED_PONGS {
                (
                    SupervisorV { state: ConnState::Connecting, ..s },
                    seq![ActionV::Emit(EventV::Disconnected), ActionV::Connect],
                )
            } else {
                (
                    SupervisorV { missed_pongs: (s.missed_pongs + 1) as u8, ..s },
                    seq![ActionV::Send(DirectiveV::Ping)],
                )
            }
        } else {
            (s, Seq::empty())
        },
        InputV::Frame(m) => if s.state is Connected {
            match m {
                InboundV::Pong => (SupervisorV { missed_pongs: 0, ..s }, Seq::empty()),
                InboundV::Ping => (s, seq![ActionV::Send(DirectiveV::Pong)]),
                _ => (s, seq![ActionV::Emit(EventV::Message(m))]),
            }
        } else {
            (s, Seq::empty())
        },
        InputV::TransportClosed => if s.state is Connected {
            (
                SupervisorV { state: ConnState::Connecting, ..s },
                seq![ActionV::Emit(EventV::Disconnected), ActionV::Connect],
            )
        } else {
            (s, Seq::empty())
        },
        InputV::SendFailed => if s.state is Connected {
            (
                SupervisorV { state: ConnState::Connecting, ..s },
                seq![ActionV::Emit(EventV::Disconnected), ActionV::Connect],
            )
        } else {
            (s, Seq::empty())
        },
        InputV::Subscribe(x) => if s.subs.contains(x) {
            (s, Seq::empty())
        } else {
            (
                SupervisorV { subs: s.subs.push(x), ..s },
                if s.state is Connected {
                    seq![ActionV::Send(DirectiveV::Subscribe(x))]
                } else {
                    Seq::empty()
                },
            )
        },
        InputV::Unsubscribe(x) => if s.subs.contains(x) {
            (
                SupervisorV { subs: s.subs.remove_value(x), ..s },
                if s.state is Connected {
                    seq![ActionV::Send(DirectiveV::Unsubscribe(x))]
                } else {
                    Seq::empty()
                },
            )
        } else {
            (s, Seq::empty())
        },
    }
}

/// The background control loop's state: connection state, registry,
/// backoff counter and liveness monitor, driven one input at a time.
pub struct Supervisor {
    state: ConnState,
    registry: SubscriptionRegistry,
    attempts: u32,
    liveness: LivenessMonitor,
}

impl View for Supervisor {
    type V = SupervisorV;

    closed spec fn view(&self) -> SupervisorV {
        SupervisorV {
            state: self.state,
            subs: self.registry@,
            attempts: self.attempts,
            missed_pongs: self.liveness@,
        }
    }
}

impl Supervisor {
    /// The supervisor's invariant.
    pub open spec fn wf(&self) -> bool {
        self@.wf()
    }

    /// A fresh supervisor: disconnected, nothing tracked, no failures.
    pub fn new() -> (s: Supervisor)
        ensures
            s@ == initial_state(),
            s.wf(),
    {
        Supervisor {
            state: ConnState::Disconnected,
            registry: SubscriptionRegistry::new(),
            attempts: 0,
            liveness: LivenessMonitor::new(),
        }
    }

    /// Runs one transition, exactly as [`spec_step`] describes it.
    pub fn step(&mut self, input: Input) -> (actions: Vec<Action>)
        requires
            old(self).wf(),
        ensures
            final(self).wf(),
            final(self)@ == spec_step(old(self)@, input@).0,
            actions_view(actions@) == spec_step(old(self)@, input@).1,
    {
        let ghost pre = self@;
        let ghost iv = input@;
        let mut actions: Vec<Action> = Vec::new();
        match input {
            Input::RetryElapsed => {
                if self.state == ConnState::Disconnected {
                    self.state = ConnState::Connecting;
                    actions.push(Action::Connect);
                }
            },
            Input::ConnectSucceeded => {
                if self.state == ConnState::Connecting {
                    actions.push(Action::Emit(Event::Connected));
                    let n = self.registry.len();
                    let mut i: usize = 0;
                    while i < n
                        invariant
                            old(self).wf(),
                            self == old(self),
                            n == self@.subs.len(),
                            i <= n,
                            actions_view(actions@) =~= seq![ActionV::Emit(EventV::Connected)]
                                + replay_actions(self@.subs.take(i as int)),
                        decreases n - i,
                    {
                        let sub = self.registry.get(i).clone();
                        let ghost before = actions@;
                        actions.push(Action::Send(Directive::Subscribe(sub)));
                        proof {
                            let k = i as int;
                            assert(sub@ == self@.subs[k]);
                            assert(actions@ == before.push(
                                Action::Send(Directive::Subscribe(sub)),
                            ));
                            assert(actions_view(actions@) =~= actions_view(before).push(
                                ActionV::Send(DirectiveV::Subscribe(sub@)),
                            ));
                            assert(seq![ActionV::Emit(EventV::Connected)] + replay_actions(
                                self@.subs.take(k + 1),
                            ) =~= (seq![ActionV::Emit(EventV::Connected)] + replay_actions(
                                self@.subs.take(k),
                            )).push(ActionV::Send(DirectiveV::Subscribe(sub@))));
                            assert(actions_view(actions@) =~= seq![
                                ActionV::Emit(EventV::Connected),
                            ] + replay_actions(self@.subs.take(k + 1)));
                        }
                        i += 1;
                    }
                    proof {
                        assert(self@.subs.take(n as int) =~= self@.subs);
                    }
                    self.state = ConnState::Connected;
                    self.attempts = 0;
                    self.liveness.reset();
                }
            },
            Input::ConnectFailed => {
                if self.state == ConnState::Connecting {
                    let delay = backoff_delay_ms(self.attempts);
                    actions.push(Action::Sleep(delay));
                    self.attempts = if self.attempts == u32::MAX {
                        self.attempts
                    } else {
                        self.attempts + 1
                    };
                    self.state = ConnState::Disconnected;
                }
            },
            Input::HeartbeatTick => {
                if self.state == ConnState::Connected {
                    let stale = self.liveness.on_tick();
                    if stale {
                        actions.push(Action::Emit(Event::Disconnected));
                        actions.push(Action::Connect);
                        self.state = ConnState::Connecting;
                    } else {
                        actions.push(Action::Send(Directive::Ping));
                    }
                }
            },
            Input::Frame(m) => {
                if self.state == ConnState::Connected {
                    match m {
                        Inbound::Pong => {
                            self.liveness.on_pong();
                        },
                        Inbound::Ping => {
                            actions.push(Action::Send(Directive::Pong));
                        },
                        other => {
                            actions.push(Action::Emit(Event::Message(other)));
                        },
                    }
                }
            },
            Input::TransportClosed => {
                if self.state == ConnState::Connected {
                    actions.push(Action::Emit(Event::Disconnected));
                    actions.push(Action::Connect);
                    self.state = ConnState::Connecting;
                }
            },
            Input::SendFailed => {
                if self.state == ConnState::Connected {
                    actions.push(Action::Emit(Event::Disconnected));
                    actions.push(Action::Connect);
                    self.state = ConnState::Connecting;
                }
            },
            Input::Subscribe(sub) => {
                let connected = self.state == ConnState::Connected;
                let added = self.registry.add(sub.clone());
                if added && connected {
                    actions.push(Action::Send(Directive::Subscribe(sub)));
                }
            },
            Input::Unsubscribe(sub) => {
                let connected = self.state == ConnState::Connected;
                let removed = self.registry.remove(&sub);
                if removed && connected {
                    actions.push(Action::Send(Directive::Unsubscribe(sub)));
                }
            },
        }
        proof {
            assert(actions_view(actions@) =~= spec_step(pre, iv).1);
        }
        actions
    }
}

} // verus!
