use hyperws::codec::{decode_frame, Directive, Inbound};
use hyperws::subscription::Subscription;
use hyperws::supervisor::{Action, Event, Input, Supervisor};

fn trades_btc() -> Subscription {
    Subscription::Trades {
        coin: "BTC".to_string(),
    }
}

fn connected_supervisor() -> Supervisor {
    let mut sup = Supervisor::new();
    assert_eq!(sup.step(Input::RetryElapsed), vec![Action::Connect]);
    assert_eq!(
        sup.step(Input::ConnectSucceeded),
        vec![Action::Emit(Event::Connected)]
    );
    sup
}

#[test]
fn subscribe_while_disconnected_only_registers() {
    let mut sup = Supervisor::new();
    let acts = sup.step(Input::Subscribe(trades_btc()));
    assert!(acts.is_empty());
}

#[test]
fn subscribe_while_connected_sends_once() {
    let mut sup = connected_supervisor();
    let acts = sup.step(Input::Subscribe(trades_btc()));
    assert_eq!(
        acts,
        vec![Action::Send(Directive::Subscribe(trades_btc()))]
    );
    // Subscribing to the same feed again sends nothing.
    let acts = sup.step(Input::Subscribe(trades_btc()));
    assert!(acts.is_empty());
    // Unsubscribing a feed that was never tracked sends nothing.
    let acts = sup.step(Input::Unsubscribe(Subscription::Bbo {
        coin: "BTC".to_string(),
    }));
    assert!(acts.is_empty());
}

#[test]
fn unsubscribe_sends_directive_and_forgets() {
    let mut sup = connected_supervisor();
    sup.step(Input::Subscribe(trades_btc()));
    let acts = sup.step(Input::Unsubscribe(trades_btc()));
    assert_eq!(
        acts,
        vec![Action::Send(Directive::Unsubscribe(trades_btc()))]
    );
    // A second unsubscribe is a no-op.
    let acts = sup.step(Input::Unsubscribe(trades_btc()));
    assert!(acts.is_empty());
}

#[test]
fn replay_reissues_exactly_the_registry() {
    let mut sup = Supervisor::new();
    let a = Subscription::Trades {
        coin: "BTC".to_string(),
    };
    let b = Subscription::Bbo {
        coin: "ETH".to_string(),
    };
    let c = Subscription::UserFills {
        user: "0xab".to_string(),
    };
    sup.step(Input::Subscribe(a.clone()));
    sup.step(Input::Subscribe(b.clone()));
    sup.step(Input::Subscribe(c.clone()));
    sup.step(Input::Subscribe(a.clone())); // duplicate: no effect
    sup.step(Input::Unsubscribe(b.clone())); // dropped before connecting
    sup.step(Input::RetryElapsed);
    let acts = sup.step(Input::ConnectSucceeded);
    assert_eq!(
        acts,
        vec![
            Action::Emit(Event::Connected),
            Action::Send(Directive::Subscribe(a)),
            Action::Send(Directive::Subscribe(c)),
        ]
    );
}

#[test]
fn liveness_two_missed_intervals_force_reconnect() {
    let mut sup = connected_supervisor();
    assert_eq!(
        sup.step(Input::HeartbeatTick),
        vec![Action::Send(Directive::Ping)]
    );
    assert_eq!(
        sup.step(Input::HeartbeatTick),
        vec![Action::Send(Directive::Ping)]
    );
    // No pong for two consecutive intervals: the next tick gives up on
    // the socket even though it reported no error.
    assert_eq!(
        sup.step(Input::HeartbeatTick),
        vec![Action::Emit(Event::Disconnected), Action::Connect]
    );
}

#[test]
fn pong_resets_the_liveness_counter() {
    let mut sup = connected_supervisor();
    sup.step(Input::HeartbeatTick);
    sup.step(Input::HeartbeatTick);
    // A pong arrives in time: the counter starts over.
    assert!(sup.step(Input::Frame(Inbound::Pong)).is_empty());
    assert_eq!(
        sup.step(Input::HeartbeatTick),
        vec![Action::Send(Directive::Ping)]
    );
    assert_eq!(
        sup.step(Input::HeartbeatTick),
        vec![Action::Send(Directive::Ping)]
    );
    assert_eq!(
        sup.step(Input::HeartbeatTick),
        vec![Action::Emit(Event::Disconnected), Action::Connect]
    );
}

#[test]
fn server_ping_gets_a_pong_reply() {
    let mut sup = connected_supervisor();
    assert_eq!(
        sup.step(Input::Frame(Inbound::Ping)),
        vec![Action::Send(Directive::Pong)]
    );
}

#[test]
fn backoff_delays_double_then_cap_then_reset() {
    let mut sup = Supervisor::new();
    let mut delays = Vec::new();
    sup.step(Input::RetryElapsed);
    for _ in 0..6 {
        let acts = sup.step(Input::ConnectFailed);
        assert_eq!(acts.len(), 1);
        match acts[0] {
            Action::Sleep(ms) => delays.push(ms),
            _ => panic!("expected a sleep after a failed attempt"),
        }
        assert_eq!(sup.step(Input::RetryElapsed), vec![Action::Connect]);
    }
    assert_eq!(delays, vec![500, 1000, 2000, 4000, 5000, 5000]);
    // A successful connect resets the sequence.
    sup.step(Input::ConnectSucceeded);
    sup.step(Input::TransportClosed);
    let acts = sup.step(Input::ConnectFailed);
    assert_eq!(acts, vec![Action::Sleep(500)]);
}

#[test]
fn send_failure_is_treated_like_link_loss() {
    let mut sup = connected_supervisor();
    assert_eq!(
        sup.step(Input::SendFailed),
        vec![Action::Emit(Event::Disconnected), Action::Connect]
    );
}

#[test]
fn events_keep_arrival_order() {
    let mut sup = connected_supervisor();
    let m1 = Inbound::Trades(b"m1".to_vec());
    let m2 = Inbound::L2Book(b"m2".to_vec());
    let m3 = Inbound::Unknown(b"m3".to_vec());
    let mut out = Vec::new();
    out.extend(sup.step(Input::Frame(m1.clone())));
    out.extend(sup.step(Input::Frame(m2.clone())));
    out.extend(sup.step(Input::Frame(m3.clone())));
    assert_eq!(
        out,
        vec![
            Action::Emit(Event::Message(m1)),
            Action::Emit(Event::Message(m2)),
            Action::Emit(Event::Message(m3)),
        ]
    );
}

#[test]
fn unknown_frame_is_forwarded_and_connection_stays_up() {
    let mut sup = connected_supervisor();
    let frame: &[u8] = br#"{"channel":"brandNew","data":[]}"#;
    let msg = decode_frame(frame).unwrap();
    assert_eq!(msg, Inbound::Unknown(frame.to_vec()));
    let acts = sup.step(Input::Frame(msg.clone()));
    assert_eq!(acts, vec![Action::Emit(Event::Message(msg))]);
    // The connection is still up: the next frame flows through.
    let next = decode_frame(br#"{"channel":"trades","data":[]}"#).unwrap();
    let acts = sup.step(Input::Frame(next.clone()));
    assert_eq!(acts, vec![Action::Emit(Event::Message(next))]);
}

#[test]
fn full_session_scenario() {
    // Consumer subscribes to Trades(BTC) before any connection exists.
    let mut sup = Supervisor::new();
    assert!(sup.step(Input::Subscribe(trades_btc())).is_empty());

    // Connect succeeds: Connected event, registry replayed as one
    // subscribe directive.
    sup.step(Input::RetryElapsed);
    assert_eq!(
        sup.step(Input::ConnectSucceeded),
        vec![
            Action::Emit(Event::Connected),
            Action::Send(Directive::Subscribe(trades_btc())),
        ]
    );

    // Server sends a Trades(BTC) frame: the consumer receives it.
    let frame: &[u8] = br#"{"channel":"trades","data":[{"coin":"BTC"}]}"#;
    let msg = decode_frame(frame).unwrap();
    assert_eq!(
        sup.step(Input::Frame(msg)),
        vec![Action::Emit(Event::Message(Inbound::Trades(frame.to_vec())))]
    );

    // The connection drops: the consumer sees Disconnected.
    assert_eq!(
        sup.step(Input::TransportClosed),
        vec![Action::Emit(Event::Disconnected), Action::Connect]
    );

    // One failed attempt, then backoff, then reconnect: Connected again
    // with Trades(BTC) re-subscribed without any consumer action.
    assert_eq!(sup.step(Input::ConnectFailed), vec![Action::Sleep(500)]);
    assert_eq!(sup.step(Input::RetryElapsed), vec![Action::Connect]);
    assert_eq!(
        sup.step(Input::ConnectSucceeded),
        vec![
            Action::Emit(Event::Connected),
            Action::Send(Directive::Subscribe(trades_btc())),
        ]
    );
}
