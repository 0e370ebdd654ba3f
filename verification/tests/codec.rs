use hyperws::codec::{decode_frame, encode_directive, message_for_channel, Directive, Inbound};
use hyperws::subscription::Subscription;

fn coin(s: &str) -> String {
    s.to_string()
}

#[test]
fn encode_subscribe_trades() {
    let d = Directive::Subscribe(Subscription::Trades { coin: coin("BTC") });
    let frame = encode_directive(&d);
    assert_eq!(
        String::from_utf8(frame).unwrap(),
        r#"{"method":"subscribe","subscription":{"type":"trades","coin":"BTC"}}"#
    );
}

#[test]
fn encode_unsubscribe_l2book() {
    let d = Directive::Unsubscribe(Subscription::L2Book { coin: coin("ETH") });
    let frame = encode_directive(&d);
    assert_eq!(
        String::from_utf8(frame).unwrap(),
        r#"{"method":"unsubscribe","subscription":{"type":"l2Book","coin":"ETH"}}"#
    );
}

#[test]
fn encode_ping_pong() {
    assert_eq!(
        String::from_utf8(encode_directive(&Directive::Ping)).unwrap(),
        r#"{"method":"ping"}"#
    );
    assert_eq!(
        String::from_utf8(encode_directive(&Directive::Pong)).unwrap(),
        r#"{"method":"pong"}"#
    );
}

#[test]
fn encode_candle_subscription() {
    let d = Directive::Subscribe(Subscription::Candle {
        coin: coin("BTC"),
        interval: coin("1m"),
    });
    let frame = encode_directive(&d);
    assert_eq!(
        String::from_utf8(frame).unwrap(),
        r#"{"method":"subscribe","subscription":{"type":"candle","coin":"BTC","interval":"1m"}}"#
    );
}

#[test]
fn encode_all_mids_with_and_without_dex() {
    let none = Directive::Subscribe(Subscription::AllMids { dex: None });
    assert_eq!(
        String::from_utf8(encode_directive(&none)).unwrap(),
        r#"{"method":"subscribe","subscription":{"type":"allMids"}}"#
    );
    let some = Directive::Subscribe(Subscription::AllMids {
        dex: Some(coin("xyz")),
    });
    assert_eq!(
        String::from_utf8(encode_directive(&some)).unwrap(),
        r#"{"method":"subscribe","subscription":{"type":"allMids","dex":"xyz"}}"#
    );
}

#[test]
fn encode_user_subscriptions() {
    let user = coin("0x1234");
    let d = Directive::Subscribe(Subscription::OrderUpdates { user: user.clone() });
    assert_eq!(
        String::from_utf8(encode_directive(&d)).unwrap(),
        r#"{"method":"subscribe","subscription":{"type":"orderUpdates","user":"0x1234"}}"#
    );
    let d = Directive::Subscribe(Subscription::ActiveAssetData {
        user,
        coin: coin("BTC"),
    });
    assert_eq!(
        String::from_utf8(encode_directive(&d)).unwrap(),
        r#"{"method":"subscribe","subscription":{"type":"activeAssetData","user":"0x1234","coin":"BTC"}}"#
    );
}

#[test]
fn encode_escapes_quotes_backslashes_and_controls() {
    let d = Directive::Subscribe(Subscription::Trades {
        coin: "A\"B\\C\n".to_string(),
    });
    let frame = encode_directive(&d);
    let text = String::from_utf8(frame).unwrap();
    assert_eq!(
        text,
        "{\"method\":\"subscribe\",\"subscription\":{\"type\":\"trades\",\"coin\":\"A\\\"B\\\\C\\u000a\"}}"
    );
    // The escaped frame must itself be valid JSON naming the original coin.
    let v: serde_json::Value = serde_json::from_str(&text).unwrap();
    assert_eq!(v["subscription"]["coin"].as_str().unwrap(), "A\"B\\C\n");
}

#[test]
fn encoded_subscribe_frames_are_valid_json() {
    let subs = vec![
        Subscription::Trades { coin: coin("BTC") },
        Subscription::Bbo { coin: coin("BTC") },
        Subscription::UserFills { user: coin("0xab") },
        Subscription::UserEvents { user: coin("0xab") },
        Subscription::UserTwapSliceFills { user: coin("0xab") },
        Subscription::UserTwapHistory { user: coin("0xab") },
        Subscription::WebData2 { user: coin("0xab") },
    ];
    for sub in subs {
        let frame = encode_directive(&Directive::Subscribe(sub));
        let v: serde_json::Value = serde_json::from_slice(&frame).unwrap();
        assert_eq!(v["method"].as_str().unwrap(), "subscribe");
        assert!(v["subscription"]["type"].is_string());
    }
}

#[test]
fn decode_pong_and_ping() {
    assert_eq!(
        decode_frame(br#"{"channel":"pong"}"#),
        Some(Inbound::Pong)
    );
    assert_eq!(
        decode_frame(br#"{"channel":"ping"}"#),
        Some(Inbound::Ping)
    );
}

#[test]
fn decode_trades_keeps_frame_bytes() {
    let frame: &[u8] = br#"{"channel":"trades","data":[{"coin":"BTC"}]}"#;
    assert_eq!(decode_frame(frame), Some(Inbound::Trades(frame.to_vec())));
}

#[test]
fn decode_subscription_ack() {
    let frame: &[u8] = br#"{"channel":"subscriptionResponse","data":{}}"#;
    assert_eq!(
        decode_frame(frame),
        Some(Inbound::SubscriptionAck(frame.to_vec()))
    );
}

#[test]
fn decode_unknown_discriminator_is_not_fatal() {
    let frame: &[u8] = br#"{"channel":"somethingNew","data":1}"#;
    assert_eq!(decode_frame(frame), Some(Inbound::Unknown(frame.to_vec())));
    // The very next valid frame still decodes.
    assert_eq!(
        decode_frame(br#"{"channel":"pong"}"#),
        Some(Inbound::Pong)
    );
}

#[test]
fn decode_missing_or_nonstring_channel_is_unknown() {
    let frame: &[u8] = br#"{"data":1}"#;
    assert_eq!(decode_frame(frame), Some(Inbound::Unknown(frame.to_vec())));
    let frame: &[u8] = br#"{"channel":5}"#;
    assert_eq!(decode_frame(frame), Some(Inbound::Unknown(frame.to_vec())));
}

#[test]
fn decode_invalid_json_is_skipped() {
    assert_eq!(decode_frame(b"not json at all"), None);
    assert_eq!(decode_frame(b""), None);
    assert_eq!(decode_frame(br#"{"channel":"pong""#), None);
}

#[test]
fn channel_classification_covers_vocabulary() {
    let p = || b"{}".to_vec();
    assert_eq!(message_for_channel("bbo", p()), Inbound::Bbo(p()));
    assert_eq!(message_for_channel("l2Book", p()), Inbound::L2Book(p()));
    assert_eq!(message_for_channel("candle", p()), Inbound::Candle(p()));
    assert_eq!(message_for_channel("allMids", p()), Inbound::AllMids(p()));
    assert_eq!(
        message_for_channel("orderUpdates", p()),
        Inbound::OrderUpdates(p())
    );
    assert_eq!(
        message_for_channel("userFills", p()),
        Inbound::UserFills(p())
    );
    assert_eq!(
        message_for_channel("userEvents", p()),
        Inbound::UserEvents(p())
    );
    assert_eq!(
        message_for_channel("userTwapSliceFills", p()),
        Inbound::UserTwapSliceFills(p())
    );
    assert_eq!(
        message_for_channel("userTwapHistory", p()),
        Inbound::UserTwapHistory(p())
    );
    assert_eq!(
        message_for_channel("activeAssetData", p()),
        Inbound::ActiveAssetData(p())
    );
    assert_eq!(
        message_for_channel("webData2", p()),
        Inbound::WebData2(p())
    );
    assert_eq!(message_for_channel("TRADES", p()), Inbound::Unknown(p()));
}
