//! Wire codec for the JSON frame vocabulary.
//!
//! Outbound directives are encoded into JSON text by the crate itself,
//! byte for byte as the specification functions describe. Inbound frames
//! are JSON objects distinguished by a `channel` discriminator; the
//! codec classifies the discriminator into the message vocabulary and
//! keeps the raw frame bytes for the consumer. A frame that is not JSON
//! at all is skipped rather than failing the connection, and a frame
//! whose discriminator is unrecognized decodes into the catch-all
//! [`Inbound::Unknown`] variant.

use vstd::prelude::*;
use vstd::slice::slice_to_vec;
use vstd::string::StrSliceExecFns;
use vstd::utf8::encode_utf8;

use crate::subscription::{Subscription, SubscriptionV};

verus! {

/// A control message sent to the server.
#[derive(Debug, Clone, PartialEq, Eq)]
pub enum Directive {
    Subscribe(Subscription),
    Unsubscribe(Subscription),
    Ping,
    Pong,
}

/// The mathematical shape of a [`Directive`].
pub enum DirectiveV {
    Subscribe(SubscriptionV),
    Unsubscribe(SubscriptionV),
    Ping,
    Pong,
}

impl View for Directive {
    type V = DirectiveV;

    open spec fn view(&self) -> DirectiveV {
        match self {
            Directive::Subscribe(s) => DirectiveV::Subscribe(s@),
            Directive::Unsubscribe(s) => DirectiveV::Unsubscribe(s@),
            Directive::Ping => DirectiveV::Ping,
            Directive::Pong => DirectiveV::Pong,
        }
    }
}

/// A decoded inbound message. Data variants keep the raw frame bytes;
/// interpreting the payload beyond its discriminator is the consumer's
/// business.
#[derive(Debug, Clone, PartialEq, Eq)]
pub enum Inbound {
    /// Server asks for a pong reply.
    Ping,
    /// Server answered a ping.
    Pong,
    /// Server acknowledged a subscribe or unsubscribe directive.
    SubscriptionAck(Vec<u8>),
    Trades(Vec<u8>),
    Bbo(Vec<u8>),
    L2Book(Vec<u8>),
    Candle(Vec<u8>),
    AllMids(Vec<u8>),
    OrderUpdates(Vec<u8>),
    UserFills(Vec<u8>),
    UserEvents(Vec<u8>),
    UserTwapSliceFills(Vec<u8>),
    UserTwapHistory(Vec<u8>),
    ActiveAssetData(Vec<u8>),
    WebData2(Vec<u8>),
    /// A frame whose discriminator the client does not model yet.
    Unknown(Vec<u8>),
}

/// The mathematical shape of an [`Inbound`] message.
pub enum InboundV {
    Ping,
    Pong,
    SubscriptionAck(Seq<u8>),
    Trades(Seq<u8>),
    Bbo(Seq<u8>),
    L2Book(Seq<u8>),
    Candle(Seq<u8>),
    AllMids(Seq<u8>),
    OrderUpdates(Seq<u8>),
    UserFills(Seq<u8>),
    UserEvents(Seq<u8>),
    UserTwapSliceFills(Seq<u8>),
    UserTwapHistory(Seq<u8>),
    ActiveAssetData(Seq<u8>),
    WebData2(Seq<u8>),
    Unknown(Seq<u8>),
}

impl View for Inbound {
    type V = InboundV;

    open spec fn view(&self) -> InboundV {
        match self {
            Inbound::Ping => InboundV::Ping,
            Inbound::Pong => InboundV::Pong,
            Inbound::SubscriptionAck(p) => InboundV::SubscriptionAck(p@),
            Inbound::Trades(p) => InboundV::Trades(p@),
            Inbound::Bbo(p) => InboundV::Bbo(p@),
            Inbound::L2Book(p) => InboundV::L2Book(p@),
            Inbound::Candle(p) => InboundV::Candle(p@),
            Inbound::AllMids(p) => InboundV::AllMids(p@),
            Inbound::OrderUpdates(p) => InboundV::OrderUpdates(p@),
            Inbound::UserFills(p) => InboundV::UserFills(p@),
            Inbound::UserEvents(p) => InboundV::UserEvents(p@),
            Inbound::UserTwapSliceFills(p) => InboundV::UserTwapSliceFills(p@),
            Inbound::UserTwapHistory(p) => InboundV::UserTwapHistory(p@),
            Inbound::ActiveAssetData(p) => InboundV::ActiveAssetData(p@),
            Inbound::WebData2(p) => InboundV::WebData2(p@),
            Inbound::Unknown(p) => InboundV::Unknown(p@),
        }
    }
}

// ---------------------------------------------------------------------
// Encoding
// ---------------------------------------------------------------------

/// The byte that stands for the hex digit `n`.
pub open spec fn hex_digit(n: u8) -> u8 {
    if n < 10 {
        (48 + n) as u8
    } else {
        (87 + n) as u8
    }
}

/// How one byte of string content appears inside a JSON string literal:
/// quote and backslash are escaped, control bytes become `\u00XX`, and
/// every other byte stands for itself.
pub open spec fn json_escaped_byte(b: u8) -> Seq<u8> {
    if b == 34 {
        seq![92u8, 34u8]
    } else if b == 92 {
        seq![92u8, 92u8]
    } else if b < 32 {
        seq![92u8, 117u8, 48u8, 48u8, hex_digit(b / 16), hex_digit(b % 16)]
    } else {
        seq![b]
    }
}

/// The JSON escaping of a byte string, byte by byte.
pub open spec fn json_escaped(s: Seq<u8>) -> Seq<u8>
    decreases s.len(),
{
    if s.len() == 0 {
        Seq::empty()
    } else {
        json_escaped_byte(s.first()) + json_escaped(s.drop_first())
    }
}

/// Escaping distributes over appending one byte at the end.
proof fn lemma_json_escaped_push(s: Seq<u8>, b: u8)
    ensures
        json_escaped(s.push(b)) == json_escaped(s) + json_escaped_byte(b),
    decreases s.len(),
{
    if s.len() == 0 {
        assert(s.push(b).drop_first() =~= Seq::<u8>::empty());
        assert(json_escaped(s) + json_escaped_byte(b) =~= json_escaped_byte(b)
            + json_escaped(Seq::<u8>::empty()));
    } else {
        assert(s.push(b).drop_first() =~= s.drop_first().push(b));
        lemma_json_escaped_push(s.drop_first(), b);
        assert(json_escaped_byte(s.first()) + (json_escaped(s.drop_first()) + json_escaped_byte(b))
            =~= (json_escaped_byte(s.first()) + json_escaped(s.drop_first()))
            + json_escaped_byte(b));
    }
}

/// A string as it appears inside a JSON document: quoted and escaped,
/// over its UTF-8 bytes.
pub open spec fn quoted(s: Seq<char>) -> Seq<u8> {
    seq![34u8] + json_escaped(encode_utf8(s)) + seq![34u8]
}

/// The JSON object that names one subscription on the wire.
pub open spec fn subscription_json(s: SubscriptionV) -> Seq<u8> {
    match s {
        SubscriptionV::Trades { coin } => encode_utf8("{\"type\":\"trades\",\"coin\":"@) + quoted(
            coin,
        ) + encode_utf8("}"@),
        SubscriptionV::Bbo { coin } => encode_utf8("{\"type\":\"bbo\",\"coin\":"@) + quoted(coin)
            + encode_utf8("}"@),
        SubscriptionV::L2Book { coin } => encode_utf8("{\"type\":\"l2Book\",\"coin\":"@) + quoted(
            coin,
        ) + encode_utf8("}"@),
        SubscriptionV::Candle { coin, interval } => encode_utf8("{\"type\":\"candle\",\"coin\":"@)
            + quoted(coin) + encode_utf8(",\"interval\":"@) + quoted(interval) + encode_utf8("}"@),
        SubscriptionV::AllMids { dex } => match dex {
            Some(d) => encode_utf8("{\"type\":\"allMids\",\"dex\":"@) + quoted(d) + encode_utf8(
                "}"@,
            ),
            None => encode_utf8("{\"type\":\"allMids\"}"@),
        },
        SubscriptionV::OrderUpdates { user } => encode_utf8("{\"type\":\"orderUpdates\",\"user\":"@)
            + quoted(user) + encode_utf8("}"@),
        SubscriptionV::UserFills { user } => encode_utf8("{\"type\":\"userFills\",\"user\":"@)
            + quoted(user) + encode_utf8("}"@),
        SubscriptionV::UserEvents { user } => encode_utf8("{\"type\":\"userEvents\",\"user\":"@)
            + quoted(user) + encode_utf8("}"@),
        SubscriptionV::UserTwapSliceFills { user } => encode_utf8(
            "{\"type\":\"userTwapSliceFills\",\"user\":"@,
        ) + quoted(user) + encode_utf8("}"@),
        SubscriptionV::UserTwapHistory { user } => encode_utf8(
            "{\"type\":\"userTwapHistory\",\"user\":"@,
        ) + quoted(user) + encode_utf8("}"@),
        SubscriptionV::ActiveAssetData { user, coin } => encode_utf8(
            "{\"type\":\"activeAssetData\",\"user\":"@,
        ) + quoted(user) + encode_utf8(",\"coin\":"@) + quoted(coin) + encode_utf8("}"@),
        SubscriptionV::WebData2 { user } => encode_utf8("{\"type\":\"webData2\",\"user\":"@)
            + quoted(user) + encode_utf8("}"@),
    }
}

/// The JSON frame that carries one directive on the wire.
pub open spec fn directive_json(d: DirectiveV) -> Seq<u8> {
    match d {
        DirectiveV::Subscribe(s) => encode_utf8("{\"method\":\"subscribe\",\"subscription\":"@)
            + subscription_json(s) + encode_utf8("}"@),
        DirectiveV::Unsubscribe(s) => encode_utf8("{\"method\":\"unsubscribe\",\"subscription\":"@)
            + subscription_json(s) + encode_utf8("}"@),
        DirectiveV::Ping => encode_utf8("{\"method\":\"ping\"}"@),
        DirectiveV::Pong => encode_utf8("{\"method\":\"pong\"}"@),
    }
}

/// Appends the contents of `src` to `out`.
fn append_bytes(out: &mut Vec<u8>, src: &Vec<u8>)
    ensures
        final(out)@ == old(out)@ + src@,
{
    let mut i: usize = 0;
    while i < src.len()
        invariant
            i <= src.len(),
            out@ == old(out)@ + src@.take(i as int),
        decreases src.len() - i,
    {
        out.push(src[i]);
        proof {
            assert(src@.take(i as int).push(src@[i as int]) =~= src@.take(i as int + 1));
            assert(out@ =~= old(out)@ + src@.take(i as int + 1));
        }
        i += 1;
    }
    proof {
        assert(src@.take(src@.len() as int) =~= src@);
    }
}

/// Appends the UTF-8 bytes of `s` to `out`.
fn push_literal(out: &mut Vec<u8>, s: &str)
    ensures
        final(out)@ == old(out)@ + encode_utf8(s@),
{
    let bytes = s.as_bytes_vec();
    append_bytes(out, &bytes);
}

/// Appends the JSON escaping of the UTF-8 bytes of `s` to `out`.
fn push_escaped(out: &mut Vec<u8>, s: &str)
    ensures
        final(out)@ == old(out)@ + json_escaped(encode_utf8(s@)),
{
    let bytes = s.as_bytes_vec();
    let mut i: usize = 0;
    while i < bytes.len()
        invariant
            bytes@ == encode_utf8(s@),
            i <= bytes.len(),
            out@ == old(out)@ + json_escaped(bytes@.take(i as int)),
        decreases bytes.len() - i,
    {
        let b = bytes[i];
        proof {
            lemma_json_escaped_push(bytes@.take(i as int), b);
            assert(bytes@.take(i as int).push(b) =~= bytes@.take(i as int + 1));
        }
        let ghost mid = out@;
        if b == 34 {
            out.push(92);
            out.push(34);
        } else if b == 92 {
            out.push(92);
            out.push(92);
        } else if b < 32 {
            out.push(92);
            out.push(117);
            out.push(48);
            out.push(48);
            let hi = b / 16;
            let lo = b % 16;
            out.push(if hi < 10 { 48 + hi } else { 87 + hi });
            out.push(if lo < 10 { 48 + lo } else { 87 + lo });
        } else {
            out.push(b);
        }
        proof {
            assert(out@ =~= mid + json_escaped_byte(b));
            assert(out@ =~= old(out)@ + json_escaped(bytes@.take(i as int + 1)));
        }
        i += 1;
    }
    proof {
        assert(bytes@.take(bytes@.len() as int) =~= bytes@);
    }
}

/// Appends `s` as a quoted, escaped JSON string to `out`.
fn push_quoted(out: &mut Vec<u8>, s: &str)
    ensures
        final(out)@ == old(out)@ + quoted(s@),
{
    out.push(34);
    push_escaped(out, s);
    out.push(34);
    proof {
        assert(final(out)@ =~= old(out)@ + quoted(s@));
    }
}

/// Appends the JSON object for one subscription to `out`.
fn push_subscription(out: &mut Vec<u8>, s: &Subscription)
    ensures
        final(out)@ == old(out)@ + subscription_json(s@),
{
    match s {
        Subscription::Trades { coin } => {
            push_literal(out, "{\"type\":\"trades\",\"coin\":");
            push_quoted(out, coin.as_str());
            push_literal(out, "}");
        },
        Subscription::Bbo { coin } => {
            push_literal(out, "{\"type\":\"bbo\",\"coin\":");
            push_quoted(out, coin.as_str());
            push_literal(out, "}");
        },
        Subscription::L2Book { coin } => {
            push_literal(out, "{\"type\":\"l2Book\",\"coin\":");
            push_quoted(out, coin.as_str());
            push_literal(out, "}");
        },
        Subscription::Candle { coin, interval } => {
            push_literal(out, "{\"type\":\"candle\",\"coin\":");
            push_quoted(out, coin.as_str());
            push_literal(out, ",\"interval\":");
            push_quoted(out, interval.as_str());
            push_literal(out, "}");
        },
        Subscription::AllMids { dex } => {
            match dex {
                Some(d) => {
                    push_literal(out, "{\"type\":\"allMids\",\"dex\":");
                    push_quoted(out, d.as_str());
                    push_literal(out, "}");
                },
                None => {
                    push_literal(out, "{\"type\":\"allMids\"}");
                },
            }
        },
        Subscription::OrderUpdates { user } => {
            push_literal(out, "{\"type\":\"orderUpdates\",\"user\":");
            push_quoted(out, user.as_str());
            push_literal(out, "}");
        },
        Subscription::UserFills { user } => {
            push_literal(out, "{\"type\":\"userFills\",\"user\":");
            push_quoted(out, user.as_str());
            push_literal(out, "}");
        },
        Subscription::UserEvents { user } => {
            push_literal(out, "{\"type\":\"userEvents\",\"user\":");
            push_quoted(out, user.as_str());
            push_literal(out, "}");
        },
        Subscription::UserTwapSliceFills { user } => {
            push_literal(out, "{\"type\":\"userTwapSliceFills\",\"user\":");
            push_quoted(out, user.as_str());
            push_literal(out, "}");
        },
        Subscription::UserTwapHistory { user } => {
            push_literal(out, "{\"type\":\"userTwapHistory\",\"user\":");
            push_quoted(out, user.as_str());
            push_literal(out, "}");
        },
        Subscription::ActiveAssetData { user, coin } => {
            push_literal(out, "{\"type\":\"activeAssetData\",\"user\":");
            push_quoted(out, user.as_str());
            push_literal(out, ",\"coin\":");
            push_quoted(out, coin.as_str());
            push_literal(out, "}");
        },
        Subscription::WebData2 { user } => {
            push_literal(out, "{\"type\":\"webData2\",\"user\":");
            push_quoted(out, user.as_str());
            push_literal(out, "}");
        },
    }
    proof {
        assert(final(out)@ =~= old(out)@ + subscription_json(s@));
    }
}

/// Encodes one directive as the JSON frame to be written to the wire.
pub fn encode_directive(d: &Directive) -> (frame: Vec<u8>)
    ensures
        frame@ == directive_json(d@),
{
    let mut out: Vec<u8> = Vec::new();
    match d {
        Directive::Subscribe(s) => {
            push_literal(&mut out, "{\"method\":\"subscribe\",\"subscription\":");
            push_subscription(&mut out, s);
            push_literal(&mut out, "}");
        },
        Directive::Unsubscribe(s) => {
            push_literal(&mut out, "{\"method\":\"unsubscribe\",\"subscription\":");
            push_subscription(&mut out, s);
            push_literal(&mut out, "}");
        },
        Directive::Ping => {
            push_literal(&mut out, "{\"method\":\"ping\"}");
        },
        Directive::Pong => {
            push_literal(&mut out, "{\"method\":\"pong\"}");
        },
    }
    proof {
        assert(out@ =~= directive_json(d@));
    }
    out
}

// ---------------------------------------------------------------------
// Decoding
// ---------------------------------------------------------------------

/// The message that a frame with discriminator `ch` and bytes `frame`
/// decodes to: one variant per known channel, the catch-all otherwise.
pub open spec fn channel_message(ch: Seq<char>, frame: Seq<u8>) -> InboundV {
    if ch == "ping"@ {
        InboundV::Ping
    } else if ch == "pong"@ {
        InboundV::Pong
    } else if ch == "subscriptionResponse"@ {
        InboundV::SubscriptionAck(frame)
    } else if ch == "trades"@ {
        InboundV::Trades(frame)
    } else if ch == "bbo"@ {
        InboundV::Bbo(frame)
    } else if ch == "l2Book"@ {
        InboundV::L2Book(frame)
    } else if ch == "candle"@ {
        InboundV::Candle(frame)
    } else if ch == "allMids"@ {
        InboundV::AllMids(frame)
    } else if ch == "orderUpdates"@ {
        InboundV::OrderUpdates(frame)
    } else if ch == "userFills"@ {
        InboundV::UserFills(frame)
    } else if ch == "userEvents"@ {
        InboundV::UserEvents(frame)
    } else if ch == "userTwapSliceFills"@ {
        InboundV::UserTwapSliceFills(frame)
    } else if ch == "userTwapHistory"@ {
        InboundV::UserTwapHistory(frame)
    } else if ch == "activeAssetData"@ {
        InboundV::ActiveAssetData(frame)
    } else if ch == "webData2"@ {
        InboundV::WebData2(frame)
    } else {
        InboundV::Unknown(frame)
    }
}

/// A decoded message never invents bytes: data variants carry the frame
/// they were decoded from.
pub open spec fn carries_frame(m: InboundV, frame: Seq<u8>) -> bool {
    match m {
        InboundV::Ping => true,
        InboundV::Pong => true,
        InboundV::SubscriptionAck(p) => p == frame,
        InboundV::Trades(p) => p == frame,
        InboundV::Bbo(p) => p == frame,
        InboundV::L2Book(p) => p == frame,
        InboundV::Candle(p) => p == frame,
        InboundV::AllMids(p) => p == frame,
        InboundV::OrderUpdates(p) => p == frame,
        InboundV::UserFills(p) => p == frame,
        InboundV::UserEvents(p) => p == frame,
        InboundV::UserTwapSliceFills(p) => p == frame,
        InboundV::UserTwapHistory(p) => p == frame,
        InboundV::ActiveAssetData(p) => p == frame,
        InboundV::WebData2(p) => p == frame,
        InboundV::Unknown(p) => p == frame,
    }
}

/// String equality by contents.
fn str_eq(a: &str, b: &str) -> (r: bool)
    ensures
        r == (a@ == b@),
{
    let ao: String = a.to_owned();
    let bo: String = b.to_owned();
    ao.eq(&bo)
}

/// Classifies a frame by its channel discriminator. Every known channel
/// maps to its variant; any other discriminator yields the catch-all.
pub fn message_for_channel(channel: &str, frame: Vec<u8>) -> (m: Inbound)
    ensures
        m@ == channel_message(channel@, frame@),
{
    if str_eq(channel, "ping") {
        Inbound::Ping
    } else if str_eq(channel, "pong") {
        Inbound::Pong
    } else if str_eq(channel, "subscriptionResponse") {
        Inbound::SubscriptionAck(frame)
    } else if str_eq(channel, "trades") {
        Inbound::Trades(frame)
    } else if str_eq(channel, "bbo") {
        Inbound::Bbo(frame)
    } else if str_eq(channel, "l2Book") {
        Inbound::L2Book(frame)
    } else if str_eq(channel, "candle") {
        Inbound::Candle(frame)
    } else if str_eq(channel, "allMids") {
        Inbound::AllMids(frame)
    } else if str_eq(channel, "orderUpdates") {
        Inbound::OrderUpdates(frame)
    } else if str_eq(channel, "userFills") {
        Inbound::UserFills(frame)
    } else if str_eq(channel, "userEvents") {
        Inbound::UserEvents(frame)
    } else if str_eq(channel, "userTwapSliceFills") {
        Inbound::UserTwapSliceFills(frame)
    } else if str_eq(channel, "userTwapHistory") {
        Inbound::UserTwapHistory(frame)
    } else if str_eq(channel, "activeAssetData") {
        Inbound::ActiveAssetData(frame)
    } else if str_eq(channel, "webData2") {
        Inbound::WebData2(frame)
    } else {
        Inbound::Unknown(frame)
    }
}

/// Whether `bytes` are one valid JSON document, as `serde_json` reads
/// them. The parse depends on the bytes alone.
pub uninterp spec fn json_parses(bytes: Seq<u8>) -> bool;

/// The `channel` discriminator of a frame: the string under the
/// top-level `channel` key when the bytes parse to an object that has
/// one, `None` otherwise. Depends on the bytes alone.
pub uninterp spec fn json_channel(bytes: Seq<u8>) -> Option<Seq<char>>;

/// Relies on `serde_json::from_slice`: whether `bytes` are one valid
/// JSON document. Parse errors come back as values, never as panics.
#[verifier::external_body]
fn is_json(bytes: &[u8]) -> (r: bool)
    ensures
        r == json_parses(bytes@),
{
    serde_json::from_slice::<serde_json::Value>(bytes).is_ok()
}

/// Relies on `serde_json::from_slice`, `serde_json::Value::get` and
/// `serde_json::Value::as_str`: the string under the frame's `channel`
/// key, when the bytes parse and there is one.
#[verifier::external_body]
fn channel_str(bytes: &[u8]) -> (r: Option<String>)
    ensures
        match r {
            Some(s) => json_channel(bytes@) == Some(s@),
            None => json_channel(bytes@) is None,
        },
{
    match serde_json::from_slice::<serde_json::Value>(bytes) {
        Ok(value) => match value.get("channel") {
            Some(channel) => match channel.as_str() {
                Some(s) => Some(s.to_owned()),
                None => None,
            },
            None => None,
        },
        Err(_) => None,
    }
}

/// Decodes one inbound frame. Returns `None` exactly when the payload is
/// not a JSON document — the session skips such a frame and goes on. A
/// JSON frame always decodes: to the variant its `channel` discriminator
/// names, or to the catch-all when the discriminator is missing or
/// unrecognized. Whatever came back carries the original frame bytes.
pub fn decode_frame(payload: &[u8]) -> (m: Option<Inbound>)
    ensures
        m is Some == json_parses(payload@),
        match m {
            Some(msg) => {
                &&& msg@ == (match json_channel(payload@) {
                    Some(ch) => channel_message(ch, payload@),
                    None => InboundV::Unknown(payload@),
                })
                &&& carries_frame(msg@, payload@)
            },
            None => true,
        },
{
    if !is_json(payload) {
        return None;
    }
    let bytes = slice_to_vec(payload);
    match channel_str(payload) {
        Some(ch) => Some(message_for_channel(ch.as_str(), bytes)),
        None => Some(Inbound::Unknown(bytes)),
    }
}

} // verus!
