//! The vocabulary of logical feeds a consumer can ask for.
//!
//! A [`Subscription`] is a tagged description of one feed. Two values
//! describe the same feed exactly when every tag field matches, so the
//! registry can deduplicate them.

use vstd::prelude::*;

verus! {

/// One logical feed the consumer wants data for.
///
/// Symbols and user addresses are carried as plain strings; resolving a
/// human-readable asset name to the feed-specific symbol happens
/// upstream, before a `Subscription` is built.
#[derive(Debug)]
pub enum Subscription {
    /// Trade ticks for one symbol.
    Trades { coin: String },
    /// Best bid/offer updates for one symbol.
    Bbo { coin: String },
    /// Full depth-of-book updates for one symbol.
    L2Book { coin: String },
    /// Candles for one symbol at one interval.
    Candle { coin: String, interval: String },
    /// Mid prices for all markets, optionally scoped to one DEX namespace.
    AllMids { dex: Option<String> },
    /// Order-lifecycle updates for one account.
    OrderUpdates { user: String },
    /// Fill events for one account.
    UserFills { user: String },
    /// Generic account events for one account.
    UserEvents { user: String },
    /// TWAP-order slice fills for one account.
    UserTwapSliceFills { user: String },
    /// TWAP-order history for one account.
    UserTwapHistory { user: String },
    /// Active-position data for one account on one symbol.
    ActiveAssetData { user: String, coin: String },
    /// Aggregated web-session data for one account.
    WebData2 { user: String },
}

/// The mathematical shape of a [`Subscription`]: the same tags over
/// character sequences.
pub enum SubscriptionV {
    Trades { coin: Seq<char> },
    Bbo { coin: Seq<char> },
    L2Book { coin: Seq<char> },
    Candle { coin: Seq<char>, interval: Seq<char> },
    AllMids { dex: Option<Seq<char>> },
    OrderUpdates { user: Seq<char> },
    UserFills { user: Seq<char> },
    UserEvents { user: Seq<char> },
    UserTwapSliceFills { user: Seq<char> },
    UserTwapHistory { user: Seq<char> },
    ActiveAssetData { user: Seq<char>, coin: Seq<char> },
    WebData2 { user: Seq<char> },
}

impl View for Subscription {
    type V = SubscriptionV;

    open spec fn view(&self) -> SubscriptionV {
        match self {
            Subscription::Trades { coin } => SubscriptionV::Trades { coin: coin@ },
            Subscription::Bbo { coin } => SubscriptionV::Bbo { coin: coin@ },
            Subscription::L2Book { coin } => SubscriptionV::L2Book { coin: coin@ },
            Subscription::Candle { coin, interval } => SubscriptionV::Candle {
                coin: coin@,
                interval: interval@,
            },
            Subscription::AllMids { dex } => SubscriptionV::AllMids {
                dex: match dex {
                    Some(d) => Some(d@),
                    None => None,
                },
            },
            Subscription::OrderUpdates { user } => SubscriptionV::OrderUpdates { user: user@ },
            Subscription::UserFills { user } => SubscriptionV::UserFills { user: user@ },
            Subscription::UserEvents { user } => SubscriptionV::UserEvents { user: user@ },
            Subscription::UserTwapSliceFills { user } => SubscriptionV::UserTwapSliceFills {
                user: user@,
            },
            Subscription::UserTwapHistory { user } => SubscriptionV::UserTwapHistory {
                user: user@,
            },
            Subscription::ActiveAssetData { user, coin } => SubscriptionV::ActiveAssetData {
                user: user@,
                coin: coin@,
            },
            Subscription::WebData2 { user } => SubscriptionV::WebData2 { user: user@ },
        }
    }
}

/// String equality by contents.
fn string_eq(a: &String, b: &String) -> (r: bool)
    ensures
        r == (a@ == b@),
{
    a.eq(b)
}

/// Equality of two optional strings by contents.
fn opt_string_eq(a: &Option<String>, b: &Option<String>) -> (r: bool)
    ensures
        r == (match (a, b) {
            (Some(x), Some(y)) => x@ == y@,
            (None, None) => true,
            _ => false,
        }),
{
    match (a, b) {
        (Some(x), Some(y)) => string_eq(x, y),
        (None, None) => true,
        _ => false,
    }
}

impl PartialEq for Subscription {
    fn eq(&self, other: &Subscription) -> (r: bool) {
        match (self, other) {
            (Subscription::Trades { coin: a }, Subscription::Trades { coin: b }) => string_eq(
                a,
                b,
            ),
            (Subscription::Bbo { coin: a }, Subscription::Bbo { coin: b }) => string_eq(a, b),
            (Subscription::L2Book { coin: a }, Subscription::L2Book { coin: b }) => string_eq(
                a,
                b,
            ),
            (
                Subscription::Candle { coin: a, interval: ai },
                Subscription::Candle { coin: b, interval: bi },
            ) => string_eq(a, b) && string_eq(ai, bi),
            (Subscription::AllMids { dex: a }, Subscription::AllMids { dex: b }) => opt_string_eq(
                a,
                b,
            ),
            (Subscription::OrderUpdates { user: a }, Subscription::OrderUpdates { user: b }) => {
                string_eq(a, b)
            },
            (Subscription::UserFills { user: a }, Subscription::UserFills { user: b }) => {
                string_eq(a, b)
            },
            (Subscription::UserEvents { user: a }, Subscription::UserEvents { user: b }) => {
                string_eq(a, b)
            },
            (
                Subscription::UserTwapSliceFills { user: a },
                Subscription::UserTwapSliceFills { user: b },
            ) => string_eq(a, b),
            (
                Subscription::UserTwapHistory { user: a },
                Subscription::UserTwapHistory { user: b },
            ) => string_eq(a, b),
            (
                Subscription::ActiveAssetData { user: a, coin: ac },
                Subscription::ActiveAssetData { user: b, coin: bc },
            ) => string_eq(a, b) && string_eq(ac, bc),
            (Subscription::WebData2 { user: a }, Subscription::WebData2 { user: b }) => string_eq(
                a,
                b,
            ),
            _ => false,
        }
    }
}

impl Eq for Subscription {
}

impl vstd::std_specs::cmp::PartialEqSpecImpl for Subscription {
    open spec fn obeys_eq_spec() -> bool {
        true
    }

    open spec fn eq_spec(&self, other: &Subscription) -> bool {
        self@ == other@
    }
}

impl Clone for Subscription {
    /// Clones keep the value: the copy describes the same feed.
    fn clone(&self) -> (r: Subscription)
        ensures
            r@ == self@,
    {
        match self {
            Subscription::Trades { coin } => Subscription::Trades { coin: coin.clone() },
            Subscription::Bbo { coin } => Subscription::Bbo { coin: coin.clone() },
            Subscription::L2Book { coin } => Subscription::L2Book { coin: coin.clone() },
            Subscription::Candle { coin, interval } => Subscription::Candle {
                coin: coin.clone(),
                interval: interval.clone(),
            },
            Subscription::AllMids { dex } => Subscription::AllMids {
                dex: match dex {
                    Some(d) => Some(d.clone()),
                    None => None,
                },
            },
            Subscription::OrderUpdates { user } => Subscription::OrderUpdates {
                user: user.clone(),
            },
            Subscription::UserFills { user } => Subscription::UserFills { user: user.clone() },
            Subscription::UserEvents { user } => Subscription::UserEvents { user: user.clone() },
            Subscription::UserTwapSliceFills { user } => Subscription::UserTwapSliceFills {
                user: user.clone(),
            },
            Subscription::UserTwapHistory { user } => Subscription::UserTwapHistory {
                user: user.clone(),
            },
            Subscription::ActiveAssetData { user, coin } => Subscription::ActiveAssetData {
                user: user.clone(),
                coin: coin.clone(),
            },
            Subscription::WebData2 { user } => Subscription::WebData2 { user: user.clone() },
        }
    }
}

} // verus!
