use hyperws::registry::SubscriptionRegistry;
use hyperws::subscription::Subscription;

fn trades(c: &str) -> Subscription {
    Subscription::Trades { coin: c.to_string() }
}

#[test]
fn add_is_true_only_for_new_entries() {
    let mut reg = SubscriptionRegistry::new();
    assert!(reg.add(trades("BTC")));
    assert!(!reg.add(trades("BTC")));
    assert!(reg.add(trades("ETH")));
    assert_eq!(reg.len(), 2);
}

#[test]
fn remove_is_true_only_for_tracked_entries() {
    let mut reg = SubscriptionRegistry::new();
    reg.add(trades("BTC"));
    assert!(!reg.remove(&trades("ETH")));
    assert!(reg.remove(&trades("BTC")));
    assert!(!reg.remove(&trades("BTC")));
    assert_eq!(reg.len(), 0);
}

#[test]
fn contains_follows_adds_and_removes() {
    let mut reg = SubscriptionRegistry::new();
    assert!(!reg.contains(&trades("BTC")));
    reg.add(trades("BTC"));
    assert!(reg.contains(&trades("BTC")));
    assert!(!reg.contains(&trades("btc"))); // equality is exact
    reg.remove(&trades("BTC"));
    assert!(!reg.contains(&trades("BTC")));
}

#[test]
fn iter_yields_each_tracked_subscription_once() {
    let mut reg = SubscriptionRegistry::new();
    reg.add(trades("BTC"));
    reg.add(trades("ETH"));
    reg.add(trades("BTC"));
    let entries = reg.iter();
    assert_eq!(entries.len(), 2);
    assert!(entries.contains(&trades("BTC")));
    assert!(entries.contains(&trades("ETH")));
}

#[test]
fn subscription_equality_needs_every_field() {
    assert_eq!(trades("BTC"), trades("BTC"));
    assert_ne!(trades("BTC"), trades("ETH"));
    assert_ne!(
        trades("BTC"),
        Subscription::Bbo { coin: "BTC".to_string() }
    );
    assert_eq!(
        Subscription::Candle { coin: "BTC".to_string(), interval: "1m".to_string() },
        Subscription::Candle { coin: "BTC".to_string(), interval: "1m".to_string() }
    );
    assert_ne!(
        Subscription::Candle { coin: "BTC".to_string(), interval: "1m".to_string() },
        Subscription::Candle { coin: "BTC".to_string(), interval: "5m".to_string() }
    );
    assert_eq!(
        Subscription::AllMids { dex: None },
        Subscription::AllMids { dex: None }
    );
    assert_ne!(
        Subscription::AllMids { dex: None },
        Subscription::AllMids { dex: Some("xyz".to_string()) }
    );
    assert_ne!(
        Subscription::ActiveAssetData { user: "0xa".to_string(), coin: "BTC".to_string() },
        Subscription::ActiveAssetData { user: "0xb".to_string(), coin: "BTC".to_string() }
    );
}

#[test]
fn registry_distinguishes_variants_with_same_coin() {
    let mut reg = SubscriptionRegistry::new();
    assert!(reg.add(trades("BTC")));
    assert!(reg.add(Subscription::Bbo { coin: "BTC".to_string() }));
    assert!(reg.add(Subscription::L2Book { coin: "BTC".to_string() }));
    assert_eq!(reg.len(), 3);
}
