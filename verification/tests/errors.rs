use hyperws::backoff::backoff_delay_ms;
use hyperws::error::{ActionError, Error};
use hyperws::liveness::LivenessMonitor;
use hyperws::orders::{parse_cloid_required, Side, Tif};

#[test]
fn retryable_errors_are_the_transient_ones() {
    assert!(Error::Network("reset".to_string()).is_retryable());
    assert!(Error::Timeout.is_retryable());
    assert!(Error::WebSocket("closed".to_string()).is_retryable());
    assert!(!Error::Api("bad order".to_string()).is_retryable());
    assert!(!Error::Json("eof".to_string()).is_retryable());
    assert!(!Error::Signing("bad key".to_string()).is_retryable());
    assert!(!Error::InvalidOrder { message: "tick".to_string() }.is_retryable());
    assert!(!Error::InvalidAddress("0x".to_string()).is_retryable());
    assert!(!Error::Other("?".to_string()).is_retryable());
}

#[test]
fn network_errors_are_network_or_timeout() {
    assert!(Error::Network("dns".to_string()).is_network_error());
    assert!(Error::Timeout.is_network_error());
    assert!(!Error::WebSocket("closed".to_string()).is_network_error());
    assert!(!Error::Api("no".to_string()).is_network_error());
}

#[test]
fn api_errors_are_only_api_rejections() {
    assert!(Error::Api("rejected".to_string()).is_api_error());
    assert!(!Error::Timeout.is_api_error());
    assert!(!Error::Network("x".to_string()).is_api_error());
}

#[test]
fn action_error_carries_ids_and_message() {
    let err: ActionError<u64> = ActionError::new(vec![3, 5], "insufficient margin".to_string());
    assert_eq!(err.message(), "insufficient margin");
    assert_eq!(err.ids().to_vec(), vec![3, 5]);
    let cloned = err.clone();
    assert_eq!(cloned.into_ids(), vec![3, 5]);
    assert_eq!(err.into_ids(), vec![3, 5]);
}

#[test]
fn backoff_sequence_values() {
    assert_eq!(backoff_delay_ms(0), 500);
    assert_eq!(backoff_delay_ms(1), 1000);
    assert_eq!(backoff_delay_ms(2), 2000);
    assert_eq!(backoff_delay_ms(3), 4000);
    assert_eq!(backoff_delay_ms(4), 5000);
    assert_eq!(backoff_delay_ms(5), 5000);
    assert_eq!(backoff_delay_ms(1000), 5000);
    assert_eq!(backoff_delay_ms(u32::MAX), 5000);
}

#[test]
fn liveness_monitor_threshold() {
    let mut m = LivenessMonitor::new();
    assert!(!m.on_tick());
    assert!(!m.on_tick());
    assert!(m.on_tick());
    assert!(m.on_tick());
    m.on_pong();
    assert!(!m.on_tick());
    assert!(!m.on_tick());
    assert!(m.on_tick());
    m.reset();
    assert!(!m.on_tick());
}

#[test]
fn cloid_parses_sixteen_bytes_of_hex() {
    let bytes = parse_cloid_required("0x0123456789abcdef0123456789ABCDEF").unwrap();
    assert_eq!(
        bytes,
        vec![
            0x01, 0x23, 0x45, 0x67, 0x89, 0xab, 0xcd, 0xef, 0x01, 0x23, 0x45, 0x67, 0x89, 0xab,
            0xcd, 0xef
        ]
    );
    // The prefix is optional.
    let bare = parse_cloid_required("00000000000000000000000000000000").unwrap();
    assert_eq!(bare, vec![0u8; 16]);
}

#[test]
fn cloid_rejects_wrong_length_and_bad_digits() {
    assert!(parse_cloid_required("0x00112233").is_none());
    assert!(parse_cloid_required("").is_none());
    assert!(parse_cloid_required("0x0123456789abcdef0123456789abcde").is_none());
    assert!(parse_cloid_required("0x0123456789abcdef0123456789abcdeg").is_none());
    assert!(parse_cloid_required("0x0123456789abcdef0123456789abcdef00").is_none());
}

#[test]
fn side_and_tif() {
    assert!(Side::Buy.is_buy());
    assert!(!Side::Sell.is_buy());
    assert_eq!(Tif::default(), Tif::Gtc);
    assert_ne!(Tif::Alo, Tif::Ioc);
}
