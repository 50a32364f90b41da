use yubivault::models::{MyField, MyFieldTs};
use yubivault::error::ProtectError;
use yubivault::token::{offer_or_rescan, usable_serials, verify_yubikey_pin, TokenProbe};

#[test]
fn locked_tokens_are_not_offered() {
    let probes = vec![
        TokenProbe { serial: 1234567, pin_retries: 3 },
        TokenProbe { serial: 7654321, pin_retries: 0 },
        TokenProbe { serial: 42, pin_retries: 1 },
    ];
    assert_eq!(usable_serials(&probes), vec![1234567, 42]);
}

#[test]
fn empty_scan_offers_nothing() {
    assert_eq!(usable_serials(&Vec::new()), Vec::<u32>::new());
    let locked = vec![TokenProbe { serial: 9, pin_retries: 0 }];
    assert_eq!(usable_serials(&locked), Vec::<u32>::new());
}

#[test]
fn row_id_becomes_decimal_text() {
    let row = MyField { id: 42, test_field: "hello".to_string() };
    let ts = MyFieldTs::from_row(&row);
    assert_eq!(ts.id, Some("42".to_string()));
    assert_eq!(ts.test_field, "hello");
    let neg = MyFieldTs::from_row(&MyField { id: -7, test_field: String::new() });
    assert_eq!(neg.id, Some("-7".to_string()));
}

#[test]
fn pin_check_reports_attempts_left() {
    assert_eq!(verify_yubikey_pin(Ok(())), Ok(()));
    assert_eq!(verify_yubikey_pin(Err(ProtectError::PinIncorrect { retries: 2 })), Err(2));
    assert_eq!(verify_yubikey_pin(Err(ProtectError::PinIncorrect { retries: 0 })), Err(0));
    assert_eq!(verify_yubikey_pin(Err(ProtectError::TokenNotFound)), Err(-1));
}

#[test]
fn empty_scan_asks_for_rescan() {
    assert_eq!(offer_or_rescan(&vec![TokenProbe { serial: 5, pin_retries: 0 }]), None);
    assert_eq!(offer_or_rescan(&Vec::new()), None);
    let probes = vec![TokenProbe { serial: 5, pin_retries: 0 }, TokenProbe { serial: 6, pin_retries: 3 }];
    assert_eq!(offer_or_rescan(&probes), Some(vec![6]));
}

#[test]
fn row_id_extremes() {
    let text = |id: i64| MyFieldTs::from_row(&MyField { id, test_field: String::new() }).id;
    assert_eq!(text(0), Some("0".to_string()));
    assert_eq!(text(10), Some("10".to_string()));
    assert_eq!(text(i64::MIN), Some("-9223372036854775808".to_string()));
    assert_eq!(text(i64::MAX), Some("9223372036854775807".to_string()));
}
