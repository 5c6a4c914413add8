use cln_extension::amount::{as_fedimint_amount, parse_amount, Amount};

#[test]
fn amount_with_msat_suffix() {
    assert_eq!(parse_amount("1000msat"), Some(Amount { msats: 1000 }));
    assert_eq!(parse_amount("0msat"), Some(Amount { msats: 0 }));
    assert_eq!(parse_amount("007msat"), Some(Amount { msats: 7 }));
}

#[test]
fn amount_limits() {
    assert_eq!(
        parse_amount("18446744073709551615msat"),
        Some(Amount { msats: u64::MAX })
    );
    assert_eq!(parse_amount("18446744073709551616msat"), None);
    assert_eq!(parse_amount("99999999999999999999999msat"), None);
}

#[test]
fn amount_suffix_is_four_bytes_of_anything() {
    assert_eq!(parse_amount("12abcd"), Some(Amount { msats: 12 }));
    assert_eq!(parse_amount("12\u{e9}\u{e9}"), Some(Amount { msats: 12 }));
    assert_eq!(parse_amount("12\u{1f600}"), Some(Amount { msats: 12 }));
    // The suffix starts in the middle of a character.
    assert_eq!(parse_amount("12\u{e9}abc"), None);
}

#[test]
fn amount_plus_sign() {
    assert_eq!(parse_amount("+5msat"), Some(Amount { msats: 5 }));
    assert_eq!(parse_amount("+msat"), None);
    assert_eq!(parse_amount("++5msat"), None);
    assert_eq!(parse_amount("-5msat"), None);
}

#[test]
fn amount_that_cannot_be_read() {
    assert_eq!(parse_amount(""), None);
    assert_eq!(parse_amount("123"), None);
    assert_eq!(parse_amount("msat"), None);
    assert_eq!(parse_amount("1 msat"), None);
    assert_eq!(parse_amount("1.5msat"), None);
}

#[test]
fn amount_field() {
    assert_eq!(
        as_fedimint_amount::<String>(Ok("42msat".to_string())),
        Ok(Amount::from_msats(42))
    );
    assert_eq!(
        as_fedimint_amount(Err("not a string".to_string())),
        Err("not a string".to_string())
    );
}

#[test]
fn amount_text_round_trip() {
    for msats in [0, 1, 9, 10, 99, 100, 12345, u64::MAX] {
        assert_eq!(parse_amount(&format!("{msats}msat")), Some(Amount { msats }));
    }
}
