use latest_block::decimal::decimal_text;
use latest_block::endpoint::{endpoint_url, parse_endpoint, ENDPOINT};
use latest_block::fetch::{interpret_response, settle_quantity, FetchError};
use latest_block::quantity::is_quantity_text;

fn is_canonical(s: &str) -> bool {
    !s.is_empty() && s.chars().all(|c| c.is_ascii_digit()) && (s == "0" || !s.starts_with('0'))
}

#[test]
fn hex_sixteen_becomes_decimal_sixteen() {
    let r = interpret_response(Ok("0x10".to_string()));
    match r {
        Ok(s) => assert_eq!(s, "16"),
        Err(e) => panic!("unexpected error: {}", e.message()),
    }
}

#[test]
fn connection_error_is_reported() {
    let failure = "error sending request: connection refused (os error 111)".to_string();
    let r = interpret_response(Err(failure.clone()));
    match r {
        Ok(s) => panic!("unexpected height {}", s),
        Err(e) => {
            assert!(matches!(e, FetchError::RpcCall(_)));
            assert!(e.message().contains("connection refused"));
        }
    }
}

#[test]
fn dns_failure_is_reported() {
    let r = interpret_response(Err("dns error: failed to lookup address".to_string()));
    assert!(matches!(r, Err(FetchError::RpcCall(ref m)) if m.contains("dns error")));
}

#[test]
fn non_numeric_answer_is_an_error() {
    let r = interpret_response(Ok("latest block".to_string()));
    assert!(matches!(r, Err(FetchError::MalformedResponse(ref m)) if m.contains("invalid digit")));
}

#[test]
fn word_answer_is_an_error() {
    let r = interpret_response(Ok("sixteen".to_string()));
    assert!(matches!(r, Err(FetchError::MalformedResponse(_))));
}

#[test]
fn bad_hex_digit_is_an_error() {
    let r = interpret_response(Ok("0x1g".to_string()));
    assert!(matches!(r, Err(FetchError::MalformedResponse(_))));
    let r = interpret_response(Ok("0xzz".to_string()));
    assert!(matches!(r, Err(FetchError::MalformedResponse(ref m)) if m.contains("invalid digit")));
}

#[test]
fn empty_answers_are_errors() {
    for answer in ["", "0x", "_", "0x_"] {
        let r = interpret_response(Ok(answer.to_string()));
        assert!(matches!(r, Err(FetchError::MalformedResponse(_))), "accepted {:?}", answer);
    }
}

#[test]
fn decimal_answer_is_not_a_quantity() {
    let e = interpret_response(Ok("16".to_string())).err().unwrap();
    assert_eq!(e.message(), "not a hex quantity: 16");
}

#[test]
fn quantity_too_large_is_an_error() {
    let r = interpret_response(Ok("0x10000000000000000".to_string()));
    assert!(matches!(r, Err(FetchError::MalformedResponse(_))));
}

#[test]
fn largest_quantity_is_accepted() {
    let r = interpret_response(Ok("0xffffffffffffffff".to_string()));
    assert_eq!(r.ok().unwrap(), "18446744073709551615");
}

#[test]
fn zero_quantity_is_zero() {
    let r = interpret_response(Ok("0x0".to_string()));
    assert_eq!(r.ok().unwrap(), "0");
}

#[test]
fn mainnet_sized_height() {
    let r = interpret_response(Ok("0x1534b2c".to_string()));
    let s = r.ok().unwrap();
    assert_eq!(s, "22235948");
    assert!(is_canonical(&s));
}

#[test]
fn malformed_message_is_the_decoder_error() {
    let e = interpret_response(Ok("null?".to_string())).err().unwrap();
    assert_eq!(e.message(), "invalid digit: n");
}

#[test]
fn uppercase_prefix_is_not_a_quantity() {
    let r = interpret_response(Ok("0X10".to_string()));
    assert!(matches!(r, Err(FetchError::MalformedResponse(_))));
}

#[test]
fn uppercase_hex_digits_are_read() {
    assert_eq!(interpret_response(Ok("0xFF".to_string())).ok().unwrap(), "255");
}

#[test]
fn decimal_text_of_edges() {
    assert_eq!(decimal_text(0), "0");
    assert_eq!(decimal_text(7), "7");
    assert_eq!(decimal_text(10), "10");
    assert_eq!(decimal_text(1000), "1000");
    assert_eq!(decimal_text(u64::MAX), "18446744073709551615");
}

#[test]
fn decimal_text_matches_std() {
    let mut n: u64 = 1;
    while n < u64::MAX / 3 {
        let s = decimal_text(n);
        assert_eq!(s, n.to_string());
        assert!(is_canonical(&s));
        n = n * 3 + 1;
    }
}

#[test]
fn consecutive_heights_keep_order() {
    let a = interpret_response(Ok("0xff".to_string())).ok().unwrap();
    let b = interpret_response(Ok("0x100".to_string())).ok().unwrap();
    assert_eq!(a, "255");
    assert_eq!(b, "256");
    assert!(a.parse::<u64>().unwrap() <= b.parse::<u64>().unwrap());
}

#[test]
fn settle_quantity_uses_the_decoded_value() {
    assert_eq!(settle_quantity("0x2a", Ok(42)).ok().unwrap(), "42");
    assert!(matches!(
        settle_quantity("oops", Err("invalid digit: o".to_string())),
        Err(FetchError::MalformedResponse(ref m)) if m == "invalid digit: o"
    ));
    assert!(matches!(
        settle_quantity("42", Ok(42)),
        Err(FetchError::MalformedResponse(ref m)) if m == "not a hex quantity: 42"
    ));
}

#[test]
fn quantity_shape() {
    assert!(is_quantity_text("0x0"));
    assert!(is_quantity_text("0xdeadBEEF"));
    assert!(!is_quantity_text("0x"));
    assert!(!is_quantity_text("10"));
    assert!(!is_quantity_text("0x1_0"));
}

#[test]
fn fixed_endpoint_parses() {
    let u = endpoint_url().ok().unwrap();
    assert_eq!(u.host_str(), Some("eth.merkle.io"));
    assert_eq!(u.scheme(), "https");
    assert_eq!(ENDPOINT, "https://eth.merkle.io");
}

#[test]
fn invalid_endpoint_is_reported() {
    let r = parse_endpoint("not a url");
    match r {
        Ok(_) => panic!("accepted an invalid address"),
        Err(e) => {
            assert!(matches!(e, FetchError::InvalidEndpoint(_)));
            assert!(!e.message().is_empty());
        }
    }
}
