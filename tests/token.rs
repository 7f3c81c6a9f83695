use cpass::carrier::{
    claims_from_headers, split_bearer, Carrier, HeaderCarrier, MetadataCarrier, MetadataValue,
};
use cpass::claims::{Claims, TOKEN_VALIDITY_SECS};
use cpass::error::CpassError;
use cpass::token::{create_token, generate_bytes, validate_token, SigningKey};

const T: u64 = 1_700_000_000;

fn key() -> SigningKey {
    SigningKey::new(Some("test-secret")).unwrap()
}

#[test]
fn claims_expire_one_window_after_issue() {
    let c = Claims::new(42, T);
    assert_eq!(c.iss, "authentication");
    assert_eq!(c.sub, 42);
    assert_eq!(c.iat, T);
    assert_eq!(c.exp, T + 3600);
    assert_eq!(TOKEN_VALIDITY_SECS, 3600);
}

#[test]
fn claims_text_form() {
    let c = Claims::new(42, T);
    assert_eq!(
        c.to_json(),
        "{\"iss\":\"authentication\",\"sub\":\"42\",\"iat\":1700000000,\"exp\":1700003600}"
    );
    assert_eq!(Claims::from_json(&c.to_json()), Some(c));
}

#[test]
fn claims_text_round_trips_extremes() {
    let c = Claims { iss: "authentication".to_string(), sub: u128::MAX, iat: 0, exp: u64::MAX };
    assert_eq!(Claims::from_json(&c.to_json()), Some(c));
}

#[test]
fn claims_text_is_read_strictly() {
    let ok = "{\"iss\":\"authentication\",\"sub\":\"7\",\"iat\":1,\"exp\":2}";
    assert!(Claims::from_json(ok).is_some());
    assert!(Claims::from_json("{\"iss\":\"authentication\",\"sub\":\"07\",\"iat\":1,\"exp\":2}").is_none());
    assert!(Claims::from_json("{\"iss\":\"other\",\"sub\":\"7\",\"iat\":1,\"exp\":2}").is_none());
    assert!(Claims::from_json("{\"iss\":\"authentication\",\"sub\":\"7\",\"iat\":1,\"exp\":2} ").is_none());
    assert!(Claims::from_json("{\"iss\":\"authentication\",\"sub\":\"7\",\"iat\":18446744073709551616,\"exp\":2}").is_none());
    assert!(Claims::from_json("").is_none());
}

#[test]
fn token_valid_within_window() {
    let k = key();
    let token = create_token(42, T, &k).unwrap();
    assert_eq!(token.split('.').count(), 3);
    for now in [T, T + 1, T + 3599] {
        let c = validate_token(&token, &k, now).unwrap();
        assert_eq!(c.sub, 42);
        assert_eq!(c.iat, T);
        assert_eq!(c.exp, T + 3600);
    }
}

#[test]
fn token_invalid_from_end_of_window() {
    let k = key();
    let token = create_token(42, T, &k).unwrap();
    assert_eq!(validate_token(&token, &k, T + 3600), Err(CpassError::InvalidToken));
    assert_eq!(validate_token(&token, &k, T + 10_000), Err(CpassError::InvalidToken));
}

#[test]
fn token_under_other_key_is_invalid() {
    let token = create_token(42, T, &key()).unwrap();
    let other = SigningKey::new(Some("another-secret")).unwrap();
    assert_eq!(validate_token(&token, &other, T), Err(CpassError::InvalidToken));
    assert_eq!(validate_token("not.a.token", &key(), T), Err(CpassError::InvalidToken));
}

#[test]
fn signing_key_from_config_or_random() {
    assert_eq!(SigningKey::new(Some("abc")).unwrap().bytes, b"abc".to_vec());
    let a = SigningKey::new(None).unwrap();
    let b = SigningKey::new(None).unwrap();
    assert_eq!(a.bytes.len(), 32);
    assert_ne!(a.bytes, b.bytes);
    assert_eq!(generate_bytes(5).unwrap().len(), 5);
}

#[test]
fn bearer_value_has_two_parts() {
    assert_eq!(split_bearer("Bearer abc"), Some("abc".to_string()));
    assert_eq!(split_bearer("Bearer "), Some(String::new()));
    assert_eq!(split_bearer("abc"), None);
    assert_eq!(split_bearer("Bearer a b"), None);
}

fn headers(value: Option<Option<&str>>) -> HeaderCarrier {
    let mut entries = vec![("content-type".to_string(), Some("application/json".to_string()))];
    if let Some(v) = value {
        entries.push(("authorization".to_string(), v.map(|s| s.to_string())));
    }
    HeaderCarrier { entries }
}

#[test]
fn header_extraction_failures() {
    let k = key();
    assert!(matches!(claims_from_headers(&headers(None), &k, T), Err(CpassError::InvalidRequest(_))));
    assert!(matches!(claims_from_headers(&headers(Some(None)), &k, T), Err(CpassError::InvalidRequest(_))));
    assert!(matches!(
        claims_from_headers(&headers(Some(Some("tokenonly"))), &k, T),
        Err(CpassError::InvalidRequest(_))
    ));
    assert_eq!(
        claims_from_headers(&headers(Some(Some("Bearer garbage"))), &k, T),
        Err(CpassError::InvalidToken)
    );
}

#[test]
fn header_extraction_success() {
    let k = key();
    let token = create_token(9, T, &k).unwrap();
    let value = format!("Bearer {}", token);
    let h = headers(Some(Some(&value)));
    assert!(h.contains_key("authorization"));
    assert_eq!(h.get("authorization"), Ok(Some(value.clone())));
    assert_eq!(claims_from_headers(&h, &k, T).unwrap().sub, 9);
}

#[test]
fn metadata_extraction_matches_headers() {
    let k = key();
    let token = create_token(11, T, &k).unwrap();
    let m = MetadataCarrier {
        entries: vec![
            ("authorization-bin".to_string(), MetadataValue::Binary(vec![1, 2])),
            ("authorization".to_string(), MetadataValue::Ascii(Some(format!("Bearer {}", token)))),
        ],
    };
    assert_eq!(claims_from_headers(&m, &k, T).unwrap().sub, 11);
    let only_binary = MetadataCarrier {
        entries: vec![("authorization".to_string(), MetadataValue::Binary(vec![1]))],
    };
    assert!(!only_binary.contains_key("authorization"));
    assert!(matches!(claims_from_headers(&only_binary, &k, T), Err(CpassError::InvalidRequest(_))));
}

#[test]
fn tokens_are_determined_by_subject_time_and_key() {
    let k = key();
    assert_eq!(create_token(42, T, &k).unwrap(), create_token(42, T, &k).unwrap());
    assert_ne!(create_token(42, T, &k).unwrap(), create_token(43, T, &k).unwrap());
    assert_ne!(create_token(42, T, &k).unwrap(), create_token(42, T + 1, &k).unwrap());
}
