use cpass::cipher::SealedSecret;
use cpass::error::{CpassError, ErrorClass};
use cpass::hexcode::{decode_hex, encode_hex};
use cpass::ids::{parse_record_id, record_id_text};

#[test]
fn hex_is_lower_case_two_digits_per_byte() {
    assert_eq!(encode_hex(&[0x00, 0x0f, 0xab, 0xff]), "000fabff");
    assert_eq!(encode_hex(&[]), "");
}

#[test]
fn hex_decodes_either_case() {
    assert_eq!(decode_hex("000FabfF"), Ok(vec![0x00, 0x0f, 0xab, 0xff]));
    assert!(matches!(decode_hex("abc"), Err(CpassError::InvalidRequest(_))));
    assert!(matches!(decode_hex("zz"), Err(CpassError::InvalidRequest(_))));
}

#[test]
fn sealed_secret_hex_round_trip() {
    let s = SealedSecret { ciphertext: vec![1, 2, 250], salt: vec![9; 16] };
    let (c, salt) = s.to_hex();
    assert_eq!(c, "0102fa");
    assert_eq!(SealedSecret::from_hex(&c, &salt), Ok(s));
    assert!(SealedSecret::from_hex("0g", &salt).is_err());
}

#[test]
fn ids_parse_and_print() {
    let id = parse_record_id("67e55044-10b1-426f-9247-bb680e5fe0c8").unwrap();
    assert_eq!(id, 0x67e5504410b1426f9247bb680e5fe0c8);
    assert_eq!(record_id_text(id), "67e55044-10b1-426f-9247-bb680e5fe0c8");
    assert_eq!(parse_record_id("67e5504410b1426f9247bb680e5fe0c8"), Ok(id));
    assert!(matches!(parse_record_id("not-a-uuid"), Err(CpassError::InvalidRequest(_))));
}

#[test]
fn rpc_codes() {
    assert_eq!(ErrorClass::Unauthenticated.rpc_code(), 16);
    assert_eq!(ErrorClass::NotFound.rpc_code(), 5);
    assert_eq!(CpassError::UserAlreadyExists("a".to_string()).class().rpc_code(), 6);
}
