use radix::codec::{decode_report, encode_decode_round_trip, Base64};
use radix::error::RadixError;

#[test]
fn encode_produces_standard_base64() {
    let bytes: Vec<u8> = vec![0x61, 0x62];
    assert_eq!(Base64::encode(&bytes), "YWI=");
    let empty: Vec<u8> = Vec::new();
    assert_eq!(Base64::encode(&empty), "");
}

#[test]
fn decode_recovers_encoded_bytes() {
    assert_eq!(Base64::decode("YWI=").unwrap(), vec![0x61, 0x62]);
    assert_eq!(Base64::decode("aGVsbG8=").unwrap(), b"hello".to_vec());
}

#[test]
fn decode_failure_is_reported_generically() {
    assert!(matches!(Base64::decode("!!!"), Err(RadixError::DecodeFailure)));
}

#[test]
fn round_trip_recovers_arbitrary_bytes() {
    let bytes: Vec<u8> = vec![0x00, 0xff, 0x0a, 0x80, 0x7f];
    assert_eq!(encode_decode_round_trip(&bytes), bytes);
    let empty: Vec<u8> = Vec::new();
    assert_eq!(encode_decode_round_trip(&empty), empty);
}

#[test]
fn scenario_encode_then_decode_ab() {
    let bytes: Vec<u8> = vec![0x61, 0x62];
    let encoded = Base64::encode(&bytes);
    let decoded = Base64::decode(&encoded).unwrap();
    assert_eq!(decoded, vec![0x61, 0x62]);
    let report = decode_report(&decoded);
    assert_eq!(report.preview.unwrap(), "ab");
    assert_eq!(report.hex_line, "0x61 0x62 ");
}

#[test]
fn preview_is_withheld_for_non_alphanumeric_bytes() {
    let bytes: Vec<u8> = vec![0x61, 0x20, 0x62];
    let report = decode_report(&bytes);
    assert!(report.preview.is_none());
    assert_eq!(report.hex_line, "0x61 0x20 0x62 ");
}

#[test]
fn preview_of_empty_bytes_is_empty() {
    let empty: Vec<u8> = Vec::new();
    let report = decode_report(&empty);
    assert_eq!(report.preview.unwrap(), "");
    assert_eq!(report.hex_line, "");
}
