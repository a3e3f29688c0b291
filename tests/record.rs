use weighting_config::error::ReadError;
use weighting_config::record::{account_size, WeightingConfig, ENCODED_LEN, METADATA_SIZE};

#[test]
fn dynamic_mode_encodes_to_nine_bytes() {
    let c = WeightingConfig::new(1, 30000);
    assert_eq!(c.as_bytes(), [0x01, 0x30, 0x75, 0, 0, 0, 0, 0, 0]);
    let d = WeightingConfig::from_bytes(&c.as_bytes()).unwrap();
    assert_eq!(d.weighting_mode, 1);
    assert_eq!(d.tc_ms, 30000);
}

#[test]
fn round_trip_keeps_fields() {
    let cases: [(u8, u64); 5] = [(0, 0), (1, 30000), (255, u64::MAX), (0, 1 << 40), (7, 0x0102030405060708)];
    for (mode, tc) in cases {
        let c = WeightingConfig::new(mode, tc);
        let bytes = c.as_bytes();
        assert_eq!(bytes.len(), ENCODED_LEN);
        let d = WeightingConfig::from_bytes(&bytes).unwrap();
        assert_eq!((d.weighting_mode, d.tc_ms), (mode, tc));
        assert_eq!(d.as_bytes(), bytes);
    }
}

#[test]
fn encoding_is_little_endian() {
    let c = WeightingConfig::new(0, 0x0102030405060708);
    assert_eq!(c.as_bytes(), [0, 8, 7, 6, 5, 4, 3, 2, 1]);
    let m = WeightingConfig::new(255, u64::MAX);
    assert_eq!(m.as_bytes(), [255; 9]);
}

#[test]
fn decode_rejects_wrong_length() {
    assert_eq!(WeightingConfig::from_bytes(&[]).unwrap_err(), ReadError::MalformedRecord);
    assert_eq!(WeightingConfig::from_bytes(&[1; 8]).unwrap_err(), ReadError::MalformedRecord);
    assert_eq!(WeightingConfig::from_bytes(&[1; 10]).unwrap_err(), ReadError::MalformedRecord);
    assert_eq!(WeightingConfig::from_bytes(&[1; 32]).unwrap_err(), ReadError::MalformedRecord);
}

#[test]
fn account_size_exceeds_metadata() {
    assert_eq!(account_size(), 65);
    assert!(account_size() > METADATA_SIZE);
    assert_eq!(account_size(), account_size());
}
