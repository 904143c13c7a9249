use fan_dimmer::codec::{decode_config, encode_config, DecodeError};
use fan_dimmer::config::PwmConfig;

#[test]
fn round_trip_basic() {
    let cfg = PwmConfig { steps: vec![-3, 6], interval: 50 };
    let bytes = encode_config(&cfg);
    let back = decode_config(&bytes).unwrap();
    assert_eq!(back.steps, vec![-3, 6]);
    assert_eq!(back.interval, 50);
}

#[test]
fn round_trip_empty_steps() {
    let cfg = PwmConfig { steps: vec![], interval: 0 };
    let bytes = encode_config(&cfg);
    assert_eq!(bytes.len(), 8);
    let back = decode_config(&bytes).unwrap();
    assert_eq!(back.steps, Vec::<i32>::new());
    assert_eq!(back.interval, 0);
}

#[test]
fn round_trip_extreme_values() {
    let cfg = PwmConfig { steps: vec![i32::MIN, i32::MAX, 0, -1], interval: u64::MAX };
    let bytes = encode_config(&cfg);
    assert_eq!(bytes.len(), 8 + 4 * 4);
    let back = decode_config(&bytes).unwrap();
    assert_eq!(back.steps, vec![i32::MIN, i32::MAX, 0, -1]);
    assert_eq!(back.interval, u64::MAX);
}

#[test]
fn encode_exact_bytes() {
    let cfg = PwmConfig { steps: vec![1, -2], interval: 258 };
    let bytes = encode_config(&cfg);
    assert_eq!(
        bytes,
        vec![0, 0, 0, 0, 0, 0, 1, 2, 0, 0, 0, 1, 0xFF, 0xFF, 0xFF, 0xFE]
    );
}

#[test]
fn decode_known_bytes() {
    let bytes = vec![0, 0, 0, 0, 0, 0, 0, 1, 0xFF, 0xFF, 0xFF, 0xFF];
    let back = decode_config(&bytes).unwrap();
    assert_eq!(back.interval, 1);
    assert_eq!(back.steps, vec![-1]);
}

#[test]
fn short_buffers_are_malformed() {
    for len in 0..8 {
        let bytes = vec![0u8; len];
        assert!(matches!(decode_config(&bytes), Err(DecodeError::MalformedLength)));
    }
}

#[test]
fn ragged_tails_are_malformed() {
    for len in [9, 10, 11, 13, 14, 15, 17] {
        let bytes = vec![0u8; len];
        assert!(matches!(decode_config(&bytes), Err(DecodeError::MalformedLength)));
    }
}

#[test]
fn whole_step_lengths_decode() {
    let header_only = vec![0u8; 8];
    let back = decode_config(&header_only).unwrap();
    assert!(back.steps.is_empty());

    let one_step = vec![0u8; 12];
    let back = decode_config(&one_step).unwrap();
    assert_eq!(back.steps, vec![0]);
}
