use fan_dimmer::codec::encode_config;
use fan_dimmer::config::PwmConfig;
use fan_dimmer::storage::{interpret_stored, LoadOutcome};

#[test]
fn missing_file_means_no_config() {
    assert!(matches!(interpret_stored(None), LoadOutcome::Missing));
}

#[test]
fn malformed_blob_is_discarded() {
    assert!(matches!(interpret_stored(Some(vec![1, 2, 3])), LoadOutcome::Malformed));
    assert!(matches!(interpret_stored(Some(vec![0; 9])), LoadOutcome::Malformed));
    assert!(matches!(interpret_stored(Some(vec![])), LoadOutcome::Malformed));
}

#[test]
fn valid_blob_loads_completely() {
    let cfg = PwmConfig { steps: vec![10, -20, 30], interval: 125 };
    let blob = encode_config(&cfg);
    match interpret_stored(Some(blob)) {
        LoadOutcome::Loaded(loaded) => {
            assert_eq!(loaded.steps, vec![10, -20, 30]);
            assert_eq!(loaded.interval, 125);
        }
        _ => panic!("a valid blob must load"),
    }
}

#[test]
fn header_only_blob_loads_empty_steps() {
    match interpret_stored(Some(vec![0; 8])) {
        LoadOutcome::Loaded(loaded) => {
            assert!(loaded.steps.is_empty());
            assert_eq!(loaded.interval, 0);
        }
        _ => panic!("an 8-byte blob is structurally valid"),
    }
}
