use fan_dimmer::codec::{decode_config, encode_config};
use fan_dimmer::config::PwmConfig;
use fan_dimmer::sequencer::{Sequencer, TickCommand};

#[test]
fn single_step_freezes_duty_and_cursor() {
    let steps = vec![5];
    let mut s = Sequencer::new();
    for _ in 0..100 {
        let cmd = s.tick(&steps);
        assert_eq!(cmd.duty, 5);
        assert_eq!(s.index, 0);
    }
}

#[test]
fn empty_list_holds_last_duty() {
    let mut s = Sequencer::new();
    let cmd = s.tick(&vec![7]);
    assert_eq!(cmd.duty, 7);
    let empty: Vec<i32> = vec![];
    for _ in 0..50 {
        let cmd = s.tick(&empty);
        assert_eq!(cmd.duty, 7);
        assert_eq!(cmd.pin_change, None);
    }
    // The hold ends as soon as the list is non-empty again.
    let cmd = s.tick(&vec![3]);
    assert_eq!(cmd.duty, 3);
}

#[test]
fn shrink_wraps_cursor_to_front() {
    let mut s = Sequencer::new();
    let long = vec![1, 2, 3, 4];
    for expect in [1, 2, 3] {
        let cmd = s.tick(&long);
        assert_eq!(cmd.duty, expect);
    }
    assert_eq!(s.index, 3);
    let short = vec![9, 9];
    let cmd = s.tick(&short);
    assert_eq!(cmd.duty, 9);
    assert_eq!(s.index, 1);
}

#[test]
fn cycles_in_order() {
    let steps = vec![1, 2, 3];
    let mut s = Sequencer::new();
    let seen: Vec<u32> = (0..6).map(|_| s.tick(&steps).duty).collect();
    assert_eq!(seen, vec![1, 2, 3, 1, 2, 3]);
}

#[test]
fn negative_duty_reverses_and_does_not_retoggle() {
    let reverse_step = vec![-8];
    let mut s = Sequencer::new();
    let cmd = s.tick(&reverse_step);
    assert_eq!(cmd.duty, 8);
    assert_eq!(cmd.pin_change, Some(true));
    for _ in 0..10 {
        let cmd = s.tick(&reverse_step);
        assert_eq!(cmd.duty, 8);
        assert_eq!(cmd.pin_change, None);
    }
    let forward_step = vec![8];
    let cmd = s.tick(&forward_step);
    assert_eq!(cmd.duty, 8);
    assert_eq!(cmd.pin_change, Some(false));
    for _ in 0..10 {
        let cmd = s.tick(&forward_step);
        assert_eq!(cmd.pin_change, None);
    }
}

#[test]
fn mixed_signs_toggle_once_per_change() {
    let steps = vec![-3, 6];
    let mut s = Sequencer::new();
    let c1 = s.tick(&steps);
    assert_eq!((c1.duty, c1.pin_change), (3, Some(true)));
    let c2 = s.tick(&steps);
    assert_eq!((c2.duty, c2.pin_change), (6, Some(false)));
    let c3 = s.tick(&steps);
    assert_eq!((c3.duty, c3.pin_change), (3, Some(true)));
}

#[test]
fn persisted_config_reproduces_output_after_restart() {
    // An accepted update is persisted; a restart that loads the persisted
    // blob must replay the very same output sequence.
    let accepted = PwmConfig { steps: vec![-3, 6], interval: 50 };
    let persisted = encode_config(&accepted);
    let reloaded = decode_config(&persisted).unwrap();
    assert_eq!(reloaded.steps, accepted.steps);
    assert_eq!(reloaded.interval, accepted.interval);

    let mut before = Sequencer::new();
    let mut after = Sequencer::new();
    let run_before: Vec<TickCommand> = (0..8).map(|_| before.tick(&accepted.steps)).collect();
    let run_after: Vec<TickCommand> = (0..8).map(|_| after.tick(&reloaded.steps)).collect();
    assert_eq!(run_before, run_after);
}
