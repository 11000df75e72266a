use serial_bridge::transfer::{
    classify_read, next_step, resolve, RawOutcome, ReadEvent, Step, Transfer,
};

#[test]
fn interrupted_retries_immediately() {
    assert_eq!(next_step(RawOutcome::Interrupted), Step::RetryNow);
}

#[test]
fn would_block_rearms_the_wait() {
    assert_eq!(next_step(RawOutcome::WouldBlock), Step::AwaitReadiness);
}

#[test]
fn byte_count_finishes_the_operation() {
    assert_eq!(
        next_step(RawOutcome::Transferred(17)),
        Step::Finish(Transfer::Count(17))
    );
}

#[test]
fn zero_count_finishes_too() {
    assert_eq!(
        next_step(RawOutcome::Transferred(0)),
        Step::Finish(Transfer::Count(0))
    );
}

#[test]
fn genuine_failure_finishes_with_its_code() {
    assert_eq!(
        next_step(RawOutcome::Failed(5)),
        Step::Finish(Transfer::Fault(5))
    );
}

#[test]
fn run_with_one_interruption_matches_plain_run() {
    let interrupted_once = vec![RawOutcome::Interrupted, RawOutcome::Transferred(3)];
    let plain = vec![RawOutcome::Transferred(3)];
    assert_eq!(resolve(&interrupted_once), resolve(&plain));
    assert_eq!(resolve(&interrupted_once), Some(Transfer::Count(3)));
}

#[test]
fn interruption_in_the_middle_is_equally_invisible() {
    let with = vec![
        RawOutcome::WouldBlock,
        RawOutcome::Interrupted,
        RawOutcome::Failed(32),
    ];
    let without = vec![RawOutcome::WouldBlock, RawOutcome::Failed(32)];
    assert_eq!(resolve(&with), resolve(&without));
    assert_eq!(resolve(&with), Some(Transfer::Fault(32)));
}

#[test]
fn spurious_wakes_never_surface() {
    let run = vec![
        RawOutcome::WouldBlock,
        RawOutcome::WouldBlock,
        RawOutcome::Transferred(1),
    ];
    assert_eq!(resolve(&run), Some(Transfer::Count(1)));
}

#[test]
fn absorbed_run_stays_pending() {
    let run = vec![
        RawOutcome::Interrupted,
        RawOutcome::WouldBlock,
        RawOutcome::Interrupted,
    ];
    assert_eq!(resolve(&run), None);
}

#[test]
fn empty_run_stays_pending() {
    let run: Vec<RawOutcome> = vec![];
    assert_eq!(resolve(&run), None);
}

#[test]
fn first_effective_attempt_decides() {
    let run = vec![
        RawOutcome::WouldBlock,
        RawOutcome::Failed(9),
        RawOutcome::Transferred(4),
    ];
    assert_eq!(resolve(&run), Some(Transfer::Fault(9)));
}

#[test]
fn zero_length_read_means_closed_not_error() {
    assert_eq!(classify_read(Transfer::Count(0)), ReadEvent::Closed);
    assert_ne!(classify_read(Transfer::Count(0)), ReadEvent::Failed(0));
    assert_ne!(classify_read(Transfer::Count(0)), ReadEvent::Data(0));
}

#[test]
fn data_and_failures_classify_apart() {
    assert_eq!(classify_read(Transfer::Count(8)), ReadEvent::Data(8));
    assert_eq!(classify_read(Transfer::Fault(13)), ReadEvent::Failed(13));
}

#[test]
fn hung_up_line_read_through_the_loop() {
    let run = vec![RawOutcome::WouldBlock, RawOutcome::Transferred(0)];
    let outcome = resolve(&run).unwrap();
    assert_eq!(outcome, Transfer::Count(0));
    assert_eq!(classify_read(outcome), ReadEvent::Closed);
}
