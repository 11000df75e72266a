use serial_bridge::errors::{Error, OsFailure};
use serial_bridge::posix::{raise_status_flag, set_min_read_one, setup_advance, SetupStage};

#[test]
fn min_read_slot_becomes_one_and_the_rest_stay() {
    let mut control_chars = vec![3u8, 28, 127, 21, 4, 0, 0, 17];
    set_min_read_one(&mut control_chars, 5);
    assert_eq!(control_chars, vec![3u8, 28, 127, 21, 4, 1, 0, 17]);
}

#[test]
fn nonblock_flag_is_raised_and_other_bits_kept() {
    let flags = 0o100002;
    let nonblock = 0o4000;
    let raised = raise_status_flag(flags, nonblock);
    assert_eq!(raised, flags | nonblock);
    assert_eq!(raised & nonblock, nonblock);
    assert_eq!(raised & !nonblock, flags & !nonblock);
    let raised_again = raise_status_flag(raised, nonblock);
    assert_eq!(raised_again, raised);
}

#[test]
fn setup_runs_through_every_station() {
    let mut stage = SetupStage::FetchAttrs;
    let expected = [
        SetupStage::CommitAttrs,
        SetupStage::FetchFlags,
        SetupStage::RaiseNonblock,
        SetupStage::RegisterReadiness,
        SetupStage::Ready,
    ];
    for want in expected {
        stage = setup_advance(stage, Ok(())).unwrap();
        assert_eq!(stage, want);
    }
}

#[test]
fn a_partial_setup_is_not_ready() {
    let mut stage = SetupStage::FetchAttrs;
    for _ in 0..4 {
        stage = setup_advance(stage, Ok(())).unwrap();
        assert_ne!(stage, SetupStage::Ready);
    }
}

#[test]
fn attribute_fetch_failure_surfaces_configuration_error() {
    let failure = OsFailure::Message("attribute fetch refused".to_string());
    let r = setup_advance(SetupStage::FetchAttrs, Err(failure.clone()));
    assert_eq!(r, Err(Error::Configuration(failure)));
}

#[test]
fn attribute_commit_failure_surfaces_configuration_error() {
    let failure = OsFailure::Message("attribute commit refused".to_string());
    let r = setup_advance(SetupStage::CommitAttrs, Err(failure.clone()));
    assert_eq!(r, Err(Error::Configuration(failure)));
}

#[test]
fn flag_failures_keep_their_os_code() {
    let r = setup_advance(SetupStage::FetchFlags, Err(OsFailure::Code(13)));
    assert_eq!(r, Err(Error::Io(OsFailure::Code(13))));
    let r = setup_advance(SetupStage::RaiseNonblock, Err(OsFailure::Code(22)));
    assert_eq!(r, Err(Error::Io(OsFailure::Code(22))));
}

#[test]
fn registration_failure_is_an_io_error() {
    let r = setup_advance(SetupStage::RegisterReadiness, Err(OsFailure::Code(24)));
    assert_eq!(r, Err(Error::Io(OsFailure::Code(24))));
}
