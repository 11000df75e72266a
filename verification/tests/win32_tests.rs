use serial_bridge::errors::{Error, OsFailure};
use serial_bridge::win32::{
    bridge_advance, device_namespace_path, quiet_quantum_timeouts, split_handle_views,
    teardown_close_count, BridgeStage,
};

#[test]
fn port_name_gains_the_namespace_prefix_and_a_nul() {
    let port: Vec<u16> = "COM1".encode_utf16().collect();
    let path = device_namespace_path(&port);
    let expected: Vec<u16> = vec![92, 92, 46, 92, 67, 79, 77, 49, 0];
    assert_eq!(path, expected);
}

#[test]
fn empty_port_name_still_gets_prefix_and_nul() {
    let port: Vec<u16> = vec![];
    let path = device_namespace_path(&port);
    assert_eq!(path, vec![92u16, 92, 46, 92, 0]);
}

#[test]
fn timeout_override_blocks_for_the_first_byte_only() {
    let t = quiet_quantum_timeouts();
    assert_eq!(t.read_interval, 1);
    assert_eq!(t.read_total_multiplier, 0);
    assert_eq!(t.read_total_constant, 0);
    assert_eq!(t.write_total_multiplier, 0);
    assert_eq!(t.write_total_constant, 0);
}

#[test]
fn exactly_one_view_closes_the_handle() {
    let views = split_handle_views();
    assert!(views.transfer_closes);
    assert!(!views.config_closes);
    assert_eq!(teardown_close_count(&views), 1);
}

#[test]
fn bridge_setup_runs_through_every_station() {
    let mut stage = BridgeStage::OpenHandle;
    let expected = [
        BridgeStage::ApplySettings,
        BridgeStage::OverrideTimeouts,
        BridgeStage::BridgeHandle,
        BridgeStage::Ready,
    ];
    for want in expected {
        stage = bridge_advance(stage, Ok(())).unwrap();
        assert_eq!(stage, want);
    }
}

#[test]
fn open_failure_surfaces_device_open_error() {
    let r = bridge_advance(BridgeStage::OpenHandle, Err(OsFailure::Code(2)));
    assert_eq!(r, Err(Error::DeviceOpen(OsFailure::Code(2))));
}

#[test]
fn settings_failure_surfaces_configuration_error() {
    let r = bridge_advance(BridgeStage::ApplySettings, Err(OsFailure::Code(87)));
    assert_eq!(r, Err(Error::Configuration(OsFailure::Code(87))));
}

#[test]
fn timeout_override_failure_has_its_own_kind() {
    let r = bridge_advance(BridgeStage::OverrideTimeouts, Err(OsFailure::Code(5)));
    assert_eq!(r, Err(Error::TimeoutOverride(OsFailure::Code(5))));
}

#[test]
fn bridging_failure_is_an_io_error() {
    let r = bridge_advance(BridgeStage::BridgeHandle, Err(OsFailure::Code(6)));
    assert_eq!(r, Err(Error::Io(OsFailure::Code(6))));
}
