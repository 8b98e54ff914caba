use nightshade_bridge::device::{ConnectionState, DeviceInfo, DeviceType, DriverType};
use nightshade_bridge::registry::DeviceRegistry;

fn info(id: &str, t: DeviceType) -> DeviceInfo {
    DeviceInfo {
        id: id.to_string(),
        name: format!("{} name", id),
        device_type: t,
        driver_type: DriverType::Alpaca,
        description: String::new(),
        driver_version: "Alpaca".to_string(),
        serial_number: None,
        unique_id: None,
        display_name: id.to_string(),
    }
}

#[test]
fn register_then_lookup_gives_fresh_entry() {
    let mut reg = DeviceRegistry::new();
    reg.register_device(info("alpaca:x:camera:0", DeviceType::Camera), true);
    assert!(reg.is_device_registered("alpaca:x:camera:0"));
    let d = reg.get_device("alpaca:x:camera:0").unwrap();
    assert_eq!(d.connection_state, ConnectionState::Disconnected);
    assert_eq!(d.reconnect_attempts, 0);
    assert!(d.auto_reconnect);
    assert!(d.last_error.is_none());
    assert!(d.last_successful_comm.is_none());
    assert!(!d.heartbeat_active);
    assert!(!reg.is_connected("alpaca:x:camera:0"));
}

#[test]
fn unknown_device_is_not_registered() {
    let reg = DeviceRegistry::new();
    assert!(!reg.is_device_registered("nope"));
    assert!(reg.get_device("nope").is_none());
    assert!(!reg.is_connected("nope"));
    assert!(!reg.is_heartbeat_active("nope"));
}

#[test]
fn registering_again_resets_the_entry() {
    let mut reg = DeviceRegistry::new();
    reg.register_device(info("a", DeviceType::Camera), true);
    reg.report_error("a", "boom".to_string());
    reg.register_device(info("a", DeviceType::Mount), false);
    let d = reg.get_device("a").unwrap();
    assert_eq!(d.connection_state, ConnectionState::Disconnected);
    assert_eq!(d.info.device_type, DeviceType::Mount);
    assert!(!d.auto_reconnect);
    assert_eq!(reg.get_all_devices().len(), 1);
}

#[test]
fn unregister_removes_only_that_device() {
    let mut reg = DeviceRegistry::new();
    reg.register_device(info("a", DeviceType::Camera), false);
    reg.register_device(info("b", DeviceType::Mount), false);
    reg.register_device(info("c", DeviceType::Focuser), false);
    reg.unregister_device("b");
    assert!(reg.is_device_registered("a"));
    assert!(!reg.is_device_registered("b"));
    assert!(reg.is_device_registered("c"));
    reg.unregister_device("zzz");
    assert_eq!(reg.get_all_devices().len(), 2);
}

#[test]
fn connect_lifecycle() {
    let mut reg = DeviceRegistry::new();
    reg.register_device(info("a", DeviceType::Camera), true);
    let target = reg.connection_target("a").unwrap();
    assert_eq!(target.id, "a");
    reg.mark_connecting("a");
    assert_eq!(reg.get_device("a").unwrap().connection_state, ConnectionState::Connecting);
    reg.record_connect_result("a", &Err("no answer".to_string()));
    let d = reg.get_device("a").unwrap();
    assert_eq!(d.connection_state, ConnectionState::Error);
    assert_eq!(d.last_error.as_deref(), Some("no answer"));
    reg.record_connect_result("a", &Ok(()));
    let d = reg.get_device("a").unwrap();
    assert_eq!(d.connection_state, ConnectionState::Connected);
    assert!(d.last_error.is_none());
    assert_eq!(d.reconnect_attempts, 0);
    assert!(reg.is_connected("a"));
}

#[test]
fn connection_target_of_unknown_device() {
    let reg = DeviceRegistry::new();
    assert_eq!(reg.connection_target("cam9").unwrap_err(), "Device not found: cam9");
}

#[test]
fn disconnect_switches_auto_reconnect_off() {
    let mut reg = DeviceRegistry::new();
    reg.register_device(info("a", DeviceType::Camera), true);
    reg.record_connect_result("a", &Ok(()));
    let info_back = reg.disconnect_device("a").unwrap();
    assert_eq!(info_back.id, "a");
    let d = reg.get_device("a").unwrap();
    assert_eq!(d.connection_state, ConnectionState::Disconnected);
    assert!(!d.auto_reconnect);
    reg.report_error("a", "lost".to_string());
    assert!(reg.devices_to_reconnect(10).is_empty());
    assert_eq!(reg.disconnect_device("b").unwrap_err(), "Device not found: b");
}

#[test]
fn report_error_on_known_and_unknown_devices() {
    let mut reg = DeviceRegistry::new();
    reg.register_device(info("a", DeviceType::Camera), true);
    assert!(reg.report_error("a", "cable".to_string()));
    assert!(!reg.report_error("b", "cable".to_string()));
    let d = reg.get_device("a").unwrap();
    assert_eq!(d.connection_state, ConnectionState::Error);
    assert_eq!(d.last_error.as_deref(), Some("cable"));
}

#[test]
fn reconnect_selection_respects_flags_and_limits() {
    let mut reg = DeviceRegistry::new();
    reg.register_device(info("auto", DeviceType::Camera), true);
    reg.register_device(info("manual", DeviceType::Camera), false);
    reg.register_device(info("fine", DeviceType::Mount), true);
    reg.report_error("auto", "x".to_string());
    reg.report_error("manual", "x".to_string());
    let due = reg.devices_to_reconnect(2);
    assert_eq!(due.len(), 1);
    assert_eq!(due[0].info.id, "auto");
    reg.record_reconnect_failure("auto", "again".to_string());
    reg.record_reconnect_failure("auto", "again".to_string());
    assert_eq!(reg.get_device("auto").unwrap().reconnect_attempts, 2);
    assert!(reg.devices_to_reconnect(2).is_empty());
    // no limit
    assert_eq!(reg.devices_to_reconnect(0).len(), 1);
    reg.record_reconnect_success("auto");
    let d = reg.get_device("auto").unwrap();
    assert_eq!(d.reconnect_attempts, 0);
    assert!(d.last_error.is_none());
}

#[test]
fn reconnect_round_when_disabled_is_empty() {
    let mut reg = DeviceRegistry::new();
    reg.register_device(info("a", DeviceType::Camera), true);
    reg.report_error("a", "x".to_string());
    assert!(reg.reconnect_round(false, 10).is_empty());
    assert_eq!(reg.reconnect_round(true, 10).len(), 1);
}

#[test]
fn finish_reconnect_attempt_counts_failures() {
    let mut reg = DeviceRegistry::new();
    reg.register_device(info("a", DeviceType::Camera), true);
    reg.report_error("a", "x".to_string());
    reg.finish_reconnect_attempt("a", &Err("refused".to_string()));
    let d = reg.get_device("a").unwrap();
    assert_eq!(d.reconnect_attempts, 1);
    assert_eq!(d.connection_state, ConnectionState::Error);
    assert_eq!(d.last_error.as_deref(), Some("refused"));
    reg.finish_reconnect_attempt("a", &Ok(()));
    let d = reg.get_device("a").unwrap();
    assert_eq!(d.reconnect_attempts, 0);
    assert_eq!(d.connection_state, ConnectionState::Connected);
}

#[test]
fn devices_by_type() {
    let mut reg = DeviceRegistry::new();
    reg.register_device(info("c1", DeviceType::Camera), false);
    reg.register_device(info("m1", DeviceType::Mount), false);
    reg.register_device(info("c2", DeviceType::Camera), false);
    let cams = reg.get_devices_by_type(DeviceType::Camera);
    let mut ids: Vec<String> = cams.iter().map(|d| d.info.id.clone()).collect();
    ids.sort();
    assert_eq!(ids, vec!["c1".to_string(), "c2".to_string()]);
    assert!(reg.get_devices_by_type(DeviceType::Dome).is_empty());
}

#[test]
fn heartbeat_flags_and_health() {
    let mut reg = DeviceRegistry::new();
    reg.register_device(info("a", DeviceType::Camera), false);
    reg.register_device(info("b", DeviceType::Mount), false);
    assert_eq!(reg.get_device_health_at("a", 1_000), Ok((0, false)));
    let (t, drv) = reg.start_heartbeat_at("a", 10_000).unwrap();
    assert_eq!(t, DeviceType::Camera);
    assert_eq!(drv, DriverType::Alpaca);
    assert!(reg.is_heartbeat_active("a"));
    assert_eq!(reg.get_device_health_at("a", 39_999), Ok((10_000, true)));
    assert_eq!(reg.get_device_health_at("a", 40_000), Ok((10_000, false)));
    reg.record_communication_at("a", 35_000);
    assert_eq!(reg.get_device_health_at("a", 40_000), Ok((35_000, true)));
    reg.start_heartbeat_at("b", 1).unwrap();
    reg.stop_heartbeat("a");
    assert!(!reg.is_heartbeat_active("a"));
    assert!(reg.is_heartbeat_active("b"));
    reg.stop_all_heartbeats();
    assert!(!reg.is_heartbeat_active("b"));
    assert_eq!(reg.start_heartbeat_at("zz", 0).unwrap_err(), "Device zz not found");
    assert_eq!(reg.get_device_health_at("zz", 0).unwrap_err(), "Device zz not found");
}

#[test]
fn clock_based_updates_use_the_current_time() {
    let mut reg = DeviceRegistry::new();
    reg.register_device(info("a", DeviceType::Camera), false);
    reg.update_device_communication("a");
    let t = reg.get_device("a").unwrap().last_successful_comm.unwrap();
    // 2020-01-01 in milliseconds since the epoch
    assert!(t > 1_577_836_800_000);
    let (last, healthy) = reg.get_device_health("a").unwrap();
    assert_eq!(last, t);
    assert!(healthy);
    reg.start_heartbeat("a").unwrap();
    assert!(reg.is_heartbeat_active("a"));
}

#[test]
fn auto_reconnect_switch_controls_reconnection() {
    let mut reg = DeviceRegistry::new();
    reg.register_device(info("dev", DeviceType::Focuser), false);
    reg.report_error("dev", "lost".to_string());
    assert!(reg.devices_to_reconnect(10).is_empty());
    reg.set_auto_reconnect("dev", true);
    assert!(reg.get_device("dev").unwrap().auto_reconnect);
    assert_eq!(reg.devices_to_reconnect(10).len(), 1);
    reg.set_auto_reconnect("missing", true);
    assert!(!reg.is_device_registered("missing"));
}

#[test]
fn heartbeat_with_the_wall_clock() {
    let mut reg = DeviceRegistry::new();
    reg.register_device(info("clock", DeviceType::Mount), true);
    let (t, drv) = reg.start_heartbeat("clock").unwrap();
    assert_eq!(t, DeviceType::Mount);
    assert_eq!(drv, DriverType::Alpaca);
    assert!(reg.is_heartbeat_active("clock"));
    let (last, healthy) = reg.get_device_health("clock").unwrap();
    assert!(last > 1_600_000_000_000);
    assert!(healthy);
    reg.update_device_communication("clock");
    let (later, _) = reg.get_device_health("clock").unwrap();
    assert!(later >= last);
    assert!(reg.start_heartbeat("missing").is_err());
    assert!(reg.get_device_health("missing").is_err());
}
