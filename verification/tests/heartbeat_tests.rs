use nightshade_bridge::device::{DeviceType, DriverType};
use nightshade_bridge::heartbeat::{
    check_is_healthy, get_heartbeat_config, health_check_for_driver, heartbeat_config_for_interval,
    heartbeat_step, initial_monitor,
    HeartbeatAction,
};

#[test]
fn configs_per_device_type() {
    let c = get_heartbeat_config(DeviceType::Camera);
    assert_eq!((c.base_interval_ms, c.max_interval_ms, c.failure_threshold, c.backoff_percent), (10_000, 60_000, 3, 200));
    let m = get_heartbeat_config(DeviceType::Mount);
    assert_eq!((m.base_interval_ms, m.max_interval_ms, m.failure_threshold, m.backoff_percent), (5_000, 30_000, 2, 150));
    let f = get_heartbeat_config(DeviceType::Focuser);
    assert_eq!((f.base_interval_ms, f.max_interval_ms, f.failure_threshold), (15_000, 60_000, 3));
    let w = get_heartbeat_config(DeviceType::FilterWheel);
    assert_eq!((w.base_interval_ms, w.max_interval_ms, w.failure_threshold), (20_000, 120_000, 3));
    let d = get_heartbeat_config(DeviceType::Dome);
    assert_eq!((d.base_interval_ms, d.max_interval_ms, d.failure_threshold, d.backoff_percent), (10_000, 60_000, 3, 200));
}

#[test]
fn mount_backs_off_by_half_and_disconnects_after_two_failures() {
    let cfg = get_heartbeat_config(DeviceType::Mount);
    let m0 = initial_monitor(cfg);
    assert_eq!(m0.interval_us, 5_000_000);
    let (m1, a1) = heartbeat_step(cfg, m0, false);
    assert_eq!(a1, HeartbeatAction::Continue);
    assert_eq!(m1.interval_us, 7_500_000);
    assert_eq!(m1.consecutive_failures, 1);
    let (m2, a2) = heartbeat_step(cfg, m1, false);
    assert_eq!(m2.interval_us, 11_250_000);
    assert_eq!(a2, HeartbeatAction::MarkDisconnected { failures: 2 });
}

#[test]
fn camera_interval_is_capped_at_max() {
    let cfg = get_heartbeat_config(DeviceType::Camera);
    let mut m = initial_monitor(cfg);
    let mut intervals = vec![];
    for _ in 0..2 {
        let (n, a) = heartbeat_step(cfg, m, false);
        assert_eq!(a, HeartbeatAction::Continue);
        intervals.push(n.interval_us);
        m = n;
    }
    let (n, a) = heartbeat_step(cfg, m, false);
    intervals.push(n.interval_us);
    assert_eq!(intervals, vec![20_000_000, 40_000_000, 60_000_000]);
    assert_eq!(a, HeartbeatAction::MarkDisconnected { failures: 3 });
}

#[test]
fn success_resets_failures_and_interval() {
    let cfg = get_heartbeat_config(DeviceType::Focuser);
    let (m1, _) = heartbeat_step(cfg, initial_monitor(cfg), false);
    assert_eq!(m1.interval_us, 30_000_000);
    let (m2, a2) = heartbeat_step(cfg, m1, true);
    assert_eq!(a2, HeartbeatAction::Continue);
    assert_eq!(m2, initial_monitor(cfg));
    assert_eq!(m2.consecutive_failures, 0);
}

#[test]
fn simulator_health_checks_fail() {
    let r = health_check_for_driver(DriverType::Simulator);
    assert_eq!(
        r.clone().unwrap_err(),
        "Simulator devices are disabled. Connect real hardware or use INDI/ASCOM/Alpaca simulators for testing."
    );
    assert!(!check_is_healthy(&r));
    for d in [DriverType::Alpaca, DriverType::Ascom, DriverType::Indi, DriverType::Native] {
        let r = health_check_for_driver(d);
        assert_eq!(r, Ok(true));
        assert!(check_is_healthy(&r));
    }
    assert!(!check_is_healthy(&Ok(false)));
}

#[test]
fn requested_interval_is_the_check_period() {
    let c = heartbeat_config_for_interval(DeviceType::Camera, 2_500);
    assert_eq!((c.base_interval_ms, c.max_interval_ms, c.failure_threshold, c.backoff_percent), (2_500, 60_000, 3, 200));
    let m0 = initial_monitor(c);
    assert_eq!(m0.interval_us, 2_500_000);
    let (m1, _) = heartbeat_step(c, m0, false);
    assert_eq!(m1.interval_us, 5_000_000);
    let (m2, a) = heartbeat_step(c, m1, true);
    assert_eq!(m2.interval_us, 2_500_000);
    assert_eq!(a, HeartbeatAction::Continue);
    let long = heartbeat_config_for_interval(DeviceType::Mount, 90_000);
    assert_eq!((long.base_interval_ms, long.max_interval_ms), (90_000, 90_000));
}
