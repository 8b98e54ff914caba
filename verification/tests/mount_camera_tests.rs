use nightshade_bridge::drivers::{
    ascom_camera_status, check_subframe, park_permission, plan_pulse_guide, CameraState,
    PulseGuidePlan,
};

#[test]
fn pulse_guide_plans() {
    assert_eq!(plan_pulse_guide("sim_mount", "up".to_string(), 100).err().unwrap(), "Unknown direction: up");
    match plan_pulse_guide("sim_mount", "North".to_string(), 250).unwrap() {
        PulseGuidePlan::SimulatorWait { wait_ms } => assert_eq!(wait_ms, 250),
        _ => panic!("expected a simulator wait"),
    }
    match plan_pulse_guide("ascom:EQMOD.Telescope", "W".to_string(), 500).unwrap() {
        PulseGuidePlan::Device { direction, duration_ms } => {
            assert_eq!(direction, "W");
            assert_eq!(duration_ms, 500);
        }
        _ => panic!("expected a device request"),
    }
    match plan_pulse_guide("sim_mount", "s".to_string(), -1).unwrap() {
        PulseGuidePlan::SimulatorWait { wait_ms } => assert_eq!(wait_ms, u64::MAX),
        _ => panic!("expected a simulator wait"),
    }
}

#[test]
fn camera_status_defaults() {
    let s = ascom_camera_status(None, None, None, None, None, None, None);
    assert_eq!(s.state, CameraState::Idle);
    assert!(!s.cooler_on);
    assert_eq!((s.gain, s.offset, s.bin_x, s.bin_y), (0, 0, 1, 1));
    assert!(!s.reports_target_temp);
    let t = ascom_camera_status(Some(2), Some(true), Some(120), Some(30), Some(2), Some(2), Some(true));
    assert_eq!(t.state, CameraState::Exposing);
    assert!(t.cooler_on);
    assert_eq!((t.gain, t.offset, t.bin_x, t.bin_y), (120, 30, 2, 2));
    assert!(t.reports_target_temp);
}

#[test]
fn subframe_and_park_checks() {
    assert!(check_subframe(0, 0, 4144, 2822, Some(4144), Some(2822)).is_ok());
    assert_eq!(check_subframe(10, 0, 4144, 100, Some(4144), Some(2822)).unwrap_err(), "Subframe exceeds sensor bounds");
    assert!(check_subframe(0, 0, 2, 1, None, None).is_err());
    assert!(check_subframe(0, 0, 1, 1, None, None).is_ok());
    assert!(park_permission(Ok(true)).is_ok());
    assert_eq!(park_permission(Ok(false)).unwrap_err(), "Mount does not support Park");
    assert_eq!(park_permission(Err("COM error".to_string())).unwrap_err(), "Failed to check CanPark: COM error");
}
