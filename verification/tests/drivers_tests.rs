use nightshade_bridge::drivers::{ascom_shutter_state, ShutterState};
use nightshade_bridge::device::CameraConnectionHealth;
use nightshade_bridge::drivers::{
    ascom_camera_state, ascom_guide_direction_code, camera_health_after_heartbeat, check_binning,
    classify_reply, classify_text_reply, filter_wheel_moving, i32_string, is_valid_guide_direction,
    parse_guide_direction, pier_side_from_ascom, tracking_rate_code, tracking_rate_from_ascom,
    tracking_rate_request, AscomConnectionHealth, CameraState, DriverError, GuideDirection,
    PierSide, ReplyOutcome, TrackingRate,
};

#[test]
fn camera_state_codes() {
    assert_eq!(ascom_camera_state(None), CameraState::Idle);
    assert_eq!(ascom_camera_state(Some(1)), CameraState::Idle);
    assert_eq!(ascom_camera_state(Some(2)), CameraState::Exposing);
    assert_eq!(ascom_camera_state(Some(3)), CameraState::Reading);
    assert_eq!(ascom_camera_state(Some(4)), CameraState::Downloading);
    assert_eq!(ascom_camera_state(Some(5)), CameraState::Error);
    assert_eq!(ascom_camera_state(Some(9)), CameraState::Idle);
}

#[test]
fn heartbeat_health() {
    assert_eq!(camera_health_after_heartbeat(&Ok(AscomConnectionHealth::Failed)), CameraConnectionHealth::Failed);
    assert_eq!(camera_health_after_heartbeat(&Ok(AscomConnectionHealth::Healthy)), CameraConnectionHealth::Healthy);
    assert_eq!(camera_health_after_heartbeat(&Err("COM".to_string())), CameraConnectionHealth::Degraded);
}

#[test]
fn binning_limits() {
    assert!(check_binning(2, 2, Some(4), Some(4)).is_ok());
    assert_eq!(check_binning(3, 1, Some(2), Some(2)).unwrap_err(), "Binning 3x1 exceeds max 2x2");
    assert_eq!(check_binning(2, 2, None, None).unwrap_err(), "Binning 2x2 exceeds max 1x1");
    assert_eq!(i32_string(-2147483648), "-2147483648");
}

#[test]
fn guide_directions() {
    assert_eq!(parse_guide_direction("North").unwrap(), GuideDirection::North);
    assert_eq!(parse_guide_direction("S").unwrap(), GuideDirection::South);
    assert_eq!(parse_guide_direction("e").unwrap(), GuideDirection::East);
    assert_eq!(parse_guide_direction("WEST").unwrap(), GuideDirection::West);
    assert_eq!(parse_guide_direction("up").unwrap_err(), "Invalid direction: up");
    assert!(is_valid_guide_direction("NoRtH"));
    assert!(!is_valid_guide_direction("northwest"));
    assert_eq!(ascom_guide_direction_code(GuideDirection::West), 3);
}

#[test]
fn tracking_rates_and_pier() {
    assert_eq!(tracking_rate_code(TrackingRate::King), Some(3));
    assert_eq!(tracking_rate_code(TrackingRate::Custom), None);
    assert_eq!(tracking_rate_from_ascom(1), TrackingRate::Lunar);
    assert_eq!(tracking_rate_from_ascom(7), TrackingRate::Custom);
    assert_eq!(tracking_rate_request(4).unwrap(), TrackingRate::Custom);
    assert_eq!(tracking_rate_request(-1).unwrap_err(), "Invalid tracking rate: -1");
    assert_eq!(pier_side_from_ascom(0), PierSide::East);
    assert_eq!(pier_side_from_ascom(1), PierSide::West);
    assert_eq!(pier_side_from_ascom(-1), PierSide::Unknown);
    assert!(filter_wheel_moving(&Ok(-1)));
    assert!(!filter_wheel_moving(&Ok(2)));
    assert!(!filter_wheel_moving(&Err("x".to_string())));
}

#[test]
fn worker_replies() {
    assert_eq!(classify_reply(ReplyOutcome::Replied(Ok(5)), "Camera", "get_gain", 5000), Ok(5));
    assert_eq!(
        classify_reply::<i32>(ReplyOutcome::Replied(Err("bad".to_string())), "Camera", "get_gain", 5000),
        Err(DriverError::Sdk("bad".to_string()))
    );
    assert_eq!(
        classify_reply::<i32>(ReplyOutcome::WorkerGone, "Camera", "connect", 30000),
        Err(DriverError::Unknown("Worker thread dead during connect".to_string()))
    );
    assert_eq!(
        classify_reply::<i32>(ReplyOutcome::TimedOut, "Camera", "connect", 30000),
        Err(DriverError::Timeout("Camera connect timed out after 30s".to_string()))
    );
    assert_eq!(
        classify_text_reply::<i32>(ReplyOutcome::TimedOut, "Dome", "park", 1500),
        Err("Dome park timed out after 1.5s".to_string())
    );
    assert_eq!(classify_text_reply(ReplyOutcome::Replied(Err::<i32, String>("x".to_string())), "Dome", "park", 1), Err("x".to_string()));
}

#[test]
fn shutter_state_codes() {
    assert_eq!(ascom_shutter_state(Some(0)), ShutterState::Open);
    assert_eq!(ascom_shutter_state(Some(1)), ShutterState::Closed);
    assert_eq!(ascom_shutter_state(Some(2)), ShutterState::Opening);
    assert_eq!(ascom_shutter_state(Some(3)), ShutterState::Closing);
    assert_eq!(ascom_shutter_state(Some(4)), ShutterState::Error);
    assert_eq!(ascom_shutter_state(Some(7)), ShutterState::Unknown);
    assert_eq!(ascom_shutter_state(None), ShutterState::Error);
}
