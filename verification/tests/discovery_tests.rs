use nightshade_bridge::device::{DeviceInfo, DeviceType, DriverType};
use nightshade_bridge::discovery::{
    alpaca_cached_device_type, alpaca_device_type, alpaca_supports, ascom_device_info,
    ascom_driver_is_filtered, ascom_lowered_is_filtered, ascom_supports, assemble_discovery,
    cached_results, find_device_by_id, first_id_of_type, indi_client_device_info,
    indi_device_type, indi_known_device_info, indi_server_device_info, indi_type_from_names,
    native_discovery_covers, not_found_during_discovery, phd2_connected_device_info,
    phd2_endpoint, polar_alignment_devices, AlpacaDeviceKind, DiscoveryCache, IndiDeviceKind,
    PolarStartError, NativeFound, connected_devices,
};

fn dev(id: &str, t: DeviceType, drv: DriverType) -> DeviceInfo {
    DeviceInfo {
        id: id.to_string(),
        name: id.to_string(),
        device_type: t,
        driver_type: drv,
        description: String::new(),
        driver_version: String::new(),
        serial_number: None,
        unique_id: None,
        display_name: id.to_string(),
    }
}

#[test]
fn ascom_simulators_and_tools_are_filtered() {
    assert!(ascom_driver_is_filtered("ASCOM.Simulator.Camera", "Camera V3 simulator"));
    assert!(ascom_driver_is_filtered("CCDSimulator.Camera", "CCD"));
    assert!(ascom_driver_is_filtered("ScopeSim.Telescope", "Scope"));
    assert!(ascom_driver_is_filtered("ASCOM.OmniSim.Focuser", "Focuser"));
    assert!(ascom_driver_is_filtered("FocusSim", "x"));
    assert!(ascom_driver_is_filtered("ASCOM.Hub.Telescope", "Hub"));
    assert!(ascom_driver_is_filtered("POTH.Telescope", "POTH"));
    assert!(ascom_driver_is_filtered("Pipe.Dome", "Pipe"));
    assert!(ascom_driver_is_filtered("Vendor.Cam", "SIMULATOR"));
    assert!(!ascom_driver_is_filtered("ASCOM.ASICamera2.Camera", "ZWO ASI Camera"));
    assert!(!ascom_driver_is_filtered("ASCOM.EQMOD.Telescope", "EQMOD ASCOM HEQ5/6"));
    // already lowered text: upper case letters are not matched
    assert!(!ascom_lowered_is_filtered("ASCOM.SIMULATOR.CAMERA", "x"));
}

#[test]
fn indi_names_give_types() {
    assert_eq!(indi_type_from_names("ccd simulator", ""), Some(DeviceType::Camera));
    assert_eq!(indi_type_from_names("EQMod Mount", "indi_eqmod_telescope"), Some(DeviceType::Mount));
    assert_eq!(indi_type_from_names("Moonlite", "indi_moonlite_focuser"), Some(DeviceType::Focuser));
    assert_eq!(indi_type_from_names("EFW", "indi_asi_wheel"), Some(DeviceType::FilterWheel));
    assert_eq!(indi_type_from_names("Falcon Rotator", ""), Some(DeviceType::Rotator));
    assert_eq!(indi_type_from_names("GPS", "indi_gpsd"), None);
    // a name mentioning both a camera and a mount is a camera
    assert_eq!(indi_type_from_names("Camera mount", ""), Some(DeviceType::Camera));
}

#[test]
fn backend_kind_maps() {
    assert_eq!(alpaca_device_type(AlpacaDeviceKind::Telescope), DeviceType::Mount);
    assert_eq!(alpaca_device_type(AlpacaDeviceKind::ObservingConditions), DeviceType::Weather);
    assert_eq!(alpaca_device_type(AlpacaDeviceKind::Switch), DeviceType::Switch);
    assert_eq!(alpaca_cached_device_type(AlpacaDeviceKind::Switch), None);
    assert_eq!(alpaca_cached_device_type(AlpacaDeviceKind::Dome), Some(DeviceType::Dome));
    assert_eq!(indi_device_type(IndiDeviceKind::Telescope), Some(DeviceType::Mount));
    assert_eq!(indi_device_type(IndiDeviceKind::Unknown), None);
    assert!(native_discovery_covers(DeviceType::Rotator));
    assert!(!native_discovery_covers(DeviceType::Dome));
    assert!(alpaca_supports(DeviceType::Switch));
    assert!(!alpaca_supports(DeviceType::Guider));
    assert!(!ascom_supports(DeviceType::Switch));
    assert!(ascom_supports(DeviceType::CoverCalibrator));
}

#[test]
fn device_listings() {
    let a = ascom_device_info("ASCOM.ASICamera2.Camera", "ZWO", "desc".to_string(), DeviceType::Camera);
    assert_eq!(a.id, "ascom:ASCOM.ASICamera2.Camera");
    assert_eq!(a.driver_version, "ASCOM");
    let s = indi_server_device_info("localhost", 7624, "CCD Simulator", IndiDeviceKind::Camera).unwrap();
    assert_eq!(s.id, "indi:localhost:7624:CCD Simulator");
    assert_eq!(s.description, "INDI device at localhost:7624");
    assert!(indi_server_device_info("localhost", 7624, "GPS", IndiDeviceKind::Unknown).is_none());
    let c = indi_client_device_info("pi", 7625, "GPS", "indi_gpsd");
    assert_eq!(c.device_type, DeviceType::Camera);
    assert_eq!(c.description, "INDI device on pi:7625");
    let k = indi_known_device_info("pi:7624", "Moonlite", "focuser").unwrap();
    assert_eq!(k.id, "indi:pi:7624:Moonlite");
    assert_eq!(k.description, "INDI device on pi:7624");
    assert_eq!(k.device_type, DeviceType::Focuser);
    assert!(indi_known_device_info("pi:7624", "GPS", "indi_gpsd").is_none());
}

#[test]
fn discovery_cache_expires_after_a_minute() {
    let cache = Some(DiscoveryCache {
        ascom_devices: vec![dev("ascom:a", DeviceType::Camera, DriverType::Ascom)],
        alpaca_devices: vec![],
        stored_at_ms: 1_000,
    });
    let (a, b) = cached_results(&cache, 60_999).unwrap();
    assert_eq!(a.len(), 1);
    assert!(b.is_empty());
    assert!(cached_results(&cache, 61_000).is_none());
    assert!(cached_results(&None, 0).is_none());
}

fn found(id: &str) -> NativeFound {
    NativeFound {
        id: id.to_string(),
        name: "ASI294".to_string(),
        vendor_name: "ZWO".to_string(),
        sdk_version: None,
        serial_number: Some("SN1".to_string()),
        display_name: "ZWO ASI294".to_string(),
    }
}

#[test]
fn assembled_discovery_order() {
    let ascom = vec![dev("ascom:c", DeviceType::Camera, DriverType::Ascom), dev("ascom:m", DeviceType::Mount, DriverType::Ascom)];
    let alpaca = vec![dev("alpaca:c", DeviceType::Camera, DriverType::Alpaca)];
    let native = vec![found("native:zwo:0")];
    let indi = vec![dev("indi:h:1:m", DeviceType::Mount, DriverType::Indi), dev("indi:h:1:c", DeviceType::Camera, DriverType::Indi)];
    let r = assemble_discovery(DeviceType::Camera, &ascom, &alpaca, native, &indi, true, true);
    let ids: Vec<&str> = r.iter().map(|d| d.id.as_str()).collect();
    assert_eq!(ids, vec!["ascom:c", "alpaca:c", "native:zwo:0", "indi:h:1:c", "sim_camera_1"]);
    assert_eq!(r[4].serial_number.as_deref(), Some("SIM-123"));
    assert!(r.iter().all(|d| d.device_type == DeviceType::Camera));
    assert_eq!(r[2].driver_type, DriverType::Native);
    assert_eq!(r[2].description, "ZWO native driver");
    assert_eq!(r[2].driver_version, "Native");
    assert_eq!(r[2].serial_number.as_deref(), Some("SN1"));
    let w = assemble_discovery(DeviceType::Weather, &ascom, &alpaca, vec![found("native:x:1")], &indi, true, true);
    assert!(w.is_empty());
    let g = assemble_discovery(DeviceType::Guider, &ascom, &alpaca, vec![], &indi, false, true);
    assert_eq!(g.len(), 1);
    assert_eq!(g[0].id, "phd2_guider");
    assert_eq!(g[0].description, "PHD2 Guiding (Installed)");
    let g2 = assemble_discovery(DeviceType::Guider, &ascom, &alpaca, vec![], &indi, true, false);
    assert_eq!(g2[0].description, "PHD2 Guiding (Running)");
    assert!(assemble_discovery(DeviceType::Guider, &ascom, &alpaca, vec![], &indi, false, false).is_empty());
}

#[test]
fn connect_helpers() {
    let list = vec![dev("a", DeviceType::Mount, DriverType::Indi), dev("b", DeviceType::Camera, DriverType::Indi), dev("c", DeviceType::Camera, DriverType::Indi)];
    assert_eq!(find_device_by_id(&list, "b").unwrap().id, "b");
    assert!(find_device_by_id(&list, "z").is_none());
    assert_eq!(not_found_during_discovery("z"), "Device z not found during discovery");
    assert_eq!(first_id_of_type(&list, DeviceType::Camera), Some("b".to_string()));
    assert_eq!(polar_alignment_devices(false, &list).unwrap(), ("b".to_string(), "a".to_string()));
    assert_eq!(polar_alignment_devices(true, &list).unwrap_err(), PolarStartError::AlreadyRunning);
    assert_eq!(polar_alignment_devices(false, &vec![]).unwrap_err(), PolarStartError::NoCamera);
    assert_eq!(polar_alignment_devices(false, &list[1..].to_vec()).unwrap_err(), PolarStartError::NoMount);
}

#[test]
fn phd2_helpers() {
    let (h, p) = phd2_endpoint(None, None);
    assert_eq!((h.as_str(), p), ("127.0.0.1", 4400));
    let (h, p) = phd2_endpoint(Some("guide-pc".to_string()), Some(4401));
    assert_eq!((h.as_str(), p), ("guide-pc", 4401));
    let d = phd2_connected_device_info("127.0.0.1", 4400);
    assert_eq!(d.description, "PHD2 Guiding at 127.0.0.1:4400");
    assert_eq!(d.name, "PHD2");
    assert_eq!(d.display_name, "PHD2 Guiding");
}

#[test]
fn connected_listing_groups_by_type() {
    let all = vec![
        dev("sw", DeviceType::Switch, DriverType::Alpaca),
        dev("m", DeviceType::Mount, DriverType::Alpaca),
        dev("c1", DeviceType::Camera, DriverType::Alpaca),
        dev("w", DeviceType::Weather, DriverType::Alpaca),
        dev("c2", DeviceType::Camera, DriverType::Alpaca),
    ];
    let ids: Vec<String> = connected_devices(&all).into_iter().map(|d| d.id).collect();
    assert_eq!(ids, vec!["c1", "c2", "m", "w", "sw"]);
    let more = vec![
        dev("cc", DeviceType::CoverCalibrator, DriverType::Alpaca),
        dev("sm", DeviceType::SafetyMonitor, DriverType::Alpaca),
        dev("sw", DeviceType::Switch, DriverType::Alpaca),
    ];
    let ids: Vec<String> = connected_devices(&more).into_iter().map(|d| d.id).collect();
    assert_eq!(ids, vec!["sm", "sw", "cc"]);
}
