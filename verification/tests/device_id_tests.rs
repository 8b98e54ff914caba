use nightshade_bridge::device::DeviceType;
use nightshade_bridge::device_id::{
    ascom_prog_id, indi_client_key, indi_device_id, indi_server_key, is_simulator_id,
    parse_alpaca_connection_id, parse_alpaca_id, parse_indi_device_id,
};
use nightshade_bridge::native::{plan_native_connection, NativeDriver};

#[test]
fn simulator_ids() {
    assert!(is_simulator_id("sim_camera_1"));
    assert!(!is_simulator_id("ascom:sim_camera"));
    assert!(!is_simulator_id("sim"));
}

#[test]
fn ascom_ids() {
    assert_eq!(ascom_prog_id("ascom:ASCOM.Simulator.Camera").unwrap(), "ASCOM.Simulator.Camera");
    assert_eq!(ascom_prog_id("alpaca:x").unwrap_err(), "Invalid ASCOM device ID");
    assert_eq!(ascom_prog_id("ascom:").unwrap(), "");
}

#[test]
fn alpaca_connection_ids() {
    assert_eq!(parse_alpaca_connection_id("alpaca:host:camera:3").unwrap(), ("host".to_string(), 3));
    assert_eq!(parse_alpaca_connection_id("alpaca:host:camera:+7").unwrap(), ("host".to_string(), 7));
    assert_eq!(parse_alpaca_connection_id("ascom:host:camera:3").unwrap_err(), "Invalid Alpaca device ID");
    assert_eq!(parse_alpaca_connection_id("alpaca:host:camera").unwrap_err(), "Invalid Alpaca device ID format");
    // the third part runs to the end, so a URL with a port does not give a number
    assert_eq!(
        parse_alpaca_connection_id("alpaca:http://10.0.0.2:11111:camera:0").unwrap_err(),
        "Invalid device number"
    );
    assert_eq!(parse_alpaca_connection_id("alpaca:h:c:4294967296").unwrap_err(), "Invalid device number");
    assert_eq!(parse_alpaca_connection_id("alpaca:h:c:4294967295").unwrap(), ("h".to_string(), 4294967295));
}

#[test]
fn alpaca_table_ids() {
    assert_eq!(
        parse_alpaca_id("alpaca:http://10.0.0.2:11111:camera:0"),
        Some(("http://10.0.0.2:11111".to_string(), "camera".to_string(), 0))
    );
    assert_eq!(parse_alpaca_id("alpaca:camera:0"), None);
    assert_eq!(parse_alpaca_id("alpaca:u:camera:x"), None);
    assert_eq!(parse_alpaca_id("indi:u:camera:1"), None);
}

#[test]
fn indi_ids() {
    let a = parse_indi_device_id("indi:localhost:7624:ZWO CCD ASI294MC Pro").unwrap();
    assert_eq!(a.host, "localhost");
    assert_eq!(a.port, 7624);
    assert_eq!(a.device_name, "ZWO CCD ASI294MC Pro");
    let b = parse_indi_device_id("indi:pi:7624:Telescope: EQMod").unwrap();
    assert_eq!(b.device_name, "Telescope: EQMod");
    assert_eq!(
        parse_indi_device_id("indi:localhost:7624").unwrap_err(),
        "Invalid INDI device ID format. Expected: indi:host:port:device_name"
    );
    assert_eq!(parse_indi_device_id("indi:localhost:70000:x").unwrap_err(), "Invalid port number");
    assert_eq!(parse_indi_device_id("indi:localhost:-1:x").unwrap_err(), "Invalid port number");
}

#[test]
fn indi_keys_and_ids() {
    assert_eq!(indi_server_key("localhost", 7624), "localhost:7624");
    assert_eq!(indi_client_key("indi:localhost:7624:CCD"), Some("localhost:7624".to_string()));
    assert_eq!(indi_client_key("indi:localhost:07624:CCD"), Some("localhost:07624".to_string()));
    assert_eq!(indi_client_key("alpaca:localhost:7624:CCD"), None);
    assert_eq!(indi_client_key("indi:localhost:7624"), None);
    assert_eq!(indi_device_id("pi", 7624, "EQMod Mount"), "indi:pi:7624:EQMod Mount");
}

#[test]
fn native_camera_plans() {
    assert!(matches!(plan_native_connection(DeviceType::Camera, "native:zwo:0"), Ok(NativeDriver::ZwoCamera(0))));
    assert!(matches!(plan_native_connection(DeviceType::Camera, "native:player_one:-2"), Ok(NativeDriver::PlayerOneCamera(-2))));
    match plan_native_connection(DeviceType::Camera, "native:qhy:QHY268M-abc") {
        Ok(NativeDriver::QhyCamera(s)) => assert_eq!(s, "QHY268M-abc"),
        other => panic!("unexpected {:?}", other),
    }
    assert!(matches!(plan_native_connection(DeviceType::Camera, "native:touptek:3"), Ok(NativeDriver::TouptekCamera(3))));
    assert!(matches!(plan_native_connection(DeviceType::Camera, "native:moravian:12"), Ok(NativeDriver::MoravianCamera(12))));
    assert_eq!(plan_native_connection(DeviceType::Camera, "native:zwo:abc").unwrap_err(), "Invalid ZWO camera ID");
    assert_eq!(plan_native_connection(DeviceType::Camera, "native:svbony:").unwrap_err(), "Invalid SVBony camera ID");
    assert_eq!(plan_native_connection(DeviceType::Camera, "native:atik:x").unwrap_err(), "Invalid Atik camera ID");
    assert_eq!(plan_native_connection(DeviceType::Camera, "native:touptek:-1").unwrap_err(), "Invalid Touptek camera ID");
    assert_eq!(plan_native_connection(DeviceType::Camera, "native:moravian:z").unwrap_err(), "Invalid Moravian camera ID");
    assert_eq!(plan_native_connection(DeviceType::Camera, "native:acme:1").unwrap_err(), "Unknown native camera vendor: acme");
    assert_eq!(plan_native_connection(DeviceType::Camera, "native:zwo").unwrap_err(), "Invalid native device ID format");
}

#[test]
fn native_other_plans() {
    assert!(matches!(plan_native_connection(DeviceType::Focuser, "native:zwo:1"), Ok(NativeDriver::ZwoFocuser(1))));
    assert_eq!(plan_native_connection(DeviceType::Focuser, "native:zwo:q").unwrap_err(), "Invalid ZWO focuser ID");
    assert_eq!(plan_native_connection(DeviceType::Focuser, "native:qhy:1").unwrap_err(), "Unknown native focuser vendor: qhy");
    assert!(matches!(plan_native_connection(DeviceType::FilterWheel, "native:zwo:2"), Ok(NativeDriver::ZwoFilterWheel(2))));
    assert_eq!(plan_native_connection(DeviceType::FilterWheel, "native:zwo:").unwrap_err(), "Invalid ZWO filter wheel ID");
    match plan_native_connection(DeviceType::FilterWheel, "native:fli_fw:/dev/fliusb0") {
        Ok(NativeDriver::FliFilterWheel(s)) => assert_eq!(s, "/dev/fliusb0"),
        other => panic!("unexpected {:?}", other),
    }
    assert_eq!(plan_native_connection(DeviceType::FilterWheel, "native:x:1").unwrap_err(), "Unknown native filter wheel vendor: x");
    match plan_native_connection(DeviceType::Mount, "native:pegasus:COM3") {
        Ok(NativeDriver::OnStepMount(s)) => assert_eq!(s, "COM3"),
        other => panic!("unexpected {:?}", other),
    }
    assert!(matches!(plan_native_connection(DeviceType::Mount, "native:lx200:COM4"), Ok(NativeDriver::MeadeMount(_))));
    assert!(matches!(plan_native_connection(DeviceType::Mount, "native:10micron:COM5"), Ok(NativeDriver::TenMicronMount(_))));
    assert_eq!(plan_native_connection(DeviceType::Mount, "native:celestron:COM1").unwrap_err(), "Unknown native mount vendor: celestron");
    assert!(matches!(plan_native_connection(DeviceType::Rotator, "native:zwo:4"), Ok(NativeDriver::ZwoCamera(4))));
    assert_eq!(plan_native_connection(DeviceType::Rotator, "native:acme:4").unwrap_err(), "Unknown native vendor: acme");
}

#[test]
fn built_ids_read_back() {
    let id = indi_device_id("observatory.local", 7624, "Atik: 383L");
    assert_eq!(id, "indi:observatory.local:7624:Atik: 383L");
    let a = parse_indi_device_id(&id).unwrap();
    assert_eq!(a.host, "observatory.local");
    assert_eq!(a.port, 7624);
    assert_eq!(a.device_name, "Atik: 383L");
    assert_eq!(indi_client_key(&id), Some("observatory.local:7624".to_string()));
    let alpaca = format!("alpaca:{}:{}:{}", "http://192.168.1.5:11111", "telescope", 4294967295u32);
    assert_eq!(
        parse_alpaca_id(&alpaca),
        Some(("http://192.168.1.5:11111".to_string(), "telescope".to_string(), 4294967295))
    );
}
