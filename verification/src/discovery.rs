//! Device discovery: which drivers are listed, how backend device kinds map to
//! device types, the discovery cache and the assembled discovery result.
use vstd::prelude::*;

use crate::case::{lowercase_of, to_lowercase, to_uppercase, uppercase_of};
use crate::device::{copy_infos, DeviceInfo, DeviceType, DriverType};
use crate::device_id::indi_device_id;
use crate::text::{
    chars_of, concat2, decimal_text, has_infix, has_prefix, has_suffix, seq_contains, seq_ends_with,
    seq_starts_with, str_eq,
};

verus! {

// ---------------------------------------------------------------------------
// ASCOM driver listing
// ---------------------------------------------------------------------------

/// A lower-cased ASCOM driver is a simulator: its ProgID or name mentions a
/// simulator, or its ProgID follows one of the simulator naming patterns.
pub open spec fn ascom_is_simulator(prog_lower: Seq<char>, name_lower: Seq<char>) -> bool {
    ||| has_infix(prog_lower, "simulator"@)
    ||| has_infix(name_lower, "simulator"@)
    ||| has_infix(prog_lower, "sim."@)
    ||| has_suffix(prog_lower, "sim"@)
    ||| has_prefix(prog_lower, "ccdsim"@)
    ||| has_prefix(prog_lower, "scopesim"@)
    ||| has_prefix(prog_lower, "focussim"@)
    ||| has_prefix(prog_lower, "domesim"@)
    ||| has_prefix(prog_lower, "filterwheelsim"@)
    ||| name_lower == "simulator"@
}

/// A lower-cased ASCOM ProgID names a hub, pipe or POTH diagnostic tool.
pub open spec fn ascom_is_diagnostic(prog_lower: Seq<char>) -> bool {
    ||| has_infix(prog_lower, "hub."@)
    ||| has_infix(prog_lower, "pipe."@)
    ||| has_infix(prog_lower, "poth."@)
    ||| has_prefix(prog_lower, "hub."@)
    ||| has_prefix(prog_lower, "pipe."@)
    ||| has_prefix(prog_lower, "poth."@)
}

/// Whether an ASCOM driver, given by its lower-cased ProgID and name, is left
/// out of discovery.
pub fn ascom_lowered_is_filtered(prog_lower: &str, name_lower: &str) -> (r: bool)
    ensures
        r == (ascom_is_simulator(prog_lower@, name_lower@) || ascom_is_diagnostic(prog_lower@)),
{
    let p = chars_of(prog_lower);
    let n = chars_of(name_lower);
    let is_simulator = seq_contains(&p, &chars_of("simulator")) || seq_contains(
        &n,
        &chars_of("simulator"),
    ) || seq_contains(&p, &chars_of("sim.")) || seq_ends_with(&p, &chars_of("sim"))
        || seq_starts_with(&p, &chars_of("ccdsim")) || seq_starts_with(&p, &chars_of("scopesim"))
        || seq_starts_with(&p, &chars_of("focussim")) || seq_starts_with(&p, &chars_of("domesim"))
        || seq_starts_with(&p, &chars_of("filterwheelsim")) || str_eq(name_lower, "simulator");
    let is_diagnostic = seq_contains(&p, &chars_of("hub.")) || seq_contains(&p, &chars_of("pipe."))
        || seq_contains(&p, &chars_of("poth.")) || seq_starts_with(&p, &chars_of("hub."))
        || seq_starts_with(&p, &chars_of("pipe.")) || seq_starts_with(&p, &chars_of("poth."));
    is_simulator || is_diagnostic
}

/// Whether an ASCOM driver is left out of discovery: simulators and
/// diagnostic tools are not real devices.
pub fn ascom_driver_is_filtered(prog_id: &str, name: &str) -> (r: bool)
    ensures
        r == (ascom_is_simulator(lowercase_of(prog_id@), lowercase_of(name@))
            || ascom_is_diagnostic(lowercase_of(prog_id@))),
{
    let p = to_lowercase(prog_id);
    let n = to_lowercase(name);
    ascom_lowered_is_filtered(p.as_str(), n.as_str())
}

/// The description of a listed ASCOM driver.
pub fn ascom_device_info(prog_id: &str, name: &str, description: String, device_type: DeviceType) -> (r:
    DeviceInfo)
    ensures
        r.id@ == "ascom:"@ + prog_id@,
        r.name@ == name@,
        r.device_type == device_type,
        r.driver_type == DriverType::Ascom,
        r.description == description,
        r.driver_version@ == "ASCOM"@,
        r.serial_number is None,
        r.unique_id is None,
        r.display_name@ == name@,
{
    DeviceInfo {
        id: concat2("ascom:", prog_id),
        name: String::from_str(name),
        device_type,
        driver_type: DriverType::Ascom,
        description,
        driver_version: String::from_str("ASCOM"),
        serial_number: None,
        unique_id: None,
        display_name: String::from_str(name),
    }
}

// ---------------------------------------------------------------------------
// Backend device kinds
// ---------------------------------------------------------------------------

/// Device kinds as the Alpaca protocol names them.
#[derive(Debug, Clone, Copy, PartialEq, Eq, Structural)]
pub enum AlpacaDeviceKind {
    Camera,
    Telescope,
    Focuser,
    FilterWheel,
    Rotator,
    Dome,
    SafetyMonitor,
    ObservingConditions,
    Switch,
    CoverCalibrator,
}

pub open spec fn alpaca_device_type_spec(kind: AlpacaDeviceKind) -> DeviceType {
    match kind {
        AlpacaDeviceKind::Camera => DeviceType::Camera,
        AlpacaDeviceKind::Telescope => DeviceType::Mount,
        AlpacaDeviceKind::Focuser => DeviceType::Focuser,
        AlpacaDeviceKind::FilterWheel => DeviceType::FilterWheel,
        AlpacaDeviceKind::Rotator => DeviceType::Rotator,
        AlpacaDeviceKind::Dome => DeviceType::Dome,
        AlpacaDeviceKind::SafetyMonitor => DeviceType::SafetyMonitor,
        AlpacaDeviceKind::ObservingConditions => DeviceType::Weather,
        AlpacaDeviceKind::Switch => DeviceType::Switch,
        AlpacaDeviceKind::CoverCalibrator => DeviceType::CoverCalibrator,
    }
}

/// The device type of an Alpaca device kind (a telescope is a mount,
/// observing conditions are weather).
pub fn alpaca_device_type(kind: AlpacaDeviceKind) -> (r: DeviceType)
    ensures
        r == alpaca_device_type_spec(kind),
{
    match kind {
        AlpacaDeviceKind::Camera => DeviceType::Camera,
        AlpacaDeviceKind::Telescope => DeviceType::Mount,
        AlpacaDeviceKind::Focuser => DeviceType::Focuser,
        AlpacaDeviceKind::FilterWheel => DeviceType::FilterWheel,
        AlpacaDeviceKind::Rotator => DeviceType::Rotator,
        AlpacaDeviceKind::Dome => DeviceType::Dome,
        AlpacaDeviceKind::SafetyMonitor => DeviceType::SafetyMonitor,
        AlpacaDeviceKind::ObservingConditions => DeviceType::Weather,
        AlpacaDeviceKind::Switch => DeviceType::Switch,
        AlpacaDeviceKind::CoverCalibrator => DeviceType::CoverCalibrator,
    }
}

/// The device type under which the cached all-kinds discovery keeps an
/// Alpaca device; switches are not kept there.
pub fn alpaca_cached_device_type(kind: AlpacaDeviceKind) -> (r: Option<DeviceType>)
    ensures
        r == (if kind == AlpacaDeviceKind::Switch {
            None
        } else {
            Some(alpaca_device_type_spec(kind))
        }),
{
    match kind {
        AlpacaDeviceKind::Switch => None,
        _ => Some(alpaca_device_type(kind)),
    }
}

/// Whether the device manager can connect an Alpaca device of this type
/// (everything but a guider).
pub fn alpaca_supports(device_type: DeviceType) -> (r: bool)
    ensures
        r == (device_type != DeviceType::Guider),
{
    match device_type {
        DeviceType::Guider => false,
        _ => true,
    }
}

/// Whether the device manager can connect an ASCOM device of this type.
pub fn ascom_supports(device_type: DeviceType) -> (r: bool)
    ensures
        r == !(device_type == DeviceType::Guider || device_type == DeviceType::Switch),
{
    match device_type {
        DeviceType::Guider | DeviceType::Switch => false,
        _ => true,
    }
}

/// Device kinds as INDI servers report them.
#[derive(Debug, Clone, Copy, PartialEq, Eq, Structural)]
pub enum IndiDeviceKind {
    Camera,
    Telescope,
    Focuser,
    FilterWheel,
    Dome,
    Rotator,
    Guider,
    Weather,
    SafetyMonitor,
    CoverCalibrator,
    Unknown,
}

/// The device type of an INDI device kind; unknown kinds are not listed.
pub open spec fn indi_device_type_spec(kind: IndiDeviceKind) -> Option<DeviceType> {
    match kind {
        IndiDeviceKind::Camera => Some(DeviceType::Camera),
        IndiDeviceKind::Telescope => Some(DeviceType::Mount),
        IndiDeviceKind::Focuser => Some(DeviceType::Focuser),
        IndiDeviceKind::FilterWheel => Some(DeviceType::FilterWheel),
        IndiDeviceKind::Dome => Some(DeviceType::Dome),
        IndiDeviceKind::Rotator => Some(DeviceType::Rotator),
        IndiDeviceKind::Guider => Some(DeviceType::Guider),
        IndiDeviceKind::Weather => Some(DeviceType::Weather),
        IndiDeviceKind::SafetyMonitor => Some(DeviceType::SafetyMonitor),
        IndiDeviceKind::CoverCalibrator => Some(DeviceType::CoverCalibrator),
        IndiDeviceKind::Unknown => None,
    }
}

/// The device type of an INDI device kind; unknown kinds are not listed.
pub fn indi_device_type(kind: IndiDeviceKind) -> (r: Option<DeviceType>)
    ensures
        r == indi_device_type_spec(kind),
        r == match kind {
            IndiDeviceKind::Camera => Some(DeviceType::Camera),
            IndiDeviceKind::Telescope => Some(DeviceType::Mount),
            IndiDeviceKind::Focuser => Some(DeviceType::Focuser),
            IndiDeviceKind::FilterWheel => Some(DeviceType::FilterWheel),
            IndiDeviceKind::Dome => Some(DeviceType::Dome),
            IndiDeviceKind::Rotator => Some(DeviceType::Rotator),
            IndiDeviceKind::Guider => Some(DeviceType::Guider),
            IndiDeviceKind::Weather => Some(DeviceType::Weather),
            IndiDeviceKind::SafetyMonitor => Some(DeviceType::SafetyMonitor),
            IndiDeviceKind::CoverCalibrator => Some(DeviceType::CoverCalibrator),
            IndiDeviceKind::Unknown => None::<DeviceType>,
        },
{
    match kind {
        IndiDeviceKind::Camera => Some(DeviceType::Camera),
        IndiDeviceKind::Telescope => Some(DeviceType::Mount),
        IndiDeviceKind::Focuser => Some(DeviceType::Focuser),
        IndiDeviceKind::FilterWheel => Some(DeviceType::FilterWheel),
        IndiDeviceKind::Dome => Some(DeviceType::Dome),
        IndiDeviceKind::Rotator => Some(DeviceType::Rotator),
        IndiDeviceKind::Guider => Some(DeviceType::Guider),
        IndiDeviceKind::Weather => Some(DeviceType::Weather),
        IndiDeviceKind::SafetyMonitor => Some(DeviceType::SafetyMonitor),
        IndiDeviceKind::CoverCalibrator => Some(DeviceType::CoverCalibrator),
        IndiDeviceKind::Unknown => None,
    }
}

/// Whether native SDK discovery covers this device type.
pub fn native_discovery_covers(device_type: DeviceType) -> (r: bool)
    ensures
        r == (device_type == DeviceType::Camera || device_type == DeviceType::Mount || device_type
            == DeviceType::Focuser || device_type == DeviceType::FilterWheel || device_type
            == DeviceType::Rotator),
{
    match device_type {
        DeviceType::Camera | DeviceType::Mount | DeviceType::Focuser | DeviceType::FilterWheel
        | DeviceType::Rotator => true,
        _ => false,
    }
}

// ---------------------------------------------------------------------------
// INDI devices known by name only
// ---------------------------------------------------------------------------

/// The device type read from the upper-cased name and driver of an INDI
/// device, or `None` when neither mentions a known kind.
pub open spec fn indi_type_from_names_spec(name_upper: Seq<char>, driver_upper: Seq<char>) -> Option<
    DeviceType,
> {
    let mentions = |w: Seq<char>| has_infix(name_upper, w) || has_infix(driver_upper, w);
    if mentions("CCD"@) || mentions("CAMERA"@) {
        Some(DeviceType::Camera)
    } else if mentions("TELESCOPE"@) || mentions("MOUNT"@) {
        Some(DeviceType::Mount)
    } else if mentions("FOCUSER"@) {
        Some(DeviceType::Focuser)
    } else if mentions("WHEEL"@) {
        Some(DeviceType::FilterWheel)
    } else if mentions("ROTATOR"@) {
        Some(DeviceType::Rotator)
    } else {
        None
    }
}

fn mentions(a: &Vec<char>, b: &Vec<char>, word: &str) -> (r: bool)
    ensures
        r == (has_infix(a@, word@) || has_infix(b@, word@)),
{
    let w = chars_of(word);
    seq_contains(a, &w) || seq_contains(b, &w)
}

/// The device type of an INDI device read from its name and driver name;
/// `None` when neither mentions a camera, mount, focuser, wheel or rotator.
pub fn indi_type_from_names(name: &str, driver: &str) -> (r: Option<DeviceType>)
    ensures
        r == indi_type_from_names_spec(uppercase_of(name@), uppercase_of(driver@)),
{
    let nu = to_uppercase(name);
    let du = to_uppercase(driver);
    let a = chars_of(nu.as_str());
    let b = chars_of(du.as_str());
    if mentions(&a, &b, "CCD") || mentions(&a, &b, "CAMERA") {
        Some(DeviceType::Camera)
    } else if mentions(&a, &b, "TELESCOPE") || mentions(&a, &b, "MOUNT") {
        Some(DeviceType::Mount)
    } else if mentions(&a, &b, "FOCUSER") {
        Some(DeviceType::Focuser)
    } else if mentions(&a, &b, "WHEEL") {
        Some(DeviceType::FilterWheel)
    } else if mentions(&a, &b, "ROTATOR") {
        Some(DeviceType::Rotator)
    } else {
        None
    }
}

/// The description of an INDI device found on `host:port`, with the given
/// description text.
pub fn indi_device_info(
    host: &str,
    port: u16,
    device_name: &str,
    device_type: DeviceType,
    description: String,
) -> (r: DeviceInfo)
    ensures
        r.id@ == "indi:"@ + host@ + seq![':'] + decimal_text(port as nat) + seq![':']
            + device_name@,
        r.name@ == device_name@,
        r.device_type == device_type,
        r.driver_type == DriverType::Indi,
        r.description == description,
        r.driver_version@ == "INDI"@,
        r.serial_number is None,
        r.unique_id is None,
        r.display_name@ == device_name@,
{
    DeviceInfo {
        id: indi_device_id(host, port, device_name),
        name: String::from_str(device_name),
        device_type,
        driver_type: DriverType::Indi,
        description,
        driver_version: String::from_str("INDI"),
        serial_number: None,
        unique_id: None,
        display_name: String::from_str(device_name),
    }
}

/// The text `<lead><host>:<port>`.
pub fn with_endpoint(lead: &str, host: &str, port: u16) -> (r: String)
    ensures
        r@ == lead@ + host@ + seq![':'] + decimal_text(port as nat),
{
    let key = crate::device_id::indi_server_key(host, port);
    let r = concat2(lead, key.as_str());
    assert(r@ =~= lead@ + host@ + seq![':'] + decimal_text(port as nat));
    r
}

/// The listing of a device an INDI server reports with its kind (server
/// discovery on localhost, common hosts or the network); unknown kinds are
/// not listed.
pub fn indi_server_device_info(host: &str, port: u16, device_name: &str, kind: IndiDeviceKind) -> (r:
    Option<DeviceInfo>)
    ensures
        match r {
            Some(d) => kind != IndiDeviceKind::Unknown && Some(d.device_type) == indi_device_type_spec(
                kind,
            ) && d.id@ == "indi:"@ + host@ + seq![':'] + decimal_text(port as nat) + seq![':']
                + device_name@ && d.name@ == device_name@ && d.driver_type == DriverType::Indi
                && d.description@ == "INDI device at "@ + host@ + seq![':'] + decimal_text(
                port as nat,
            ) && d.driver_version@ == "INDI"@ && d.display_name@ == device_name@
                && d.serial_number is None && d.unique_id is None,
            None => kind == IndiDeviceKind::Unknown,
        },
{
    match indi_device_type(kind) {
        Some(t) => Some(
            indi_device_info(host, port, device_name, t, with_endpoint("INDI device at ", host, port)),
        ),
        None => None,
    }
}

/// The listing of a device found on a connected INDI client: its type read
/// from its name and driver, a camera when neither tells.
pub fn indi_client_device_info(host: &str, port: u16, device_name: &str, driver: &str) -> (r:
    DeviceInfo)
    ensures
        r.device_type == match indi_type_from_names_spec(
            uppercase_of(device_name@),
            uppercase_of(driver@),
        ) {
            Some(t) => t,
            None => DeviceType::Camera,
        },
        r.id@ == "indi:"@ + host@ + seq![':'] + decimal_text(port as nat) + seq![':']
            + device_name@,
        r.name@ == device_name@,
        r.driver_type == DriverType::Indi,
        r.description@ == "INDI device on "@ + host@ + seq![':'] + decimal_text(port as nat),
        r.driver_version@ == "INDI"@,
        r.display_name@ == device_name@,
        r.serial_number is None,
        r.unique_id is None,
{
    let t = match indi_type_from_names(device_name, driver) {
        Some(t) => t,
        None => DeviceType::Camera,
    };
    indi_device_info(host, port, device_name, t, with_endpoint("INDI device on ", host, port))
}

/// The listing of a device known to the INDI client kept under `server_key`
/// (`host:port`); devices whose name and driver name no known kind are not listed.
pub fn indi_known_device_info(server_key: &str, device_name: &str, driver: &str) -> (r: Option<
    DeviceInfo,
>)
    ensures
        match r {
            Some(d) => indi_type_from_names_spec(uppercase_of(device_name@), uppercase_of(driver@))
                == Some(d.device_type) && d.id@ == "indi:"@ + server_key@ + seq![':']
                + device_name@ && d.name@ == device_name@ && d.driver_type == DriverType::Indi
                && d.description@ == "INDI device on "@ + server_key@ && d.driver_version@
                == "INDI"@ && d.display_name@ == device_name@ && d.serial_number is None
                && d.unique_id is None,
            None => indi_type_from_names_spec(uppercase_of(device_name@), uppercase_of(driver@))
                is None,
        },
{
    match indi_type_from_names(device_name, driver) {
        Some(t) => {
            let id = crate::text::join_colon(server_key, device_name);
            let full_id = concat2("indi:", id.as_str());
            assert(full_id@ =~= "indi:"@ + server_key@ + seq![':'] + device_name@);
            Some(
                DeviceInfo {
                    id: full_id,
                    name: String::from_str(device_name),
                    device_type: t,
                    driver_type: DriverType::Indi,
                    description: concat2("INDI device on ", server_key),
                    driver_version: String::from_str("INDI"),
                    serial_number: None,
                    unique_id: None,
                    display_name: String::from_str(device_name),
                },
            )
        },
        None => None,
    }
}

// ---------------------------------------------------------------------------
// PHD2
// ---------------------------------------------------------------------------

/// The PHD2 server to connect to: 127.0.0.1:4400 unless given.
pub fn phd2_endpoint(host: Option<String>, port: Option<u16>) -> (r: (String, u16))
    ensures
        r.0@ == match host {
            Some(h) => h@,
            None => "127.0.0.1"@,
        },
        r.1 == match port {
            Some(p) => p,
            None => 4400u16,
        },
{
    let h = match host {
        Some(h) => h,
        None => String::from_str("127.0.0.1"),
    };
    let p = match port {
        Some(p) => p,
        None => 4400,
    };
    (h, p)
}

/// The guider device registered once PHD2 is connected at `host:port`.
pub fn phd2_connected_device_info(host: &str, port: u16) -> (r: DeviceInfo)
    ensures
        r.id@ == "phd2_guider"@,
        r.name@ == "PHD2"@,
        r.device_type == DeviceType::Guider,
        r.driver_type == DriverType::Native,
        r.description@ == "PHD2 Guiding at "@ + host@ + seq![':'] + decimal_text(port as nat),
        r.driver_version@ == Seq::<char>::empty(),
        r.serial_number is None,
        r.unique_id is None,
        r.display_name@ == "PHD2 Guiding"@,
{
    let key = crate::device_id::indi_server_key(host, port);
    let d = concat2("PHD2 Guiding at ", key.as_str());
    assert(d@ =~= "PHD2 Guiding at "@ + host@ + seq![':'] + decimal_text(port as nat));
    DeviceInfo {
        id: String::from_str("phd2_guider"),
        name: String::from_str("PHD2"),
        device_type: DeviceType::Guider,
        driver_type: DriverType::Native,
        description: d,
        driver_version: String::new(),
        serial_number: None,
        unique_id: None,
        display_name: String::from_str("PHD2 Guiding"),
    }
}

/// The id of the first device of the given type.
pub fn first_id_of_type(devices: &Vec<DeviceInfo>, t: DeviceType) -> (r: Option<String>)
    ensures
        match r {
            Some(id) => exists|i: int|
                0 <= i < devices@.len() && devices@[i].device_type == t && devices@[i].id == id
                    && forall|j: int| 0 <= j < i ==> devices@[j].device_type != t,
            None => forall|i: int| 0 <= i < devices@.len() ==> devices@[i].device_type != t,
        },
{
    let mut i: usize = 0;
    while i < devices.len()
        invariant
            i <= devices@.len(),
            forall|j: int| 0 <= j < i ==> devices@[j].device_type != t,
        decreases devices.len() - i,
    {
        if devices[i].device_type == t {
            return Some(devices[i].id.clone());
        }
        i = i + 1;
    }
    None
}

/// Why polar alignment cannot start.
#[derive(Debug, Clone, Copy, PartialEq, Eq, Structural)]
pub enum PolarStartError {
    AlreadyRunning,
    NoCamera,
    NoMount,
}

/// The camera and mount polar alignment uses: the first connected of each;
/// refused while an alignment runs.
pub fn polar_alignment_devices(running: bool, connected: &Vec<DeviceInfo>) -> (r: Result<
    (String, String),
    PolarStartError,
>)
    ensures
        running ==> r == Err::<(String, String), PolarStartError>(PolarStartError::AlreadyRunning),
        !running ==> match r {
            Ok((cam, mount)) => (exists|i: int|
                0 <= i < connected@.len() && connected@[i].device_type == DeviceType::Camera
                    && connected@[i].id == cam && forall|j: int|
                    0 <= j < i ==> connected@[j].device_type != DeviceType::Camera) && (exists|i: int|
                0 <= i < connected@.len() && connected@[i].device_type == DeviceType::Mount
                    && connected@[i].id == mount && forall|j: int|
                    0 <= j < i ==> connected@[j].device_type != DeviceType::Mount),
            Err(PolarStartError::NoCamera) => forall|i: int|
                0 <= i < connected@.len() ==> connected@[i].device_type != DeviceType::Camera,
            Err(PolarStartError::NoMount) => (exists|i: int|
                0 <= i < connected@.len() && connected@[i].device_type == DeviceType::Camera)
                && forall|i: int|
                0 <= i < connected@.len() ==> connected@[i].device_type != DeviceType::Mount,
            Err(PolarStartError::AlreadyRunning) => false,
        },
{
    if running {
        return Err(PolarStartError::AlreadyRunning);
    }
    let cam = first_id_of_type(connected, DeviceType::Camera);
    let mount = first_id_of_type(connected, DeviceType::Mount);
    match cam {
        None => Err(PolarStartError::NoCamera),
        Some(c) => match mount {
            None => Err(PolarStartError::NoMount),
            Some(m) => Ok((c, m)),
        },
    }
}

/// The message when the device to connect is not among the discovered ones.
pub fn not_found_during_discovery(device_id: &str) -> (r: String)
    ensures
        r@ == "Device "@ + device_id@ + " not found during discovery"@,
{
    String::from_str("Device ").concat(device_id).concat(" not found during discovery")
}

// ---------------------------------------------------------------------------
// Discovery cache and the assembled result
// ---------------------------------------------------------------------------

/// How long ASCOM and Alpaca discovery results are reused, in milliseconds.
pub const DISCOVERY_CACHE_TTL_MS: u64 = 60_000;

/// ASCOM and Alpaca discovery results with the time they were taken (in
/// milliseconds of a monotonic clock).
pub struct DiscoveryCache {
    pub ascom_devices: Vec<DeviceInfo>,
    pub alpaca_devices: Vec<DeviceInfo>,
    pub stored_at_ms: u64,
}

/// The cache holds results younger than the time to live.
pub open spec fn cache_fresh(cache: Option<DiscoveryCache>, now_ms: u64) -> bool {
    match cache {
        Some(c) => now_ms >= c.stored_at_ms && now_ms - c.stored_at_ms < DISCOVERY_CACHE_TTL_MS,
        None => false,
    }
}

/// The cached ASCOM and Alpaca results when they are still fresh at `now_ms`.
pub fn cached_results(cache: &Option<DiscoveryCache>, now_ms: u64) -> (r: Option<(Vec<DeviceInfo>, Vec<DeviceInfo>)>)
    ensures
        match r {
            Some((a, b)) => cache_fresh(*cache, now_ms) && a@ == cache->0.ascom_devices@ && b@
                == cache->0.alpaca_devices@,
            None => !cache_fresh(*cache, now_ms),
        },
{
    match cache {
        Some(c) => {
            if now_ms >= c.stored_at_ms && now_ms - c.stored_at_ms < DISCOVERY_CACHE_TTL_MS {
                Some((copy_infos(&c.ascom_devices), copy_infos(&c.alpaca_devices)))
            } else {
                None
            }
        },
        None => None,
    }
}

/// The devices of `s` with the given type, in order.
pub open spec fn of_type(s: Seq<DeviceInfo>, t: DeviceType) -> Seq<DeviceInfo>
    decreases s.len(),
{
    if s.len() == 0 {
        Seq::empty()
    } else {
        of_type(s.drop_last(), t) + if s.last().device_type == t {
            seq![s.last()]
        } else {
            Seq::<DeviceInfo>::empty()
        }
    }
}

/// Appends the devices of `src` with the given type to `out`.
fn push_of_type(out: &mut Vec<DeviceInfo>, src: &Vec<DeviceInfo>, t: DeviceType)
    ensures
        final(out)@ == old(out)@ + of_type(src@, t),
{
    let ghost start = out@;
    let mut i: usize = 0;
    while i < src.len()
        invariant
            i <= src@.len(),
            out@ == start + of_type(src@.take(i as int), t),
        decreases src.len() - i,
    {
        proof {
            assert(src@.take(i + 1).drop_last() =~= src@.take(i as int));
        }
        if src[i].device_type == t {
            out.push(src[i].duplicate());
        }
        i = i + 1;
        proof {
            assert(out@ =~= start + of_type(src@.take(i as int), t));
        }
    }
    assert(src@.take(i as int) =~= src@);
}

/// The PHD2 guider entry as discovery lists it.
pub open spec fn is_phd2_entry(d: DeviceInfo, running: bool) -> bool {
    &&& d.id@ == "phd2_guider"@
    &&& d.name@ == "PHD2 Guiding"@
    &&& d.device_type == DeviceType::Guider
    &&& d.driver_type == DriverType::Native
    &&& d.description@ == (if running {
        "PHD2 Guiding (Running)"@
    } else {
        "PHD2 Guiding (Installed)"@
    })
    &&& d.driver_version@ == "PHD2"@
    &&& d.serial_number is None
    &&& d.unique_id is None
    &&& d.display_name@ == "PHD2 Guiding"@
}

/// The simulated camera entry as discovery lists it.
pub open spec fn is_sim_camera_entry(d: DeviceInfo) -> bool {
    &&& d.id@ == "sim_camera_1"@
    &&& d.name@ == "Simulated Camera"@
    &&& d.device_type == DeviceType::Camera
    &&& d.driver_type == DriverType::Simulator
    &&& d.description@ == "Internal Simulator"@
    &&& d.driver_version@ == "1.0.0"@
    &&& d.serial_number matches Some(s) && s@ == "SIM-123"@
    &&& d.unique_id matches Some(u) && u@ == "sim_camera_1"@
    &&& d.display_name@ == "Simulated Camera"@
}

/// The PHD2 guider entry.
pub fn phd2_entry(running: bool) -> (r: DeviceInfo)
    ensures
        is_phd2_entry(r, running),
{
    DeviceInfo {
        id: String::from_str("phd2_guider"),
        name: String::from_str("PHD2 Guiding"),
        device_type: DeviceType::Guider,
        driver_type: DriverType::Native,
        description: if running {
            String::from_str("PHD2 Guiding (Running)")
        } else {
            String::from_str("PHD2 Guiding (Installed)")
        },
        driver_version: String::from_str("PHD2"),
        serial_number: None,
        unique_id: None,
        display_name: String::from_str("PHD2 Guiding"),
    }
}

/// The simulated camera entry.
pub fn sim_camera_entry() -> (r: DeviceInfo)
    ensures
        is_sim_camera_entry(r),
{
    DeviceInfo {
        id: String::from_str("sim_camera_1"),
        name: String::from_str("Simulated Camera"),
        device_type: DeviceType::Camera,
        driver_type: DriverType::Simulator,
        description: String::from_str("Internal Simulator"),
        driver_version: String::from_str("1.0.0"),
        serial_number: Some(String::from_str("SIM-123")),
        unique_id: Some(String::from_str("sim_camera_1")),
        display_name: String::from_str("Simulated Camera"),
    }
}

/// A device found by native SDK discovery, as plain values: the vendor is
/// given by its name.
pub struct NativeFound {
    pub id: String,
    pub name: String,
    pub vendor_name: String,
    pub sdk_version: Option<String>,
    pub serial_number: Option<String>,
    pub display_name: String,
}

/// `d` is the discovery entry of the natively found device `f`, listed as a
/// device of type `t`.
pub open spec fn is_native_entry(t: DeviceType, f: NativeFound, d: DeviceInfo) -> bool {
    &&& d.id == f.id
    &&& d.name == f.name
    &&& d.device_type == t
    &&& d.driver_type == DriverType::Native
    &&& d.description@ == f.vendor_name@ + " native driver"@
    &&& d.driver_version@ == match f.sdk_version {
        Some(v) => v@,
        None => "Native"@,
    }
    &&& d.serial_number == f.serial_number
    &&& d.unique_id is None
    &&& d.display_name == f.display_name
}

/// The discovery entry of a natively found device, listed as type `t`.
pub fn native_device_info(t: DeviceType, f: NativeFound) -> (r: DeviceInfo)
    ensures
        is_native_entry(t, f, r),
{
    let description = concat2(f.vendor_name.as_str(), " native driver");
    let driver_version = match f.sdk_version {
        Some(v) => v,
        None => String::from_str("Native"),
    };
    DeviceInfo {
        id: f.id,
        name: f.name,
        device_type: t,
        driver_type: DriverType::Native,
        description,
        driver_version,
        serial_number: f.serial_number,
        unique_id: None,
        display_name: f.display_name,
    }
}

/// Number of native entries discovery lists for type `t`: native discovery
/// only covers cameras, mounts, focusers, filter wheels and rotators.
pub open spec fn native_count(t: DeviceType, found: Seq<NativeFound>) -> int {
    if t == DeviceType::Camera || t == DeviceType::Mount || t == DeviceType::Focuser || t
        == DeviceType::FilterWheel || t == DeviceType::Rotator {
        found.len() as int
    } else {
        0
    }
}

/// Every entry of `s` has type `t`.
pub open spec fn all_of_type(s: Seq<DeviceInfo>, t: DeviceType) -> bool {
    forall|i: int| 0 <= i < s.len() ==> (#[trigger] s[i]).device_type == t
}

/// Lemma: filtering by type keeps only entries of that type.
proof fn lemma_of_type_all(s: Seq<DeviceInfo>, t: DeviceType)
    ensures
        all_of_type(of_type(s, t), t),
    decreases s.len(),
{
    if s.len() > 0 {
        lemma_of_type_all(s.drop_last(), t);
        let f = of_type(s.drop_last(), t);
        let g = of_type(s, t);
        assert forall|i: int| 0 <= i < g.len() implies (#[trigger] g[i]).device_type == t by {
            if i < f.len() {
                assert(g[i] == f[i]);
            }
        }
    }
}

/// The discovery result for one device type, in order: the ASCOM and Alpaca
/// devices of that type, the natively found devices listed as that type (for
/// the types native discovery covers), the INDI devices of that type, PHD2
/// when a guider is asked for and PHD2 runs or is installed, and the simulated
/// camera when a camera is asked for. Every entry has the requested type.
pub fn assemble_discovery(
    device_type: DeviceType,
    ascom: &Vec<DeviceInfo>,
    alpaca: &Vec<DeviceInfo>,
    native: Vec<NativeFound>,
    indi: &Vec<DeviceInfo>,
    phd2_running: bool,
    phd2_installed: bool,
) -> (r: Vec<DeviceInfo>)
    ensures
        ({
            let front = of_type(ascom@, device_type) + of_type(alpaca@, device_type);
            let k = native_count(device_type, native@);
            let back = of_type(indi@, device_type);
            let base_len = front.len() + k + back.len();
            let with_guider = device_type == DeviceType::Guider && (phd2_running || phd2_installed);
            let with_sim = device_type == DeviceType::Camera;
            let n = base_len + (if with_guider {
                1int
            } else {
                0int
            }) + (if with_sim {
                1int
            } else {
                0int
            });
            &&& r@.len() == n
            &&& r@.subrange(0, front.len() as int) == front
            &&& forall|i: int|
                0 <= i < k ==> is_native_entry(device_type, native@[i], #[trigger] r@[front.len() + i])
            &&& r@.subrange(front.len() + k, base_len) == back
            &&& with_guider ==> is_phd2_entry(r@[base_len], phd2_running)
            &&& with_sim ==> is_sim_camera_entry(r@[n - 1])
            &&& all_of_type(r@, device_type)
        }),
{
    let ghost native_view = native@;
    let mut out: Vec<DeviceInfo> = Vec::new();
    push_of_type(&mut out, ascom, device_type);
    push_of_type(&mut out, alpaca, device_type);
    let ghost front = out@;
    assert(front =~= of_type(ascom@, device_type) + of_type(alpaca@, device_type));
    proof {
        lemma_of_type_all(ascom@, device_type);
        lemma_of_type_all(alpaca@, device_type);
        lemma_of_type_all(indi@, device_type);
    }
    assert(all_of_type(front, device_type));
    if native_discovery_covers(device_type) {
        let mut native = native;
        let len = native.len();
        let mut j: usize = 0;
        while j < len
            invariant
                len == native_view.len(),
                j <= len,
                native@ == native_view.subrange(j as int, len as int),
                out@.len() == front.len() + j,
                out@.subrange(0, front.len() as int) == front,
                forall|q: int|
                    0 <= q < j ==> is_native_entry(device_type, native_view[q], #[trigger] out@[front.len() + q]),
                all_of_type(out@, device_type),
            decreases len - j,
        {
            let f = native.remove(0);
            assert(native@ =~= native_view.subrange(j + 1, len as int));
            let ghost before = out@;
            out.push(native_device_info(device_type, f));
            assert(out@.subrange(0, front.len() as int) =~= before.subrange(0, front.len() as int));
            j = j + 1;
        }
    }
    let ghost mid = out@;
    push_of_type(&mut out, indi, device_type);
    let ghost base = out@;
    let ghost k = native_count(device_type, native_view);
    assert(mid.len() == front.len() + k);
    assert(base.subrange(0, front.len() as int) =~= front);
    assert(base.subrange(front.len() + k, base.len() as int) =~= of_type(indi@, device_type));
    assert(all_of_type(base, device_type));
    if device_type == DeviceType::Guider && (phd2_running || phd2_installed) {
        out.push(phd2_entry(phd2_running));
    }
    if device_type == DeviceType::Camera {
        out.push(sim_camera_entry());
    }
    assert(out@.subrange(0, front.len() as int) =~= front);
    assert(out@.subrange(front.len() + k, base.len() as int) =~= of_type(indi@, device_type));
    out
}

/// The first listed device with the given id.
pub fn find_device_by_id(devices: &Vec<DeviceInfo>, device_id: &str) -> (r: Option<DeviceInfo>)
    ensures
        match r {
            Some(d) => exists|i: int|
                0 <= i < devices@.len() && devices@[i] == d && d.id@ == device_id@ && forall|j: int|
                    0 <= j < i ==> devices@[j].id@ != device_id@,
            None => forall|i: int| 0 <= i < devices@.len() ==> devices@[i].id@ != device_id@,
        },
{
    let mut i: usize = 0;
    while i < devices.len()
        invariant
            i <= devices@.len(),
            forall|j: int| 0 <= j < i ==> devices@[j].id@ != device_id@,
        decreases devices.len() - i,
    {
        if str_eq(devices[i].id.as_str(), device_id) {
            return Some(devices[i].duplicate());
        }
        i = i + 1;
    }
    None
}

} // verus!

verus! {

/// The connected devices the user interface lists: every connected device,
/// grouped by type in the order cameras, mounts, focusers, filter wheels,
/// guiders, rotators, domes, weather stations, safety monitors, switches and
/// cover calibrators.
pub open spec fn connected_listing(all: Seq<DeviceInfo>) -> Seq<DeviceInfo> {
    of_type(all, DeviceType::Camera) + of_type(all, DeviceType::Mount) + of_type(all, DeviceType::Focuser)
        + of_type(all, DeviceType::FilterWheel) + of_type(all, DeviceType::Guider) + of_type(
        all,
        DeviceType::Rotator,
    ) + of_type(all, DeviceType::Dome) + of_type(all, DeviceType::Weather) + of_type(
        all,
        DeviceType::SafetyMonitor,
    ) + of_type(all, DeviceType::Switch) + of_type(all, DeviceType::CoverCalibrator)
}

/// The connected devices as the user interface lists them: each connected
/// device once, grouped by type.
pub fn connected_devices(all: &Vec<DeviceInfo>) -> (r: Vec<DeviceInfo>)
    ensures
        r@ == connected_listing(all@),
        r@.to_multiset() =~= all@.to_multiset(),
{
    let mut out: Vec<DeviceInfo> = Vec::new();
    push_of_type(&mut out, all, DeviceType::Camera);
    push_of_type(&mut out, all, DeviceType::Mount);
    push_of_type(&mut out, all, DeviceType::Focuser);
    push_of_type(&mut out, all, DeviceType::FilterWheel);
    push_of_type(&mut out, all, DeviceType::Guider);
    push_of_type(&mut out, all, DeviceType::Rotator);
    push_of_type(&mut out, all, DeviceType::Dome);
    push_of_type(&mut out, all, DeviceType::Weather);
    push_of_type(&mut out, all, DeviceType::SafetyMonitor);
    push_of_type(&mut out, all, DeviceType::Switch);
    push_of_type(&mut out, all, DeviceType::CoverCalibrator);
    assert(out@ =~= connected_listing(all@));
    proof {
        law_connected_listing_complete(all@);
    }
    out
}

} // verus!

verus! {

/// Lemma: filtering a list with one more entry counts that entry once more
/// exactly when it has the type filtered for.
proof fn lemma_of_type_count_step(s: Seq<DeviceInfo>, t: DeviceType, v: DeviceInfo)
    requires
        s.len() > 0,
    ensures
        of_type(s, t).to_multiset().count(v) == of_type(s.drop_last(), t).to_multiset().count(v) + if s.last().device_type == t && s.last() == v {
            1nat
        } else {
            0nat
        },
{
    broadcast use vstd::seq_lib::lemma_multiset_commutative;
    broadcast use vstd::seq_lib::group_to_multiset_ensures;
    broadcast use vstd::multiset::group_multiset_axioms;

    let x = s.last();
    assert(seq![x] =~= Seq::<DeviceInfo>::empty().push(x));
    assert(Seq::<DeviceInfo>::empty().to_multiset() =~= vstd::multiset::Multiset::<DeviceInfo>::empty());
}

/// How often `v` occurs among the entries of `s` of type `t`.
pub open spec fn type_count(s: Seq<DeviceInfo>, t: DeviceType, v: DeviceInfo) -> nat {
    of_type(s, t).to_multiset().count(v)
}

/// How often `v` occurs in the listing of `s`, type by type.
pub open spec fn listing_count(s: Seq<DeviceInfo>, v: DeviceInfo) -> nat {
    type_count(s, DeviceType::Camera, v) + type_count(s, DeviceType::Mount, v) + type_count(
        s,
        DeviceType::Focuser,
        v,
    ) + type_count(s, DeviceType::FilterWheel, v) + type_count(s, DeviceType::Guider, v)
        + type_count(s, DeviceType::Rotator, v) + type_count(s, DeviceType::Dome, v) + type_count(
        s,
        DeviceType::Weather,
        v,
    ) + type_count(s, DeviceType::SafetyMonitor, v) + type_count(s, DeviceType::Switch, v)
        + type_count(s, DeviceType::CoverCalibrator, v)
}

/// Lemma: the listing counts `v` as often as the types together do.
proof fn lemma_listing_count(s: Seq<DeviceInfo>, v: DeviceInfo)
    ensures
        connected_listing(s).to_multiset().count(v) == listing_count(s, v),
{
    broadcast use vstd::multiset::group_multiset_axioms;

    let a1 = of_type(s, DeviceType::Camera);
    let a2 = a1 + of_type(s, DeviceType::Mount);
    let a3 = a2 + of_type(s, DeviceType::Focuser);
    let a4 = a3 + of_type(s, DeviceType::FilterWheel);
    let a5 = a4 + of_type(s, DeviceType::Guider);
    let a6 = a5 + of_type(s, DeviceType::Rotator);
    let a7 = a6 + of_type(s, DeviceType::Dome);
    let a8 = a7 + of_type(s, DeviceType::Weather);
    let a9 = a8 + of_type(s, DeviceType::SafetyMonitor);
    let a10 = a9 + of_type(s, DeviceType::Switch);
    let a11 = a10 + of_type(s, DeviceType::CoverCalibrator);
    vstd::seq_lib::lemma_multiset_commutative(a1, of_type(s, DeviceType::Mount));
    vstd::seq_lib::lemma_multiset_commutative(a2, of_type(s, DeviceType::Focuser));
    vstd::seq_lib::lemma_multiset_commutative(a3, of_type(s, DeviceType::FilterWheel));
    vstd::seq_lib::lemma_multiset_commutative(a4, of_type(s, DeviceType::Guider));
    vstd::seq_lib::lemma_multiset_commutative(a5, of_type(s, DeviceType::Rotator));
    vstd::seq_lib::lemma_multiset_commutative(a6, of_type(s, DeviceType::Dome));
    vstd::seq_lib::lemma_multiset_commutative(a7, of_type(s, DeviceType::Weather));
    vstd::seq_lib::lemma_multiset_commutative(a8, of_type(s, DeviceType::SafetyMonitor));
    vstd::seq_lib::lemma_multiset_commutative(a9, of_type(s, DeviceType::Switch));
    vstd::seq_lib::lemma_multiset_commutative(a10, of_type(s, DeviceType::CoverCalibrator));
    assert(a11 == connected_listing(s));
}

/// Law: the connected-devices listing holds every connected device exactly
/// as often as the connected devices do: none is left out, none repeated.
pub proof fn law_connected_listing_complete(all: Seq<DeviceInfo>)
    ensures
        connected_listing(all).to_multiset() =~= all.to_multiset(),
    decreases all.len(),
{
    if all.len() == 0 {
        assert(connected_listing(all) =~= all);
    } else {
        let rest = all.drop_last();
        let x = all.last();
        law_connected_listing_complete(rest);
        assert(all =~= rest.push(x));
        vstd::seq_lib::to_multiset_build(rest, x);
        assert forall|v: DeviceInfo|
            connected_listing(all).to_multiset().count(v) == all.to_multiset().count(v) by {
            broadcast use vstd::multiset::group_multiset_axioms;

            lemma_listing_count(all, v);
            lemma_listing_count(rest, v);
            lemma_of_type_count_step(all, DeviceType::Camera, v);
            lemma_of_type_count_step(all, DeviceType::Mount, v);
            lemma_of_type_count_step(all, DeviceType::Focuser, v);
            lemma_of_type_count_step(all, DeviceType::FilterWheel, v);
            lemma_of_type_count_step(all, DeviceType::Guider, v);
            lemma_of_type_count_step(all, DeviceType::Rotator, v);
            lemma_of_type_count_step(all, DeviceType::Dome, v);
            lemma_of_type_count_step(all, DeviceType::Weather, v);
            lemma_of_type_count_step(all, DeviceType::SafetyMonitor, v);
            lemma_of_type_count_step(all, DeviceType::Switch, v);
            lemma_of_type_count_step(all, DeviceType::CoverCalibrator, v);
            assert(connected_listing(rest).to_multiset().count(v) == rest.to_multiset().count(v));
        }
    }
}

} // verus!

verus! {

/// Law: every Alpaca device kind is listed under the device type of the same
/// name, except that a telescope is a mount and observing conditions are a
/// weather station; no two kinds share a device type.
pub proof fn law_alpaca_kinds_keep_their_names(k1: AlpacaDeviceKind, k2: AlpacaDeviceKind)
    ensures
        alpaca_device_type_spec(AlpacaDeviceKind::Camera) == DeviceType::Camera,
        alpaca_device_type_spec(AlpacaDeviceKind::Telescope) == DeviceType::Mount,
        alpaca_device_type_spec(AlpacaDeviceKind::Focuser) == DeviceType::Focuser,
        alpaca_device_type_spec(AlpacaDeviceKind::FilterWheel) == DeviceType::FilterWheel,
        alpaca_device_type_spec(AlpacaDeviceKind::Rotator) == DeviceType::Rotator,
        alpaca_device_type_spec(AlpacaDeviceKind::Dome) == DeviceType::Dome,
        alpaca_device_type_spec(AlpacaDeviceKind::SafetyMonitor) == DeviceType::SafetyMonitor,
        alpaca_device_type_spec(AlpacaDeviceKind::ObservingConditions) == DeviceType::Weather,
        alpaca_device_type_spec(AlpacaDeviceKind::Switch) == DeviceType::Switch,
        alpaca_device_type_spec(AlpacaDeviceKind::CoverCalibrator) == DeviceType::CoverCalibrator,
        k1 != k2 ==> alpaca_device_type_spec(k1) != alpaca_device_type_spec(k2),
{
}

/// Law: an INDI device whose name or driver mentions a camera (CCD, CAMERA)
/// is a camera; otherwise one that mentions a telescope or mount is a mount,
/// then focusers, wheels and rotators; one that mentions none of these words
/// is not listed.
pub proof fn law_indi_names_decide_type(name_upper: Seq<char>, driver_upper: Seq<char>)
    ensures
        ({
            let camera = has_infix(name_upper, "CCD"@) || has_infix(driver_upper, "CCD"@)
                || has_infix(name_upper, "CAMERA"@) || has_infix(driver_upper, "CAMERA"@);
            let mount = has_infix(name_upper, "TELESCOPE"@) || has_infix(driver_upper, "TELESCOPE"@)
                || has_infix(name_upper, "MOUNT"@) || has_infix(driver_upper, "MOUNT"@);
            let focuser = has_infix(name_upper, "FOCUSER"@) || has_infix(driver_upper, "FOCUSER"@);
            let wheel = has_infix(name_upper, "WHEEL"@) || has_infix(driver_upper, "WHEEL"@);
            let rotator = has_infix(name_upper, "ROTATOR"@) || has_infix(driver_upper, "ROTATOR"@);
            let r = indi_type_from_names_spec(name_upper, driver_upper);
            &&& camera ==> r == Some(DeviceType::Camera)
            &&& !camera && mount ==> r == Some(DeviceType::Mount)
            &&& !camera && !mount && focuser ==> r == Some(DeviceType::Focuser)
            &&& !camera && !mount && !focuser && wheel ==> r == Some(DeviceType::FilterWheel)
            &&& !camera && !mount && !focuser && !wheel && rotator ==> r == Some(DeviceType::Rotator)
            &&& !camera && !mount && !focuser && !wheel && !rotator ==> r is None
            &&& r is Some ==> camera || mount || focuser || wheel || rotator
        }),
{
}

} // verus!
