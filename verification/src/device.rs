//! Device descriptions shared by the registry, the discovery code and the drivers.
use vstd::prelude::*;

verus! {

/// Connection health reported by an ASCOM camera heartbeat.
#[derive(Debug, Clone, Copy, PartialEq, Eq, Structural)]
pub enum CameraConnectionHealth {
    /// Device is healthy and responding
    Healthy,
    /// Device is not responding but may recover
    Degraded,
    /// Device connection has failed
    Failed,
    /// Device health is unknown
    Unknown,
}

/// Kind of equipment a device is.
#[derive(Debug, Clone, Copy, PartialEq, Eq, Structural)]
pub enum DeviceType {
    Camera,
    Mount,
    Focuser,
    FilterWheel,
    Guider,
    Rotator,
    Dome,
    Weather,
    SafetyMonitor,
    Switch,
    CoverCalibrator,
}

/// Driver backend through which a device is reached.
#[derive(Debug, Clone, Copy, PartialEq, Eq, Structural)]
pub enum DriverType {
    Simulator,
    Ascom,
    Alpaca,
    Indi,
    Native,
}

/// Connection state of a managed device.
#[derive(Debug, Clone, Copy, PartialEq, Eq, Structural)]
pub enum ConnectionState {
    Disconnected,
    Connecting,
    Connected,
    Error,
}

} // verus!

verus! {

/// Description of a discovered or configured device.
#[derive(Debug, Clone)]
pub struct DeviceInfo {
    pub id: String,
    pub name: String,
    pub device_type: DeviceType,
    pub driver_type: DriverType,
    pub description: String,
    pub driver_version: String,
    pub serial_number: Option<String>,
    pub unique_id: Option<String>,
    pub display_name: String,
}

/// A copy of an optional text.
pub fn copy_opt_string(s: &Option<String>) -> (r: Option<String>)
    ensures
        r == *s,
{
    match s {
        Some(t) => Some(t.clone()),
        None => None,
    }
}

impl DeviceInfo {
    /// A field-by-field copy.
    pub fn duplicate(&self) -> (r: DeviceInfo)
        ensures
            r == *self,
    {
        DeviceInfo {
            id: self.id.clone(),
            name: self.name.clone(),
            device_type: self.device_type,
            driver_type: self.driver_type,
            description: self.description.clone(),
            driver_version: self.driver_version.clone(),
            serial_number: copy_opt_string(&self.serial_number),
            unique_id: copy_opt_string(&self.unique_id),
            display_name: self.display_name.clone(),
        }
    }
}

/// A copy of a list of device descriptions.
pub fn copy_infos(v: &Vec<DeviceInfo>) -> (r: Vec<DeviceInfo>)
    ensures
        r@ == v@,
{
    let mut r: Vec<DeviceInfo> = Vec::new();
    let mut i: usize = 0;
    while i < v.len()
        invariant
            i <= v@.len(),
            r@ == v@.take(i as int),
        decreases v.len() - i,
    {
        r.push(v[i].duplicate());
        i = i + 1;
        assert(r@ =~= v@.take(i as int));
    }
    assert(r@ =~= v@);
    r
}

} // verus!
