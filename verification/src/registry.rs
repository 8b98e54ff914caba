//! The registry of managed devices: registration, connection state,
//! automatic-reconnection bookkeeping and heartbeat bookkeeping.
use vstd::prelude::*;

use crate::device::{ConnectionState, DeviceInfo, DeviceType, DriverType};
use crate::clock::now_millis;
use crate::text::{concat2, str_eq};

verus! {

/// How long after the last successful communication a device still counts as healthy.
pub const HEALTHY_WINDOW_MS: i64 = 30_000;

/// State of a managed device.
#[derive(Debug, Clone)]
pub struct ManagedDevice {
    pub info: DeviceInfo,
    pub connection_state: ConnectionState,
    pub last_error: Option<String>,
    pub reconnect_attempts: u32,
    pub auto_reconnect: bool,
    /// Last successful communication timestamp (milliseconds since epoch)
    pub last_successful_comm: Option<i64>,
    /// Whether heartbeat monitoring is active
    pub heartbeat_active: bool,
}

impl ManagedDevice {
    /// The entry a freshly registered device gets.
    pub open spec fn fresh(info: DeviceInfo, auto_reconnect: bool) -> ManagedDevice {
        ManagedDevice {
            info,
            connection_state: ConnectionState::Disconnected,
            last_error: None,
            reconnect_attempts: 0,
            auto_reconnect,
            last_successful_comm: None,
            heartbeat_active: false,
        }
    }

    pub open spec fn with_auto(self, enabled: bool) -> ManagedDevice {
        ManagedDevice { auto_reconnect: enabled, ..self }
    }

    /// After a reported error or a failed connection.
    pub open spec fn failed(self, error: String) -> ManagedDevice {
        ManagedDevice { connection_state: ConnectionState::Error, last_error: Some(error), ..self }
    }

    /// After a failed automatic reconnection attempt.
    pub open spec fn reconnect_failed(self, error: String) -> ManagedDevice {
        ManagedDevice {
            reconnect_attempts: (self.reconnect_attempts + 1) as u32,
            last_error: Some(error),
            ..self
        }
    }

    pub open spec fn connecting(self) -> ManagedDevice {
        ManagedDevice { connection_state: ConnectionState::Connecting, ..self }
    }

    /// After a successful connection.
    pub open spec fn connected(self) -> ManagedDevice {
        ManagedDevice {
            connection_state: ConnectionState::Connected,
            last_error: None,
            reconnect_attempts: 0,
            ..self
        }
    }

    /// After a manual disconnection: automatic reconnection is switched off.
    pub open spec fn disconnected(self) -> ManagedDevice {
        ManagedDevice {
            connection_state: ConnectionState::Disconnected,
            auto_reconnect: false,
            ..self
        }
    }

    /// After a successful automatic reconnection.
    pub open spec fn reconnect_succeeded(self) -> ManagedDevice {
        ManagedDevice { reconnect_attempts: 0, last_error: None, ..self }
    }

    pub open spec fn heartbeat_started(self, now: i64) -> ManagedDevice {
        ManagedDevice { heartbeat_active: true, last_successful_comm: Some(now), ..self }
    }

    pub open spec fn heartbeat_stopped(self) -> ManagedDevice {
        ManagedDevice { heartbeat_active: false, ..self }
    }

    pub open spec fn communicated(self, now: i64) -> ManagedDevice {
        ManagedDevice { last_successful_comm: Some(now), ..self }
    }

    /// A field-by-field copy.
    pub fn duplicate(&self) -> (r: ManagedDevice)
        ensures
            r == *self,
    {
        ManagedDevice {
            info: self.info.duplicate(),
            connection_state: self.connection_state,
            last_error: crate::device::copy_opt_string(&self.last_error),
            reconnect_attempts: self.reconnect_attempts,
            auto_reconnect: self.auto_reconnect,
            last_successful_comm: self.last_successful_comm,
            heartbeat_active: self.heartbeat_active,
        }
    }
}

/// The device is due for an automatic reconnection attempt: it asked for
/// automatic reconnection, it is in the error state, and it has attempts left
/// (`max_attempts == 0` means no limit).
pub open spec fn needs_reconnect(d: ManagedDevice, max_attempts: u32) -> bool {
    &&& d.auto_reconnect
    &&& d.connection_state == ConnectionState::Error
    &&& (max_attempts == 0 || d.reconnect_attempts < max_attempts)
}

/// The device communicated successfully less than thirty seconds before `now`.
pub open spec fn healthy_at(d: ManagedDevice, now: i64) -> bool {
    match d.last_successful_comm {
        Some(last) => now - last < HEALTHY_WINDOW_MS,
        None => false,
    }
}

/// The text of the error for an unknown device id.
pub open spec fn not_found_message(id: Seq<char>) -> Seq<char> {
    "Device not found: "@ + id
}

/// The text of the error when the wall clock reads before the Unix epoch.
pub open spec fn clock_unavailable_message() -> Seq<char> {
    "System clock reads before the Unix epoch"@
}

/// The text of the heartbeat error for an unknown device id.
pub open spec fn heartbeat_not_found_message(id: Seq<char>) -> Seq<char> {
    "Device "@ + id + " not found"@
}

/// `v` lists exactly the entries of `m` that `sel` keeps, each once.
pub open spec fn lists_selection(
    v: Seq<ManagedDevice>,
    m: Map<Seq<char>, ManagedDevice>,
    sel: Selection,
) -> bool {
    &&& forall|i: int|
        0 <= i < v.len() ==> m.contains_key(#[trigger] v[i].info.id@) && m[v[i].info.id@] == v[i]
            && selects(sel, v[i])
    &&& forall|k: Seq<char>|
        m.contains_key(k) && selects(sel, m[k]) ==> exists|i: int| 0 <= i < v.len() && #[trigger] v[i].info.id@ == k
    &&& forall|i: int, j: int| 0 <= i < j < v.len() ==> v[i].info.id@ != v[j].info.id@
}

/// The managed devices, keyed by their id.
pub struct DeviceRegistry {
    entries: Vec<ManagedDevice>,
    model: Ghost<Map<Seq<char>, ManagedDevice>>,
}

impl View for DeviceRegistry {
    type V = Map<Seq<char>, ManagedDevice>;

    closed spec fn view(&self) -> Map<Seq<char>, ManagedDevice> {
        self.model@
    }
}

impl DeviceRegistry {
    /// The entries and the map agree, and no id occurs twice.
    pub closed spec fn wf(&self) -> bool {
        &&& forall|i: int|
            0 <= i < self.entries@.len() ==> self.model@.contains_key(
                #[trigger] self.entries@[i].info.id@,
            ) && self.model@[self.entries@[i].info.id@] == self.entries@[i]
        &&& forall|k: Seq<char>|
            self.model@.contains_key(k) ==> exists|i: int|
                0 <= i < self.entries@.len() && #[trigger] self.entries@[i].info.id@ == k
        &&& forall|i: int, j: int|
            0 <= i < j < self.entries@.len() ==> self.entries@[i].info.id@
                != self.entries@[j].info.id@
    }

    /// An empty registry.
    pub fn new() -> (r: DeviceRegistry)
        ensures
            r.wf(),
            r@ == Map::<Seq<char>, ManagedDevice>::empty(),
    {
        DeviceRegistry { entries: Vec::new(), model: Ghost(Map::empty()) }
    }

    /// Position of the entry with the given id.
    fn find_index(&self, id: &str) -> (r: Option<usize>)
        requires
            self.wf(),
        ensures
            match r {
                Some(i) => i < self.entries@.len() && self.entries@[i as int].info.id@ == id@
                    && self@.contains_key(id@) && self@[id@] == self.entries@[i as int],
                None => !self@.contains_key(id@),
            },
    {
        let mut i: usize = 0;
        while i < self.entries.len()
            invariant
                self.wf(),
                i <= self.entries@.len(),
                forall|j: int| 0 <= j < i ==> self.entries@[j].info.id@ != id@,
            decreases self.entries.len() - i,
        {
            if str_eq(self.entries[i].info.id.as_str(), id) {
                return Some(i);
            }
            i = i + 1;
        }
        proof {
            if self@.contains_key(id@) {
                let j = choose|j: int| 0 <= j < self.entries@.len() && #[trigger] self.entries@[j].info.id@ == id@;
                assert(self.entries@[j].info.id@ == id@);
            }
        }
        None
    }

    /// Replaces the entry at `i` by one with the same id.
    fn replace_at(&mut self, i: usize, d: ManagedDevice)
        requires
            old(self).wf(),
            i < old(self).entries@.len(),
            d.info.id@ == old(self).entries@[i as int].info.id@,
        ensures
            final(self).wf(),
            final(self)@ == old(self)@.insert(d.info.id@, d),
            final(self).entries@ == old(self).entries@.update(i as int, d),
    {
        let ghost key = d.info.id@;
        let ghost old_entries = self.entries@;
        self.entries.set(i, d);
        proof {
            self.model@ = self.model@.insert(key, self.entries@[i as int]);
            assert forall|k: Seq<char>| self.model@.contains_key(k) implies exists|j: int|
                0 <= j < self.entries@.len() && #[trigger] self.entries@[j].info.id@ == k by {
                if k == key {
                    assert(self.entries@[i as int].info.id@ == k);
                } else {
                    let j = choose|j: int| 0 <= j < old_entries.len() && #[trigger] old_entries[j].info.id@ == k;
                    assert(self.entries@[j].info.id@ == k);
                }
            }
        }
    }

    /// Registers a device; an entry with the same id is replaced by a fresh one.
    pub fn register_device(&mut self, info: DeviceInfo, auto_reconnect: bool)
        requires
            old(self).wf(),
        ensures
            final(self).wf(),
            final(self)@ == old(self)@.insert(info.id@, ManagedDevice::fresh(info, auto_reconnect)),
    {
        let ghost key = info.id@;
        let found = self.find_index(info.id.as_str());
        let entry = ManagedDevice {
            info,
            connection_state: ConnectionState::Disconnected,
            last_error: None,
            reconnect_attempts: 0,
            auto_reconnect,
            last_successful_comm: None,
            heartbeat_active: false,
        };
        match found {
            Some(i) => {
                self.replace_at(i, entry);
            },
            None => {
                let ghost old_entries = self.entries@;
                self.entries.push(entry);
                proof {
                    let n = old_entries.len() as int;
                    self.model@ = self.model@.insert(key, self.entries@[n]);
                    assert forall|i: int| 0 <= i < n implies old_entries[i].info.id@ != key by {
                        assert(self.model@.contains_key(old_entries[i].info.id@) || true);
                    }
                    assert forall|i: int, j: int|
                        0 <= i < j < self.entries@.len() implies self.entries@[i].info.id@
                        != self.entries@[j].info.id@ by {
                        if j == n {
                            assert(old_entries[i].info.id@ != key);
                        }
                    }
                    assert forall|i: int|
                        0 <= i < self.entries@.len() implies self.model@.contains_key(
                        #[trigger] self.entries@[i].info.id@,
                    ) && self.model@[self.entries@[i].info.id@] == self.entries@[i] by {
                        if i < n {
                            assert(old_entries[i].info.id@ != key);
                        }
                    }
                    assert forall|k: Seq<char>| self.model@.contains_key(k) implies exists|j: int|
                        0 <= j < self.entries@.len() && #[trigger] self.entries@[j].info.id@
                        == k by {
                        if k == key {
                            assert(self.entries@[n].info.id@ == k);
                        } else {
                            let j = choose|j: int|
                                0 <= j < old_entries.len() && #[trigger] old_entries[j].info.id@
                                == k;
                            assert(self.entries@[j].info.id@ == k);
                        }
                    }
                }
            },
        }
    }

    /// Whether a device with this id is registered.
    pub fn is_device_registered(&self, device_id: &str) -> (r: bool)
        requires
            self.wf(),
        ensures
            r == self@.contains_key(device_id@),
    {
        self.find_index(device_id).is_some()
    }

    /// The entry of a device.
    pub fn get_device(&self, device_id: &str) -> (r: Option<ManagedDevice>)
        requires
            self.wf(),
        ensures
            r == (if self@.contains_key(device_id@) {
                Some(self@[device_id@])
            } else {
                None
            }),
    {
        match self.find_index(device_id) {
            Some(i) => Some(self.entries[i].duplicate()),
            None => None,
        }
    }

    /// Whether the device is registered and connected.
    pub fn is_connected(&self, device_id: &str) -> (r: bool)
        requires
            self.wf(),
        ensures
            r == (self@.contains_key(device_id@) && self@[device_id@].connection_state
                == ConnectionState::Connected),
    {
        match self.find_index(device_id) {
            Some(i) => self.entries[i].connection_state == ConnectionState::Connected,
            None => false,
        }
    }

    /// Whether heartbeat monitoring is marked active for the device.
    pub fn is_heartbeat_active(&self, device_id: &str) -> (r: bool)
        requires
            self.wf(),
        ensures
            r == (self@.contains_key(device_id@) && self@[device_id@].heartbeat_active),
    {
        match self.find_index(device_id) {
            Some(i) => self.entries[i].heartbeat_active,
            None => false,
        }
    }

    /// Removes a device; nothing happens for an unknown id.
    pub fn unregister_device(&mut self, device_id: &str)
        requires
            old(self).wf(),
        ensures
            final(self).wf(),
            final(self)@ == old(self)@.remove(device_id@),
    {
        match self.find_index(device_id) {
            Some(i) => {
                let ghost old_entries = self.entries@;
                let ghost key = device_id@;
                self.entries.remove(i);
                proof {
                    self.model@ = self.model@.remove(key);
                    let ii = i as int;
                    assert forall|j: int|
                        0 <= j < self.entries@.len() implies self.model@.contains_key(
                        #[trigger] self.entries@[j].info.id@,
                    ) && self.model@[self.entries@[j].info.id@] == self.entries@[j] by {
                        if j < ii {
                            assert(self.entries@[j] == old_entries[j]);
                            assert(old_entries[j].info.id@ != old_entries[ii].info.id@);
                        } else {
                            assert(self.entries@[j] == old_entries[j + 1]);
                            assert(old_entries[ii].info.id@ != old_entries[j + 1].info.id@);
                        }
                    }
                    assert forall|a: int, b: int|
                        0 <= a < b < self.entries@.len() implies self.entries@[a].info.id@
                        != self.entries@[b].info.id@ by {
                        let oa = if a < ii {
                            a
                        } else {
                            a + 1
                        };
                        let ob = if b < ii {
                            b
                        } else {
                            b + 1
                        };
                        assert(self.entries@[a] == old_entries[oa]);
                        assert(self.entries@[b] == old_entries[ob]);
                    }
                    assert forall|k: Seq<char>| self.model@.contains_key(k) implies exists|j: int|
                        0 <= j < self.entries@.len() && #[trigger] self.entries@[j].info.id@
                        == k by {
                        let j = choose|j: int|
                            0 <= j < old_entries.len() && #[trigger] old_entries[j].info.id@ == k;
                        assert(j != ii);
                        if j < ii {
                            assert(self.entries@[j].info.id@ == k);
                        } else {
                            assert(self.entries@[j - 1].info.id@ == k);
                        }
                    }
                }
            },
            None => {
                assert(self@ =~= self@.remove(device_id@));
            },
        }
    }

    /// Switches automatic reconnection on or off for a device.
    pub fn set_auto_reconnect(&mut self, device_id: &str, enabled: bool)
        requires
            old(self).wf(),
        ensures
            final(self).wf(),
            final(self)@ == (if old(self)@.contains_key(device_id@) {
                old(self)@.insert(device_id@, old(self)@[device_id@].with_auto(enabled))
            } else {
                old(self)@
            }),
    {
        if let Some(i) = self.find_index(device_id) {
            let mut d = self.entries[i].duplicate();
            d.auto_reconnect = enabled;
            self.replace_at(i, d);
        }
    }

    /// Records a connection error; returns whether the device is registered.
    pub fn report_error(&mut self, device_id: &str, error: String) -> (found: bool)
        requires
            old(self).wf(),
        ensures
            final(self).wf(),
            found == old(self)@.contains_key(device_id@),
            final(self)@ == (if found {
                old(self)@.insert(device_id@, old(self)@[device_id@].failed(error))
            } else {
                old(self)@
            }),
    {
        match self.find_index(device_id) {
            Some(i) => {
                let mut d = self.entries[i].duplicate();
                d.connection_state = ConnectionState::Error;
                d.last_error = Some(error);
                self.replace_at(i, d);
                true
            },
            None => false,
        }
    }

    /// The description of a registered device, to connect it.
    pub fn connection_target(&self, device_id: &str) -> (r: Result<DeviceInfo, String>)
        requires
            self.wf(),
        ensures
            match r {
                Ok(info) => self@.contains_key(device_id@) && info == self@[device_id@].info,
                Err(msg) => !self@.contains_key(device_id@) && msg@ == not_found_message(
                    device_id@,
                ),
            },
    {
        match self.find_index(device_id) {
            Some(i) => Ok(self.entries[i].info.duplicate()),
            None => Err(concat2("Device not found: ", device_id)),
        }
    }

    /// Marks a device as connecting.
    pub fn mark_connecting(&mut self, device_id: &str)
        requires
            old(self).wf(),
        ensures
            final(self).wf(),
            final(self)@ == (if old(self)@.contains_key(device_id@) {
                old(self)@.insert(device_id@, old(self)@[device_id@].connecting())
            } else {
                old(self)@
            }),
    {
        if let Some(i) = self.find_index(device_id) {
            let mut d = self.entries[i].duplicate();
            d.connection_state = ConnectionState::Connecting;
            self.replace_at(i, d);
        }
    }

    /// Records the outcome of a connection attempt.
    pub fn record_connect_result(&mut self, device_id: &str, result: &Result<(), String>)
        requires
            old(self).wf(),
        ensures
            final(self).wf(),
            final(self)@ == (if old(self)@.contains_key(device_id@) {
                old(self)@.insert(
                    device_id@,
                    match result {
                        Ok(_) => old(self)@[device_id@].connected(),
                        Err(e) => old(self)@[device_id@].failed(*e),
                    },
                )
            } else {
                old(self)@
            }),
    {
        if let Some(i) = self.find_index(device_id) {
            let mut d = self.entries[i].duplicate();
            match result {
                Ok(_) => {
                    d.connection_state = ConnectionState::Connected;
                    d.last_error = None;
                    d.reconnect_attempts = 0;
                },
                Err(e) => {
                    d.connection_state = ConnectionState::Error;
                    d.last_error = Some(e.clone());
                },
            }
            self.replace_at(i, d);
        }
    }

    /// Marks a device as disconnected and switches its automatic reconnection
    /// off; gives its description back for the driver clean-up.
    pub fn disconnect_device(&mut self, device_id: &str) -> (r: Result<DeviceInfo, String>)
        requires
            old(self).wf(),
        ensures
            final(self).wf(),
            match r {
                Ok(info) => old(self)@.contains_key(device_id@) && info == old(self)@[device_id@].info
                    && final(self)@ == old(self)@.insert(
                    device_id@,
                    old(self)@[device_id@].disconnected(),
                ),
                Err(msg) => !old(self)@.contains_key(device_id@) && msg@ == not_found_message(
                    device_id@,
                ) && final(self)@ == old(self)@,
            },
    {
        match self.find_index(device_id) {
            Some(i) => {
                let mut d = self.entries[i].duplicate();
                let info = d.info.duplicate();
                d.connection_state = ConnectionState::Disconnected;
                d.auto_reconnect = false;
                self.replace_at(i, d);
                Ok(info)
            },
            None => Err(concat2("Device not found: ", device_id)),
        }
    }

    /// Records a failed automatic reconnection attempt.
    pub fn record_reconnect_failure(&mut self, device_id: &str, error: String)
        requires
            old(self).wf(),
            old(self)@.contains_key(device_id@) ==> old(self)@[device_id@].reconnect_attempts
                < u32::MAX,
        ensures
            final(self).wf(),
            final(self)@ == (if old(self)@.contains_key(device_id@) {
                old(self)@.insert(device_id@, old(self)@[device_id@].reconnect_failed(error))
            } else {
                old(self)@
            }),
    {
        if let Some(i) = self.find_index(device_id) {
            let mut d = self.entries[i].duplicate();
            d.reconnect_attempts = d.reconnect_attempts + 1;
            d.last_error = Some(error);
            self.replace_at(i, d);
        }
    }

    /// Records a successful automatic reconnection.
    pub fn record_reconnect_success(&mut self, device_id: &str)
        requires
            old(self).wf(),
        ensures
            final(self).wf(),
            final(self)@ == (if old(self)@.contains_key(device_id@) {
                old(self)@.insert(device_id@, old(self)@[device_id@].reconnect_succeeded())
            } else {
                old(self)@
            }),
    {
        if let Some(i) = self.find_index(device_id) {
            let mut d = self.entries[i].duplicate();
            d.reconnect_attempts = 0;
            d.last_error = None;
            self.replace_at(i, d);
        }
    }

    /// Marks heartbeat monitoring as started at time `now`; gives the device's
    /// type and driver for the monitoring task.
    pub fn start_heartbeat_at(&mut self, device_id: &str, now: i64) -> (r: Result<
        (DeviceType, DriverType),
        String,
    >)
        requires
            old(self).wf(),
        ensures
            final(self).wf(),
            match r {
                Ok((t, drv)) => old(self)@.contains_key(device_id@) && t == old(
                    self,
                )@[device_id@].info.device_type && drv == old(self)@[device_id@].info.driver_type
                    && final(self)@ == old(self)@.insert(
                    device_id@,
                    old(self)@[device_id@].heartbeat_started(now),
                ),
                Err(msg) => !old(self)@.contains_key(device_id@) && msg@
                    == heartbeat_not_found_message(device_id@) && final(self)@ == old(self)@,
            },
    {
        match self.find_index(device_id) {
            Some(i) => {
                let mut d = self.entries[i].duplicate();
                let t = d.info.device_type;
                let drv = d.info.driver_type;
                d.heartbeat_active = true;
                d.last_successful_comm = Some(now);
                self.replace_at(i, d);
                Ok((t, drv))
            },
            None => Err(String::from_str("Device ").concat(device_id).concat(" not found")),
        }
    }

    /// Marks heartbeat monitoring as stopped.
    pub fn stop_heartbeat(&mut self, device_id: &str)
        requires
            old(self).wf(),
        ensures
            final(self).wf(),
            final(self)@ == (if old(self)@.contains_key(device_id@) {
                old(self)@.insert(device_id@, old(self)@[device_id@].heartbeat_stopped())
            } else {
                old(self)@
            }),
    {
        if let Some(i) = self.find_index(device_id) {
            let mut d = self.entries[i].duplicate();
            d.heartbeat_active = false;
            self.replace_at(i, d);
        }
    }

    /// Marks heartbeat monitoring as stopped for every device.
    pub fn stop_all_heartbeats(&mut self)
        requires
            old(self).wf(),
        ensures
            final(self).wf(),
            final(self)@.dom() == old(self)@.dom(),
            forall|k: Seq<char>|
                #[trigger] old(self)@.contains_key(k) ==> final(self)@[k] == old(
                    self,
                )@[k].heartbeat_stopped(),
    {
        let ghost old_entries = self.entries@;
        let ghost old_model = self.model@;
        let mut i: usize = 0;
        while i < self.entries.len()
            invariant
                self.wf(),
                i <= self.entries@.len(),
                self.entries@.len() == old_entries.len(),
                self.model@.dom() == old_model.dom(),
                forall|j: int| 0 <= j < i ==> #[trigger] self.entries@[j] == old_entries[j].heartbeat_stopped(),
                forall|j: int| i <= j < self.entries@.len() ==> #[trigger] self.entries@[j] == old_entries[j],
                forall|j: int| 0 <= j < old_entries.len() ==> old_model.contains_key(#[trigger] old_entries[j].info.id@)
                    && old_model[old_entries[j].info.id@] == old_entries[j],
                forall|k: Seq<char>| old_model.contains_key(k) ==> exists|j: int|
                    0 <= j < old_entries.len() && #[trigger] old_entries[j].info.id@ == k,
            decreases self.entries.len() - i,
        {
            let mut d = self.entries[i].duplicate();
            d.heartbeat_active = false;
            self.replace_at(i, d);
            proof {
                assert(self.model@.dom() =~= old_model.dom());
            }
            i = i + 1;
        }
        proof {
            assert forall|k: Seq<char>| #[trigger] old_model.contains_key(k) implies self.model@[k]
                == old_model[k].heartbeat_stopped() by {
                let j = choose|j: int| 0 <= j < old_entries.len() && #[trigger] old_entries[j].info.id@ == k;
                assert(self.entries@[j] == old_entries[j].heartbeat_stopped());
                assert(self.entries@[j].info.id@ == k);
            }
        }
    }

    /// Records a successful communication with the device at time `now`.
    pub fn record_communication_at(&mut self, device_id: &str, now: i64)
        requires
            old(self).wf(),
        ensures
            final(self).wf(),
            final(self)@ == (if old(self)@.contains_key(device_id@) {
                old(self)@.insert(device_id@, old(self)@[device_id@].communicated(now))
            } else {
                old(self)@
            }),
    {
        if let Some(i) = self.find_index(device_id) {
            let mut d = self.entries[i].duplicate();
            d.last_successful_comm = Some(now);
            self.replace_at(i, d);
        }
    }

    /// Health at time `now`: the last successful communication time (0 when
    /// there was none) and whether it lies less than thirty seconds back.
    pub fn get_device_health_at(&self, device_id: &str, now: i64) -> (r: Result<(i64, bool), String>)
        requires
            self.wf(),
        ensures
            match r {
                Ok((last, healthy)) => self@.contains_key(device_id@) && last == match self@[device_id@].last_successful_comm {
                    Some(l) => l,
                    None => 0,
                } && healthy == healthy_at(self@[device_id@], now),
                Err(msg) => !self@.contains_key(device_id@) && msg@ == heartbeat_not_found_message(
                    device_id@,
                ),
            },
    {
        match self.find_index(device_id) {
            Some(i) => {
                match self.entries[i].last_successful_comm {
                    Some(last) => Ok((last, (now as i128) - (last as i128) < (HEALTHY_WINDOW_MS as i128))),
                    None => Ok((0, false)),
                }
            },
            None => Err(String::from_str("Device ").concat(device_id).concat(" not found")),
        }
    }

    /// Marks heartbeat monitoring as started now. When the clock cannot be
    /// read (it is before the Unix epoch) a registered device is left as it
    /// was and the clock error is returned.
    pub fn start_heartbeat(&mut self, device_id: &str) -> (r: Result<(DeviceType, DriverType), String>)
        requires
            old(self).wf(),
        ensures
            final(self).wf(),
            match r {
                Ok((t, drv)) => old(self)@.contains_key(device_id@) && t == old(
                    self,
                )@[device_id@].info.device_type && drv == old(self)@[device_id@].info.driver_type
                    && exists|now: i64|
                    final(self)@ == old(self)@.insert(
                        device_id@,
                        #[trigger] old(self)@[device_id@].heartbeat_started(now),
                    ),
                Err(msg) => final(self)@ == old(self)@ && if old(self)@.contains_key(device_id@) {
                    msg@ == clock_unavailable_message()
                } else {
                    msg@ == heartbeat_not_found_message(device_id@)
                },
            },
    {
        match now_millis() {
            Some(now) => self.start_heartbeat_at(device_id, now),
            None => {
                if self.is_device_registered(device_id) {
                    Err(String::from_str("System clock reads before the Unix epoch"))
                } else {
                    Err(String::from_str("Device ").concat(device_id).concat(" not found"))
                }
            },
        }
    }

    /// Records a successful communication with the device now; nothing is
    /// recorded when the clock cannot be read.
    pub fn update_device_communication(&mut self, device_id: &str)
        requires
            old(self).wf(),
        ensures
            final(self).wf(),
            old(self)@.contains_key(device_id@) ==> final(self)@ == old(self)@ || exists|now: i64|
                final(self)@ == old(self)@.insert(
                    device_id@,
                    #[trigger] old(self)@[device_id@].communicated(now),
                ),
            !old(self)@.contains_key(device_id@) ==> final(self)@ == old(self)@,
    {
        if let Some(now) = now_millis() {
            self.record_communication_at(device_id, now);
        }
    }

    /// Health now: the last successful communication time (0 when there was
    /// none) and whether it lies less than thirty seconds back (not healthy
    /// when the clock cannot be read).
    pub fn get_device_health(&self, device_id: &str) -> (r: Result<(i64, bool), String>)
        requires
            self.wf(),
        ensures
            match r {
                Ok((last, healthy)) => self@.contains_key(device_id@) && last == match self@[device_id@].last_successful_comm {
                    Some(l) => l,
                    None => 0,
                } && (healthy ==> self@[device_id@].last_successful_comm is Some),
                Err(msg) => !self@.contains_key(device_id@) && msg@ == heartbeat_not_found_message(
                    device_id@,
                ),
            },
    {
        match now_millis() {
            Some(now) => self.get_device_health_at(device_id, now),
            None => match self.get_device(device_id) {
                Some(d) => match d.last_successful_comm {
                    Some(last) => Ok((last, false)),
                    None => Ok((0, false)),
                },
                None => Err(String::from_str("Device ").concat(device_id).concat(" not found")),
            },
        }
    }

    /// The devices to try reconnecting in one round of the reconnection
    /// task: none when automatic reconnection is switched off.
    pub fn reconnect_round(&self, enabled: bool, max_attempts: u32) -> (r: Vec<ManagedDevice>)
        requires
            self.wf(),
        ensures
            !enabled ==> r@.len() == 0,
            enabled ==> lists_selection(r@, self@, Selection::DueForReconnect(max_attempts)),
    {
        if !enabled {
            return Vec::new();
        }
        self.devices_to_reconnect(max_attempts)
    }

    /// Records the outcome of an automatic reconnection attempt: the
    /// connection outcome itself, and then the attempt count (reset on
    /// success, one more with the error on failure).
    pub fn finish_reconnect_attempt(&mut self, device_id: &str, result: &Result<(), String>)
        requires
            old(self).wf(),
            old(self)@.contains_key(device_id@) ==> old(self)@[device_id@].reconnect_attempts
                < u32::MAX,
        ensures
            final(self).wf(),
            final(self)@ == (if old(self)@.contains_key(device_id@) {
                old(self)@.insert(
                    device_id@,
                    match result {
                        Ok(_) => old(self)@[device_id@].connected().reconnect_succeeded(),
                        Err(e) => old(self)@[device_id@].failed(*e).reconnect_failed(*e),
                    },
                )
            } else {
                old(self)@
            }),
    {
        self.record_connect_result(device_id, result);
        match result {
            Ok(_) => {
                self.record_reconnect_success(device_id);
            },
            Err(e) => {
                self.record_reconnect_failure(device_id, e.clone());
            },
        }
        proof {
            if old(self)@.contains_key(device_id@) {
                assert(final(self)@ =~= old(self)@.insert(
                    device_id@,
                    match result {
                        Ok(_) => old(self)@[device_id@].connected().reconnect_succeeded(),
                        Err(e) => old(self)@[device_id@].failed(*e).reconnect_failed(*e),
                    },
                ));
            }
        }
    }

    /// Entries chosen by `sel`, each once.
    fn select(&self, sel: Selection) -> (r: Vec<ManagedDevice>)
        requires
            self.wf(),
        ensures
            lists_selection(r@, self@, sel),
    {
        let mut r: Vec<ManagedDevice> = Vec::new();
        let ghost mut idx: Seq<int> = Seq::empty();
        let mut i: usize = 0;
        while i < self.entries.len()
            invariant
                self.wf(),
                i <= self.entries@.len(),
                r@.len() == idx.len(),
                forall|a: int| 0 <= a < idx.len() ==> 0 <= #[trigger] idx[a] < i && r@[a] == self.entries@[idx[a]] && selects(sel, r@[a]),
                forall|a: int, b: int| 0 <= a < b < idx.len() ==> idx[a] < idx[b],
                forall|j: int| 0 <= j < i && selects(sel, #[trigger] self.entries@[j]) ==> exists|a: int| 0 <= a < idx.len() && idx[a] == j,
            decreases self.entries.len() - i,
        {
            if self.entries[i].matches_selection(sel) {
                let ghost before = idx;
                let ghost before_r = r@;
                r.push(self.entries[i].duplicate());
                proof {
                    idx = idx.push(i as int);
                    assert forall|a: int| 0 <= a < idx.len() implies 0 <= #[trigger] idx[a] < i + 1 && r@[a] == self.entries@[idx[a]] && selects(sel, r@[a]) by {
                        if a < before.len() {
                            assert(idx[a] == before[a]);
                            assert(r@[a] == before_r[a]);
                        }
                    }
                    assert forall|j: int| 0 <= j < i + 1 && selects(sel, #[trigger] self.entries@[j]) implies exists|a: int| 0 <= a < idx.len() && idx[a] == j by {
                        if j < i {
                            let a = choose|a: int| 0 <= a < before.len() && before[a] == j;
                            assert(idx[a] == j);
                        } else {
                            assert(idx[before.len() as int] == j);
                        }
                    }
                }
            }
            i = i + 1;
        }
        proof {
            assert forall|a: int| 0 <= a < r@.len() implies self@.contains_key(#[trigger] r@[a].info.id@) && self@[r@[a].info.id@] == r@[a] && selects(sel, r@[a]) by {
                assert(r@[a] == self.entries@[idx[a]]);
            }
            assert forall|k: Seq<char>| self@.contains_key(k) && selects(sel, self@[k]) implies exists|a: int| 0 <= a < r@.len() && #[trigger] r@[a].info.id@ == k by {
                let j = choose|j: int| 0 <= j < self.entries@.len() && #[trigger] self.entries@[j].info.id@ == k;
                assert(self.model@[self.entries@[j].info.id@] == self.entries@[j]);
                assert(selects(sel, self.entries@[j]));
                let a = choose|a: int| 0 <= a < idx.len() && idx[a] == j;
                assert(r@[a].info.id@ == k);
            }
            assert forall|a: int, b: int| 0 <= a < b < r@.len() implies r@[a].info.id@ != r@[b].info.id@ by {
                assert(idx[a] < idx[b]);
                assert(r@[a] == self.entries@[idx[a]]);
                assert(r@[b] == self.entries@[idx[b]]);
            }
        }
        r
    }

    /// All managed devices, each once, in no particular order.
    pub fn get_all_devices(&self) -> (r: Vec<ManagedDevice>)
        requires
            self.wf(),
        ensures
            lists_selection(r@, self@, Selection::All),
    {
        let r = self.select(Selection::All);
        r
    }

    /// The managed devices of one type, each once, in no particular order.
    pub fn get_devices_by_type(&self, device_type: DeviceType) -> (r: Vec<ManagedDevice>)
        requires
            self.wf(),
        ensures
            lists_selection(r@, self@, Selection::OfType(device_type)),
    {
        let r = self.select(Selection::OfType(device_type));
        r
    }

    /// The devices due for an automatic reconnection attempt.
    pub fn devices_to_reconnect(&self, max_attempts: u32) -> (r: Vec<ManagedDevice>)
        requires
            self.wf(),
        ensures
            lists_selection(r@, self@, Selection::DueForReconnect(max_attempts)),
    {
        let r = self.select(Selection::DueForReconnect(max_attempts));
        r
    }
}

/// Which entries a listing keeps.
#[derive(Clone, Copy)]
pub enum Selection {
    All,
    OfType(DeviceType),
    DueForReconnect(u32),
}

pub open spec fn selects(sel: Selection, d: ManagedDevice) -> bool {
    match sel {
        Selection::All => true,
        Selection::OfType(t) => d.info.device_type == t,
        Selection::DueForReconnect(max) => needs_reconnect(d, max),
    }
}

impl ManagedDevice {
    /// Whether this entry is kept by `sel`.
    pub fn matches_selection(&self, sel: Selection) -> (r: bool)
        ensures
            r == selects(sel, *self),
    {
        match sel {
            Selection::All => true,
            Selection::OfType(t) => self.info.device_type == t,
            Selection::DueForReconnect(max) => {
                self.auto_reconnect && self.connection_state == ConnectionState::Error && (max == 0
                    || self.reconnect_attempts < max)
            },
        }
    }
}

} // verus!

verus! {

/// Law: a manual disconnection switches automatic reconnection off, so the
/// device is not picked for reconnection afterwards.
pub proof fn law_disconnect_stops_reconnection(d: ManagedDevice, max_attempts: u32)
    ensures
        !needs_reconnect(d.disconnected(), max_attempts),
{
}

/// Law: a successful connection clears the error and the attempt count, so
/// the device is not picked for reconnection.
pub proof fn law_connected_not_reconnected(d: ManagedDevice, max_attempts: u32)
    ensures
        !needs_reconnect(d.connected(), max_attempts),
        d.connected().reconnect_attempts == 0,
        d.connected().last_error is None,
{
}

/// Law: a freshly registered device is disconnected, has no error and no
/// attempts, and is not picked for reconnection.
pub proof fn law_register_starts_fresh(info: DeviceInfo, auto_reconnect: bool, max_attempts: u32)
    ensures
        ManagedDevice::fresh(info, auto_reconnect).connection_state == ConnectionState::Disconnected,
        !needs_reconnect(ManagedDevice::fresh(info, auto_reconnect), max_attempts),
{
}

/// Law: after an error, a device is picked for reconnection exactly when it
/// asked for automatic reconnection and has attempts left.
pub proof fn law_error_triggers_reconnection(d: ManagedDevice, error: String, max_attempts: u32)
    ensures
        needs_reconnect(d.failed(error), max_attempts) <==> (d.auto_reconnect && (max_attempts
            == 0 || d.reconnect_attempts < max_attempts)),
{
}

/// Law: with a limit, a device whose failed attempts reached the limit is no
/// longer picked for reconnection.
pub proof fn law_reconnect_attempts_limited(d: ManagedDevice, error: String, max_attempts: u32)
    requires
        max_attempts > 0,
        d.reconnect_attempts + 1 >= max_attempts,
        d.reconnect_attempts < u32::MAX,
    ensures
        !needs_reconnect(d.reconnect_failed(error), max_attempts),
{
}

/// Law: registering a new device and then unregistering it leaves the
/// registry as it was.
pub proof fn law_register_unregister_roundtrip(
    m: Map<Seq<char>, ManagedDevice>,
    info: DeviceInfo,
    auto_reconnect: bool,
)
    requires
        !m.contains_key(info.id@),
    ensures
        m.insert(info.id@, ManagedDevice::fresh(info, auto_reconnect)).remove(info.id@) == m,
{
    assert(m.insert(info.id@, ManagedDevice::fresh(info, auto_reconnect)).remove(info.id@) =~= m);
}

/// Law: a device that just communicated (or just started its heartbeat) is healthy.
pub proof fn law_communication_makes_healthy(d: ManagedDevice, now: i64)
    ensures
        healthy_at(d.communicated(now), now),
        healthy_at(d.heartbeat_started(now), now),
{
}

/// Law: a device that never communicated is not healthy.
pub proof fn law_no_communication_unhealthy(d: ManagedDevice, now: i64)
    requires
        d.last_successful_comm is None,
    ensures
        !healthy_at(d, now),
{
}

} // verus!
