//! Heartbeat monitoring: per-device-type settings and the decision taken
//! after each health check.
use vstd::prelude::*;

use crate::device::{DeviceType, DriverType};

verus! {

/// Microseconds in a millisecond.
pub const MICROS_PER_MS: u64 = 1_000;

/// The longest interval, in milliseconds, whose microsecond count fits in `u64`.
pub const MAX_INTERVAL_MS: u64 = 18_446_744_073_709_551;

/// Heartbeat settings of one device type.
///
/// The backoff factor is held in percent (`150` for a factor of 1.5); every
/// interval is held in microseconds, in which all the configured backoff
/// steps are exact.
#[derive(Debug, Clone, Copy, PartialEq, Eq, Structural)]
pub struct HeartbeatConfig {
    /// Base interval between heartbeats in milliseconds
    pub base_interval_ms: u64,
    /// Maximum interval (after backoff) in milliseconds
    pub max_interval_ms: u64,
    /// Number of consecutive failures before marking device disconnected
    pub failure_threshold: u32,
    /// Backoff factor applied when failures occur, in percent
    pub backoff_percent: u64,
}

impl HeartbeatConfig {
    /// Settings that the monitoring loop can run with.
    pub open spec fn valid(self) -> bool {
        &&& self.base_interval_ms <= self.max_interval_ms
        &&& self.max_interval_ms <= MAX_INTERVAL_MS
        &&& 100 <= self.backoff_percent <= 1000
    }

    pub open spec fn base_us(self) -> nat {
        (self.base_interval_ms * 1_000) as nat
    }

    pub open spec fn max_us(self) -> nat {
        (self.max_interval_ms * 1_000) as nat
    }
}

/// The heartbeat settings for each device type.
pub open spec fn heartbeat_config_spec(device_type: DeviceType) -> HeartbeatConfig {
    match device_type {
        DeviceType::Camera => HeartbeatConfig {
            base_interval_ms: 10_000,
            max_interval_ms: 60_000,
            failure_threshold: 3,
            backoff_percent: 200,
        },
        DeviceType::Mount => HeartbeatConfig {
            base_interval_ms: 5_000,
            max_interval_ms: 30_000,
            failure_threshold: 2,
            backoff_percent: 150,
        },
        DeviceType::Focuser => HeartbeatConfig {
            base_interval_ms: 15_000,
            max_interval_ms: 60_000,
            failure_threshold: 3,
            backoff_percent: 200,
        },
        DeviceType::FilterWheel => HeartbeatConfig {
            base_interval_ms: 20_000,
            max_interval_ms: 120_000,
            failure_threshold: 3,
            backoff_percent: 200,
        },
        _ => HeartbeatConfig {
            base_interval_ms: 10_000,
            max_interval_ms: 60_000,
            failure_threshold: 3,
            backoff_percent: 200,
        },
    }
}

/// Heartbeat settings for a device type: cameras are checked less often
/// during long exposures, mounts more often for their tracking status.
pub fn get_heartbeat_config(device_type: DeviceType) -> (r: HeartbeatConfig)
    ensures
        r == heartbeat_config_spec(device_type),
        r.valid(),
{
    match device_type {
        DeviceType::Camera => HeartbeatConfig {
            base_interval_ms: 10_000,
            max_interval_ms: 60_000,
            failure_threshold: 3,
            backoff_percent: 200,
        },
        DeviceType::Mount => HeartbeatConfig {
            base_interval_ms: 5_000,
            max_interval_ms: 30_000,
            failure_threshold: 2,
            backoff_percent: 150,
        },
        DeviceType::Focuser => HeartbeatConfig {
            base_interval_ms: 15_000,
            max_interval_ms: 60_000,
            failure_threshold: 3,
            backoff_percent: 200,
        },
        DeviceType::FilterWheel => HeartbeatConfig {
            base_interval_ms: 20_000,
            max_interval_ms: 120_000,
            failure_threshold: 3,
            backoff_percent: 200,
        },
        _ => HeartbeatConfig {
            base_interval_ms: 10_000,
            max_interval_ms: 60_000,
            failure_threshold: 3,
            backoff_percent: 200,
        },
    }
}

/// The text of the health-check error for simulator devices.
pub open spec fn simulator_disabled_message() -> Seq<char> {
    "Simulator devices are disabled. Connect real hardware or use INDI/ASCOM/Alpaca simulators for testing."@
}

/// The health check of a device reached through `driver_type`: simulator
/// devices are disabled and always fail; the other drivers report healthy.
pub fn health_check_for_driver(driver_type: DriverType) -> (r: Result<bool, String>)
    ensures
        match driver_type {
            DriverType::Simulator => r matches Err(m) && m@ == simulator_disabled_message(),
            _ => r == Ok::<bool, String>(true),
        },
{
    match driver_type {
        DriverType::Simulator => Err(
            String::from_str(
                "Simulator devices are disabled. Connect real hardware or use INDI/ASCOM/Alpaca simulators for testing.",
            ),
        ),
        _ => Ok(true),
    }
}

/// State of one heartbeat monitoring task.
#[derive(Debug, Clone, Copy, PartialEq, Eq, Structural)]
pub struct HeartbeatMonitor {
    /// Current wait between checks, in microseconds
    pub interval_us: u64,
    /// Failed checks since the last successful one
    pub consecutive_failures: u32,
}

/// What the monitoring task does after a check.
#[derive(Debug, Clone, Copy, PartialEq, Eq, Structural)]
pub enum HeartbeatAction {
    /// Wait `interval_us` and check again
    Continue,
    /// Publish the device as disconnected after this many failures and stop
    MarkDisconnected { failures: u32 },
}

/// Heartbeat settings for a device type when the caller asks for checks
/// every `interval_ms`: the device type's failure threshold and backoff, the
/// requested interval as the base, and the larger of the type's maximum and
/// the requested interval as the maximum.
pub open spec fn requested_config_spec(device_type: DeviceType, interval_ms: u64) -> HeartbeatConfig {
    let t = heartbeat_config_spec(device_type);
    HeartbeatConfig {
        base_interval_ms: interval_ms,
        max_interval_ms: if interval_ms > t.max_interval_ms {
            interval_ms
        } else {
            t.max_interval_ms
        },
        failure_threshold: t.failure_threshold,
        backoff_percent: t.backoff_percent,
    }
}

/// Settings for checking a device every `interval_ms` milliseconds (the
/// interval must be countable in microseconds within `u64`).
pub fn heartbeat_config_for_interval(device_type: DeviceType, interval_ms: u64) -> (r: HeartbeatConfig)
    requires
        interval_ms <= MAX_INTERVAL_MS,
    ensures
        r == requested_config_spec(device_type, interval_ms),
        r.valid(),
        r.base_us() == interval_ms * 1000,
{
    let t = get_heartbeat_config(device_type);
    let max_interval_ms = if interval_ms > t.max_interval_ms {
        interval_ms
    } else {
        t.max_interval_ms
    };
    HeartbeatConfig {
        base_interval_ms: interval_ms,
        max_interval_ms,
        failure_threshold: t.failure_threshold,
        backoff_percent: t.backoff_percent,
    }
}

/// Law: with the settings for a requested interval, monitoring starts by
/// waiting that interval, and every successful check brings the wait back to it.
pub proof fn law_requested_interval_kept(
    device_type: DeviceType,
    interval_ms: u64,
    monitor: HeartbeatMonitor,
)
    requires
        interval_ms <= MAX_INTERVAL_MS,
    ensures
        initial_monitor_spec(requested_config_spec(device_type, interval_ms)).interval_us
            == interval_ms * 1000,
        heartbeat_step_spec(requested_config_spec(device_type, interval_ms), monitor, true).0.interval_us
            == interval_ms * 1000,
{
}

/// The wait after a failed check: the current wait times the backoff factor,
/// but no more than the maximum.
pub open spec fn backoff_interval(config: HeartbeatConfig, current_us: nat) -> nat {
    let grown = current_us * (config.backoff_percent as nat) / 100;
    if grown < config.max_us() {
        grown
    } else {
        config.max_us()
    }
}

/// The monitor at the start of monitoring.
pub open spec fn initial_monitor_spec(config: HeartbeatConfig) -> HeartbeatMonitor {
    HeartbeatMonitor { interval_us: config.base_us() as u64, consecutive_failures: 0 }
}

/// The state after one check, and what to do next.
pub open spec fn heartbeat_step_spec(
    config: HeartbeatConfig,
    monitor: HeartbeatMonitor,
    healthy: bool,
) -> (HeartbeatMonitor, HeartbeatAction) {
    if healthy {
        (initial_monitor_spec(config), HeartbeatAction::Continue)
    } else {
        let failures = (monitor.consecutive_failures + 1) as u32;
        let next = HeartbeatMonitor {
            interval_us: backoff_interval(config, monitor.interval_us as nat) as u64,
            consecutive_failures: failures,
        };
        if failures >= config.failure_threshold {
            (next, HeartbeatAction::MarkDisconnected { failures })
        } else {
            (next, HeartbeatAction::Continue)
        }
    }
}

/// The monitor at the start of monitoring: the base interval, no failures.
pub fn initial_monitor(config: HeartbeatConfig) -> (r: HeartbeatMonitor)
    requires
        config.valid(),
    ensures
        r == initial_monitor_spec(config),
{
    HeartbeatMonitor { interval_us: config.base_interval_ms * MICROS_PER_MS, consecutive_failures: 0 }
}

/// One check's outcome applied to the monitor: a success resets the failure
/// count and the interval; a failure counts, backs the interval off up to the
/// maximum, and at the failure threshold asks for the device to be marked
/// disconnected.
pub fn heartbeat_step(config: HeartbeatConfig, monitor: HeartbeatMonitor, healthy: bool) -> (r: (
    HeartbeatMonitor,
    HeartbeatAction,
))
    requires
        config.valid(),
        monitor.consecutive_failures < u32::MAX,
    ensures
        r == heartbeat_step_spec(config, monitor, healthy),
{
    if healthy {
        (initial_monitor(config), HeartbeatAction::Continue)
    } else {
        let failures = monitor.consecutive_failures + 1;
        let max_us = config.max_interval_ms * MICROS_PER_MS;
        let cur = monitor.interval_us as u128;
        let pct = config.backoff_percent as u128;
        proof {
            assert(cur * pct <= 0xffff_ffff_ffff_ffffu128 * 1000) by (nonlinear_arith)
                requires
                    cur <= 0xffff_ffff_ffff_ffffu128,
                    pct <= 1000,
            ;
        }
        let grown: u128 = cur * pct / 100;
        let interval = if grown < max_us as u128 {
            grown as u64
        } else {
            max_us
        };
        let next = HeartbeatMonitor { interval_us: interval, consecutive_failures: failures };
        if failures >= config.failure_threshold {
            (next, HeartbeatAction::MarkDisconnected { failures })
        } else {
            (next, HeartbeatAction::Continue)
        }
    }
}

/// The outcome of a health check as the monitor counts it: only `Ok(true)` is healthy.
pub fn check_is_healthy(result: &Result<bool, String>) -> (r: bool)
    ensures
        r == (*result matches Ok(b) && b),
{
    match result {
        Ok(b) => *b,
        Err(_) => false,
    }
}

/// The monitor after `n` failed checks in a row from the start.
pub open spec fn after_failures(config: HeartbeatConfig, n: nat) -> HeartbeatMonitor
    decreases n,
{
    if n == 0 {
        initial_monitor_spec(config)
    } else {
        heartbeat_step_spec(config, after_failures(config, (n - 1) as nat), false).0
    }
}

/// Law: with valid settings the wait between checks never drops below the
/// base interval nor grows beyond the maximum, whatever the checks report.
pub proof fn law_heartbeat_interval_bounded(
    config: HeartbeatConfig,
    monitor: HeartbeatMonitor,
    healthy: bool,
)
    requires
        config.valid(),
        config.base_us() <= monitor.interval_us <= config.max_us(),
    ensures
        config.base_us() <= heartbeat_step_spec(config, monitor, healthy).0.interval_us
            <= config.max_us(),
{
    let cur = monitor.interval_us as nat;
    let pct = config.backoff_percent as nat;
    assert(cur * pct / 100 >= cur) by (nonlinear_arith)
        requires
            pct >= 100,
    ;
}

/// Law: a successful check forgets earlier failures and returns to the base interval.
pub proof fn law_heartbeat_success_resets(config: HeartbeatConfig, monitor: HeartbeatMonitor)
    requires
        config.valid(),
    ensures
        heartbeat_step_spec(config, monitor, true) == (
            initial_monitor_spec(config),
            HeartbeatAction::Continue,
        ),
{
}

/// Law: from the start of monitoring, the device is marked disconnected on
/// exactly the failure that reaches the threshold: the earlier failures in a
/// row let monitoring continue.
pub proof fn law_heartbeat_disconnects_at_threshold(config: HeartbeatConfig, n: nat)
    requires
        config.valid(),
        1 <= n <= config.failure_threshold,
    ensures
        after_failures(config, (n - 1) as nat).consecutive_failures == n - 1,
        heartbeat_step_spec(config, after_failures(config, (n - 1) as nat), false).1 == (if n
            == config.failure_threshold {
            HeartbeatAction::MarkDisconnected { failures: n as u32 }
        } else {
            HeartbeatAction::Continue
        }),
    decreases n,
{
    if n > 1 {
        law_heartbeat_disconnects_at_threshold(config, (n - 1) as nat);
    }
}

} // verus!

verus! {

/// Law: mounts are checked most often (every 5 s, giving up after 2
/// failures), cameras every 10 s, focusers every 15 s and filter wheels every
/// 20 s; every device type's settings can be run.
pub proof fn law_heartbeat_schedule_by_type(t: DeviceType)
    ensures
        heartbeat_config_spec(t).valid(),
        heartbeat_config_spec(DeviceType::Mount).base_interval_ms == 5_000,
        heartbeat_config_spec(DeviceType::Mount).failure_threshold == 2,
        heartbeat_config_spec(DeviceType::Camera).base_interval_ms == 10_000,
        heartbeat_config_spec(DeviceType::Focuser).base_interval_ms == 15_000,
        heartbeat_config_spec(DeviceType::FilterWheel).base_interval_ms == 20_000,
        heartbeat_config_spec(DeviceType::Mount).base_interval_ms < heartbeat_config_spec(
            t,
        ).base_interval_ms || t == DeviceType::Mount,
        heartbeat_config_spec(t).failure_threshold >= 2,
{
}

} // verus!
