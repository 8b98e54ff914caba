//! Decisions of the driver wrappers: state and code mappings, argument
//! checks, and how a worker's reply becomes a driver result.
use vstd::prelude::*;

use crate::case::{lowercase_of, to_lowercase};
use crate::device::CameraConnectionHealth;
use crate::device_id::is_simulator_id;
use crate::text::{concat2, decimal_string, decimal_text, has_prefix, str_eq};

verus! {

// ---------------------------------------------------------------------------
// Camera
// ---------------------------------------------------------------------------

/// What a camera is doing.
#[derive(Debug, Clone, Copy, PartialEq, Eq, Structural)]
pub enum CameraState {
    Idle,
    Exposing,
    Reading,
    Downloading,
    Error,
}

pub open spec fn ascom_camera_state_spec(code: Option<i32>) -> CameraState {
    let c = match code {
        Some(c) => c,
        None => 0,
    };
    if c == 2 {
        CameraState::Exposing
    } else if c == 3 {
        CameraState::Reading
    } else if c == 4 {
        CameraState::Downloading
    } else if c == 5 {
        CameraState::Error
    } else {
        CameraState::Idle
    }
}

/// The camera state of an ASCOM `CameraState` code (a missing code counts as
/// idle, waiting is idle, unknown codes are idle).
pub fn ascom_camera_state(code: Option<i32>) -> (r: CameraState)
    ensures
        r == ascom_camera_state_spec(code),
{
    let c = match code {
        Some(c) => c,
        None => 0,
    };
    match c {
        0 | 1 => CameraState::Idle,
        2 => CameraState::Exposing,
        3 => CameraState::Reading,
        4 => CameraState::Downloading,
        5 => CameraState::Error,
        _ => CameraState::Idle,
    }
}

/// The status an ASCOM camera reports, apart from its temperatures.
#[derive(Debug, Clone, Copy, PartialEq, Eq, Structural)]
pub struct AscomCameraStatus {
    pub state: CameraState,
    pub cooler_on: bool,
    pub gain: i32,
    pub offset: i32,
    pub bin_x: i32,
    pub bin_y: i32,
    /// Whether a target temperature is reported: the camera can set its
    /// temperature, and the default set point stands in for the write-only value
    pub reports_target_temp: bool,
}

/// The integer in an optional reading, or `default` when it could not be read.
pub open spec fn or_default(v: Option<i32>, default: i32) -> i32 {
    match v {
        Some(x) => x,
        None => default,
    }
}

/// The status assembled from an ASCOM camera's batch of readings: unread
/// values fall back to idle, cooler off, gain and offset 0 and binning 1.
pub open spec fn ascom_camera_status_spec(
    state: Option<i32>,
    cooler_on: Option<bool>,
    gain: Option<i32>,
    offset: Option<i32>,
    bin_x: Option<i32>,
    bin_y: Option<i32>,
    can_set_temperature: Option<bool>,
) -> AscomCameraStatus {
    AscomCameraStatus {
        state: ascom_camera_state_spec(state),
        cooler_on: cooler_on == Some(true),
        gain: or_default(gain, 0),
        offset: or_default(offset, 0),
        bin_x: or_default(bin_x, 1),
        bin_y: or_default(bin_y, 1),
        reports_target_temp: can_set_temperature == Some(true),
    }
}

/// Assembles a camera status from the readings an ASCOM camera returned.
pub fn ascom_camera_status(
    state: Option<i32>,
    cooler_on: Option<bool>,
    gain: Option<i32>,
    offset: Option<i32>,
    bin_x: Option<i32>,
    bin_y: Option<i32>,
    can_set_temperature: Option<bool>,
) -> (r: AscomCameraStatus)
    ensures
        r == ascom_camera_status_spec(state, cooler_on, gain, offset, bin_x, bin_y, can_set_temperature),
{
    AscomCameraStatus {
        state: ascom_camera_state(state),
        cooler_on: match cooler_on {
            Some(b) => b,
            None => false,
        },
        gain: match gain {
            Some(g) => g,
            None => 0,
        },
        offset: match offset {
            Some(o) => o,
            None => 0,
        },
        bin_x: match bin_x {
            Some(b) => b,
            None => 1,
        },
        bin_y: match bin_y {
            Some(b) => b,
            None => 1,
        },
        reports_target_temp: match can_set_temperature {
            Some(b) => b,
            None => false,
        },
    }
}

/// Whether a region of interest fits the sensor: its far edges, counted as
/// `i32`, may not pass the sensor size (taken as 1 when it cannot be read).
pub open spec fn subframe_fits_spec(
    start_x: u32,
    start_y: u32,
    width: u32,
    height: u32,
    max_x: Option<i32>,
    max_y: Option<i32>,
) -> bool {
    (start_x as i32) + (width as i32) <= or_default(max_x, 1) && (start_y as i32) + (height as i32)
        <= or_default(max_y, 1)
}

/// Checks a region of interest against the sensor size before it is set.
pub fn check_subframe(
    start_x: u32,
    start_y: u32,
    width: u32,
    height: u32,
    max_x: Option<i32>,
    max_y: Option<i32>,
) -> (r: Result<(), String>)
    requires
        i32::MIN <= (start_x as i32) + (width as i32) <= i32::MAX,
        i32::MIN <= (start_y as i32) + (height as i32) <= i32::MAX,
    ensures
        match r {
            Ok(()) => subframe_fits_spec(start_x, start_y, width, height, max_x, max_y),
            Err(m) => !subframe_fits_spec(start_x, start_y, width, height, max_x, max_y) && m@
                == "Subframe exceeds sensor bounds"@,
        },
{
    let mx = match max_x {
        Some(v) => v,
        None => 1,
    };
    let my = match max_y {
        Some(v) => v,
        None => 1,
    };
    if start_x as i32 + width as i32 > mx || start_y as i32 + height as i32 > my {
        Err(String::from_str("Subframe exceeds sensor bounds"))
    } else {
        Ok(())
    }
}

/// State of a dome's shutter.
#[derive(Debug, Clone, Copy, PartialEq, Eq, Structural)]
pub enum ShutterState {
    Open,
    Closed,
    Opening,
    Closing,
    Error,
    Unknown,
}

pub open spec fn ascom_shutter_state_spec(code: Option<i32>) -> ShutterState {
    let c = match code {
        Some(c) => c,
        None => 4,
    };
    if c == 0 {
        ShutterState::Open
    } else if c == 1 {
        ShutterState::Closed
    } else if c == 2 {
        ShutterState::Opening
    } else if c == 3 {
        ShutterState::Closing
    } else if c == 4 {
        ShutterState::Error
    } else {
        ShutterState::Unknown
    }
}

/// The shutter state of an ASCOM `ShutterStatus` code (a code that could not
/// be read counts as an error, codes outside 0..=4 as unknown).
pub fn ascom_shutter_state(code: Option<i32>) -> (r: ShutterState)
    ensures
        r == ascom_shutter_state_spec(code),
{
    let c = match code {
        Some(c) => c,
        None => 4,
    };
    match c {
        0 => ShutterState::Open,
        1 => ShutterState::Closed,
        2 => ShutterState::Opening,
        3 => ShutterState::Closing,
        4 => ShutterState::Error,
        _ => ShutterState::Unknown,
    }
}

/// Connection health as the ASCOM layer reports it.
#[derive(Debug, Clone, Copy, PartialEq, Eq, Structural)]
pub enum AscomConnectionHealth {
    Healthy,
    Degraded,
    Failed,
    Unknown,
}

/// The camera health after a heartbeat: the reported health when the
/// heartbeat call went through, degraded when it failed.
pub fn camera_health_after_heartbeat(heartbeat: &Result<AscomConnectionHealth, String>) -> (r:
    CameraConnectionHealth)
    ensures
        r == match *heartbeat {
            Ok(AscomConnectionHealth::Healthy) => CameraConnectionHealth::Healthy,
            Ok(AscomConnectionHealth::Degraded) => CameraConnectionHealth::Degraded,
            Ok(AscomConnectionHealth::Failed) => CameraConnectionHealth::Failed,
            Ok(AscomConnectionHealth::Unknown) => CameraConnectionHealth::Unknown,
            Err(_) => CameraConnectionHealth::Degraded,
        },
{
    match heartbeat {
        Ok(AscomConnectionHealth::Healthy) => CameraConnectionHealth::Healthy,
        Ok(AscomConnectionHealth::Degraded) => CameraConnectionHealth::Degraded,
        Ok(AscomConnectionHealth::Failed) => CameraConnectionHealth::Failed,
        Ok(AscomConnectionHealth::Unknown) => CameraConnectionHealth::Unknown,
        Err(_) => CameraConnectionHealth::Degraded,
    }
}

/// Decimal text of a signed number, with a leading `-` when negative.
pub open spec fn int_text(i: int) -> Seq<char> {
    if i < 0 {
        seq!['-'] + decimal_text((-i) as nat)
    } else {
        decimal_text(i as nat)
    }
}

/// Decimal text of an `i32`.
pub fn i32_string(i: i32) -> (r: String)
    ensures
        r@ == int_text(i as int),
{
    proof {
        reveal_strlit("-");
    }
    if i < 0 {
        let m = (0i64 - (i as i64)) as u64;
        let d = decimal_string(m);
        let r = concat2("-", d.as_str());
        assert(r@ =~= seq!['-'] + decimal_text(m as nat));
        r
    } else {
        decimal_string(i as u64)
    }
}

/// The message for a binning the camera does not offer.
pub open spec fn binning_error_text(bin_x: i32, bin_y: i32, max_x: i32, max_y: i32) -> Seq<char> {
    "Binning "@ + int_text(bin_x as int) + "x"@ + int_text(bin_y as int) + " exceeds max "@
        + int_text(max_x as int) + "x"@ + int_text(max_y as int)
}

/// Checks a binning against the camera's maximum (a missing maximum counts as 1).
pub fn check_binning(bin_x: i32, bin_y: i32, max_bin_x: Option<i32>, max_bin_y: Option<i32>) -> (r:
    Result<(), String>)
    ensures
        ({
            let mx = match max_bin_x {
                Some(m) => m,
                None => 1,
            };
            let my = match max_bin_y {
                Some(m) => m,
                None => 1,
            };
            match r {
                Ok(_) => bin_x <= mx && bin_y <= my,
                Err(m) => (bin_x > mx || bin_y > my) && m@ == binning_error_text(bin_x, bin_y, mx, my),
            }
        }),
{
    let mx = match max_bin_x {
        Some(m) => m,
        None => 1,
    };
    let my = match max_bin_y {
        Some(m) => m,
        None => 1,
    };
    if bin_x > mx || bin_y > my {
        let m = String::from_str("Binning ").concat(i32_string(bin_x).as_str()).concat("x").concat(
            i32_string(bin_y).as_str(),
        ).concat(" exceeds max ").concat(i32_string(mx).as_str()).concat("x").concat(
            i32_string(my).as_str(),
        );
        Err(m)
    } else {
        Ok(())
    }
}

// ---------------------------------------------------------------------------
// Mount
// ---------------------------------------------------------------------------

/// Guiding pulse directions.
#[derive(Debug, Clone, Copy, PartialEq, Eq, Structural)]
pub enum GuideDirection {
    North,
    South,
    East,
    West,
}

/// The direction a lower-cased direction word names.
pub open spec fn guide_direction_spec(lower: Seq<char>) -> Option<GuideDirection> {
    if lower == "north"@ || lower == "n"@ {
        Some(GuideDirection::North)
    } else if lower == "south"@ || lower == "s"@ {
        Some(GuideDirection::South)
    } else if lower == "east"@ || lower == "e"@ {
        Some(GuideDirection::East)
    } else if lower == "west"@ || lower == "w"@ {
        Some(GuideDirection::West)
    } else {
        None
    }
}

/// The guide direction named by a word (`north`/`n`, `south`/`s`,
/// `east`/`e`, `west`/`w`, in any case).
pub fn parse_guide_direction(direction: &str) -> (r: Result<GuideDirection, String>)
    ensures
        match r {
            Ok(d) => guide_direction_spec(lowercase_of(direction@)) == Some(d),
            Err(m) => guide_direction_spec(lowercase_of(direction@)) is None && m@
                == "Invalid direction: "@ + direction@,
        },
{
    let lower = to_lowercase(direction);
    let l = lower.as_str();
    if str_eq(l, "north") || str_eq(l, "n") {
        Ok(GuideDirection::North)
    } else if str_eq(l, "south") || str_eq(l, "s") {
        Ok(GuideDirection::South)
    } else if str_eq(l, "east") || str_eq(l, "e") {
        Ok(GuideDirection::East)
    } else if str_eq(l, "west") || str_eq(l, "w") {
        Ok(GuideDirection::West)
    } else {
        Err(concat2("Invalid direction: ", direction))
    }
}

/// Whether a direction word is one of the accepted guide directions.
pub fn is_valid_guide_direction(direction: &str) -> (r: bool)
    ensures
        r == (guide_direction_spec(lowercase_of(direction@)) is Some),
{
    parse_guide_direction(direction).is_ok()
}

/// What a pulse-guide request does once its direction is accepted.
pub enum PulseGuidePlan {
    /// A simulated mount just waits this many milliseconds
    SimulatorWait { wait_ms: u64 },
    /// A real mount is asked, through the device manager, to guide this long
    Device { direction: String, duration_ms: u32 },
}

/// The plan of a pulse-guide request: an unknown direction word is refused
/// with `Unknown direction: <word>` before anything else happens; a simulated
/// mount waits the duration; a real mount gets the direction as given. The
/// duration is taken as the unsigned integer of the same bits, as a cast does.
pub fn plan_pulse_guide(device_id: &str, direction: String, duration_ms: i32) -> (r: Result<
    PulseGuidePlan,
    String,
>)
    ensures
        match r {
            Ok(PulseGuidePlan::SimulatorWait { wait_ms }) => guide_direction_spec(
                lowercase_of(direction@),
            ) is Some && has_prefix(device_id@, "sim_"@) && wait_ms == duration_ms as u64,
            Ok(PulseGuidePlan::Device { direction: d, duration_ms: ms }) => guide_direction_spec(
                lowercase_of(direction@),
            ) is Some && !has_prefix(device_id@, "sim_"@) && d@ == direction@ && ms
                == duration_ms as u32,
            Err(m) => guide_direction_spec(lowercase_of(direction@)) is None && m@
                == "Unknown direction: "@ + direction@,
        },
{
    if !is_valid_guide_direction(direction.as_str()) {
        return Err(concat2("Unknown direction: ", direction.as_str()));
    }
    if is_simulator_id(device_id) {
        Ok(PulseGuidePlan::SimulatorWait { wait_ms: duration_ms as u64 })
    } else {
        Ok(PulseGuidePlan::Device { direction, duration_ms: duration_ms as u32 })
    }
}

/// Whether a mount may be parked, from its `CanPark` reading: parking goes
/// ahead only when the mount says it can park.
pub fn park_permission(can_park: Result<bool, String>) -> (r: Result<(), String>)
    ensures
        match can_park {
            Ok(true) => r is Ok,
            Ok(false) => r matches Err(m) && m@ == "Mount does not support Park"@,
            Err(e) => r matches Err(m) && m@ == "Failed to check CanPark: "@ + e@,
        },
{
    match can_park {
        Ok(true) => Ok(()),
        Ok(false) => Err(String::from_str("Mount does not support Park")),
        Err(e) => Err(concat2("Failed to check CanPark: ", e.as_str())),
    }
}

/// The ASCOM `GuideDirections` code of a direction.
pub fn ascom_guide_direction_code(d: GuideDirection) -> (r: i32)
    ensures
        r == match d {
            GuideDirection::North => 0i32,
            GuideDirection::South => 1i32,
            GuideDirection::East => 2i32,
            GuideDirection::West => 3i32,
        },
{
    match d {
        GuideDirection::North => 0,
        GuideDirection::South => 1,
        GuideDirection::East => 2,
        GuideDirection::West => 3,
    }
}

/// Mount tracking rates.
#[derive(Debug, Clone, Copy, PartialEq, Eq, Structural)]
pub enum TrackingRate {
    Sidereal,
    Lunar,
    Solar,
    King,
    Custom,
}

/// The ASCOM `DriveRates` code of a tracking rate; custom rates have none.
pub fn tracking_rate_code(rate: TrackingRate) -> (r: Option<i32>)
    ensures
        r == match rate {
            TrackingRate::Sidereal => Some(0i32),
            TrackingRate::Lunar => Some(1i32),
            TrackingRate::Solar => Some(2i32),
            TrackingRate::King => Some(3i32),
            TrackingRate::Custom => None::<i32>,
        },
{
    match rate {
        TrackingRate::Sidereal => Some(0),
        TrackingRate::Lunar => Some(1),
        TrackingRate::Solar => Some(2),
        TrackingRate::King => Some(3),
        TrackingRate::Custom => None,
    }
}

/// The tracking rate an ASCOM mount reports; codes beyond King are custom.
pub fn tracking_rate_from_ascom(code: i32) -> (r: TrackingRate)
    ensures
        r == (if code == 0 {
            TrackingRate::Sidereal
        } else if code == 1 {
            TrackingRate::Lunar
        } else if code == 2 {
            TrackingRate::Solar
        } else if code == 3 {
            TrackingRate::King
        } else {
            TrackingRate::Custom
        }),
{
    match code {
        0 => TrackingRate::Sidereal,
        1 => TrackingRate::Lunar,
        2 => TrackingRate::Solar,
        3 => TrackingRate::King,
        _ => TrackingRate::Custom,
    }
}

/// The tracking rate a caller's code asks a native mount for (4 is custom);
/// other codes are refused.
pub fn tracking_rate_request(rate: i32) -> (r: Result<TrackingRate, String>)
    ensures
        match r {
            Ok(t) => 0 <= rate <= 4 && t == (if rate == 0 {
                TrackingRate::Sidereal
            } else if rate == 1 {
                TrackingRate::Lunar
            } else if rate == 2 {
                TrackingRate::Solar
            } else if rate == 3 {
                TrackingRate::King
            } else {
                TrackingRate::Custom
            }),
            Err(m) => !(0 <= rate <= 4) && m@ == "Invalid tracking rate: "@ + int_text(rate as int),
        },
{
    match rate {
        0 => Ok(TrackingRate::Sidereal),
        1 => Ok(TrackingRate::Lunar),
        2 => Ok(TrackingRate::Solar),
        3 => Ok(TrackingRate::King),
        4 => Ok(TrackingRate::Custom),
        _ => Err(concat2("Invalid tracking rate: ", i32_string(rate).as_str())),
    }
}

/// Side of the pier.
#[derive(Debug, Clone, Copy, PartialEq, Eq, Structural)]
pub enum PierSide {
    East,
    West,
    Unknown,
}

/// The pier side of an ASCOM `PierSide` code.
pub fn pier_side_from_ascom(code: i32) -> (r: PierSide)
    ensures
        r == (if code == 0 {
            PierSide::East
        } else if code == 1 {
            PierSide::West
        } else {
            PierSide::Unknown
        }),
{
    match code {
        0 => PierSide::East,
        1 => PierSide::West,
        _ => PierSide::Unknown,
    }
}

// ---------------------------------------------------------------------------
// Filter wheel
// ---------------------------------------------------------------------------

/// An ASCOM filter wheel is moving while it reports position -1; a failed
/// read counts as not moving.
pub fn filter_wheel_moving(position: &Result<i32, String>) -> (r: bool)
    ensures
        r == (*position matches Ok(p) && p == -1),
{
    match position {
        Ok(p) => *p == -1,
        Err(_) => false,
    }
}

// ---------------------------------------------------------------------------
// Worker replies
// ---------------------------------------------------------------------------

/// The text `format!("{:?}", Duration::from_millis(ms))` gives.
pub uninterp spec fn duration_debug_text(ms: u64) -> Seq<char>;

/// `Debug` text of a duration: the claim is only that it is a function of
/// the number of milliseconds, named `duration_debug_text`.
#[verifier::external_body]
fn duration_text(ms: u64) -> (r: String)
    ensures
        r@ == duration_debug_text(ms),
{
    format!("{:?}", std::time::Duration::from_millis(ms))
}

/// How waiting for a worker thread's reply ended.
pub enum ReplyOutcome<T> {
    /// The worker replied with this result
    Replied(Result<T, String>),
    /// The worker's reply channel closed without a reply
    WorkerGone,
    /// No reply came within the timeout
    TimedOut,
}

/// Errors of a driver operation.
#[derive(Debug, Clone, PartialEq, Eq)]
pub enum DriverError {
    /// The device or its SDK reported this error
    Sdk(String),
    /// Something unexpected happened
    Unknown(String),
    /// The operation did not finish in time
    Timeout(String),
}

/// The driver result of a worker reply: the worker's error becomes an SDK
/// error; a lost worker and a timeout are reported with the operation's name.
pub fn classify_reply<T>(outcome: ReplyOutcome<T>, device: &str, operation: &str, timeout_ms: u64) -> (r:
    Result<T, DriverError>)
    ensures
        match outcome {
            ReplyOutcome::Replied(Ok(v)) => r == Ok::<T, DriverError>(v),
            ReplyOutcome::Replied(Err(e)) => r matches Err(DriverError::Sdk(m)) && m@ == e@,
            ReplyOutcome::WorkerGone => r matches Err(DriverError::Unknown(m)) && m@
                == "Worker thread dead during "@ + operation@,
            ReplyOutcome::TimedOut => r matches Err(DriverError::Timeout(m)) && m@ == device@ + " "@
                + operation@ + " timed out after "@ + duration_debug_text(timeout_ms),
        },
{
    match outcome {
        ReplyOutcome::Replied(Ok(v)) => Ok(v),
        ReplyOutcome::Replied(Err(e)) => Err(DriverError::Sdk(e)),
        ReplyOutcome::WorkerGone => Err(
            DriverError::Unknown(concat2("Worker thread dead during ", operation)),
        ),
        ReplyOutcome::TimedOut => {
            let t = duration_text(timeout_ms);
            let m = String::from_str(device).concat(" ").concat(operation).concat(
                " timed out after ",
            ).concat(t.as_str());
            Err(DriverError::Timeout(m))
        },
    }
}

/// The reply of a worker whose errors are plain texts (dome, switch and cover
/// calibrator wrappers): the worker's own result, or the text of the failure.
pub fn classify_text_reply<T>(outcome: ReplyOutcome<T>, device: &str, operation: &str, timeout_ms: u64) -> (r:
    Result<T, String>)
    ensures
        match outcome {
            ReplyOutcome::Replied(res) => r == res,
            ReplyOutcome::WorkerGone => r matches Err(m) && m@ == "Worker thread dead during "@
                + operation@,
            ReplyOutcome::TimedOut => r matches Err(m) && m@ == device@ + " "@ + operation@
                + " timed out after "@ + duration_debug_text(timeout_ms),
        },
{
    match outcome {
        ReplyOutcome::Replied(res) => res,
        ReplyOutcome::WorkerGone => Err(concat2("Worker thread dead during ", operation)),
        ReplyOutcome::TimedOut => {
            let t = duration_text(timeout_ms);
            Err(
                String::from_str(device).concat(" ").concat(operation).concat(
                    " timed out after ",
                ).concat(t.as_str()),
            )
        },
    }
}

} // verus!

verus! {

/// Law: the reported cooler state is the camera's own `CoolerOn` reading (off
/// when it could not be read), whatever the camera says about setting its
/// temperature; likewise gain, offset and binning are their readings or the
/// defaults 0, 0, 1 and 1.
pub proof fn law_camera_status_takes_each_reading(
    state: Option<i32>,
    cooler_on: Option<bool>,
    gain: Option<i32>,
    offset: Option<i32>,
    bin_x: Option<i32>,
    bin_y: Option<i32>,
    can_set_a: Option<bool>,
    can_set_b: Option<bool>,
)
    ensures
        ({
            let s = ascom_camera_status_spec(state, cooler_on, gain, offset, bin_x, bin_y, can_set_a);
            let t = ascom_camera_status_spec(state, cooler_on, gain, offset, bin_x, bin_y, can_set_b);
            &&& s.cooler_on == (cooler_on == Some(true))
            &&& s.cooler_on == t.cooler_on
            &&& (gain matches Some(g) ==> s.gain == g) && (gain is None ==> s.gain == 0)
            &&& (offset matches Some(o) ==> s.offset == o) && (offset is None ==> s.offset == 0)
            &&& (bin_x matches Some(b) ==> s.bin_x == b) && (bin_x is None ==> s.bin_x == 1)
            &&& (bin_y matches Some(b) ==> s.bin_y == b) && (bin_y is None ==> s.bin_y == 1)
            &&& s.reports_target_temp == (can_set_a == Some(true))
        }),
{
}

} // verus!

verus! {

/// Law: the ASCOM `CameraState` codes name the camera's activity: 2 exposing,
/// 3 reading, 4 downloading, 5 error; waiting (1), idle (0), unknown codes and
/// an unread state are idle. Distinct active codes give distinct states.
pub proof fn law_ascom_camera_state_codes(c1: i32, c2: i32)
    ensures
        ascom_camera_state_spec(Some(2)) == CameraState::Exposing,
        ascom_camera_state_spec(Some(3)) == CameraState::Reading,
        ascom_camera_state_spec(Some(4)) == CameraState::Downloading,
        ascom_camera_state_spec(Some(5)) == CameraState::Error,
        ascom_camera_state_spec(Some(0)) == CameraState::Idle,
        ascom_camera_state_spec(Some(1)) == CameraState::Idle,
        ascom_camera_state_spec(None) == CameraState::Idle,
        !(2 <= c1 <= 5) ==> ascom_camera_state_spec(Some(c1)) == CameraState::Idle,
        2 <= c1 <= 5 && 2 <= c2 <= 5 && c1 != c2 ==> ascom_camera_state_spec(Some(c1))
            != ascom_camera_state_spec(Some(c2)),
{
}

/// Law: the ASCOM `ShutterStatus` codes 0 to 4 name open, closed, opening,
/// closing and error, each a different state; other codes are unknown, and an
/// unread status is an error.
pub proof fn law_ascom_shutter_codes(c1: i32, c2: i32)
    ensures
        ascom_shutter_state_spec(Some(0)) == ShutterState::Open,
        ascom_shutter_state_spec(Some(1)) == ShutterState::Closed,
        ascom_shutter_state_spec(Some(2)) == ShutterState::Opening,
        ascom_shutter_state_spec(Some(3)) == ShutterState::Closing,
        ascom_shutter_state_spec(Some(4)) == ShutterState::Error,
        ascom_shutter_state_spec(None) == ShutterState::Error,
        !(0 <= c1 <= 4) ==> ascom_shutter_state_spec(Some(c1)) == ShutterState::Unknown,
        0 <= c1 <= 4 && 0 <= c2 <= 4 && c1 != c2 ==> ascom_shutter_state_spec(Some(c1))
            != ascom_shutter_state_spec(Some(c2)),
{
}

/// Law: a direction's full name and its initial name the same direction, and
/// the four directions are told apart.
pub proof fn law_guide_direction_words()
    ensures
        guide_direction_spec("north"@) == Some(GuideDirection::North),
        guide_direction_spec("n"@) == Some(GuideDirection::North),
        guide_direction_spec("south"@) == Some(GuideDirection::South),
        guide_direction_spec("s"@) == Some(GuideDirection::South),
        guide_direction_spec("east"@) == Some(GuideDirection::East),
        guide_direction_spec("e"@) == Some(GuideDirection::East),
        guide_direction_spec("west"@) == Some(GuideDirection::West),
        guide_direction_spec("w"@) == Some(GuideDirection::West),
        guide_direction_spec(""@) is None,
{
    reveal_strlit("north");
    reveal_strlit("n");
    reveal_strlit("south");
    reveal_strlit("s");
    reveal_strlit("east");
    reveal_strlit("e");
    reveal_strlit("west");
    reveal_strlit("w");
    reveal_strlit("");
    assert("s"@[0] != "n"@[0]);
    assert("e"@[0] != "n"@[0] && "e"@[0] != "s"@[0]);
    assert("w"@[0] != "n"@[0] && "w"@[0] != "s"@[0] && "w"@[0] != "e"@[0]);
    assert("south"@[0] != "north"@[0]);
    assert("west"@[0] != "east"@[0]);
    assert(""@.len() == 0);
    assert(""@ != "n"@ && ""@ != "s"@ && ""@ != "e"@ && ""@ != "w"@);
    assert(""@ != "north"@ && ""@ != "south"@ && ""@ != "east"@ && ""@ != "west"@);
}

} // verus!
