//! How an autofocus request is put to the autofocus routine, and how its
//! outcome is answered.
use vstd::prelude::*;

use crate::sequencer::NodeStatus;
use crate::text::{has_prefix, str_eq, str_starts_with};

verus! {

/// Curve the autofocus routine fits to the focus measurements.
#[derive(Debug, Clone, Copy, PartialEq, Eq, Structural)]
pub enum AutofocusMethod {
    VCurve,
    Hyperbolic,
    Quadratic,
}

/// The curve a method name asks for: `Hyperbolic`, `Parabolic` (a quadratic
/// fit); any other name gives the V-curve.
pub fn autofocus_method(name: &str) -> (r: AutofocusMethod)
    ensures
        r == (if name@ == "Hyperbolic"@ {
            AutofocusMethod::Hyperbolic
        } else if name@ == "Parabolic"@ {
            AutofocusMethod::Quadratic
        } else {
            AutofocusMethod::VCurve
        }),
{
    if str_eq(name, "Hyperbolic") {
        AutofocusMethod::Hyperbolic
    } else if str_eq(name, "Parabolic") {
        AutofocusMethod::Quadratic
    } else {
        AutofocusMethod::VCurve
    }
}

/// Camera binning a sequence instruction runs with.
#[derive(Debug, Clone, Copy, PartialEq, Eq, Structural)]
pub enum Binning {
    One,
    Two,
    Three,
    Four,
}

/// The binning of a requested factor: 2, 3 and 4 as given, anything else 1x1.
pub fn binning_of(factor: i32) -> (r: Binning)
    ensures
        r == (if factor == 2 {
            Binning::Two
        } else if factor == 3 {
            Binning::Three
        } else if factor == 4 {
            Binning::Four
        } else {
            Binning::One
        }),
{
    match factor {
        2 => Binning::Two,
        3 => Binning::Three,
        4 => Binning::Four,
        _ => Binning::One,
    }
}

/// Why an autofocus run gave no result.
#[derive(Debug, Clone, PartialEq, Eq)]
pub enum AutofocusError {
    /// The run failed, with this message
    OperationFailed(String),
    /// The run was cancelled
    Cancelled,
    /// A request argument was refused, with this message
    InvalidParameter(String),
}

/// The answer to a finished autofocus run: a success goes on to read the
/// run's data; a failure reports the run's message (or `Autofocus failed`);
/// a cancellation is reported as such; any other status is an unknown error.
pub fn autofocus_run_result(status: NodeStatus, message: Option<String>) -> (r: Result<(), AutofocusError>)
    ensures
        match status {
            NodeStatus::Success => r is Ok,
            NodeStatus::Failure => r matches Err(AutofocusError::OperationFailed(m)) && m@ == match message {
                Some(t) => t@,
                None => "Autofocus failed"@,
            },
            NodeStatus::Cancelled => r matches Err(AutofocusError::Cancelled),
            NodeStatus::Other => r matches Err(AutofocusError::OperationFailed(m)) && m@ == "Unknown error"@,
        },
{
    match status {
        NodeStatus::Success => Ok(()),
        NodeStatus::Failure => Err(AutofocusError::OperationFailed(
            match message {
                Some(t) => t,
                None => String::from_str("Autofocus failed"),
            },
        )),
        NodeStatus::Cancelled => Err(AutofocusError::Cancelled),
        NodeStatus::Other => Err(AutofocusError::OperationFailed(String::from_str("Unknown error"))),
    }
}

/// INDI autofocus needs both the camera and the focuser to be INDI devices.
pub fn check_indi_autofocus_ids(camera_id: &str, focuser_id: &str) -> (r: Result<(), AutofocusError>)
    ensures
        match r {
            Ok(()) => has_prefix(camera_id@, "indi:"@) && has_prefix(focuser_id@, "indi:"@),
            Err(e) => {
                &&& !(has_prefix(camera_id@, "indi:"@) && has_prefix(focuser_id@, "indi:"@))
                &&& e matches AutofocusError::InvalidParameter(m) && m@
                    == "Both camera and focuser must be INDI devices"@
            },
        },
{
    if !str_starts_with(camera_id, "indi:") || !str_starts_with(focuser_id, "indi:") {
        return Err(
            AutofocusError::InvalidParameter(
                String::from_str("Both camera and focuser must be INDI devices"),
            ),
        );
    }
    Ok(())
}

} // verus!
