use nightshade_bridge::autofocus::{
    autofocus_method, autofocus_run_result, binning_of, check_indi_autofocus_ids, AutofocusError,
    AutofocusMethod, Binning,
};
use nightshade_bridge::polar::adjustment_outcome;
use nightshade_bridge::sequencer::NodeStatus;

#[test]
fn request_mappings() {
    assert_eq!(autofocus_method("Hyperbolic"), AutofocusMethod::Hyperbolic);
    assert_eq!(autofocus_method("Parabolic"), AutofocusMethod::Quadratic);
    assert_eq!(autofocus_method("VCurve"), AutofocusMethod::VCurve);
    assert_eq!(autofocus_method("hyperbolic"), AutofocusMethod::VCurve);
    assert_eq!(binning_of(1), Binning::One);
    assert_eq!(binning_of(3), Binning::Three);
    assert_eq!(binning_of(7), Binning::One);
}

#[test]
fn run_outcomes() {
    assert_eq!(autofocus_run_result(NodeStatus::Success, None), Ok(()));
    assert_eq!(
        autofocus_run_result(NodeStatus::Failure, Some("No stars".to_string())),
        Err(AutofocusError::OperationFailed("No stars".to_string()))
    );
    assert_eq!(
        autofocus_run_result(NodeStatus::Failure, None),
        Err(AutofocusError::OperationFailed("Autofocus failed".to_string()))
    );
    assert_eq!(autofocus_run_result(NodeStatus::Cancelled, None), Err(AutofocusError::Cancelled));
    assert_eq!(
        autofocus_run_result(NodeStatus::Other, None),
        Err(AutofocusError::OperationFailed("Unknown error".to_string()))
    );
    assert!(check_indi_autofocus_ids("indi:h:7624:CCD", "indi:h:7624:Focuser").is_ok());
    assert_eq!(
        check_indi_autofocus_ids("indi:h:7624:CCD", "ascom:Focuser"),
        Err(AutofocusError::InvalidParameter("Both camera and focuser must be INDI devices".to_string()))
    );
}

#[test]
fn polar_adjustment_gives_up_on_fifth_failure() {
    let mut f = 0;
    for _ in 0..4 {
        f = adjustment_outcome(f, false).unwrap();
    }
    assert_eq!(f, 4);
    assert_eq!(adjustment_outcome(f, false).unwrap_err(), "Too many consecutive failures (5) in adjustment loop");
    assert_eq!(adjustment_outcome(3, true), Ok(0));
}
