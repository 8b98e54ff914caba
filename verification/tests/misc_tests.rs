use nightshade_bridge::rand::{in_range_u16, in_range_u32, in_range_usize, thread_rng, Rng};
use nightshade_bridge::sequencer::{
    executor_state_name, node_kind_name, state_change_notice, ExecutorState, NodeKind,
    StateChangeNotice,
};
use nightshade_bridge::simulated::{
    filter_index_by_name, focuser_move_distance, focuser_relative_target,
    select_filter_by_name, simulated_frame_size, SimulatedFilterWheel,
};

#[test]
fn ranges_from_seeds() {
    assert_eq!(in_range_u32(17, 5, 10), 7);
    assert_eq!(in_range_u32(0x1_0000_0003, 0, 10), 3);
    assert_eq!(in_range_u16(70_000, 0, 100), (70_000u32 as u16 % 100) as u16);
    assert_eq!(in_range_usize(9, 2, 5), 2);
}

#[test]
fn generator_draws_inside_the_range() {
    let mut rng = thread_rng();
    assert!(rng.state > 0);
    for _ in 0..50 {
        let v = rng.gen_range_u32(5, 9);
        assert!((5..9).contains(&v));
        let w = rng.gen_range_u16(40000, 65535);
        assert!((40000..65535).contains(&w));
        let x = rng.gen_range_usize(0, 3);
        assert!(x < 3);
    }
    let mut fixed = Rng { state: 1 };
    fixed.advance(2);
    assert_eq!(fixed.state, 6364136223846793005u64.wrapping_add(2));
}

#[test]
fn sequencer_names() {
    assert_eq!(executor_state_name(ExecutorState::Stopping), "stopping");
    assert_eq!(executor_state_name(ExecutorState::Idle), "idle");
    assert_eq!(node_kind_name(NodeKind::ChangeFilter), "filter_change");
    assert_eq!(node_kind_name(NodeKind::SlewToTarget), "slew");
    assert_eq!(node_kind_name(NodeKind::CalibratorOff), "calibrator_off");
    assert_eq!(state_change_notice(ExecutorState::Paused), Some(StateChangeNotice::Paused));
    assert_eq!(state_change_notice(ExecutorState::Running), None);
    assert_eq!(state_change_notice(ExecutorState::Completed), Some(StateChangeNotice::Completed));
}

#[test]
fn simulated_filter_wheel() {
    let mut fw = SimulatedFilterWheel::default();
    assert_eq!(fw.position, 1);
    assert_eq!(fw.filter_count, 7);
    assert_eq!(fw.filter_names, vec!["L", "R", "G", "B", "Ha", "OIII", "SII"]);
    fw.set_by_name("Ha").unwrap();
    assert_eq!(fw.position, 5);
    assert_eq!(fw.set_by_name("ha").unwrap_err(), "Filter ha not found");
    assert_eq!(fw.position, 5);
    fw.set_position(2);
    assert_eq!(fw.position, 2);
    assert!(!fw.moving);
}

#[test]
fn filter_lookup_on_real_wheels_ignores_ascii_case() {
    let names: Vec<String> = vec!["Lum".into(), "Red".into(), "OIII".into()];
    assert_eq!(select_filter_by_name(&names, "oiii", true), Ok(3));
    assert_eq!(select_filter_by_name(&names, "oiii", false).unwrap_err(), "Filter oiii not found");
    assert_eq!(select_filter_by_name(&names, "Blue", true).unwrap_err(), "Filter 'Blue' not found");
    assert_eq!(filter_index_by_name(&names, "Red", false), Some(1));
}

#[test]
fn simulated_focuser_and_camera() {
    assert_eq!(focuser_relative_target(25000, -500), 24500);
    assert_eq!(focuser_move_distance(25000, 24000), 1000);
    assert_eq!(focuser_move_distance(100, 300), 200);
    assert_eq!(simulated_frame_size(1, 1), (4144, 2822));
    assert_eq!(simulated_frame_size(2, 3), (2072, 940));
    assert_eq!(simulated_frame_size(-1, 1), (0, 2822));
}
