use nightshade_bridge::sequencer::{
    sequencer_event_of, sequencer_event_severity, ExecutorEvent, ExecutorState, NodeStatus,
    SequencerEvent, Severity,
};

#[test]
fn completed_nodes_report_success() {
    match sequencer_event_of(ExecutorEvent::NodeCompleted { id: "n1".to_string(), status: NodeStatus::Success }) {
        Some(SequencerEvent::NodeCompleted { node_id, success }) => {
            assert_eq!(node_id, "n1");
            assert!(success);
        }
        _ => panic!("expected a node-completed event"),
    }
    match sequencer_event_of(ExecutorEvent::NodeCompleted { id: "n2".to_string(), status: NodeStatus::Cancelled }) {
        Some(SequencerEvent::NodeCompleted { node_id, success }) => {
            assert_eq!(node_id, "n2");
            assert!(!success);
        }
        _ => panic!("expected a node-completed event"),
    }
}

#[test]
fn only_pause_and_completion_states_are_announced() {
    assert!(matches!(sequencer_event_of(ExecutorEvent::StateChanged(ExecutorState::Paused)), Some(SequencerEvent::Paused)));
    assert!(matches!(sequencer_event_of(ExecutorEvent::StateChanged(ExecutorState::Completed)), Some(SequencerEvent::Completed)));
    for st in [ExecutorState::Running, ExecutorState::Idle, ExecutorState::Stopping, ExecutorState::Failed] {
        assert!(sequencer_event_of(ExecutorEvent::StateChanged(st)).is_none());
    }
}

#[test]
fn fired_trigger_is_an_error() {
    let ev = sequencer_event_of(ExecutorEvent::TriggerFired {
        trigger_id: "t".to_string(),
        trigger_name: "Meridian".to_string(),
        action: "flip".to_string(),
    })
    .unwrap();
    assert_eq!(sequencer_event_severity(&ev), Severity::Error);
    match ev {
        SequencerEvent::Error { message } => assert_eq!(message, "Trigger 'Meridian' fired: flip"),
        _ => panic!("expected an error event"),
    }
    let p = sequencer_event_of(ExecutorEvent::ProgressUpdated { completed_exposures: 3, total_exposures: 10 }).unwrap();
    assert_eq!(sequencer_event_severity(&p), Severity::Info);
    assert!(matches!(p, SequencerEvent::Progress { current: 3, total: 10 }));
}
