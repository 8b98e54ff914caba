//! Names the sequencer's executor states and node kinds go by, and which
//! executor state changes are announced.
use vstd::prelude::*;

use crate::text::concat2;

verus! {

/// States of the sequence executor.
#[derive(Debug, Clone, Copy, PartialEq, Eq, Structural)]
pub enum ExecutorState {
    Idle,
    Running,
    Paused,
    Stopping,
    Completed,
    Failed,
}

/// The name of an executor state.
pub open spec fn executor_state_name_spec(s: ExecutorState) -> Seq<char> {
    match s {
        ExecutorState::Idle => "idle"@,
        ExecutorState::Running => "running"@,
        ExecutorState::Paused => "paused"@,
        ExecutorState::Stopping => "stopping"@,
        ExecutorState::Completed => "completed"@,
        ExecutorState::Failed => "failed"@,
    }
}

/// The name of an executor state, as the user interface shows it.
pub fn executor_state_name(s: ExecutorState) -> (r: &'static str)
    ensures
        r@ == executor_state_name_spec(s),
{
    match s {
        ExecutorState::Idle => "idle",
        ExecutorState::Running => "running",
        ExecutorState::Paused => "paused",
        ExecutorState::Stopping => "stopping",
        ExecutorState::Completed => "completed",
        ExecutorState::Failed => "failed",
    }
}

/// Announcements of executor state changes.
#[derive(Debug, Clone, Copy, PartialEq, Eq, Structural)]
pub enum StateChangeNotice {
    Paused,
    Completed,
}

/// The announcement of an executor state change: only pausing and
/// completion are announced.
pub fn state_change_notice(s: ExecutorState) -> (r: Option<StateChangeNotice>)
    ensures
        r == match s {
            ExecutorState::Paused => Some(StateChangeNotice::Paused),
            ExecutorState::Completed => Some(StateChangeNotice::Completed),
            _ => None::<StateChangeNotice>,
        },
{
    match s {
        ExecutorState::Paused => Some(StateChangeNotice::Paused),
        ExecutorState::Completed => Some(StateChangeNotice::Completed),
        _ => None,
    }
}

/// How a finished sequence node ended.
#[derive(Debug, Clone, Copy, PartialEq, Eq, Structural)]
pub enum NodeStatus {
    Success,
    Failure,
    Cancelled,
    /// Any other status the executor reports
    Other,
}

/// An event the sequence executor broadcasts. Floating-point payloads (the
/// progress percentage, target coordinates) are carried beside it by the caller.
pub enum ExecutorEvent {
    StateChanged(ExecutorState),
    NodeStarted { id: String, name: String },
    NodeCompleted { id: String, status: NodeStatus },
    ProgressUpdated { completed_exposures: u32, total_exposures: u32 },
    SequenceCompleted,
    SequenceFailed { error: String },
    ExposureStarted { frame: u32, total: u32, filter: Option<String> },
    ExposureCompleted { frame: u32, total: u32 },
    TargetStarted { name: String },
    TargetCompleted { name: String },
    NodeProgress { node_id: String, instruction: String, detail: String },
    Error { message: String },
    TriggerFired { trigger_id: String, trigger_name: String, action: String },
}

/// An executor event with its texts as character sequences.
pub enum ExecutorEventView {
    StateChanged(ExecutorState),
    NodeStarted { id: Seq<char>, name: Seq<char> },
    NodeCompleted { id: Seq<char>, status: NodeStatus },
    ProgressUpdated { completed_exposures: u32, total_exposures: u32 },
    SequenceCompleted,
    SequenceFailed { error: Seq<char> },
    ExposureStarted { frame: u32, total: u32, filter: Option<Seq<char>> },
    ExposureCompleted { frame: u32, total: u32 },
    TargetStarted { name: Seq<char> },
    TargetCompleted { name: Seq<char> },
    NodeProgress { node_id: Seq<char>, instruction: Seq<char>, detail: Seq<char> },
    Error { message: Seq<char> },
    TriggerFired { trigger_id: Seq<char>, trigger_name: Seq<char>, action: Seq<char> },
}

/// The characters of an optional text.
pub open spec fn opt_text(o: Option<String>) -> Option<Seq<char>> {
    match o {
        Some(t) => Some(t@),
        None => None,
    }
}

impl View for ExecutorEvent {
    type V = ExecutorEventView;

    open spec fn view(&self) -> ExecutorEventView {
        match self {
            ExecutorEvent::StateChanged(st) => ExecutorEventView::StateChanged(*st),
            ExecutorEvent::NodeStarted { id, name } => ExecutorEventView::NodeStarted { id: id@, name: name@ },
            ExecutorEvent::NodeCompleted { id, status } => ExecutorEventView::NodeCompleted {
                id: id@,
                status: *status,
            },
            ExecutorEvent::ProgressUpdated { completed_exposures, total_exposures } =>
                ExecutorEventView::ProgressUpdated {
                completed_exposures: *completed_exposures,
                total_exposures: *total_exposures,
            },
            ExecutorEvent::SequenceCompleted => ExecutorEventView::SequenceCompleted,
            ExecutorEvent::SequenceFailed { error } => ExecutorEventView::SequenceFailed { error: error@ },
            ExecutorEvent::ExposureStarted { frame, total, filter } => ExecutorEventView::ExposureStarted {
                frame: *frame,
                total: *total,
                filter: opt_text(*filter),
            },
            ExecutorEvent::ExposureCompleted { frame, total } => ExecutorEventView::ExposureCompleted {
                frame: *frame,
                total: *total,
            },
            ExecutorEvent::TargetStarted { name } => ExecutorEventView::TargetStarted { name: name@ },
            ExecutorEvent::TargetCompleted { name } => ExecutorEventView::TargetCompleted { name: name@ },
            ExecutorEvent::NodeProgress { node_id, instruction, detail } => ExecutorEventView::NodeProgress {
                node_id: node_id@,
                instruction: instruction@,
                detail: detail@,
            },
            ExecutorEvent::Error { message } => ExecutorEventView::Error { message: message@ },
            ExecutorEvent::TriggerFired { trigger_id, trigger_name, action } =>
                ExecutorEventView::TriggerFired {
                trigger_id: trigger_id@,
                trigger_name: trigger_name@,
                action: action@,
            },
        }
    }
}

/// A sequencer event as the application's event stream carries it.
pub enum SequencerEvent {
    Paused,
    Completed,
    NodeStarted { node_id: String, node_type: String },
    NodeCompleted { node_id: String, success: bool },
    Progress { current: u32, total: u32 },
    Error { message: String },
    ExposureStarted { frame: u32, total: u32, filter: Option<String> },
    ExposureCompleted { frame: u32, total: u32 },
    TargetChanged { target_name: String },
    TargetCompleted { target_name: String },
    InstructionProgress { node_id: String, instruction: String, detail: String },
}

/// A sequencer event with its texts as character sequences.
pub enum SequencerEventView {
    Paused,
    Completed,
    NodeStarted { node_id: Seq<char>, node_type: Seq<char> },
    NodeCompleted { node_id: Seq<char>, success: bool },
    Progress { current: u32, total: u32 },
    Error { message: Seq<char> },
    ExposureStarted { frame: u32, total: u32, filter: Option<Seq<char>> },
    ExposureCompleted { frame: u32, total: u32 },
    TargetChanged { target_name: Seq<char> },
    TargetCompleted { target_name: Seq<char> },
    InstructionProgress { node_id: Seq<char>, instruction: Seq<char>, detail: Seq<char> },
}

impl View for SequencerEvent {
    type V = SequencerEventView;

    open spec fn view(&self) -> SequencerEventView {
        match self {
            SequencerEvent::Paused => SequencerEventView::Paused,
            SequencerEvent::Completed => SequencerEventView::Completed,
            SequencerEvent::NodeStarted { node_id, node_type } => SequencerEventView::NodeStarted {
                node_id: node_id@,
                node_type: node_type@,
            },
            SequencerEvent::NodeCompleted { node_id, success } => SequencerEventView::NodeCompleted {
                node_id: node_id@,
                success: *success,
            },
            SequencerEvent::Progress { current, total } => SequencerEventView::Progress {
                current: *current,
                total: *total,
            },
            SequencerEvent::Error { message } => SequencerEventView::Error { message: message@ },
            SequencerEvent::ExposureStarted { frame, total, filter } => SequencerEventView::ExposureStarted {
                frame: *frame,
                total: *total,
                filter: opt_text(*filter),
            },
            SequencerEvent::ExposureCompleted { frame, total } => SequencerEventView::ExposureCompleted {
                frame: *frame,
                total: *total,
            },
            SequencerEvent::TargetChanged { target_name } => SequencerEventView::TargetChanged {
                target_name: target_name@,
            },
            SequencerEvent::TargetCompleted { target_name } => SequencerEventView::TargetCompleted {
                target_name: target_name@,
            },
            SequencerEvent::InstructionProgress { node_id, instruction, detail } =>
                SequencerEventView::InstructionProgress {
                node_id: node_id@,
                instruction: instruction@,
                detail: detail@,
            },
        }
    }
}

/// The view of an optional sequencer event.
pub open spec fn opt_event_view(r: Option<SequencerEvent>) -> Option<SequencerEventView> {
    match r {
        Some(ev) => Some(ev@),
        None => None,
    }
}

/// The message published when a trigger fires.
pub open spec fn trigger_message(name: Seq<char>, action: Seq<char>) -> Seq<char> {
    "Trigger '"@ + name + "' fired: "@ + action
}

/// What the main event stream receives for an executor event: pausing and
/// completion of the executor are announced, other state changes are not; a
/// completed node succeeded exactly when its status is `Success`; a fired
/// trigger is reported as an error naming the trigger and its action.
pub open spec fn sequencer_event_spec(e: ExecutorEventView) -> Option<SequencerEventView> {
    match e {
        ExecutorEventView::StateChanged(st) => match st {
            ExecutorState::Paused => Some(SequencerEventView::Paused),
            ExecutorState::Completed => Some(SequencerEventView::Completed),
            _ => None,
        },
        ExecutorEventView::NodeStarted { id, name } => Some(
            SequencerEventView::NodeStarted { node_id: id, node_type: name },
        ),
        ExecutorEventView::NodeCompleted { id, status } => Some(
            SequencerEventView::NodeCompleted { node_id: id, success: status == NodeStatus::Success },
        ),
        ExecutorEventView::ProgressUpdated { completed_exposures, total_exposures } => Some(
            SequencerEventView::Progress { current: completed_exposures, total: total_exposures },
        ),
        ExecutorEventView::SequenceCompleted => Some(SequencerEventView::Completed),
        ExecutorEventView::SequenceFailed { error } => Some(SequencerEventView::Error { message: error }),
        ExecutorEventView::ExposureStarted { frame, total, filter } => Some(
            SequencerEventView::ExposureStarted { frame, total, filter },
        ),
        ExecutorEventView::ExposureCompleted { frame, total } => Some(
            SequencerEventView::ExposureCompleted { frame, total },
        ),
        ExecutorEventView::TargetStarted { name } => Some(
            SequencerEventView::TargetChanged { target_name: name },
        ),
        ExecutorEventView::TargetCompleted { name } => Some(
            SequencerEventView::TargetCompleted { target_name: name },
        ),
        ExecutorEventView::NodeProgress { node_id, instruction, detail } => Some(
            SequencerEventView::InstructionProgress { node_id, instruction, detail },
        ),
        ExecutorEventView::Error { message } => Some(SequencerEventView::Error { message }),
        ExecutorEventView::TriggerFired { trigger_id, trigger_name, action } => Some(
            SequencerEventView::Error { message: trigger_message(trigger_name, action) },
        ),
    }
}

/// Translates an executor event into the event the main event stream
/// receives, or `None` for a state change that is not announced.
pub fn sequencer_event_of(e: ExecutorEvent) -> (r: Option<SequencerEvent>)
    ensures
        opt_event_view(r) == sequencer_event_spec(e@),
{
    match e {
        ExecutorEvent::StateChanged(st) => match st {
            ExecutorState::Paused => Some(SequencerEvent::Paused),
            ExecutorState::Completed => Some(SequencerEvent::Completed),
            _ => None,
        },
        ExecutorEvent::NodeStarted { id, name } => Some(
            SequencerEvent::NodeStarted { node_id: id, node_type: name },
        ),
        ExecutorEvent::NodeCompleted { id, status } => {
            let success = match status {
                NodeStatus::Success => true,
                _ => false,
            };
            Some(SequencerEvent::NodeCompleted { node_id: id, success })
        },
        ExecutorEvent::ProgressUpdated { completed_exposures, total_exposures } => Some(
            SequencerEvent::Progress { current: completed_exposures, total: total_exposures },
        ),
        ExecutorEvent::SequenceCompleted => Some(SequencerEvent::Completed),
        ExecutorEvent::SequenceFailed { error } => Some(SequencerEvent::Error { message: error }),
        ExecutorEvent::ExposureStarted { frame, total, filter } => Some(
            SequencerEvent::ExposureStarted { frame, total, filter },
        ),
        ExecutorEvent::ExposureCompleted { frame, total } => Some(
            SequencerEvent::ExposureCompleted { frame, total },
        ),
        ExecutorEvent::TargetStarted { name } => Some(SequencerEvent::TargetChanged { target_name: name }),
        ExecutorEvent::TargetCompleted { name } => Some(
            SequencerEvent::TargetCompleted { target_name: name },
        ),
        ExecutorEvent::NodeProgress { node_id, instruction, detail } => Some(
            SequencerEvent::InstructionProgress { node_id, instruction, detail },
        ),
        ExecutorEvent::Error { message } => Some(SequencerEvent::Error { message }),
        ExecutorEvent::TriggerFired { trigger_id, trigger_name, action } => {
            let head = concat2("Trigger '", trigger_name.as_str());
            let mid = concat2(head.as_str(), "' fired: ");
            let message = concat2(mid.as_str(), action.as_str());
            Some(SequencerEvent::Error { message })
        },
    }
}

/// How serious a published sequencer event is.
#[derive(Debug, Clone, Copy, PartialEq, Eq, Structural)]
pub enum Severity {
    Info,
    Error,
}

/// Errors are published as errors, everything else as information.
pub fn sequencer_event_severity(ev: &SequencerEvent) -> (r: Severity)
    ensures
        r == (if ev@ is Error {
            Severity::Error
        } else {
            Severity::Info
        }),
{
    match ev {
        SequencerEvent::Error { .. } => Severity::Error,
        _ => Severity::Info,
    }
}

/// Kinds of sequence nodes.
#[derive(Debug, Clone, Copy, PartialEq, Eq, Structural)]
pub enum NodeKind {
    TargetGroup,
    TargetHeader,
    Loop,
    Parallel,
    Conditional,
    Recovery,
    SlewToTarget,
    CenterTarget,
    TakeExposure,
    Autofocus,
    Dither,
    ChangeFilter,
    CoolCamera,
    WarmCamera,
    PolarAlignment,
    MoveRotator,
    Park,
    Unpark,
    WaitForTime,
    Delay,
    Notification,
    RunScript,
    MeridianFlip,
    OpenDome,
    CloseDome,
    ParkDome,
    StartGuiding,
    StopGuiding,
    TemperatureCompensation,
    Mosaic,
    FlatWizard,
    OpenCover,
    CloseCover,
    CalibratorOn,
    CalibratorOff,
}

/// The type name of a node kind.
pub open spec fn node_kind_name_spec(k: NodeKind) -> Seq<char> {
    match k {
        NodeKind::TargetGroup => "target_group"@,
        NodeKind::TargetHeader => "target_header"@,
        NodeKind::Loop => "loop"@,
        NodeKind::Parallel => "parallel"@,
        NodeKind::Conditional => "conditional"@,
        NodeKind::Recovery => "recovery"@,
        NodeKind::SlewToTarget => "slew"@,
        NodeKind::CenterTarget => "center"@,
        NodeKind::TakeExposure => "exposure"@,
        NodeKind::Autofocus => "autofocus"@,
        NodeKind::Dither => "dither"@,
        NodeKind::ChangeFilter => "filter_change"@,
        NodeKind::CoolCamera => "cool_camera"@,
        NodeKind::WarmCamera => "warm_camera"@,
        NodeKind::PolarAlignment => "polar_alignment"@,
        NodeKind::MoveRotator => "rotator"@,
        NodeKind::Park => "park"@,
        NodeKind::Unpark => "unpark"@,
        NodeKind::WaitForTime => "wait_time"@,
        NodeKind::Delay => "delay"@,
        NodeKind::Notification => "notification"@,
        NodeKind::RunScript => "script"@,
        NodeKind::MeridianFlip => "meridian_flip"@,
        NodeKind::OpenDome => "open_dome"@,
        NodeKind::CloseDome => "close_dome"@,
        NodeKind::ParkDome => "park_dome"@,
        NodeKind::StartGuiding => "start_guiding"@,
        NodeKind::StopGuiding => "stop_guiding"@,
        NodeKind::TemperatureCompensation => "temperature_compensation"@,
        NodeKind::Mosaic => "mosaic"@,
        NodeKind::FlatWizard => "flat_wizard"@,
        NodeKind::OpenCover => "open_cover"@,
        NodeKind::CloseCover => "close_cover"@,
        NodeKind::CalibratorOn => "calibrator_on"@,
        NodeKind::CalibratorOff => "calibrator_off"@,
    }
}

/// The type name of a node kind, as node definitions carry it.
pub fn node_kind_name(k: NodeKind) -> (r: &'static str)
    ensures
        r@ == node_kind_name_spec(k),
{
    match k {
        NodeKind::TargetGroup => "target_group",
        NodeKind::TargetHeader => "target_header",
        NodeKind::Loop => "loop",
        NodeKind::Parallel => "parallel",
        NodeKind::Conditional => "conditional",
        NodeKind::Recovery => "recovery",
        NodeKind::SlewToTarget => "slew",
        NodeKind::CenterTarget => "center",
        NodeKind::TakeExposure => "exposure",
        NodeKind::Autofocus => "autofocus",
        NodeKind::Dither => "dither",
        NodeKind::ChangeFilter => "filter_change",
        NodeKind::CoolCamera => "cool_camera",
        NodeKind::WarmCamera => "warm_camera",
        NodeKind::PolarAlignment => "polar_alignment",
        NodeKind::MoveRotator => "rotator",
        NodeKind::Park => "park",
        NodeKind::Unpark => "unpark",
        NodeKind::WaitForTime => "wait_time",
        NodeKind::Delay => "delay",
        NodeKind::Notification => "notification",
        NodeKind::RunScript => "script",
        NodeKind::MeridianFlip => "meridian_flip",
        NodeKind::OpenDome => "open_dome",
        NodeKind::CloseDome => "close_dome",
        NodeKind::ParkDome => "park_dome",
        NodeKind::StartGuiding => "start_guiding",
        NodeKind::StopGuiding => "stop_guiding",
        NodeKind::TemperatureCompensation => "temperature_compensation",
        NodeKind::Mosaic => "mosaic",
        NodeKind::FlatWizard => "flat_wizard",
        NodeKind::OpenCover => "open_cover",
        NodeKind::CloseCover => "close_cover",
        NodeKind::CalibratorOn => "calibrator_on",
        NodeKind::CalibratorOff => "calibrator_off",
    }
}

} // verus!

verus! {

/// Law: a completed node is reported with its id and as a success exactly
/// when its status is `Success`; a failed or cancelled node is never reported
/// as a success.
pub proof fn law_node_completion_reports_success(id: Seq<char>, status: NodeStatus)
    ensures
        sequencer_event_spec(ExecutorEventView::NodeCompleted { id, status }) matches Some(
            SequencerEventView::NodeCompleted { node_id, success },
        ) && node_id == id && (success <==> status == NodeStatus::Success),
        status == NodeStatus::Failure ==> sequencer_event_spec(
            ExecutorEventView::NodeCompleted { id, status },
        ) == Some(SequencerEventView::NodeCompleted { node_id: id, success: false }),
        status == NodeStatus::Cancelled ==> sequencer_event_spec(
            ExecutorEventView::NodeCompleted { id, status },
        ) == Some(SequencerEventView::NodeCompleted { node_id: id, success: false }),
{
}

} // verus!

verus! {

/// Law: every executor state has its own name.
pub proof fn law_executor_state_names_distinct(a: ExecutorState, b: ExecutorState)
    ensures
        a != b ==> executor_state_name_spec(a) != executor_state_name_spec(b),
{
    reveal_strlit("idle");
    reveal_strlit("running");
    reveal_strlit("paused");
    reveal_strlit("stopping");
    reveal_strlit("completed");
    reveal_strlit("failed");
    if a != b && executor_state_name_spec(a) == executor_state_name_spec(b) {
        let x = executor_state_name_spec(a);
        assert(x.len() == executor_state_name_spec(b).len());
        assert(x[0] == executor_state_name_spec(b)[0]);
    }
}

} // verus!
