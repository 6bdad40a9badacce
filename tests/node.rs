use source_nodes::node::{
    DriverAction, DriverEvent, PhaseStatus, PortState, FixedSource, SourceComputeNode, SourceNode,
};
use source_nodes::port::PortShape;

fn readiness(node: &SourceComputeNode<FixedSource>, prev: PortState) -> PortState {
    let mut send = [prev];
    node.update_state(&[], &mut send);
    send[0]
}

fn started_node(parallel: bool, tasks: usize) -> SourceComputeNode<FixedSource> {
    let mut node = SourceComputeNode::new(FixedSource::new("generator".to_string(), parallel));
    assert!(node.needs_start());
    node.record_started(tasks);
    assert!(!node.needs_start());
    node
}

#[test]
fn fresh_node_is_ready() {
    let node = SourceComputeNode::new(FixedSource::new("generator".to_string(), false));
    assert_eq!(node.name(), "generator");
    assert_eq!(readiness(&node, PortState::Blocked), PortState::Ready);
    assert_eq!(node.lifecycle().phase, PhaseStatus::Idle);
    assert!(!node.lifecycle().started);
}

#[test]
fn single_task_finishes_normally() {
    let mut node = started_node(false, 1);
    let shape = node.begin_phase(0, 1, true, 1);
    assert_eq!(shape, PortShape::Serial);
    assert_eq!(node.lifecycle().phase, PhaseStatus::Handoff);
    let a = node.on_driver_event::<String>(DriverEvent::Delivered);
    assert_eq!(a, DriverAction::AwaitPhaseEnd);
    // three morsels are delivered, then the source drops its output
    let a = node.on_driver_event::<String>(DriverEvent::PhaseEnded { finished: true });
    assert_eq!(a, DriverAction::AwaitNextTask);
    let a = node.on_driver_event::<String>(DriverEvent::TaskExited(Ok(())));
    assert_eq!(a, DriverAction::Complete(Ok(())));
    assert_eq!(node.lifecycle().live_tasks, 0);
    assert_eq!(readiness(&node, PortState::Ready), PortState::Done);
}

#[test]
fn stopped_phase_ends_successfully_and_stays_ready() {
    let mut node = started_node(false, 1);
    node.begin_phase(0, 1, true, 1);
    node.on_driver_event::<String>(DriverEvent::Delivered);
    let a = node.on_driver_event::<String>(DriverEvent::PhaseEnded { finished: false });
    assert_eq!(a, DriverAction::Complete(Ok(())));
    assert_eq!(node.lifecycle().phase, PhaseStatus::Idle);
    assert_eq!(node.lifecycle().live_tasks, 1);
    assert_eq!(readiness(&node, PortState::Ready), PortState::Ready);
    // a new phase can begin with the same background task
    node.begin_phase(0, 1, true, 1);
    assert_eq!(node.lifecycle().phase, PhaseStatus::Handoff);
}

#[test]
fn first_error_wins_and_cancels_siblings() {
    let mut node = started_node(false, 2);
    node.begin_phase(0, 1, true, 1);
    node.on_driver_event::<String>(DriverEvent::Delivered);
    let a = node.on_driver_event::<String>(DriverEvent::PhaseEnded { finished: true });
    assert_eq!(a, DriverAction::AwaitNextTask);
    let a = node.on_driver_event(DriverEvent::TaskExited(Err("task A failed".to_string())));
    assert_eq!(a, DriverAction::Complete(Err("task A failed".to_string())));
    // task B was cancelled: nothing is left running
    assert_eq!(node.lifecycle().live_tasks, 0);
    assert_eq!(node.lifecycle().phase, PhaseStatus::Idle);
}

#[test]
fn closed_channel_is_not_an_error() {
    let mut node = started_node(false, 1);
    node.begin_phase(0, 1, true, 1);
    let a = node.on_driver_event::<String>(DriverEvent::ChannelClosed);
    assert_eq!(a, DriverAction::AwaitNextTask);
    let a = node.on_driver_event::<String>(DriverEvent::TaskExited(Ok(())));
    assert_eq!(a, DriverAction::Complete(Ok(())));
}

#[test]
fn drained_source_completes_at_once() {
    let mut node = started_node(false, 0);
    node.begin_phase(0, 1, true, 1);
    let a = node.on_driver_event::<String>(DriverEvent::ChannelClosed);
    assert_eq!(a, DriverAction::Complete(Ok(())));
}

#[test]
fn done_is_never_followed_by_ready() {
    let mut node = started_node(false, 1);
    node.begin_phase(0, 1, true, 1);
    node.on_driver_event::<String>(DriverEvent::Delivered);
    node.on_driver_event::<String>(DriverEvent::PhaseEnded { finished: true });
    node.on_driver_event::<String>(DriverEvent::TaskExited(Ok(())));
    let first = readiness(&node, PortState::Ready);
    assert_eq!(first, PortState::Done);
    assert_eq!(readiness(&node, first), PortState::Done);
    node.begin_phase(0, 1, true, 1);
    let a = node.on_driver_event::<String>(DriverEvent::ChannelClosed);
    assert_eq!(a, DriverAction::Complete(Ok(())));
    assert_eq!(readiness(&node, first), PortState::Done);
}

#[test]
fn unstarted_node_is_ready_whatever_it_was_handed() {
    let node = SourceComputeNode::new(FixedSource::new("generator".to_string(), false));
    assert_eq!(readiness(&node, PortState::Done), PortState::Ready);
}

#[test]
fn stopped_phase_with_live_task_is_ready_whatever_it_was_handed() {
    let mut node = started_node(false, 1);
    node.begin_phase(0, 1, true, 1);
    node.on_driver_event::<String>(DriverEvent::Delivered);
    node.on_driver_event::<String>(DriverEvent::PhaseEnded { finished: false });
    assert_eq!(readiness(&node, PortState::Done), PortState::Ready);
}

#[test]
fn node_keeps_its_source() {
    let node = SourceComputeNode::new(FixedSource::new("lines".to_string(), true));
    assert_eq!(node.name(), "lines");
    assert!(node.source().is_source_output_parallel(true));
}

#[test]
fn serial_consumer_and_serial_source_give_serial_port() {
    let mut node = started_node(false, 1);
    assert_eq!(node.begin_phase(0, 1, true, 1), PortShape::Serial);
}

#[test]
fn parallel_source_gets_one_lane_per_consumer_lane() {
    let mut node = started_node(true, 1);
    assert_eq!(node.begin_phase(0, 1, false, 4), PortShape::Parallel { lanes: 4 });
}
