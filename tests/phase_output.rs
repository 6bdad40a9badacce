use source_nodes::outcome::PhaseOutcomeToken;
use source_nodes::output::{MorselOutput, SourceOutput};
use source_nodes::port::{select_shape, PortShape, SourceOutputPort};
use source_nodes::wait_group::WaitGroup;

#[test]
fn new_token_has_finished() {
    let t = PhaseOutcomeToken::new();
    assert!(!t.was_stopped());
    assert!(t.did_finish());
}

#[test]
fn stopped_token_never_finishes_again() {
    let t = PhaseOutcomeToken::new();
    let c = t.clone();
    t.stop();
    assert!(t.was_stopped());
    assert!(!t.did_finish());
    assert!(c.was_stopped());
    assert!(!c.did_finish());
    t.stop();
    assert!(!t.did_finish());
    assert!(!c.did_finish());
}

#[test]
fn wait_group_released_only_when_all_tokens_drop() {
    let g = WaitGroup::new();
    assert!(g.is_released());
    let a = g.token();
    let b = g.token();
    assert!(!g.is_released());
    drop(a);
    assert!(!g.is_released());
    drop(b);
    assert!(g.is_released());
}

#[test]
fn serial_port_gives_its_sink() {
    let p: SourceOutputPort<u32> = SourceOutputPort::Serial(7);
    assert_eq!(p.shape(), PortShape::Serial);
    assert_eq!(p.serial(), 7);
}

#[test]
fn parallel_port_gives_its_sinks() {
    let p: SourceOutputPort<u32> = SourceOutputPort::Parallel(vec![1, 2, 3]);
    assert_eq!(p.shape(), PortShape::Parallel { lanes: 3 });
    assert_eq!(p.parallel(), vec![1, 2, 3]);
}

#[test]
fn shape_follows_source_preference() {
    assert_eq!(select_shape(false, 1), PortShape::Serial);
    assert_eq!(select_shape(false, 8), PortShape::Serial);
    assert_eq!(select_shape(true, 8), PortShape::Parallel { lanes: 8 });
}

#[test]
fn source_output_shares_outcome_and_releases_group_on_drop() {
    let (outcome, group, output) = SourceOutput::from_port(SourceOutputPort::Serial(5u32));
    assert!(!group.is_released());
    assert!(outcome.did_finish());
    output.outcome.stop();
    assert!(!outcome.did_finish());
    drop(output);
    assert!(group.is_released());
}

#[test]
fn source_output_keeps_its_port() {
    let (_outcome, _group, output) =
        SourceOutput::from_port(SourceOutputPort::Parallel(vec![4u32, 5]));
    match output.port {
        SourceOutputPort::Parallel(v) => assert_eq!(v, vec![4, 5]),
        SourceOutputPort::Serial(_) => panic!("expected a parallel port"),
    }
}

#[test]
fn morsel_output_shares_outcome_and_releases_group_on_drop() {
    let (outcome, group, output) = MorselOutput::from_port(9u32, "lane-0");
    assert_eq!(output.port, 9);
    assert_eq!(output.source_token, "lane-0");
    assert!(!group.is_released());
    outcome.stop();
    assert!(output.outcome.was_stopped());
    drop(output);
    assert!(group.is_released());
}
