use vstd::prelude::*;

use crate::port::{select_shape, PortShape};

verus! {

/// The state that a node reports for one of its ports.
#[derive(Clone, Copy, Debug, PartialEq, Eq, Structural)]
pub enum PortState {
    Blocked,
    Ready,
    Done,
}

/// Where the current phase of a source node stands.
#[derive(Clone, Copy, Debug, PartialEq, Eq, Structural)]
pub enum PhaseStatus {
    /// No phase is in progress.
    Idle,
    /// The phase output is being handed to the source.
    Handoff,
    /// The source holds the phase output.
    Running,
    /// The source is finished: the driver awaits its background tasks.
    Draining,
}

/// What the task that drives a phase observed.
#[derive(Debug, PartialEq, Eq)]
pub enum DriverEvent<E> {
    /// The source took the phase output.
    Delivered,
    /// The handoff channel is closed: the source has already shut down.
    ChannelClosed,
    /// Every wait token of the phase was dropped; `finished` is false when the
    /// phase was stopped early.
    PhaseEnded { finished: bool },
    /// One background task of the source exited with this result.
    TaskExited(Result<(), E>),
}

/// What the task that drives a phase does next.
#[derive(Debug, PartialEq, Eq)]
pub enum DriverAction<E> {
    /// Wait until the phase's wait group is released.
    AwaitPhaseEnd,
    /// Wait for the next background task to exit.
    AwaitNextTask,
    /// End the phase with this result; on an error the remaining background
    /// tasks are cancelled.
    Complete(Result<(), E>),
}

/// The lifecycle of a source node, as the scheduler and the driver see it.
#[derive(Clone, Copy, Debug, PartialEq, Eq, Structural)]
pub struct SourceLifecycle {
    /// The background tasks of the source have been started.
    pub started: bool,
    /// The number of background tasks that have not exited yet.
    pub live_tasks: usize,
    pub phase: PhaseStatus,
}

impl SourceLifecycle {
    pub open spec fn initial() -> SourceLifecycle {
        SourceLifecycle { started: false, live_tasks: 0, phase: PhaseStatus::Idle }
    }

    /// Nothing runs and no phase is in progress before the source is started.
    pub open spec fn wf(self) -> bool {
        !self.started ==> (self.live_tasks == 0 && self.phase == PhaseStatus::Idle)
    }

    /// The source was started and all its background tasks have exited.
    pub open spec fn reports_done(self) -> bool {
        self.started && self.live_tasks == 0
    }

    /// The number of phase outputs that exist and have not been dropped.
    pub open spec fn outstanding_outputs(self) -> nat {
        match self.phase {
            PhaseStatus::Handoff | PhaseStatus::Running => 1,
            _ => 0,
        }
    }

    /// The state of the output port that a readiness check reports.
    pub open spec fn port_state(self) -> PortState {
        if self.reports_done() {
            PortState::Done
        } else {
            PortState::Ready
        }
    }

    pub open spec fn start(self, tasks: usize) -> SourceLifecycle {
        SourceLifecycle { started: true, live_tasks: tasks, ..self }
    }

    pub open spec fn begin(self) -> SourceLifecycle {
        SourceLifecycle { phase: PhaseStatus::Handoff, ..self }
    }

    /// The source's part of the phase is over: await the remaining tasks, if
    /// any.
    pub open spec fn drain<E>(self) -> (SourceLifecycle, DriverAction<E>) {
        if self.live_tasks == 0 {
            (SourceLifecycle { phase: PhaseStatus::Idle, ..self }, DriverAction::Complete(Ok(())))
        } else {
            (SourceLifecycle { phase: PhaseStatus::Draining, ..self }, DriverAction::AwaitNextTask)
        }
    }

    /// The events that the driver can observe in this state.
    pub open spec fn accepts<E>(self, ev: DriverEvent<E>) -> bool {
        match (self.phase, ev) {
            (PhaseStatus::Handoff, DriverEvent::Delivered) => true,
            (PhaseStatus::Handoff, DriverEvent::ChannelClosed) => true,
            (PhaseStatus::Running, DriverEvent::PhaseEnded { .. }) => true,
            (PhaseStatus::Draining, DriverEvent::TaskExited(_)) => self.live_tasks > 0,
            _ => false,
        }
    }

    /// The next state and the driver's next action after an accepted event.
    pub open spec fn step<E>(self, ev: DriverEvent<E>) -> (SourceLifecycle, DriverAction<E>) {
        match ev {
            DriverEvent::Delivered => (
                SourceLifecycle { phase: PhaseStatus::Running, ..self },
                DriverAction::AwaitPhaseEnd,
            ),
            DriverEvent::ChannelClosed => self.drain(),
            DriverEvent::PhaseEnded { finished } => if finished {
                self.drain()
            } else {
                (SourceLifecycle { phase: PhaseStatus::Idle, ..self }, DriverAction::Complete(Ok(())))
            },
            DriverEvent::TaskExited(Ok(())) => SourceLifecycle {
                live_tasks: (self.live_tasks - 1) as usize,
                ..self
            }.drain(),
            DriverEvent::TaskExited(Err(e)) => (
                SourceLifecycle { live_tasks: 0, phase: PhaseStatus::Idle, ..self },
                DriverAction::Complete(Err(e)),
            ),
        }
    }
}

/// One thing that can happen to a source node: its source is started with a
/// number of background tasks, a phase begins, or the phase's driver observes
/// an event.
pub enum NodeOp<E> {
    Start(usize),
    Begin,
    Observe(DriverEvent<E>),
}

impl SourceLifecycle {
    /// Whether the operation can happen in this state.
    pub open spec fn allows<E>(self, op: NodeOp<E>) -> bool {
        match op {
            NodeOp::Start(_) => !self.started,
            NodeOp::Begin => self.started && self.phase == PhaseStatus::Idle,
            NodeOp::Observe(ev) => self.accepts(ev),
        }
    }

    pub open spec fn apply<E>(self, op: NodeOp<E>) -> SourceLifecycle {
        match op {
            NodeOp::Start(n) => self.start(n),
            NodeOp::Begin => self.begin(),
            NodeOp::Observe(ev) => self.step(ev).0,
        }
    }
}

/// The state after the operations, in order, or `None` if one of them could
/// not happen where it stands.
pub open spec fn run<E>(s: SourceLifecycle, ops: Seq<NodeOp<E>>) -> Option<SourceLifecycle>
    decreases ops.len(),
{
    if ops.len() == 0 {
        Some(s)
    } else {
        match run(s, ops.drop_last()) {
            Some(t) => if t.allows(ops.last()) {
                Some(t.apply(ops.last()))
            } else {
                None
            },
            None => None,
        }
    }
}

proof fn lemma_apply_keeps_wf<E>(s: SourceLifecycle, op: NodeOp<E>)
    requires
        s.wf(),
        s.allows(op),
    ensures
        s.apply(op).wf(),
        s.reports_done() ==> s.apply(op).reports_done(),
{
}

proof fn lemma_run_keeps_wf<E>(s: SourceLifecycle, ops: Seq<NodeOp<E>>)
    requires
        s.wf(),
    ensures
        run(s, ops) is Some ==> run(s, ops)->Some_0.wf(),
        run(s, ops) is Some && s.reports_done() ==> run(s, ops)->Some_0.reports_done(),
    decreases ops.len(),
{
    if ops.len() > 0 {
        lemma_run_keeps_wf(s, ops.drop_last());
        if let Some(t) = run(s, ops.drop_last()) {
            if t.allows(ops.last()) {
                lemma_apply_keeps_wf(t, ops.last());
            }
        }
    }
}

/// Whatever happens to a node, at most one phase output is outstanding at a
/// time, and a phase can only begin when none is.
///
/// Each `Begin` creates one phase output; the driver observing `ChannelClosed`
/// or `PhaseEnded` is where one is dropped. Counted over the operations that
/// happened, the outputs alive are exactly those of the current phase: zero or
/// one, and zero whenever a phase may begin.
pub proof fn lemma_single_outstanding_output<E>(ops: Seq<NodeOp<E>>)
    ensures
        run(SourceLifecycle::initial(), ops) matches Some(s) ==> {
            &&& outputs_alive(ops) == s.outstanding_outputs()
            &&& 0 <= outputs_alive(ops) <= 1
            &&& s.allows(NodeOp::<E>::Begin) ==> outputs_alive(ops) == 0
        },
    decreases ops.len(),
{
    lemma_run_keeps_wf(SourceLifecycle::initial(), ops);
    if ops.len() > 0 {
        lemma_single_outstanding_output(ops.drop_last());
        lemma_run_keeps_wf(SourceLifecycle::initial(), ops.drop_last());
    }
}

/// How an operation changes the number of phase outputs alive: a phase
/// creates one, and its handoff failing or its end drops it.
pub open spec fn output_delta<E>(op: NodeOp<E>) -> int {
    match op {
        NodeOp::Begin => 1,
        NodeOp::Observe(DriverEvent::ChannelClosed) => -1,
        NodeOp::Observe(DriverEvent::PhaseEnded { .. }) => -1,
        _ => 0,
    }
}

/// The number of phase outputs created and not yet dropped by the operations.
pub open spec fn outputs_alive<E>(ops: Seq<NodeOp<E>>) -> int
    decreases ops.len(),
{
    if ops.len() == 0 {
        0
    } else {
        outputs_alive(ops.drop_last()) + output_delta(ops.last())
    }
}

/// Once a node reports its port `Done` it has no background task left, and
/// whatever happens afterwards it reports `Done` again, never `Ready`.
pub proof fn lemma_done_is_final<E>(ops: Seq<NodeOp<E>>, later: Seq<NodeOp<E>>)
    ensures
        run(SourceLifecycle::initial(), ops) matches Some(s) ==> {
            &&& s.port_state() == PortState::Done <==> (s.started && s.live_tasks == 0)
            &&& (s.port_state() == PortState::Done && run(s, later) is Some) ==> {
                let t = run(s, later)->Some_0;
                &&& t.port_state() == PortState::Done
                &&& t.live_tasks == 0
            }
        },
{
    lemma_run_keeps_wf(SourceLifecycle::initial(), ops);
    if let Some(s) = run(SourceLifecycle::initial(), ops) {
        lemma_run_keeps_wf(s, later);
    }
}

/// A data source that a [`SourceComputeNode`] drives.
pub trait SourceNode {
    /// The source's diagnostic name.
    spec fn source_name(&self) -> Seq<char>;

    /// Whether the source wants one output lane per consumer lane, given
    /// whether the consumer has a single lane.
    spec fn prefers_parallel(&self, is_receiver_serial: bool) -> bool;

    fn name(&self) -> (r: &str)
        ensures
            r@ == self.source_name(),
    ;

    fn is_source_output_parallel(&self, is_receiver_serial: bool) -> (r: bool)
        ensures
            r == self.prefers_parallel(is_receiver_serial),
    ;
}

/// A source whose name and output preference are fixed when it is built,
/// whatever the consumer's lane count.
pub struct FixedSource {
    name: String,
    parallel: bool,
}

impl FixedSource {
    pub fn new(name: String, parallel: bool) -> (r: FixedSource)
        ensures
            r.source_name() == name@,
            forall|serial: bool| r.prefers_parallel(serial) == parallel,
    {
        FixedSource { name, parallel }
    }
}

impl SourceNode for FixedSource {
    closed spec fn source_name(&self) -> Seq<char> {
        self.name@
    }

    closed spec fn prefers_parallel(&self, _is_receiver_serial: bool) -> bool {
        self.parallel
    }

    fn name(&self) -> (r: &str) {
        self.name.as_str()
    }

    fn is_source_output_parallel(&self, _is_receiver_serial: bool) -> (r: bool) {
        self.parallel
    }
}

/// A graph node that wraps a [`SourceNode`]: it starts the source's background
/// tasks once, hands it one phase output per phase, and reports when it is
/// done.
pub struct SourceComputeNode<T> {
    source: T,
    lifecycle: SourceLifecycle,
}

impl<T> View for SourceComputeNode<T> {
    type V = SourceLifecycle;

    closed spec fn view(&self) -> SourceLifecycle {
        self.lifecycle
    }
}

impl<T: SourceNode> SourceComputeNode<T> {
    pub open spec fn wf(&self) -> bool {
        self@.wf()
    }

    /// The source that the node wraps.
    pub closed spec fn source_spec(&self) -> T {
        self.source
    }

    /// Whether the wrapped source prefers parallel output.
    pub open spec fn prefers_parallel(&self, is_receiver_serial: bool) -> bool {
        self.source_spec().prefers_parallel(is_receiver_serial)
    }

    pub fn new(source: T) -> (r: Self)
        ensures
            r@ == SourceLifecycle::initial(),
            r.wf(),
            r.source_spec() == source,
    {
        let lifecycle = SourceLifecycle { started: false, live_tasks: 0, phase: PhaseStatus::Idle };
        SourceComputeNode { source, lifecycle }
    }

    /// The node's current lifecycle state.
    pub fn lifecycle(&self) -> (r: SourceLifecycle)
        ensures
            r == self@,
    {
        self.lifecycle
    }

    pub fn name(&self) -> (r: &str)
        ensures
            r@ == self.source_spec().source_name(),
    {
        self.source.name()
    }

    pub fn source(&self) -> (r: &T)
        ensures
            *r == self.source_spec(),
    {
        &self.source
    }

    pub fn source_mut(&mut self) -> (r: &mut T)
        ensures
            final(self)@ == old(self)@,
            final(self).wf() == old(self).wf(),
            final(self).source_spec() == *final(r),
    {
        &mut self.source
    }

    /// Report the state of the single output port: `Done` once the source was
    /// started and all its background tasks have exited, `Ready` otherwise.
    pub fn update_state(&self, recv: &[PortState], send: &mut [PortState])
        requires
            recv@.len() == 0,
            old(send)@.len() == 1,
        ensures
            final(send)@ == seq![self@.port_state()],
    {
        if self.lifecycle.started && self.lifecycle.live_tasks == 0 {
            send[0] = PortState::Done;
        } else {
            send[0] = PortState::Ready;
        }
    }

    /// Whether the source's background tasks still have to be started.
    pub fn needs_start(&self) -> (r: bool)
        ensures
            r == !self@.started,
    {
        !self.lifecycle.started
    }

    /// Record that the source was started with `tasks` background tasks.
    pub fn record_started(&mut self, tasks: usize)
        requires
            old(self).wf(),
            !old(self)@.started,
        ensures
            final(self)@ == old(self)@.start(tasks),
            final(self).wf(),
            final(self).source_spec() == old(self).source_spec(),
    {
        self.lifecycle = SourceLifecycle { started: true, live_tasks: tasks, ..self.lifecycle };
    }

    /// Begin a phase: a phase output is created over the returned shape of
    /// port, serial or with one lane per consumer lane, as the source prefers.
    pub fn begin_phase(
        &mut self,
        num_recv_ports: usize,
        num_send_ports: usize,
        is_receiver_serial: bool,
        consumer_lanes: usize,
    ) -> (r: PortShape)
        requires
            num_recv_ports == 0,
            num_send_ports == 1,
            old(self)@.started,
            old(self)@.phase == PhaseStatus::Idle,
        ensures
            final(self)@ == old(self)@.begin(),
            final(self).wf(),
            final(self).source_spec() == old(self).source_spec(),
            r == (if old(self).prefers_parallel(is_receiver_serial) {
                PortShape::Parallel { lanes: consumer_lanes }
            } else {
                PortShape::Serial
            }),
    {
        let parallel = self.source.is_source_output_parallel(is_receiver_serial);
        self.lifecycle = SourceLifecycle { phase: PhaseStatus::Handoff, ..self.lifecycle };
        select_shape(parallel, consumer_lanes)
    }

    /// Advance the phase's driver on what it observed.
    pub fn on_driver_event<E>(&mut self, ev: DriverEvent<E>) -> (r: DriverAction<E>)
        requires
            old(self).wf(),
            old(self)@.accepts(ev),
        ensures
            (final(self)@, r) == old(self)@.step(ev),
            final(self).wf(),
            final(self).source_spec() == old(self).source_spec(),
    {
        let cur = self.lifecycle;
        match ev {
            DriverEvent::Delivered => {
                self.lifecycle = SourceLifecycle { phase: PhaseStatus::Running, ..cur };
                DriverAction::AwaitPhaseEnd
            },
            DriverEvent::ChannelClosed => self.drain(),
            DriverEvent::PhaseEnded { finished } => {
                if finished {
                    self.drain()
                } else {
                    self.lifecycle = SourceLifecycle { phase: PhaseStatus::Idle, ..cur };
                    DriverAction::Complete(Ok(()))
                }
            },
            DriverEvent::TaskExited(Ok(())) => {
                self.lifecycle = SourceLifecycle { live_tasks: cur.live_tasks - 1, ..cur };
                self.drain()
            },
            DriverEvent::TaskExited(Err(e)) => {
                self.lifecycle = SourceLifecycle { live_tasks: 0, phase: PhaseStatus::Idle, ..cur };
                DriverAction::Complete(Err(e))
            },
        }
    }

    fn drain<E>(&mut self) -> (r: DriverAction<E>)
        ensures
            (final(self)@, r) == old(self)@.drain::<E>(),
            final(self).source_spec() == old(self).source_spec(),
    {
        if self.lifecycle.live_tasks == 0 {
            self.lifecycle = SourceLifecycle { phase: PhaseStatus::Idle, ..self.lifecycle };
            DriverAction::Complete(Ok(()))
        } else {
            self.lifecycle = SourceLifecycle { phase: PhaseStatus::Draining, ..self.lifecycle };
            DriverAction::AwaitNextTask
        }
    }
}

} // verus!
