use vstd::prelude::*;

verus! {

/// The output port of a source for one phase: one sink for the whole phase,
/// or one sink per parallel lane of the consumer.
pub enum SourceOutputPort<S> {
    Serial(S),
    Parallel(Vec<S>),
}

/// The shape of output port that a phase delivers through.
#[derive(Clone, Copy, Debug, PartialEq, Eq, Structural)]
pub enum PortShape {
    Serial,
    Parallel { lanes: usize },
}

impl<S> SourceOutputPort<S> {
    pub open spec fn is_serial(&self) -> bool {
        self is Serial
    }

    pub open spec fn is_parallel(&self) -> bool {
        self is Parallel
    }

    /// The single sink of a serial port. Asking a parallel port for it is a
    /// caller's error.
    pub fn serial(self) -> (r: S)
        requires
            self.is_serial(),
        ensures
            self == SourceOutputPort::Serial(r),
    {
        match self {
            SourceOutputPort::Serial(s) => s,
            SourceOutputPort::Parallel(_) => {
                proof {
                    assert(false);
                }
                unreached()
            },
        }
    }

    /// The per-lane sinks of a parallel port. Asking a serial port for them is
    /// a caller's error.
    pub fn parallel(self) -> (r: Vec<S>)
        requires
            self.is_parallel(),
        ensures
            self == SourceOutputPort::<S>::Parallel(r),
    {
        match self {
            SourceOutputPort::Parallel(s) => s,
            SourceOutputPort::Serial(_) => {
                proof {
                    assert(false);
                }
                unreached()
            },
        }
    }

    /// The shape of this port.
    pub fn shape(&self) -> (r: PortShape)
        ensures
            r == match self {
                SourceOutputPort::Serial(_) => PortShape::Serial,
                SourceOutputPort::Parallel(v) => PortShape::Parallel { lanes: v.len() },
            },
    {
        match self {
            SourceOutputPort::Serial(_) => PortShape::Serial,
            SourceOutputPort::Parallel(v) => PortShape::Parallel { lanes: v.len() },
        }
    }
}

/// A port built as serial never meets what `parallel` requires, and one built
/// as parallel never meets what `serial` requires: asking a port for the other
/// shape is a caller's error, refused where it is verified, never answered.
pub proof fn lemma_wrong_shape_is_refused<S>(sink: S, sinks: Vec<S>)
    ensures
        !SourceOutputPort::Serial(sink).is_parallel(),
        !SourceOutputPort::Parallel(sinks).is_serial(),
        SourceOutputPort::Serial(sink).is_serial(),
        SourceOutputPort::<S>::Parallel(sinks).is_parallel(),
{
}

/// The port shape that a phase uses: parallel, with one lane per lane of the
/// consumer, exactly when the source prefers parallel output.
pub fn select_shape(prefers_parallel: bool, consumer_lanes: usize) -> (r: PortShape)
    ensures
        r == (if prefers_parallel {
            PortShape::Parallel { lanes: consumer_lanes }
        } else {
            PortShape::Serial
        }),
{
    if prefers_parallel {
        PortShape::Parallel { lanes: consumer_lanes }
    } else {
        PortShape::Serial
    }
}

} // verus!
