use std::ops::Range;
use vstd::prelude::*;

verus! {

/// A limit on the rows that a source emits, handed to it when it is built:
/// a range of row positions, or a predicate of type `P` that rows must meet.
pub enum RowRestriction<P> {
    Slice(Range<usize>),
    Predicate(P),
}

} // verus!
