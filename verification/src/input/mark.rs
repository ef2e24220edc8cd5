use std::fmt::Debug;
use vstd::prelude::*;

verus! {

/// A `Mark` is a position in one input. It is opaque to its holder, who may
/// copy it, compare it for equality and hand it back to the input it came from.
pub trait Mark: Debug + Copy + PartialEq {
    /// The number of tokens between the start of the input and this mark.
    spec fn offset(&self) -> usize;
}

impl Mark for usize {
    open spec fn offset(&self) -> usize {
        *self
    }
}

/// The stretch of input between two marks.
#[derive(Debug, PartialEq, Clone)]
pub struct Span<M: Mark> {
    pub from: M,
    pub to: M,
}

impl<M> Span<M> where M: Mark {
    /// The span from `from` to `to`.
    pub fn new(from: M, to: M) -> (span: Self)
        ensures
            span.from == from,
            span.to == to,
    {
        Self { from, to }
    }
}

} // verus!
