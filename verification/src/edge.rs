//! Directed edges of the call graph: `from` supplies an argument, receiver
//! or operand to `to`.  Both ends are node ids.
use vstd::prelude::*;

verus! {

#[derive(Clone, Copy, Debug, PartialEq, Eq, Structural)]
pub struct Edge {
    pub from: i16,
    pub to: i16,
}

impl Edge {
    pub fn new(from: i16, to: i16) -> (e: Edge)
        ensures
            e == (Edge { from, to }),
    {
        Edge { from, to }
    }
}

} // verus!
