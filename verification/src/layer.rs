//! Attachment-stack entries.  A `Layer` is the breadcrumb recorded when a
//! node is inserted: the node's id together with the block-nesting depth and
//! the argument-nesting depth in effect at that moment.  The stack of these
//! triples is the only structure the attachment algorithm reads.
use vstd::prelude::*;

verus! {

#[derive(Clone, Copy, Debug, PartialEq, Eq, Structural)]
pub struct Layer {
    pub id: i16,
    pub layer: i16,
    pub args: i16,
}

impl Layer {
    pub fn new(id: i16, layer: i16, args: i16) -> (l: Layer)
        ensures
            l == (Layer { id, layer, args }),
    {
        Layer { id, layer, args }
    }
}

} // verus!
