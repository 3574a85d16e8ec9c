use vstd::prelude::*;

verus! {

/// What a published buffer holds; together with a name it identifies a resource,
/// so that a buffer of one kind is never seen by a lookup for another kind.
#[derive(Clone, Copy, Debug, PartialEq, Eq, Structural)]
pub enum ResourceKind {
    /// Particle records: a position and a velocity, two 32-bit floats each.
    Particle,
    /// Triangle corners: two 32-bit floats each.
    Vertex,
    /// Simulation parameters read by the compute program.
    Params,
}

/// A GPU buffer as the passes see it: the identifier of the device-side
/// allocation and the number of elements it holds. Copies share the allocation.
#[derive(Clone, Copy, Debug, PartialEq, Eq, Structural)]
pub struct BufferWrapper {
    pub buffer: u64,
    pub count: u32,
}

impl BufferWrapper {
    pub fn new(buffer: u64, count: u32) -> (r: BufferWrapper)
        ensures
            r.buffer == buffer,
            r.count == count,
    {
        BufferWrapper { buffer, count }
    }
}

} // verus!
