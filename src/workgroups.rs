use vstd::prelude::*;

verus! {

/// Number of invocations in one compute workgroup of the particle program.
pub const WORKGROUP_SIZE: u32 = 64;

/// Smallest number of workgroups of `size` invocations that covers `count` items.
pub open spec fn ceil_div(count: int, size: int) -> int {
    (count + size - 1) / size
}

/// Workgroups needed so that every particle gets one invocation.
pub fn workgroup_count(particle_count: u32) -> (r: u32)
    ensures
        r as int == ceil_div(particle_count as int, WORKGROUP_SIZE as int),
        r as int * WORKGROUP_SIZE as int >= particle_count as int,
        (r as int - 1) * (WORKGROUP_SIZE as int) < particle_count as int,
{
    let q = particle_count / WORKGROUP_SIZE;
    let r = if particle_count % WORKGROUP_SIZE == 0 { q } else { q + 1 };
    r
}

} // verus!
