//! Placeholder kinematics: inverse kinematics echoes the seed, forward kinematics gives
//! the identity pose. Replace with a real solver.

use vstd::prelude::*;

verus! {

#[derive(Debug, Clone, Copy)]
pub struct IdentityKinematics {
    pub dof: usize,
}

impl IdentityKinematics {
    pub fn new(dof: usize) -> (k: Self)
        ensures
            k.dof == dof,
    {
        IdentityKinematics { dof }
    }
}

} // verus!
