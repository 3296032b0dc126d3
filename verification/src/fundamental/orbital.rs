//! An orbital named by species, ion and angular momentum.
use vstd::prelude::*;

use super::angular_momentum::AngularMomentum;

verus! {

/// An orbital, for picking projectors out of the weights: the id of its
/// species, the rank of its ion among the ions of that species, and its
/// angular momentum.
#[derive(Debug, Clone, Copy, PartialEq, Eq, Hash, Structural)]
pub struct Orbital {
    species: u32,
    ion_id: u32,
    angular_momentum: AngularMomentum,
}

impl Orbital {
    /// What the orbital holds: species, ion and angular momentum.
    pub closed spec fn parts(&self) -> (u32, u32, AngularMomentum) {
        (self.species, self.ion_id, self.angular_momentum)
    }

    /// Constructor
    pub fn new(species: u32, ion_rank: u32, angular_momentum: AngularMomentum) -> (r: Self)
        ensures
            r.parts() == (species, ion_rank, angular_momentum),
    {
        Self { species, ion_id: ion_rank, angular_momentum }
    }

    /// Returns the species id.
    pub fn species(&self) -> (r: u32)
        ensures
            r == self.parts().0,
    {
        self.species
    }

    /// Returns the ion id.
    pub fn ion_id(&self) -> (r: u32)
        ensures
            r == self.parts().1,
    {
        self.ion_id
    }

    /// Returns the angular_momentum
    pub fn angular_momentum(&self) -> (r: AngularMomentum)
        ensures
            r == self.parts().2,
    {
        self.angular_momentum
    }
}

} // verus!
