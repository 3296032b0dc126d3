//! The header of a `.pdos_weights` file.
use vstd::prelude::*;

use crate::fundamental::{AngularMomentum, NumSpins, OrbitalState, SpinPolarized};

verus! {

/// The header of the `.pdos_weights` file.
#[derive(Debug, Clone, PartialEq)]
pub struct Header {
    /// Total number of kpoints
    pub total_kpoints: u32,
    /// Number of spins in the system, either one or two
    pub num_spins: NumSpins,
    /// Number of orbitals
    pub num_orbitals: u32,
    /// Maximum number of bands
    pub max_bands: u32,
    /// Species id of each orbital
    pub orbital_species: Vec<u32>,
    /// Rank of the ion of each orbital among the ions of its species, from 1
    pub orbital_ion: Vec<u32>,
    /// Angular momentum of each orbital
    pub orbital_am: Vec<AngularMomentum>,
}

/// What a `Header` holds.
pub struct HeaderView {
    pub total_kpoints: u32,
    pub num_spins: NumSpins,
    pub num_orbitals: u32,
    pub max_bands: u32,
    pub orbital_species: Seq<u32>,
    pub orbital_ion: Seq<u32>,
    pub orbital_am: Seq<AngularMomentum>,
}

impl View for Header {
    type V = HeaderView;

    open spec fn view(&self) -> HeaderView {
        HeaderView {
            total_kpoints: self.total_kpoints,
            num_spins: self.num_spins,
            num_orbitals: self.num_orbitals,
            max_bands: self.max_bands,
            orbital_species: self.orbital_species@,
            orbital_ion: self.orbital_ion@,
            orbital_am: self.orbital_am@,
        }
    }
}

impl HeaderView {
    /// Whether each of the three lists has one entry for each orbital.
    pub open spec fn well_formed(self) -> bool {
        &&& self.orbital_species.len() == self.num_orbitals
        &&& self.orbital_ion.len() == self.num_orbitals
        &&& self.orbital_am.len() == self.num_orbitals
    }

    /// The number of orbitals that all three lists describe: the length of
    /// the shortest.
    pub open spec fn described(self) -> nat {
        let a = self.orbital_species.len();
        let b = self.orbital_ion.len();
        let c = self.orbital_am.len();
        if a <= b && a <= c {
            a
        } else if b <= c {
            b
        } else {
            c
        }
    }

    /// The orbitals: the `i`-th has the `i`-th entry of each list.
    pub open spec fn orbital_states(self) -> Seq<OrbitalState> {
        Seq::new(
            self.described(),
            |i: int|
                OrbitalState {
                    species_id: self.orbital_species[i],
                    ion_id: self.orbital_ion[i],
                    angular_momentum: self.orbital_am[i],
                },
        )
    }
}

impl Header {
    /// Whether the calculation was spin-polarized.
    pub fn spin_polarized(&self) -> (r: SpinPolarized)
        ensures
            r == match self.num_spins {
                NumSpins::One => SpinPolarized::False,
                NumSpins::Two => SpinPolarized::True,
            },
    {
        match self.num_spins {
            NumSpins::One => SpinPolarized::False,
            NumSpins::Two => SpinPolarized::True,
        }
    }

    /// Groups the three lists of the header into one list of orbitals, in
    /// the order of the lists.
    pub fn extract_orbital_states(&self) -> (r: Vec<OrbitalState>)
        ensures
            r@ == self@.orbital_states(),
            self@.well_formed() ==> r@.len() == self.num_orbitals,
            forall|i: int|
                0 <= i < r@.len() ==> (#[trigger] r@[i]).species_id == self.orbital_species@[i]
                    && r@[i].ion_id == self.orbital_ion@[i] && r@[i].angular_momentum
                    == self.orbital_am@[i],
    {
        let mut count: usize = self.orbital_species.len();
        if self.orbital_ion.len() < count {
            count = self.orbital_ion.len();
        }
        if self.orbital_am.len() < count {
            count = self.orbital_am.len();
        }
        let mut states: Vec<OrbitalState> = Vec::with_capacity(count);
        let mut i: usize = 0;
        while i < count
            invariant
                i <= count,
                count == self@.described(),
                states@.len() == i,
                forall|j: int| 0 <= j < i ==> #[trigger] states@[j] == self@.orbital_states()[j],
            decreases count - i,
        {
            states.push(
                OrbitalState::new(self.orbital_species[i], self.orbital_ion[i], self.orbital_am[i]),
            );
            i += 1;
        }
        assert(states@ =~= self@.orbital_states());
        states
    }
}

} // verus!
