//! The data read from `.pdos_weights` and `.bands`, and its containers.
use vstd::prelude::*;

pub mod angular_momentum;
pub mod data_expression;
pub mod decimal;
pub mod ergonomics_impl;
pub mod orbital;
pub mod pdos_file;
pub mod spins;

pub use angular_momentum::{AngularMomentum, AngularMomentumConvertError};
pub use data_expression::{
    EigenvalueVec, KpointVec, KpointWeight, OrbitalState, OrbitalWeight, OrbitalWeightVec, SpinData,
    SpinView,
};
pub use decimal::Decimal;
pub use orbital::Orbital;
pub use pdos_file::{
    Header, HeaderView, WeightsPerEigen, WeightsPerKPoint, WeightsPerKPointView, WeightsPerSpin,
    WeightsPerSpinView,
};
pub use spins::{NumSpins, NumSpinsConvertError, SpinIndex, SpinIndexConvertError, SpinPolarized};

verus! {

/// What a `.pdos_weights` file gives to a projection: the orbitals and the
/// weight of each orbital at each eigenvalue of each k-point.
#[derive(Debug, Clone, PartialEq)]
pub struct PDOSWeights {
    /// Setting of spin polarization
    pub spin_polarized: SpinPolarized,
    /// The orbitals, in the order of their weights
    pub orbital_states: Vec<OrbitalState>,
    /// The weights as `[spin][k-point][eigenvalue][orbital]`
    pub orbital_weights: SpinData<KpointVec<EigenvalueVec<OrbitalWeightVec>>>,
}

/// What a `PDOSWeights` holds.
pub struct PDOSWeightsView {
    pub spin_polarized: SpinPolarized,
    pub orbital_states: Seq<OrbitalState>,
    pub orbital_weights: SpinView<Seq<Seq<Seq<u64>>>>,
}

impl DeepView for PDOSWeights {
    type V = PDOSWeightsView;

    open spec fn deep_view(&self) -> PDOSWeightsView {
        PDOSWeightsView {
            spin_polarized: self.spin_polarized,
            orbital_states: self.orbital_states@,
            orbital_weights: self.orbital_weights.deep_view(),
        }
    }
}

/// Whether every list of weights in `channel` has `orbitals` entries.
pub open spec fn channel_has_width(channel: Seq<Seq<Seq<u64>>>, orbitals: nat) -> bool {
    forall|k: int, e: int|
        0 <= k < channel.len() && 0 <= e < channel[k].len() ==> (#[trigger] channel[k][e]).len()
            == orbitals
}

impl PDOSWeightsView {
    /// Whether there is one weight for each orbital at every eigenvalue, and
    /// as many spin channels as the spin setting says.
    pub open spec fn well_formed(self) -> bool {
        match self.orbital_weights {
            SpinView::NonPolarized(channel) => self.spin_polarized == SpinPolarized::False
                && channel_has_width(channel, self.orbital_states.len()),
            SpinView::SpinPolarized(up, down) => self.spin_polarized == SpinPolarized::True
                && channel_has_width(up, self.orbital_states.len()) && channel_has_width(
                down,
                self.orbital_states.len(),
            ),
        }
    }
}

impl PDOSWeights {
    /// Constructor
    pub fn new(
        spin_polarized: SpinPolarized,
        orbital_states: Vec<OrbitalState>,
        orbital_weights: SpinData<KpointVec<EigenvalueVec<OrbitalWeightVec>>>,
    ) -> (r: Self)
        ensures
            r == (PDOSWeights { spin_polarized, orbital_states, orbital_weights }),
    {
        Self { spin_polarized, orbital_states, orbital_weights }
    }
}

/// What a `.bands` file gives to a density-of-states calculation.
#[derive(Debug, Clone, PartialEq)]
pub struct BandStructure {
    /// Setting of spin polarization
    pub spin_polarized: SpinPolarized,
    /// Fermi energy of each spin channel, in Hartree
    pub fermi_energy: SpinData<Decimal>,
    /// K-point weights in the order of the k-points
    pub kpoint_weights: KpointVec<KpointWeight>,
    /// Eigenvalues in Hartree, as `[spin][k-point][eigenvalue]`
    pub eigenvalues: SpinData<KpointVec<EigenvalueVec<Decimal>>>,
}

/// What a `BandStructure` holds.
pub struct BandStructureView {
    pub spin_polarized: SpinPolarized,
    pub fermi_energy: SpinView<Seq<u8>>,
    pub kpoint_weights: Seq<Seq<u8>>,
    pub eigenvalues: SpinView<Seq<Seq<Seq<u8>>>>,
}

impl BandStructureView {
    /// Whether Fermi energy and eigenvalues exist once or twice as the spin
    /// setting says, and every spin channel holds the eigenvalues of as
    /// many k-points as there are weights.
    pub open spec fn well_formed(self) -> bool {
        match (self.fermi_energy, self.eigenvalues) {
            (SpinView::NonPolarized(_), SpinView::NonPolarized(channel)) => self.spin_polarized
                == SpinPolarized::False && channel.len() == self.kpoint_weights.len(),
            (SpinView::SpinPolarized(_, _), SpinView::SpinPolarized(up, down)) => {
                self.spin_polarized == SpinPolarized::True && up.len() == self.kpoint_weights.len()
                    && down.len() == self.kpoint_weights.len()
            },
            _ => false,
        }
    }
}

impl DeepView for BandStructure {
    type V = BandStructureView;

    open spec fn deep_view(&self) -> BandStructureView {
        BandStructureView {
            spin_polarized: self.spin_polarized,
            fermi_energy: self.fermi_energy.deep_view(),
            kpoint_weights: self.kpoint_weights.deep_view(),
            eigenvalues: self.eigenvalues.deep_view(),
        }
    }
}

impl BandStructure {
    /// Constructor
    pub fn new(
        spin_polarized: SpinPolarized,
        fermi_energy: SpinData<Decimal>,
        kpoint_weights: KpointVec<KpointWeight>,
        eigenvalues: SpinData<KpointVec<EigenvalueVec<Decimal>>>,
    ) -> (r: Self)
        ensures
            r == (BandStructure { spin_polarized, fermi_energy, kpoint_weights, eigenvalues }),
    {
        Self { spin_polarized, fermi_energy, kpoint_weights, eigenvalues }
    }
}

} // verus!
