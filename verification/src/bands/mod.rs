//! The `.bands` file: eigenvalues of every k-point, with what the file says
//! of the cell, the electrons and the Fermi energy.
use vstd::prelude::*;

use crate::fundamental::{
    BandStructure, BandStructureView, Decimal, EigenvalueVec, KpointVec, KpointWeight, SpinData,
    SpinPolarized, SpinView,
};

pub mod grammar;
pub mod parser;
pub mod tokens;

pub use parser::{BandsParser, BandsParsingError};

verus! {

/// Number of electrons: one count, or one for each spin.
#[derive(Debug, Clone, PartialEq)]
pub enum ElectronCount {
    /// Non-spin-polarized: total electrons
    NonPolarized(Decimal),
    /// Spin-polarized: (up, down) electrons
    Polarized(Decimal, Decimal),
}

/// Fermi energy: one value, or one for each spin.
#[derive(Debug, Clone, PartialEq)]
pub enum FermiEnergy {
    /// Single Fermi energy
    NonPolarized(Decimal),
    /// Separate Fermi energies for spin channels
    Polarized(Decimal, Decimal),
}

/// Unit cell vectors, one row for each vector.
#[derive(Debug, Clone, PartialEq)]
pub struct LatticeVectors(pub [[Decimal; 3]; 3]);

/// A k-point as `.bands` writes it.
#[derive(Debug, PartialEq)]
pub struct KPoint {
    /// Global index in k-point mesh
    pub index: usize,
    /// Fractional coordinates in reciprocal space
    pub coords: [Decimal; 3],
    /// Integration weight in BZ sampling
    pub weight: Decimal,
}

/// What a `KPoint` holds.
pub struct KPointView {
    pub index: usize,
    pub coords: Seq<Seq<u8>>,
    pub weight: Seq<u8>,
}

impl DeepView for KPoint {
    type V = KPointView;

    open spec fn deep_view(&self) -> KPointView {
        KPointView {
            index: self.index,
            coords: self.coords.deep_view(),
            weight: self.weight@,
        }
    }
}

impl Clone for KPoint {
    fn clone(&self) -> (r: Self)
        ensures
            r.deep_view() == self.deep_view(),
    {
        let coords = [self.coords[0].clone(), self.coords[1].clone(), self.coords[2].clone()];
        assert(coords.deep_view() =~= self.coords.deep_view());
        KPoint { index: self.index, coords, weight: self.weight.clone() }
    }
}

impl KPoint {
    /// Constructor
    pub fn new(index: usize, coords: [Decimal; 3], weight: Decimal) -> (r: Self)
        ensures
            r == (KPoint { index, coords, weight }),
    {
        Self { index, coords, weight }
    }
}

impl DeepView for ElectronCount {
    type V = SpinView<Seq<u8>>;

    open spec fn deep_view(&self) -> SpinView<Seq<u8>> {
        match self {
            ElectronCount::NonPolarized(n) => SpinView::NonPolarized(n@),
            ElectronCount::Polarized(up, down) => SpinView::SpinPolarized(up@, down@),
        }
    }
}

impl DeepView for FermiEnergy {
    type V = SpinView<Seq<u8>>;

    open spec fn deep_view(&self) -> SpinView<Seq<u8>> {
        match self {
            FermiEnergy::NonPolarized(e) => SpinView::NonPolarized(e@),
            FermiEnergy::Polarized(up, down) => SpinView::SpinPolarized(up@, down@),
        }
    }
}

/// Eigenvalues of all k-points, spin first: `([spin])[k-point][eigenvalue]`.
#[derive(Debug, Clone, PartialEq)]
pub enum Eigenvalues {
    /// SpinPolarized [nth spin][nth k-point][nth eigenvalue]
    SpinPolarized([Vec<Vec<Decimal>>; 2]),
    /// NonPolarized: [nth k-point][nth eigenvalue]
    NonPolarized(Vec<Vec<Decimal>>),
}

impl DeepView for Eigenvalues {
    type V = SpinView<Seq<Seq<Seq<u8>>>>;

    open spec fn deep_view(&self) -> SpinView<Seq<Seq<Seq<u8>>>> {
        match self {
            Eigenvalues::NonPolarized(items) => SpinView::NonPolarized(items.deep_view()),
            Eigenvalues::SpinPolarized(pair) => SpinView::SpinPolarized(
                pair[0].deep_view(),
                pair[1].deep_view(),
            ),
        }
    }
}

impl Eigenvalues {
    /// The two channels, where the data is spin-polarized.
    pub fn as_spin_polarized(&self) -> (r: Option<&[Vec<Vec<Decimal>>; 2]>)
        ensures
            match self {
                Eigenvalues::SpinPolarized(pair) => r == Some(pair),
                Eigenvalues::NonPolarized(_) => r is None,
            },
    {
        match self {
            Eigenvalues::SpinPolarized(pair) => Some(pair),
            Eigenvalues::NonPolarized(_) => None,
        }
    }

    /// The one channel, where the data is not spin-polarized.
    pub fn as_non_polarized(&self) -> (r: Option<&Vec<Vec<Decimal>>>)
        ensures
            match self {
                Eigenvalues::NonPolarized(items) => r == Some(items),
                Eigenvalues::SpinPolarized(_) => r is None,
            },
    {
        match self {
            Eigenvalues::NonPolarized(items) => Some(items),
            Eigenvalues::SpinPolarized(_) => None,
        }
    }
}

/// All that a `.bands` file holds.
#[derive(Debug, Clone, PartialEq)]
pub struct BandsFile {
    /// Spin-polarized settings
    pub spin_polarized: SpinPolarized,
    /// Lattice vectors, one row each
    pub lattice_vectors: [[Decimal; 3]; 3],
    /// Fermi energy/energies in Hartree
    pub fermi_energy: FermiEnergy,
    /// Number of electrons in system
    pub electron_count: ElectronCount,
    /// All eigenvalues organized as [spin][kpoint][band]
    pub eigenvalues: Eigenvalues,
    /// Corresponding k-points
    pub kpoints: Vec<KPoint>,
}

/// What a `BandsFile` holds.
pub struct BandsFileView {
    pub spin_polarized: SpinPolarized,
    pub lattice_vectors: Seq<Seq<Seq<u8>>>,
    pub fermi_energy: SpinView<Seq<u8>>,
    pub electron_count: SpinView<Seq<u8>>,
    pub eigenvalues: SpinView<Seq<Seq<Seq<u8>>>>,
    pub kpoints: Seq<KPointView>,
}

/// Whether `channel` holds the eigenvalues of `kpoints` k-points, at least
/// one for each.
pub open spec fn channel_fits(channel: Seq<Seq<Seq<u8>>>, kpoints: nat) -> bool {
    channel.len() == kpoints && forall|k: int| 0 <= k < channel.len() ==> (#[trigger] channel[k]).len() > 0
}

/// Whether data that exists once or twice exists as often as `spin` says.
pub open spec fn follows_spin<V>(data: SpinView<V>, spin: SpinPolarized) -> bool {
    match data {
        SpinView::NonPolarized(_) => spin == SpinPolarized::False,
        SpinView::SpinPolarized(_, _) => spin == SpinPolarized::True,
    }
}

impl BandsFileView {
    /// Whether the parts of the file fit one another: electron count, Fermi
    /// energy and eigenvalues exist once or twice as the spin setting says,
    /// there are three unit cell vectors of three components, at least one
    /// k-point, each k-point has three coordinates, and every spin channel
    /// holds at least one eigenvalue for each k-point.
    pub open spec fn well_formed(self) -> bool {
        &&& follows_spin(self.electron_count, self.spin_polarized)
        &&& follows_spin(self.fermi_energy, self.spin_polarized)
        &&& follows_spin(self.eigenvalues, self.spin_polarized)
        &&& self.lattice_vectors.len() == 3
        &&& forall|i: int| 0 <= i < 3 ==> (#[trigger] self.lattice_vectors[i]).len() == 3
        &&& self.kpoints.len() > 0
        &&& forall|k: int| 0 <= k < self.kpoints.len() ==> (#[trigger] self.kpoints[k]).coords.len() == 3
        &&& match self.eigenvalues {
            SpinView::NonPolarized(channel) => channel_fits(channel, self.kpoints.len()),
            SpinView::SpinPolarized(up, down) => channel_fits(up, self.kpoints.len())
                && channel_fits(down, self.kpoints.len()),
        }
    }
}

impl DeepView for BandsFile {
    type V = BandsFileView;

    open spec fn deep_view(&self) -> BandsFileView {
        BandsFileView {
            spin_polarized: self.spin_polarized,
            lattice_vectors: self.lattice_vectors.deep_view(),
            fermi_energy: self.fermi_energy.deep_view(),
            electron_count: self.electron_count.deep_view(),
            eigenvalues: self.eigenvalues.deep_view(),
            kpoints: self.kpoints.deep_view(),
        }
    }
}

/// What a density-of-states calculation takes from a band file: the spin
/// setting, the Fermi energies, the weight of each k-point in the order of
/// the k-points, and the eigenvalues.
pub open spec fn spec_band_structure(file: BandsFileView) -> BandStructureView {
    BandStructureView {
        spin_polarized: file.spin_polarized,
        fermi_energy: file.fermi_energy,
        kpoint_weights: Seq::new(file.kpoints.len(), |i: int| file.kpoints[i].weight),
        eigenvalues: file.eigenvalues,
    }
}

/// A copy of a list of decimals.
pub fn copy_decimals(source: &Vec<Decimal>) -> (r: Vec<Decimal>)
    ensures
        r.deep_view() == source.deep_view(),
{
    let mut copy: Vec<Decimal> = Vec::with_capacity(source.len());
    let mut e: usize = 0;
    while e < source.len()
        invariant
            e <= source.len(),
            copy@.len() == e,
            forall|j: int| 0 <= j < e ==> (#[trigger] copy@[j])@ == source@[j]@,
        decreases source.len() - e,
    {
        copy.push(source[e].clone());
        e += 1;
    }
    assert(copy.deep_view() =~= source.deep_view());
    copy
}

/// A copy of the eigenvalues of one spin channel in the named containers.
fn copy_channel(channel: &Vec<Vec<Decimal>>) -> (r: KpointVec<EigenvalueVec<Decimal>>)
    ensures
        r.deep_view() == channel.deep_view(),
{
    let mut kpoints: Vec<EigenvalueVec<Decimal>> = Vec::with_capacity(channel.len());
    let mut k: usize = 0;
    while k < channel.len()
        invariant
            k <= channel.len(),
            kpoints@.len() == k,
            forall|j: int| 0 <= j < k ==> (#[trigger] kpoints@[j]).deep_view() == channel@[j].deep_view(),
        decreases channel.len() - k,
    {
        kpoints.push(EigenvalueVec(copy_decimals(&channel[k])));
        k += 1;
    }
    assert(kpoints.deep_view() =~= channel.deep_view());
    KpointVec(kpoints)
}

impl BandsFile {
    /// Keeps what a density-of-states calculation needs: the k-point
    /// weights without indices and coordinates, the Fermi energies and the
    /// eigenvalues.
    pub fn to_band_structure(self) -> (r: BandStructure)
        ensures
            r.deep_view() == spec_band_structure(self.deep_view()),
            self.deep_view().well_formed() ==> r.deep_view().well_formed(),
    {
        let spin_polarized = self.spin_polarized;
        let mut weights: Vec<KpointWeight> = Vec::with_capacity(self.kpoints.len());
        let mut k: usize = 0;
        while k < self.kpoints.len()
            invariant
                k <= self.kpoints.len(),
                weights@.len() == k,
                forall|j: int| 0 <= j < k ==> (#[trigger] weights@[j]).0@ == self.kpoints@[j].weight@,
            decreases self.kpoints.len() - k,
        {
            weights.push(KpointWeight(self.kpoints[k].weight.clone()));
            k += 1;
        }
        let kpoint_weights = KpointVec(weights);
        assert(kpoint_weights.deep_view() =~= spec_band_structure(self.deep_view()).kpoint_weights);
        let eigenvalues = match &self.eigenvalues {
            Eigenvalues::SpinPolarized(pair) => {
                let up = copy_channel(&pair[0]);
                let down = copy_channel(&pair[1]);
                SpinData::SpinPolarized([up, down])
            },
            Eigenvalues::NonPolarized(items) => SpinData::NonPolarized(copy_channel(items)),
        };
        let fermi_energy = match self.fermi_energy {
            FermiEnergy::NonPolarized(f) => SpinData::NonPolarized(f),
            FermiEnergy::Polarized(up, down) => SpinData::SpinPolarized([up, down]),
        };
        BandStructure { spin_polarized, kpoint_weights, eigenvalues, fermi_energy }
    }
}

} // verus!
