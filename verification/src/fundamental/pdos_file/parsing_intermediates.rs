//! The blocks of a `.pdos_weights` file as they follow one another:
//! k-point, then spin, then band.
use vstd::prelude::*;

use crate::fundamental::SpinIndex;

verus! {

/// The weights of all orbitals at one eigenvalue, as bits of doubles.
#[derive(Debug, Clone, PartialEq)]
pub struct WeightsPerEigen {
    /// PDOS weight of each orbital
    pub weights: Vec<u64>,
}

impl DeepView for WeightsPerEigen {
    type V = Seq<u64>;

    open spec fn deep_view(&self) -> Seq<u64> {
        self.weights@
    }
}

impl WeightsPerEigen {
    /// New
    pub fn new(weights: Vec<u64>) -> (r: Self)
        ensures
            r.weights == weights,
    {
        Self { weights }
    }
}

/// The block of one spin component inside the block of a k-point.
#[derive(Debug, Clone, PartialEq)]
pub struct WeightsPerSpin {
    /// Spin 1 or 2
    pub index: SpinIndex,
    /// Number of occupied bands
    pub nbands_occ: u32,
    /// The weights at each eigenvalue
    pub bands: Vec<WeightsPerEigen>,
}

/// What a `WeightsPerSpin` holds.
pub struct WeightsPerSpinView {
    pub index: SpinIndex,
    pub nbands_occ: u32,
    pub bands: Seq<Seq<u64>>,
}

impl DeepView for WeightsPerSpin {
    type V = WeightsPerSpinView;

    open spec fn deep_view(&self) -> WeightsPerSpinView {
        WeightsPerSpinView {
            index: self.index,
            nbands_occ: self.nbands_occ,
            bands: self.bands.deep_view(),
        }
    }
}

impl WeightsPerSpin {
    /// New
    pub fn new(index: SpinIndex, nbands_occ: u32, bands: Vec<WeightsPerEigen>) -> (r: Self)
        ensures
            r == (WeightsPerSpin { index, nbands_occ, bands }),
    {
        Self { index, nbands_occ, bands }
    }
}

/// The block of one k-point.
#[derive(Debug, Clone, PartialEq)]
pub struct WeightsPerKPoint {
    /// global k-point index
    pub index: u32,
    /// k-point coordinate, each component as bits of a double
    pub kpoint: [u64; 3],
    /// spin components
    pub spins: Vec<WeightsPerSpin>,
}

/// What a `WeightsPerKPoint` holds.
pub struct WeightsPerKPointView {
    pub index: u32,
    pub kpoint: Seq<u64>,
    pub spins: Seq<WeightsPerSpinView>,
}

impl DeepView for WeightsPerKPoint {
    type V = WeightsPerKPointView;

    open spec fn deep_view(&self) -> WeightsPerKPointView {
        WeightsPerKPointView {
            index: self.index,
            kpoint: self.kpoint@,
            spins: self.spins.deep_view(),
        }
    }
}

impl WeightsPerKPoint {
    /// New
    pub fn new(index: u32, kpoint: [u64; 3], spins: Vec<WeightsPerSpin>) -> (r: Self)
        ensures
            r == (WeightsPerKPoint { index, kpoint, spins }),
    {
        Self { index, kpoint, spins }
    }
}

} // verus!
