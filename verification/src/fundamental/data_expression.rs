//! Containers that give each axis of the nested data a name:
//! `[k-point][eigenvalue][orbital]`, once or twice according to the spin.
use vstd::prelude::*;

use super::angular_momentum::AngularMomentum;
use super::decimal::Decimal;

verus! {

/// One `T` for each k-point, in the order of the k-points.
#[derive(Debug, Clone, PartialEq, Default)]
pub struct KpointVec<T>(pub Vec<T>);

/// One `T` for each eigenvalue of a k-point, in the order of the eigenvalues.
#[derive(Debug, Clone, PartialEq, Default)]
pub struct EigenvalueVec<T>(pub Vec<T>);

/// The weights of all orbitals at one eigenvalue, in the order of the orbitals.
#[derive(Debug, Clone, PartialEq, Default)]
pub struct OrbitalWeightVec(pub Vec<OrbitalWeight>);

/// The weight of an orbital, held as the bits of an IEEE-754 double.
#[derive(Debug, Clone, Copy, PartialEq, Eq, Default, Structural)]
pub struct OrbitalWeight(pub u64);

/// The integration weight of a k-point, as the band file writes it.
#[derive(Debug, Clone, PartialEq)]
pub struct KpointWeight(pub Decimal);

/// Data that exists once when the spin is not polarized and twice, for spin
/// up and spin down in this order, when it is.
#[derive(Debug, Clone, PartialEq)]
pub enum SpinData<T> {
    /// The one channel.
    NonPolarized(T),
    /// Spin up, then spin down.
    SpinPolarized([T; 2]),
}

/// What a `SpinData` holds, with the two channels side by side.
pub enum SpinView<V> {
    /// The one channel.
    NonPolarized(V),
    /// Spin up, then spin down.
    SpinPolarized(V, V),
}

/// Species, ion and angular momentum of one orbital. The place of an orbital
/// in the list of all of them is its index in every array of weights.
#[derive(Debug, Clone, Copy, PartialEq, Eq, Structural)]
pub struct OrbitalState {
    /// Species id
    pub species_id: u32,
    /// Rank of the ion among those of its species, from 1
    pub ion_id: u32,
    /// Angular momentum
    pub angular_momentum: AngularMomentum,
}

impl OrbitalState {
    /// Constructor
    pub fn new(species_id: u32, ion_id: u32, angular_momentum: AngularMomentum) -> (r: Self)
        ensures
            r == (OrbitalState { species_id, ion_id, angular_momentum }),
    {
        Self { species_id, ion_id, angular_momentum }
    }
}

impl<T: DeepView> DeepView for KpointVec<T> {
    type V = Seq<T::V>;

    open spec fn deep_view(&self) -> Seq<T::V> {
        self.0.deep_view()
    }
}

impl<T: DeepView> DeepView for EigenvalueVec<T> {
    type V = Seq<T::V>;

    open spec fn deep_view(&self) -> Seq<T::V> {
        self.0.deep_view()
    }
}

impl DeepView for OrbitalWeight {
    type V = u64;

    open spec fn deep_view(&self) -> u64 {
        self.0
    }
}

impl DeepView for OrbitalWeightVec {
    type V = Seq<u64>;

    open spec fn deep_view(&self) -> Seq<u64> {
        self.0.deep_view()
    }
}

impl DeepView for KpointWeight {
    type V = Seq<u8>;

    open spec fn deep_view(&self) -> Seq<u8> {
        self.0@
    }
}

impl<T: DeepView> DeepView for SpinData<T> {
    type V = SpinView<T::V>;

    open spec fn deep_view(&self) -> SpinView<T::V> {
        match self {
            SpinData::NonPolarized(data) => SpinView::NonPolarized(data.deep_view()),
            SpinData::SpinPolarized(pair) => SpinView::SpinPolarized(
                pair[0].deep_view(),
                pair[1].deep_view(),
            ),
        }
    }
}

impl<T> SpinData<T> {
    /// Number of channels held.
    pub open spec fn channels(&self) -> nat {
        match self {
            SpinData::NonPolarized(_) => 1,
            SpinData::SpinPolarized(_) => 2,
        }
    }
}

} // verus!
