//! Constructors, access and the functions that work on every spin channel
//! alike.
use vstd::prelude::*;

use super::data_expression::{
    EigenvalueVec, KpointVec, KpointWeight, OrbitalWeight, OrbitalWeightVec, SpinData,
};
use super::decimal::Decimal;
use super::spins::SpinIndex;

verus! {

/// The bits of the weight that is kept for a weight read as `bits`: a
/// negative number becomes `+0.0`, all else stays, also `-0.0` and every
/// NaN.
///
/// The doubles below zero are those with the sign bit set, an exponent field
/// of at most `0x7ff` and, where it is `0x7ff`, a fraction of zero: as
/// integers, the bits above those of `-0.0` and up to those of minus
/// infinity.
pub open spec fn clamp_negative(bits: u64) -> u64 {
    if 0x8000_0000_0000_0000 < bits <= 0xfff0_0000_0000_0000 {
        0
    } else {
        bits
    }
}

impl<T> core::ops::Deref for KpointVec<T> {
    type Target = Vec<T>;

    fn deref(&self) -> (r: &Vec<T>)
        ensures
            *r == self.0,
    {
        &self.0
    }
}

impl<T> core::ops::Deref for EigenvalueVec<T> {
    type Target = Vec<T>;

    fn deref(&self) -> (r: &Vec<T>)
        ensures
            *r == self.0,
    {
        &self.0
    }
}

impl core::ops::Deref for OrbitalWeightVec {
    type Target = Vec<OrbitalWeight>;

    fn deref(&self) -> (r: &Vec<OrbitalWeight>)
        ensures
            *r == self.0,
    {
        &self.0
    }
}

impl OrbitalWeight {
    /// The bits of the weight.
    pub fn value(&self) -> (r: u64)
        ensures
            r == self.0,
    {
        self.0
    }

    /// The weight for the double with the given bits. Weights are sums of
    /// squares; one that was read as negative is noise and is kept as zero.
    pub fn new(bits: u64) -> (r: Self)
        ensures
            r.0 == clamp_negative(bits),
    {
        if 0x8000_0000_0000_0000 < bits && bits <= 0xfff0_0000_0000_0000 {
            Self(0)
        } else {
            Self(bits)
        }
    }
}

impl KpointWeight {
    /// The weight as it was written.
    pub fn value(&self) -> (r: &Decimal)
        ensures
            r == &self.0,
    {
        &self.0
    }

    /// Constructor
    pub fn new(value: Decimal) -> (r: Self)
        ensures
            r.0 == value,
    {
        Self(value)
    }
}

impl<T> EigenvalueVec<T> {
    /// Constructor
    pub fn new(data: Vec<T>) -> (r: Self)
        ensures
            r.0 == data,
    {
        Self(data)
    }

    /// Into inner type
    pub fn into_inner(self) -> (r: Vec<T>)
        ensures
            r == self.0,
    {
        self.0
    }
}

impl OrbitalWeightVec {
    /// Constructor
    pub fn new(data: Vec<OrbitalWeight>) -> (r: Self)
        ensures
            r.0 == data,
    {
        Self(data)
    }

    /// Into inner type
    pub fn into_inner(self) -> (r: Vec<OrbitalWeight>)
        ensures
            r == self.0,
    {
        self.0
    }
}

impl<T> KpointVec<T> {
    /// Constructor
    pub fn new(data: Vec<T>) -> (r: Self)
        ensures
            r.0 == data,
    {
        Self(data)
    }

    /// Into inner type
    pub fn into_inner(self) -> (r: Vec<T>)
        ensures
            r == self.0,
    {
        self.0
    }
}

impl<T> SpinData<T> {
    /// The data of one spin: of the only channel for spin one of data that
    /// is not polarized, of the channel asked for where it is, and nothing
    /// for spin two of data that is not polarized.
    pub fn get(&self, spin: SpinIndex) -> (r: Option<&T>)
        ensures
            match (*self, spin) {
                (SpinData::NonPolarized(data), SpinIndex::One) => r == Some(&data),
                (SpinData::NonPolarized(_), SpinIndex::Two) => r is None,
                (SpinData::SpinPolarized(pair), SpinIndex::One) => r == Some(&pair[0]),
                (SpinData::SpinPolarized(pair), SpinIndex::Two) => r == Some(&pair[1]),
            },
    {
        match self {
            SpinData::NonPolarized(data) => match spin {
                SpinIndex::One => Some(data),
                SpinIndex::Two => None,
            },
            SpinData::SpinPolarized(pair) => match spin {
                SpinIndex::One => Some(&pair[0]),
                SpinIndex::Two => Some(&pair[1]),
            },
        }
    }

    /// Applies `f` to the data of each spin channel and keeps the results in
    /// the same channels.
    pub fn map<U, F: Fn(&T) -> U>(&self, f: F) -> (r: SpinData<U>)
        requires
            self matches SpinData::NonPolarized(data) ==> call_requires(f, (&data,)),
            self matches SpinData::SpinPolarized(pair) ==> call_requires(f, (&pair[0],))
                && call_requires(f, (&pair[1],)),
        ensures
            self matches SpinData::NonPolarized(data) ==> (r matches SpinData::NonPolarized(out)
                && call_ensures(f, (&data,), out)),
            self matches SpinData::SpinPolarized(pair) ==> (r matches SpinData::SpinPolarized(out)
                && call_ensures(f, (&pair[0],), out[0]) && call_ensures(f, (&pair[1],), out[1])),
    {
        match self {
            SpinData::NonPolarized(data) => SpinData::NonPolarized(f(data)),
            SpinData::SpinPolarized(pair) => {
                let up = f(&pair[0]);
                let down = f(&pair[1]);
                SpinData::SpinPolarized([up, down])
            },
        }
    }

    /// Calls `f` on the data of each spin channel, spin up first.
    pub fn for_each<F: FnMut(&T)>(&self, mut f: F)
        requires
            self matches SpinData::NonPolarized(data) ==> call_requires(f, (&data,)),
            self matches SpinData::SpinPolarized(pair) ==> call_requires(f, (&pair[0],))
                && call_requires(f, (&pair[1],)),
    {
        match self {
            SpinData::NonPolarized(data) => f(data),
            SpinData::SpinPolarized(pair) => {
                f(&pair[0]);
                f(&pair[1]);
            },
        }
    }

    /// Applies `f` to the data of each spin channel of `self` and of `rhs`
    /// together. Both must have the same channels.
    pub fn map_pair<U, V, F: Fn(&T, &U) -> V>(&self, rhs: &SpinData<U>, f: F) -> (r: SpinData<V>)
        requires
            self.channels() == rhs.channels(),
            self matches SpinData::NonPolarized(a) ==> (rhs matches SpinData::NonPolarized(b)
                && call_requires(f, (&a, &b))),
            self matches SpinData::SpinPolarized(a) ==> (rhs matches SpinData::SpinPolarized(b)
                && call_requires(f, (&a[0], &b[0])) && call_requires(f, (&a[1], &b[1]))),
        ensures
            r.channels() == self.channels(),
            self matches SpinData::NonPolarized(a) ==> (rhs matches SpinData::NonPolarized(b)
                && r matches SpinData::NonPolarized(out) && call_ensures(f, (&a, &b), out)),
            self matches SpinData::SpinPolarized(a) ==> (rhs matches SpinData::SpinPolarized(b)
                && r matches SpinData::SpinPolarized(out) && call_ensures(
                f,
                (&a[0], &b[0]),
                out[0],
            ) && call_ensures(f, (&a[1], &b[1]), out[1])),
    {
        match self {
            SpinData::NonPolarized(data) => match rhs {
                SpinData::NonPolarized(rhs_data) => SpinData::NonPolarized(f(data, rhs_data)),
                SpinData::SpinPolarized(_) => vstd::pervasive::unreached(),
            },
            SpinData::SpinPolarized(pair) => match rhs {
                SpinData::SpinPolarized(rhs_pair) => {
                    let up = f(&pair[0], &rhs_pair[0]);
                    let down = f(&pair[1], &rhs_pair[1]);
                    SpinData::SpinPolarized([up, down])
                },
                SpinData::NonPolarized(_) => vstd::pervasive::unreached(),
            },
        }
    }
}

/// Whether `out` holds, place for place, a result of `f` on what `channel`
/// holds there.
pub open spec fn maps_each_eigenvalue<T, U, F: Fn(&T) -> U>(
    channel: KpointVec<EigenvalueVec<T>>,
    f: F,
    out: KpointVec<EigenvalueVec<U>>,
) -> bool {
    &&& out.0@.len() == channel.0@.len()
    &&& forall|k: int|
        0 <= k < channel.0@.len() ==> (#[trigger] out.0@[k]).0@.len() == channel.0@[k].0@.len()
    &&& forall|k: int, e: int|
        0 <= k < channel.0@.len() && 0 <= e < channel.0@[k].0@.len() ==> call_ensures(
            f,
            (&channel.0@[k].0@[e],),
            #[trigger] out.0@[k].0@[e],
        )
}

/// Whether `f` may be called on all that `channel` holds.
pub open spec fn accepts_each_eigenvalue<T, U, F: Fn(&T) -> U>(
    channel: KpointVec<EigenvalueVec<T>>,
    f: F,
) -> bool {
    forall|k: int, e: int|
        0 <= k < channel.0@.len() && 0 <= e < channel.0@[k].0@.len() ==> call_requires(
            f,
            (&#[trigger] channel.0@[k].0@[e],),
        )
}

impl<T> SpinData<KpointVec<EigenvalueVec<T>>> {
    /// Applies `f` to the data of every eigenvalue of every k-point of each
    /// spin channel, and keeps the results in the same places.
    pub fn map_on_data_of_eigenvalue<U, F>(&self, f: F) -> (r: SpinData<
        KpointVec<EigenvalueVec<U>>,
    >) where F: Fn(&T) -> U, U: Clone
        requires
            self matches SpinData::NonPolarized(channel) ==> accepts_each_eigenvalue(*channel, f),
            self matches SpinData::SpinPolarized(pair) ==> accepts_each_eigenvalue(pair[0], f)
                && accepts_each_eigenvalue(pair[1], f),
        ensures
            self matches SpinData::NonPolarized(channel) ==> (r matches SpinData::NonPolarized(out)
                && maps_each_eigenvalue(*channel, f, out)),
            self matches SpinData::SpinPolarized(pair) ==> (r matches SpinData::SpinPolarized(out)
                && maps_each_eigenvalue(pair[0], f, out[0]) && maps_each_eigenvalue(
                pair[1],
                f,
                out[1],
            )),
    {
        match self {
            SpinData::NonPolarized(channel) => SpinData::NonPolarized(
                map_for_values_of_eigen(channel, &f),
            ),
            SpinData::SpinPolarized(pair) => {
                let up = map_for_values_of_eigen(&pair[0], &f);
                let down = map_for_values_of_eigen(&pair[1], &f);
                SpinData::SpinPolarized([up, down])
            },
        }
    }
}

/// Applies `f` to the data of every eigenvalue of every k-point of one spin
/// channel.
pub fn map_for_values_of_eigen<T, U, F>(channel: &KpointVec<EigenvalueVec<T>>, f: &F) -> (r:
    KpointVec<EigenvalueVec<U>>) where U: Clone, F: Fn(&T) -> U
    requires
        accepts_each_eigenvalue(*channel, *f),
    ensures
        maps_each_eigenvalue(*channel, *f, r),
{
    let mut kpoints: Vec<EigenvalueVec<U>> = Vec::with_capacity(channel.0.len());
    let mut k: usize = 0;
    while k < channel.0.len()
        invariant
            k <= channel.0@.len(),
            kpoints@.len() == k,
            accepts_each_eigenvalue(*channel, *f),
            forall|j: int| 0 <= j < k ==> (#[trigger] kpoints@[j]).0@.len() == channel.0@[j].0@.len(),
            forall|j: int, e: int|
                0 <= j < k && 0 <= e < channel.0@[j].0@.len() ==> call_ensures(
                    *f,
                    (&channel.0@[j].0@[e],),
                    #[trigger] kpoints@[j].0@[e],
                ),
        decreases channel.0@.len() - k,
    {
        let source = &channel.0[k];
        let mut values: Vec<U> = Vec::with_capacity(source.0.len());
        let mut e: usize = 0;
        while e < source.0.len()
            invariant
                e <= source.0@.len(),
                values@.len() == e,
                0 <= k < channel.0@.len(),
                *source == channel.0@[k as int],
                accepts_each_eigenvalue(*channel, *f),
                forall|j: int|
                    0 <= j < e ==> call_ensures(*f, (&source.0@[j],), #[trigger] values@[j]),
            decreases source.0@.len() - e,
        {
            let item = &source.0[e];
            assert(call_requires(*f, (&channel.0@[k as int].0@[e as int],)));
            values.push(f(item));
            e += 1;
        }
        kpoints.push(EigenvalueVec(values));
        k += 1;
    }
    KpointVec(kpoints)
}

} // verus!
