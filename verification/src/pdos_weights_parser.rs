//! The parser of `.pdos_weights` and `.pdos_bin`.
//!
//! Both files are sequences of records. A `.pdos_bin` starts with a record
//! that holds its version as a double and a record that describes the file;
//! behind these it is a `.pdos_weights`:
//!
//! ```text
//! header    total_kpoints num_spins num_orbitals max_bands     (u32 each)
//!           species[num_orbitals] ion[num_orbitals] am[num_orbitals]
//! k-point   one record of 28 bytes: index (u32), kx ky kz (doubles)
//!   spin    index (u32), nbands_occ (u32)
//!     band  weights[num_orbitals] (doubles)
//! ```
use vstd::prelude::*;

use crate::fundamental::channel_has_width;
use crate::fundamental::ergonomics_impl::clamp_negative;
use crate::fundamental::{
    AngularMomentum, AngularMomentumConvertError, EigenvalueVec, Header, HeaderView, KpointVec,
    NumSpins, NumSpinsConvertError, OrbitalWeight, OrbitalWeightVec, PDOSWeights, PDOSWeightsView,
    SpinData, SpinIndex, SpinIndexConvertError, SpinPolarized, SpinView, WeightsPerEigen,
    WeightsPerKPoint, WeightsPerKPointView, WeightsPerSpin, WeightsPerSpinView,
};
use crate::helper::{
    be_u32, be_u64, parse_record, parse_scalar, parse_vec, spec_record, spec_scalar, spec_vec,
    FromBeBytes, HelperError,
};

verus! {

/// The parts of the file, for telling where reading failed.
#[derive(Debug, Clone, Copy, PartialEq, Eq, Structural)]
pub enum ParsingStage {
    /// The four numbers at the start.
    Header,
    /// The three lists that describe the orbitals.
    OrbitalMetadata,
    /// The record with index and coordinates of a k-point.
    KpointIndex,
    /// The block of one spin component of a k-point.
    SpinBlock,
}

/// Why a `.pdos_weights` or `.pdos_bin` was refused.
#[derive(Debug, Clone, Copy, PartialEq, Eq, Structural)]
pub enum ParsingError {
    /// The header gives a number of spins other than 1 and 2.
    NumSpins(NumSpinsConvertError),
    /// A spin block gives a spin index other than 1 and 2.
    SpinIndex(SpinIndexConvertError),
    /// An orbital has an angular momentum above 3.
    AngularMomentum(AngularMomentumConvertError),
    /// A record of part `stage` could not be read.
    HelperError { stage: ParsingStage, source: HelperError },
}

impl ParsingError {
    /// The part of the file in which reading failed.
    pub fn stage(&self) -> (r: ParsingStage)
        ensures
            r == match *self {
                ParsingError::NumSpins(_) => ParsingStage::Header,
                ParsingError::SpinIndex(_) => ParsingStage::SpinBlock,
                ParsingError::AngularMomentum(_) => ParsingStage::OrbitalMetadata,
                ParsingError::HelperError { stage, .. } => stage,
            },
    {
        match self {
            ParsingError::NumSpins(_) => ParsingStage::Header,
            ParsingError::SpinIndex(_) => ParsingStage::SpinBlock,
            ParsingError::AngularMomentum(_) => ParsingStage::OrbitalMetadata,
            ParsingError::HelperError { stage, .. } => *stage,
        }
    }
}

/// The outcome of reading a record of part `stage`.
pub open spec fn at_stage<T>(stage: ParsingStage, outcome: Result<T, HelperError>) -> Result<
    T,
    ParsingError,
> {
    match outcome {
        Ok(value) => Ok(value),
        Err(source) => Err(ParsingError::HelperError { stage, source }),
    }
}

/// The angular momenta that a list of codes stands for, or the error of the
/// first code that stands for none.
pub open spec fn angular_momenta(codes: Seq<u32>) -> Result<
    Seq<AngularMomentum>,
    AngularMomentumConvertError,
>
    decreases codes.len(),
{
    if codes.len() == 0 {
        Ok(Seq::empty())
    } else {
        match angular_momenta(codes.drop_last()) {
            Err(e) => Err(e),
            Ok(earlier) => match AngularMomentum::from_code(codes.last()) {
                Ok(am) => Ok(earlier.push(am)),
                Err(e) => Err(e),
            },
        }
    }
}

/// What reading the header gives: the header and the bytes behind it.
#[verifier::opaque]
pub open spec fn spec_header(s: Seq<u8>) -> Result<(HeaderView, Seq<u8>), ParsingError> {
    match at_stage(ParsingStage::Header, spec_scalar::<u32, 4>(s)) {
        Err(e) => Err(e),
        Ok((total_kpoints, s1)) => match at_stage(ParsingStage::Header, spec_scalar::<u32, 4>(s1)) {
            Err(e) => Err(e),
            Ok((spins, s2)) => match NumSpins::from_code(spins) {
                Err(e) => Err(ParsingError::NumSpins(e)),
                Ok(num_spins) => match at_stage(ParsingStage::Header, spec_scalar::<u32, 4>(s2)) {
                    Err(e) => Err(e),
                    Ok((num_orbitals, s3)) => match at_stage(
                        ParsingStage::Header,
                        spec_scalar::<u32, 4>(s3),
                    ) {
                        Err(e) => Err(e),
                        Ok((max_bands, s4)) => match spec_orbital_metadata(s4, num_orbitals as nat) {
                            Err(e) => Err(e),
                            Ok(((orbital_species, orbital_ion, orbital_am), s7)) => Ok(
                                (
                                    HeaderView {
                                        total_kpoints,
                                        num_spins,
                                        num_orbitals,
                                        max_bands,
                                        orbital_species,
                                        orbital_ion,
                                        orbital_am,
                                    },
                                    s7,
                                ),
                            ),
                        },
                    },
                },
            },
        },
    }
}

/// What reading the three lists of `count` entries each gives: species,
/// ions and angular momenta, and the bytes behind the third list. All three
/// records are read before the codes of the third are looked at.
#[verifier::opaque]
pub open spec fn spec_orbital_metadata(s: Seq<u8>, count: nat) -> Result<
    ((Seq<u32>, Seq<u32>, Seq<AngularMomentum>), Seq<u8>),
    ParsingError,
> {
    match at_stage(ParsingStage::OrbitalMetadata, spec_vec::<u32, 4>(s, count)) {
        Err(e) => Err(e),
        Ok((species, s1)) => match at_stage(
            ParsingStage::OrbitalMetadata,
            spec_vec::<u32, 4>(s1, count),
        ) {
            Err(e) => Err(e),
            Ok((ion, s2)) => match at_stage(
                ParsingStage::OrbitalMetadata,
                spec_vec::<u32, 4>(s2, count),
            ) {
                Err(e) => Err(e),
                Ok((codes, s3)) => match angular_momenta(codes) {
                    Err(e) => Err(ParsingError::AngularMomentum(e)),
                    Ok(am) => Ok(((species, ion, am), s3)),
                },
            },
        },
    }
}

/// What reading `count` bands of `width` weights each gives.
pub open spec fn spec_bands(s: Seq<u8>, count: nat, width: nat) -> Result<
    (Seq<Seq<u64>>, Seq<u8>),
    ParsingError,
>
    decreases count,
{
    if count == 0 {
        Ok((Seq::empty(), s))
    } else {
        match at_stage(ParsingStage::SpinBlock, spec_vec::<u64, 8>(s, width)) {
            Err(e) => Err(e),
            Ok((weights, rest)) => match spec_bands(rest, (count - 1) as nat, width) {
                Err(e) => Err(e),
                Ok((later, end)) => Ok((seq![weights] + later, end)),
            },
        }
    }
}

/// What reading the block of one spin component gives.
#[verifier::opaque]
pub open spec fn spec_weight_per_spin(s: Seq<u8>, width: nat) -> Result<
    (WeightsPerSpinView, Seq<u8>),
    ParsingError,
> {
    match at_stage(ParsingStage::SpinBlock, spec_scalar::<u32, 4>(s)) {
        Err(e) => Err(e),
        Ok((code, s1)) => match SpinIndex::from_code(code) {
            Err(e) => Err(ParsingError::SpinIndex(e)),
            Ok(index) => match at_stage(ParsingStage::SpinBlock, spec_scalar::<u32, 4>(s1)) {
                Err(e) => Err(e),
                Ok((nbands_occ, s2)) => match spec_bands(s2, nbands_occ as nat, width) {
                    Err(e) => Err(e),
                    Ok((bands, end)) => Ok((WeightsPerSpinView { index, nbands_occ, bands }, end)),
                },
            },
        }
    }
}

/// What reading `count` spin blocks one after another gives.
pub open spec fn spec_spins(s: Seq<u8>, count: nat, width: nat) -> Result<
    (Seq<WeightsPerSpinView>, Seq<u8>),
    ParsingError,
>
    decreases count,
{
    if count == 0 {
        Ok((Seq::empty(), s))
    } else {
        match spec_weight_per_spin(s, width) {
            Err(e) => Err(e),
            Ok((spin, rest)) => match spec_spins(rest, (count - 1) as nat, width) {
                Err(e) => Err(e),
                Ok((later, end)) => Ok((seq![spin] + later, end)),
            },
        }
    }
}

/// What reading the block of one k-point gives: its record of 28 bytes,
/// then `spins` spin blocks.
#[verifier::opaque]
pub open spec fn spec_kpoint(s: Seq<u8>, spins: nat, width: nat) -> Result<
    (WeightsPerKPointView, Seq<u8>),
    ParsingError,
> {
    match at_stage(ParsingStage::KpointIndex, spec_record(s, Some(28nat))) {
        Err(e) => Err(e),
        Ok((payload, s1)) => match spec_spins(s1, spins, width) {
            Err(e) => Err(e),
            Ok((blocks, end)) => Ok(
                (
                    WeightsPerKPointView {
                        index: be_u32(payload.subrange(0, 4)),
                        kpoint: seq![
                            be_u64(payload.subrange(4, 12)),
                            be_u64(payload.subrange(12, 20)),
                            be_u64(payload.subrange(20, 28)),
                        ],
                        spins: blocks,
                    },
                    end,
                ),
            ),
        },
    }
}

/// What reading the blocks of `count` k-points one after another gives.
pub open spec fn spec_kpoints(s: Seq<u8>, count: nat, spins: nat, width: nat) -> Result<
    (Seq<WeightsPerKPointView>, Seq<u8>),
    ParsingError,
>
    decreases count,
{
    if count == 0 {
        Ok((Seq::empty(), s))
    } else {
        match spec_kpoint(s, spins, width) {
            Err(e) => Err(e),
            Ok((kpoint, rest)) => match spec_kpoints(rest, (count - 1) as nat, spins, width) {
                Err(e) => Err(e),
                Ok((later, end)) => Ok((seq![kpoint] + later, end)),
            },
        }
    }
}

/// The weights of one band as they are kept: each clamped at zero.
pub open spec fn kept_weights(weights: Seq<u64>) -> Seq<u64> {
    Seq::new(weights.len(), |i: int| clamp_negative(weights[i]))
}

/// The weights of the spin block at place `spin` of a k-point, as they are
/// kept: one list for each band.
pub open spec fn kept_bands(kpoint: WeightsPerKPointView, spin: int) -> Seq<Seq<u64>> {
    Seq::new(
        kpoint.spins[spin].bands.len(),
        |e: int| kept_weights(kpoint.spins[spin].bands[e]),
    )
}

/// The spin channel made of the spin block at place `spin` of every
/// k-point, in the order of the k-points.
pub open spec fn spin_channel(kpoints: Seq<WeightsPerKPointView>, spin: int) -> Seq<
    Seq<Seq<u64>>,
> {
    Seq::new(kpoints.len(), |k: int| kept_bands(kpoints[k], spin))
}

/// The weights of a file, spin first: the first spin block of every
/// k-point is spin up, the second is spin down, whatever index the blocks
/// give themselves.
pub open spec fn organize(header: HeaderView, kpoints: Seq<WeightsPerKPointView>) -> PDOSWeightsView {
    PDOSWeightsView {
        spin_polarized: match header.num_spins {
            NumSpins::One => SpinPolarized::False,
            NumSpins::Two => SpinPolarized::True,
        },
        orbital_states: header.orbital_states(),
        orbital_weights: match header.num_spins {
            NumSpins::One => SpinView::NonPolarized(spin_channel(kpoints, 0)),
            NumSpins::Two => SpinView::SpinPolarized(
                spin_channel(kpoints, 0),
                spin_channel(kpoints, 1),
            ),
        },
    }
}

/// What reading a `.pdos_weights` gives: the weights and the bytes behind
/// the last k-point.
pub open spec fn spec_pdos_weight(s: Seq<u8>) -> Result<(PDOSWeightsView, Seq<u8>), ParsingError> {
    match spec_header(s) {
        Err(e) => Err(e),
        Ok((header, s1)) => match spec_kpoints(
            s1,
            header.total_kpoints as nat,
            header.num_spins.count(),
            header.num_orbitals as nat,
        ) {
            Err(e) => Err(e),
            Ok((kpoints, end)) => Ok((organize(header, kpoints), end)),
        },
    }
}

/// What reading a `.pdos_weights` or a `.pdos_bin` gives. Where the first
/// record holds a double, the file is taken as a `.pdos_bin`: that record
/// and the next are passed over. Else it is read as a `.pdos_weights` from
/// its first byte.
pub open spec fn spec_pdos_weight_file(s: Seq<u8>) -> Result<
    (PDOSWeightsView, Seq<u8>),
    ParsingError,
> {
    match spec_scalar::<u64, 8>(s) {
        Ok((_, s1)) => match at_stage(ParsingStage::Header, spec_record(s1, None)) {
            Err(e) => Err(e),
            Ok((_, s2)) => spec_pdos_weight(s2),
        },
        Err(_) => spec_pdos_weight(s),
    }
}

/// Reads one `u32` of part `stage`.
fn scalar_at(input: &mut &[u8], stage: ParsingStage) -> (r: Result<u32, ParsingError>)
    ensures
        match at_stage(stage, spec_scalar::<u32, 4>(old(input)@)) {
            Ok((value, rest)) => r == Ok::<u32, ParsingError>(value) && final(input)@ == rest,
            Err(e) => r == Err::<u32, ParsingError>(e) && final(input)@ == old(input)@,
        },
{
    match parse_scalar::<u32, 4>(input) {
        Ok(value) => Ok(value),
        Err(source) => Err(ParsingError::HelperError { stage, source }),
    }
}

/// The angular momenta for a list of codes.
fn convert_angular_momenta(codes: &Vec<u32>) -> (r: Result<
    Vec<AngularMomentum>,
    AngularMomentumConvertError,
>)
    ensures
        match angular_momenta(codes@) {
            Ok(am) => r matches Ok(found) && found@ == am,
            Err(e) => r == Err::<Vec<AngularMomentum>, AngularMomentumConvertError>(e),
        },
{
    let mut converted: Vec<AngularMomentum> = Vec::with_capacity(codes.len());
    let mut i: usize = 0;
    while i < codes.len()
        invariant
            i <= codes@.len(),
            angular_momenta(codes@.take(i as int)) == Ok::<
                Seq<AngularMomentum>,
                AngularMomentumConvertError,
            >(converted@),
        decreases codes@.len() - i,
    {
        proof {
            assert(codes@.take(i + 1).drop_last() == codes@.take(i as int));
            lemma_angular_momenta_fail_early(codes@, i + 1);
        }
        match AngularMomentum::try_from(codes[i]) {
            Ok(am) => converted.push(am),
            Err(e) => {
                return Err(e);
            },
        }
        i += 1;
    }
    assert(codes@.take(codes@.len() as int) == codes@);
    Ok(converted)
}

/// The error of a front part of a list of codes is the error of the list.
pub proof fn lemma_angular_momenta_fail_early(codes: Seq<u32>, n: int)
    requires
        0 <= n <= codes.len(),
    ensures
        angular_momenta(codes.take(n)) matches Err(e) ==> angular_momenta(codes) == Err::<
            Seq<AngularMomentum>,
            AngularMomentumConvertError,
        >(e),
    decreases codes.len() - n,
{
    if n < codes.len() {
        assert(codes.take(n + 1).drop_last() == codes.take(n));
        lemma_angular_momenta_fail_early(codes, n + 1);
    } else {
        assert(codes.take(n) == codes);
    }
}

/// Reads the three lists that describe `count` orbitals.
fn parse_orbital_metadata(input: &mut &[u8], count: u32) -> (r: Result<
    (Vec<u32>, Vec<u32>, Vec<AngularMomentum>),
    ParsingError,
>)
    ensures
        match spec_orbital_metadata(old(input)@, count as nat) {
            Ok(((species, ion, am), rest)) => r matches Ok(found) && found.0@ == species
                && found.1@ == ion && found.2@ == am && final(input)@ == rest,
            Err(e) => r matches Err(found) && found == e && final(input)@ == old(input)@,
        },
{
    proof {
        reveal(spec_orbital_metadata);
    }
    let mut cursor: &[u8] = *input;
    let species = match parse_vec::<u32, 4>(&mut cursor, count as usize) {
        Ok(v) => v,
        Err(source) => {
            return Err(
                ParsingError::HelperError { stage: ParsingStage::OrbitalMetadata, source },
            );
        },
    };
    let ion = match parse_vec::<u32, 4>(&mut cursor, count as usize) {
        Ok(v) => v,
        Err(source) => {
            return Err(
                ParsingError::HelperError { stage: ParsingStage::OrbitalMetadata, source },
            );
        },
    };
    let codes = match parse_vec::<u32, 4>(&mut cursor, count as usize) {
        Ok(v) => v,
        Err(source) => {
            return Err(
                ParsingError::HelperError { stage: ParsingStage::OrbitalMetadata, source },
            );
        },
    };
    let am = match convert_angular_momenta(&codes) {
        Ok(am) => am,
        Err(e) => {
            return Err(ParsingError::AngularMomentum(e));
        },
    };
    *input = cursor;
    Ok((species, ion, am))
}

/// Reads the header of a `.pdos_weights`. On an error nothing is consumed.
pub fn parse_header(input: &mut &[u8]) -> (r: Result<Header, ParsingError>)
    ensures
        match spec_header(old(input)@) {
            Ok((header, rest)) => r matches Ok(found) && found@ == header && header.well_formed()
                && final(input)@ == rest,
            Err(e) => r matches Err(found) && found == e && final(input)@ == old(input)@,
        },
{
    proof {
        reveal(spec_header);
        lemma_header_well_formed(input@);
    }
    let mut cursor: &[u8] = *input;
    let total_kpoints = match scalar_at(&mut cursor, ParsingStage::Header) {
        Ok(v) => v,
        Err(e) => {
            return Err(e);
        },
    };
    let spins = match scalar_at(&mut cursor, ParsingStage::Header) {
        Ok(v) => v,
        Err(e) => {
            return Err(e);
        },
    };
    let num_spins = match NumSpins::try_from(spins) {
        Ok(v) => v,
        Err(e) => {
            return Err(ParsingError::NumSpins(e));
        },
    };
    let num_orbitals = match scalar_at(&mut cursor, ParsingStage::Header) {
        Ok(v) => v,
        Err(e) => {
            return Err(e);
        },
    };
    let max_bands = match scalar_at(&mut cursor, ParsingStage::Header) {
        Ok(v) => v,
        Err(e) => {
            return Err(e);
        },
    };
    let (orbital_species, orbital_ion, orbital_am) = match parse_orbital_metadata(
        &mut cursor,
        num_orbitals,
    ) {
        Ok(v) => v,
        Err(e) => {
            return Err(e);
        },
    };
    *input = cursor;
    Ok(
        Header {
            total_kpoints,
            num_spins,
            num_orbitals,
            max_bands,
            orbital_species,
            orbital_ion,
            orbital_am,
        },
    )
}

/// Reads `count` bands of `width` weights each. On an error nothing is
/// consumed.
fn parse_bands(input: &mut &[u8], count: u32, width: usize) -> (r: Result<
    Vec<WeightsPerEigen>,
    ParsingError,
>)
    ensures
        match spec_bands(old(input)@, count as nat, width as nat) {
            Ok((bands, rest)) => r matches Ok(found) && found.deep_view() == bands && final(input)@
                == rest,
            Err(e) => r matches Err(found) && found == e && final(input)@ == old(input)@,
        },
{
    let mut cursor: &[u8] = *input;
    let ghost start = cursor@;
    let mut bands: Vec<WeightsPerEigen> = Vec::new();
    let mut i: u32 = 0;
    while i < count
        invariant
            i <= count,
            bands@.len() == i,
            start == old(input)@,
            input@ == old(input)@,
            spec_bands(start, count as nat, width as nat) == match spec_bands(
                cursor@,
                (count - i) as nat,
                width as nat,
            ) {
                Ok((later, end)) => Ok::<(Seq<Seq<u64>>, Seq<u8>), ParsingError>(
                    (bands.deep_view() + later, end),
                ),
                Err(e) => Err::<(Seq<Seq<u64>>, Seq<u8>), ParsingError>(e),
            },
        decreases count - i,
    {
        let ghost before = bands.deep_view();
        let weights = match parse_vec::<u64, 8>(&mut cursor, width) {
            Ok(v) => v,
            Err(source) => {
                return Err(ParsingError::HelperError { stage: ParsingStage::SpinBlock, source });
            },
        };
        let ghost later = spec_bands(cursor@, (count - i - 1) as nat, width as nat);
        bands.push(WeightsPerEigen::new(weights));
        proof {
            assert(bands.deep_view() =~= before.push(weights@));
            if later is Ok {
                assert(before.push(weights@) + later->Ok_0.0 =~= before + (seq![weights@]
                    + later->Ok_0.0));
            }
        }
        i += 1;
    }
    proof {
        assert(bands.deep_view() + Seq::<Seq<u64>>::empty() =~= bands.deep_view());
    }
    *input = cursor;
    Ok(bands)
}

/// Reads the block of one spin component: its index, its number of bands,
/// and for each band the weights of all orbitals. On an error nothing is
/// consumed.
pub fn parse_weight_per_spin(input: &mut &[u8], header: &Header) -> (r: Result<
    WeightsPerSpin,
    ParsingError,
>)
    ensures
        match spec_weight_per_spin(old(input)@, header.num_orbitals as nat) {
            Ok((spin, rest)) => r matches Ok(found) && found.deep_view() == spin && final(input)@
                == rest,
            Err(e) => r matches Err(found) && found == e && final(input)@ == old(input)@,
        },
{
    proof {
        reveal(spec_weight_per_spin);
    }
    let mut cursor: &[u8] = *input;
    let code = match scalar_at(&mut cursor, ParsingStage::SpinBlock) {
        Ok(v) => v,
        Err(e) => {
            return Err(e);
        },
    };
    let index = match SpinIndex::try_from(code) {
        Ok(v) => v,
        Err(e) => {
            return Err(ParsingError::SpinIndex(e));
        },
    };
    let nbands_occ = match scalar_at(&mut cursor, ParsingStage::SpinBlock) {
        Ok(v) => v,
        Err(e) => {
            return Err(e);
        },
    };
    let bands = match parse_bands(&mut cursor, nbands_occ, header.num_orbitals as usize) {
        Ok(v) => v,
        Err(e) => {
            return Err(e);
        },
    };
    *input = cursor;
    Ok(WeightsPerSpin::new(index, nbands_occ, bands))
}

/// Reads one spin block for each spin component that the header counts. On
/// an error nothing is consumed.
fn parse_spins(input: &mut &[u8], header: &Header) -> (r: Result<Vec<WeightsPerSpin>, ParsingError>)
    ensures
        match spec_spins(old(input)@, header.num_spins.count(), header.num_orbitals as nat) {
            Ok((spins, rest)) => r matches Ok(found) && found.deep_view() == spins && final(input)@
                == rest,
            Err(e) => r matches Err(found) && found == e && final(input)@ == old(input)@,
        },
{
    let mut cursor: &[u8] = *input;
    let count: usize = header.num_spins.spin_count();
    let ghost width = header.num_orbitals as nat;
    let ghost start = cursor@;
    let mut spins: Vec<WeightsPerSpin> = Vec::new();
    let mut i: usize = 0;
    while i < count
        invariant
            i <= count,
            count == header.num_spins.count(),
            width == header.num_orbitals,
            spins@.len() == i,
            start == old(input)@,
            input@ == old(input)@,
            spec_spins(start, count as nat, width) == match spec_spins(
                cursor@,
                (count - i) as nat,
                width,
            ) {
                Ok((later, end)) => Ok::<(Seq<WeightsPerSpinView>, Seq<u8>), ParsingError>(
                    (spins.deep_view() + later, end),
                ),
                Err(e) => Err::<(Seq<WeightsPerSpinView>, Seq<u8>), ParsingError>(e),
            },
        decreases count - i,
    {
        let ghost before = spins.deep_view();
        let spin = match parse_weight_per_spin(&mut cursor, header) {
            Ok(v) => v,
            Err(e) => {
                return Err(e);
            },
        };
        let ghost later = spec_spins(cursor@, (count - i - 1) as nat, width);
        spins.push(spin);
        proof {
            assert(spins.deep_view() =~= before.push(spin.deep_view()));
            if later is Ok {
                assert(before.push(spin.deep_view()) + later->Ok_0.0 =~= before + (seq![
                    spin.deep_view(),
                ] + later->Ok_0.0));
            }
        }
        i += 1;
    }
    proof {
        assert(spins.deep_view() + Seq::<WeightsPerSpinView>::empty() =~= spins.deep_view());
    }
    *input = cursor;
    Ok(spins)
}

/// Reads the block of one k-point: the record with its index and
/// coordinates, then one block for each spin component. On an error nothing
/// is consumed.
pub fn parse_kpoint(input: &mut &[u8], header: &Header) -> (r: Result<
    WeightsPerKPoint,
    ParsingError,
>)
    ensures
        match spec_kpoint(old(input)@, header.num_spins.count(), header.num_orbitals as nat) {
            Ok((kpoint, rest)) => r matches Ok(found) && found.deep_view() == kpoint && final(input)@
                == rest,
            Err(e) => r matches Err(found) && found == e && final(input)@ == old(input)@,
        },
{
    proof {
        reveal(spec_kpoint);
    }
    let mut cursor: &[u8] = *input;
    let payload = match parse_record(&mut cursor, Some(28)) {
        Ok(v) => v,
        Err(source) => {
            return Err(ParsingError::HelperError { stage: ParsingStage::KpointIndex, source });
        },
    };
    let index = <u32 as FromBeBytes<4>>::from_be_bytes(&payload[0..4]);
    let kx = <u64 as FromBeBytes<8>>::from_be_bytes(&payload[4..12]);
    let ky = <u64 as FromBeBytes<8>>::from_be_bytes(&payload[12..20]);
    let kz = <u64 as FromBeBytes<8>>::from_be_bytes(&payload[20..28]);
    let kpoint = [kx, ky, kz];
    let spins = match parse_spins(&mut cursor, header) {
        Ok(v) => v,
        Err(e) => {
            return Err(e);
        },
    };
    proof {
        assert(kpoint@ =~= seq![kx, ky, kz]);
    }
    *input = cursor;
    Ok(WeightsPerKPoint::new(index, kpoint, spins))
}

/// Reads the blocks of all k-points that the header counts. On an error
/// nothing is consumed.
fn parse_kpoints(input: &mut &[u8], header: &Header) -> (r: Result<
    Vec<WeightsPerKPoint>,
    ParsingError,
>)
    ensures
        match spec_kpoints(
            old(input)@,
            header.total_kpoints as nat,
            header.num_spins.count(),
            header.num_orbitals as nat,
        ) {
            Ok((kpoints, rest)) => r matches Ok(found) && found.deep_view() == kpoints && final(input)@
                == rest && forall|k: int|
                0 <= k < found@.len() ==> (#[trigger] found@[k]).spins@.len()
                    == header.num_spins.count(),
            Err(e) => r matches Err(found) && found == e && final(input)@ == old(input)@,
        },
{
    let mut cursor: &[u8] = *input;
    let total: u32 = header.total_kpoints;
    let ghost spins = header.num_spins.count();
    let ghost width = header.num_orbitals as nat;
    let ghost start = cursor@;
    let mut kpoints: Vec<WeightsPerKPoint> = Vec::new();
    let mut i: u32 = 0;
    while i < total
        invariant
            i <= total,
            total == header.total_kpoints,
            spins == header.num_spins.count(),
            width == header.num_orbitals,
            kpoints@.len() == i,
            start == old(input)@,
            input@ == old(input)@,
            forall|k: int| 0 <= k < kpoints@.len() ==> (#[trigger] kpoints@[k]).spins@.len() == spins,
            spec_kpoints(start, total as nat, spins, width) == match spec_kpoints(
                cursor@,
                (total - i) as nat,
                spins,
                width,
            ) {
                Ok((later, end)) => Ok::<(Seq<WeightsPerKPointView>, Seq<u8>), ParsingError>(
                    (kpoints.deep_view() + later, end),
                ),
                Err(e) => Err::<(Seq<WeightsPerKPointView>, Seq<u8>), ParsingError>(e),
            },
        decreases total - i,
    {
        let ghost before = kpoints.deep_view();
        let ghost here = cursor@;
        let kpoint = match parse_kpoint(&mut cursor, header) {
            Ok(v) => v,
            Err(e) => {
                return Err(e);
            },
        };
        let ghost later = spec_kpoints(cursor@, (total - i - 1) as nat, spins, width);
        proof {
            reveal(spec_kpoint);
            let record = spec_record(here, Some(28nat));
            lemma_spins_shape(record->Ok_0.1, spins, width);
            assert(kpoint.spins.deep_view().len() == spins);
        }
        kpoints.push(kpoint);
        proof {
            assert(kpoints.deep_view() =~= before.push(kpoint.deep_view()));
            if later is Ok {
                assert(before.push(kpoint.deep_view()) + later->Ok_0.0 =~= before + (seq![
                    kpoint.deep_view(),
                ] + later->Ok_0.0));
            }
        }
        i += 1;
    }
    proof {
        assert(kpoints.deep_view() + Seq::<WeightsPerKPointView>::empty() =~= kpoints.deep_view());
    }
    *input = cursor;
    Ok(kpoints)
}

/// The weights of the spin block at place `spin` of every k-point, each
/// clamped at zero, in the named containers.
fn collect_spin_channel(kpoints: &Vec<WeightsPerKPoint>, spin: usize) -> (r: KpointVec<
    EigenvalueVec<OrbitalWeightVec>,
>)
    requires
        forall|k: int| 0 <= k < kpoints@.len() ==> spin < (#[trigger] kpoints@[k]).spins@.len(),
    ensures
        r.deep_view() == spin_channel(kpoints.deep_view(), spin as int),
{
    let mut channel: Vec<EigenvalueVec<OrbitalWeightVec>> = Vec::with_capacity(kpoints.len());
    let mut k: usize = 0;
    while k < kpoints.len()
        invariant
            k <= kpoints@.len(),
            channel@.len() == k,
            forall|j: int| 0 <= j < kpoints@.len() ==> spin < (#[trigger] kpoints@[j]).spins@.len(),
            forall|j: int|
                0 <= j < k ==> (#[trigger] channel@[j]).deep_view() == kept_bands(
                    kpoints@[j].deep_view(),
                    spin as int,
                ),
        decreases kpoints@.len() - k,
    {
        let source = &kpoints[k].spins[spin];
        let mut bands: Vec<OrbitalWeightVec> = Vec::with_capacity(source.bands.len());
        let mut e: usize = 0;
        while e < source.bands.len()
            invariant
                e <= source.bands@.len(),
                bands@.len() == e,
                forall|j: int|
                    0 <= j < e ==> (#[trigger] bands@[j]).deep_view() == kept_weights(
                        source.bands@[j].weights@,
                    ),
            decreases source.bands@.len() - e,
        {
            let raw = &source.bands[e].weights;
            let mut weights: Vec<OrbitalWeight> = Vec::with_capacity(raw.len());
            let mut o: usize = 0;
            while o < raw.len()
                invariant
                    o <= raw@.len(),
                    weights@.len() == o,
                    forall|j: int|
                        0 <= j < o ==> (#[trigger] weights@[j]).0 == clamp_negative(raw@[j]),
                decreases raw@.len() - o,
            {
                weights.push(OrbitalWeight::new(raw[o]));
                o += 1;
            }
            let kept = OrbitalWeightVec::new(weights);
            assert(kept.deep_view() =~= kept_weights(raw@));
            bands.push(kept);
            e += 1;
        }
        let column = EigenvalueVec::new(bands);
        assert(column.deep_view() =~= kept_bands(kpoints@[k as int].deep_view(), spin as int));
        channel.push(column);
        k += 1;
    }
    let result = KpointVec::new(channel);
    assert(result.deep_view() =~= spin_channel(kpoints.deep_view(), spin as int));
    result
}

/// A list of codes that stand for angular momenta gives as many of them.
pub proof fn lemma_angular_momenta_len(codes: Seq<u32>)
    ensures
        angular_momenta(codes) matches Ok(am) ==> am.len() == codes.len(),
    decreases codes.len(),
{
    if codes.len() > 0 {
        lemma_angular_momenta_len(codes.drop_last());
    }
}

/// Bands that were read are as many as asked for, and each holds as many
/// weights as asked for.
pub proof fn lemma_bands_shape(s: Seq<u8>, count: nat, width: nat)
    ensures
        spec_bands(s, count, width) matches Ok((bands, _)) ==> bands.len() == count && forall|
            e: int,
        | 0 <= e < bands.len() ==> (#[trigger] bands[e]).len() == width,
    decreases count,
{
    if count > 0 {
        if let Ok((_, rest)) = spec_vec::<u64, 8>(s, width) {
            lemma_bands_shape(rest, (count - 1) as nat, width);
        }
    }
}

/// Spin blocks that were read are as many as asked for, and each of their
/// bands holds as many weights as asked for.
pub proof fn lemma_spins_shape(s: Seq<u8>, count: nat, width: nat)
    ensures
        spec_spins(s, count, width) matches Ok((blocks, _)) ==> blocks.len() == count && forall|
            i: int,
            e: int,
        |
            0 <= i < blocks.len() && 0 <= e < blocks[i].bands.len() ==> (
            #[trigger] blocks[i].bands[e]).len() == width,
    decreases count,
{
    reveal(spec_weight_per_spin);
    if count > 0 {
        if let Ok((_, rest)) = spec_weight_per_spin(s, width) {
            lemma_spins_shape(rest, (count - 1) as nat, width);
            if let Ok((_, s1)) = spec_scalar::<u32, 4>(s) {
                if let Ok((nbands_occ, s2)) = spec_scalar::<u32, 4>(s1) {
                    lemma_bands_shape(s2, nbands_occ as nat, width);
                }
            }
        }
    }
}

/// K-point blocks that were read are as many as asked for, each has as many
/// spin blocks as asked for, and each band of these holds as many weights
/// as asked for.
pub proof fn lemma_kpoints_shape(s: Seq<u8>, count: nat, spins: nat, width: nat)
    ensures
        spec_kpoints(s, count, spins, width) matches Ok((kpoints, _)) ==> kpoints.len() == count
            && forall|k: int|
            0 <= k < kpoints.len() ==> (#[trigger] kpoints[k]).spins.len() == spins && forall|
                i: int,
                e: int,
            |
                0 <= i < spins && 0 <= e < kpoints[k].spins[i].bands.len() ==> (
                #[trigger] kpoints[k].spins[i].bands[e]).len() == width,
    decreases count,
{
    reveal(spec_kpoint);
    if count > 0 {
        if let Ok((_, rest)) = spec_kpoint(s, spins, width) {
            lemma_kpoints_shape(rest, (count - 1) as nat, spins, width);
            if let Ok((_, s1)) = spec_record(s, Some(28nat)) {
                lemma_spins_shape(s1, spins, width);
            }
        }
    }
}

/// Weights that were read from a file are well formed: there is one weight
/// for each orbital of the header at every eigenvalue of every k-point.
pub proof fn lemma_parsed_weights_well_formed(s: Seq<u8>)
    ensures
        spec_pdos_weight(s) matches Ok((weights, _)) ==> weights.well_formed(),
        spec_pdos_weight_file(s) matches Ok((weights, _)) ==> weights.well_formed(),
{
    lemma_weights_well_formed(s);
    if let Ok((_, s1)) = spec_scalar::<u64, 8>(s) {
        if let Ok((_, s2)) = spec_record(s1, None) {
            lemma_weights_well_formed(s2);
        }
    }
}

proof fn lemma_weights_well_formed(s: Seq<u8>)
    ensures
        spec_pdos_weight(s) matches Ok((weights, _)) ==> weights.well_formed(),
{
    if let Ok((header, s1)) = spec_header(s) {
        let spins = header.num_spins.count();
        let width = header.num_orbitals as nat;
        lemma_header_well_formed(s);
        lemma_kpoints_shape(s1, header.total_kpoints as nat, spins, width);
        if let Ok((kpoints, _)) = spec_kpoints(s1, header.total_kpoints as nat, spins, width) {
            assert(header.orbital_states().len() == width);
            assert forall|spin: int| 0 <= spin < spins implies channel_has_width(
                #[trigger] spin_channel(kpoints, spin),
                width,
            ) by {
                let channel = spin_channel(kpoints, spin);
                assert forall|k: int, e: int|
                    0 <= k < channel.len() && 0 <= e < channel[k].len() implies (
                #[trigger] channel[k][e]).len() == width by {
                    assert(kpoints[k].spins.len() == spins);
                    assert(kpoints[k].spins[spin].bands[e].len() == width);
                }
            }
            match header.num_spins {
                NumSpins::One => {
                    assert(channel_has_width(spin_channel(kpoints, 0), width));
                },
                NumSpins::Two => {
                    assert(channel_has_width(spin_channel(kpoints, 0), width));
                    assert(channel_has_width(spin_channel(kpoints, 1), width));
                },
            }
        }
    }
}

/// A header that was read is well formed: each of its three lists has one
/// entry for each orbital.
pub proof fn lemma_header_well_formed(s: Seq<u8>)
    ensures
        spec_header(s) matches Ok((header, _)) ==> header.well_formed(),
{
    reveal(spec_header);
    reveal(spec_orbital_metadata);
    if let Ok((header, _)) = spec_header(s) {
        let s1 = spec_scalar::<u32, 4>(s)->Ok_0.1;
        let s2 = spec_scalar::<u32, 4>(s1)->Ok_0.1;
        let s3 = spec_scalar::<u32, 4>(s2)->Ok_0.1;
        let s4 = spec_scalar::<u32, 4>(s3)->Ok_0.1;
        let count = header.num_orbitals as nat;
        let s5 = spec_vec::<u32, 4>(s4, count)->Ok_0.1;
        let s6 = spec_vec::<u32, 4>(s5, count)->Ok_0.1;
        lemma_angular_momenta_len(spec_vec::<u32, 4>(s6, count)->Ok_0.0);
    }
}

/// Reads a `.pdos_weights`: the header, then the block of every k-point,
/// and puts the weights in the order `[spin][k-point][eigenvalue][orbital]`.
/// On an error nothing is consumed.
pub fn parse_pdos_weight(input: &mut &[u8]) -> (r: Result<PDOSWeights, ParsingError>)
    ensures
        match spec_pdos_weight(old(input)@) {
            Ok((weights, rest)) => r matches Ok(found) && found.deep_view() == weights
                && weights.well_formed() && final(input)@ == rest,
            Err(e) => r matches Err(found) && found == e && final(input)@ == old(input)@,
        },
{
    proof {
        lemma_parsed_weights_well_formed(input@);
    }
    let mut cursor: &[u8] = *input;
    let header = match parse_header(&mut cursor) {
        Ok(v) => v,
        Err(e) => {
            return Err(e);
        },
    };
    let kpoints = match parse_kpoints(&mut cursor, &header) {
        Ok(v) => v,
        Err(e) => {
            return Err(e);
        },
    };
    let spin_polarized = header.spin_polarized();
    let orbital_states = header.extract_orbital_states();
    let orbital_weights = match header.num_spins {
        NumSpins::One => SpinData::NonPolarized(collect_spin_channel(&kpoints, 0)),
        NumSpins::Two => {
            let up = collect_spin_channel(&kpoints, 0);
            let down = collect_spin_channel(&kpoints, 1);
            SpinData::SpinPolarized([up, down])
        },
    };
    *input = cursor;
    Ok(PDOSWeights::new(spin_polarized, orbital_states, orbital_weights))
}

/// Reads a `.pdos_weights` or a `.pdos_bin`. The kind of file is told by
/// trying the first record as the version of a `.pdos_bin`; where that
/// fails, nothing was consumed, and the input is read as a `.pdos_weights`.
/// On an error nothing is consumed.
pub fn parse_pdos_weight_file(input: &mut &[u8]) -> (r: Result<PDOSWeights, ParsingError>)
    ensures
        match spec_pdos_weight_file(old(input)@) {
            Ok((weights, rest)) => r matches Ok(found) && found.deep_view() == weights
                && weights.well_formed() && final(input)@ == rest,
            Err(e) => r matches Err(found) && found == e && final(input)@ == old(input)@,
        },
{
    proof {
        lemma_parsed_weights_well_formed(input@);
    }
    let mut cursor: &[u8] = *input;
    let version = parse_scalar::<u64, 8>(&mut cursor);
    if version.is_ok() {
        match parse_record(&mut cursor, None) {
            Ok(_) => {},
            Err(source) => {
                return Err(ParsingError::HelperError { stage: ParsingStage::Header, source });
            },
        }
    }
    match parse_pdos_weight(&mut cursor) {
        Ok(weights) => {
            *input = cursor;
            Ok(weights)
        },
        Err(e) => Err(e),
    }
}

/// Whether an error says that the input ended inside a record.
pub open spec fn is_truncated(e: ParsingError) -> bool {
    e matches ParsingError::HelperError { source: HelperError::Truncated, .. }
}

/// How reading a prefix of `k` bytes of a stream goes, where reading the
/// whole stream of `len` bytes gave `full`: where the prefix ends inside
/// what was read, it is refused as truncated; where it holds all that was
/// read, it gives the same value and what is left of the prefix.
pub open spec fn cut_goes_as<T>(
    full: Result<(T, Seq<u8>), ParsingError>,
    cut: Result<(T, Seq<u8>), ParsingError>,
    len: int,
    k: int,
) -> bool {
    full matches Ok((value, rest)) ==> {
        let consumed = len - rest.len();
        &&& 0 <= consumed
        &&& k < consumed ==> (cut matches Err(e) && is_truncated(e))
        &&& k >= consumed ==> cut == Ok::<(T, Seq<u8>), ParsingError>(
            (value, rest.take(k - consumed)),
        )
    }
}

/// Whether `rest` is the end of `s`.
pub open spec fn is_end_of(rest: Seq<u8>, s: Seq<u8>) -> bool {
    rest.len() <= s.len() && rest == s.skip(s.len() - rest.len())
}

proof fn lemma_cut_record(s: Seq<u8>, expected: Option<nat>, stage: ParsingStage, k: int)
    requires
        0 <= k <= s.len(),
    ensures
        cut_goes_as(
            at_stage(stage, spec_record(s, expected)),
            at_stage(stage, spec_record(s.take(k), expected)),
            s.len() as int,
            k,
        ),
        spec_record(s, expected) matches Ok((_, rest)) ==> is_end_of(rest, s),
{
    if let Ok((payload, rest)) = spec_record(s, expected) {
        if k < 8 + payload.len() {
            crate::helper::lemma_truncated_record(s, expected, k);
        } else {
            crate::helper::lemma_record_in_prefix(s, expected, k);
        }
        crate::helper::lemma_record_in_prefix(s, expected, s.len() as int);
    }
}

proof fn lemma_cut_scalar(s: Seq<u8>, stage: ParsingStage, k: int)
    requires
        0 <= k <= s.len(),
    ensures
        cut_goes_as(
            at_stage(stage, spec_scalar::<u32, 4>(s)),
            at_stage(stage, spec_scalar::<u32, 4>(s.take(k))),
            s.len() as int,
            k,
        ),
        spec_scalar::<u32, 4>(s) matches Ok((_, rest)) ==> is_end_of(rest, s),
{
    lemma_cut_record(s, Some(4nat), stage, k);
}

proof fn lemma_cut_vec<T: FromBeBytes<N>, const N: usize>(
    s: Seq<u8>,
    len: nat,
    stage: ParsingStage,
    k: int,
)
    requires
        0 <= k <= s.len(),
    ensures
        cut_goes_as(
            at_stage(stage, spec_vec::<T, N>(s, len)),
            at_stage(stage, spec_vec::<T, N>(s.take(k), len)),
            s.len() as int,
            k,
        ),
        spec_vec::<T, N>(s, len) matches Ok((_, rest)) ==> is_end_of(rest, s),
{
    lemma_cut_record(s, Some((N * len) as nat), stage, k);
}

/// What is left of a prefix behind the first `c` bytes is a prefix of what
/// is left of the whole.
proof fn lemma_take_skip(s: Seq<u8>, c: int, k: int)
    requires
        0 <= c <= k <= s.len(),
    ensures
        s.take(k).skip(c) == s.skip(c).take(k - c),
        s.skip(c).len() == s.len() - c,
{
    assert(s.take(k).skip(c) =~= s.skip(c).take(k - c));
}

proof fn lemma_cut_orbital_metadata(s: Seq<u8>, count: nat, k: int)
    requires
        0 <= k <= s.len(),
    ensures
        cut_goes_as(
            spec_orbital_metadata(s, count),
            spec_orbital_metadata(s.take(k), count),
            s.len() as int,
            k,
        ),
        spec_orbital_metadata(s, count) matches Ok((_, rest)) ==> is_end_of(rest, s),
{
    reveal(spec_orbital_metadata);
    let stage = ParsingStage::OrbitalMetadata;
    if spec_orbital_metadata(s, count) is Ok {
        lemma_cut_vec::<u32, 4>(s, count, stage, k);
        let s1 = spec_vec::<u32, 4>(s, count)->Ok_0.1;
        let c1 = s.len() - s1.len();
        lemma_cut_vec::<u32, 4>(s1, count, stage, 0);
        let s2 = spec_vec::<u32, 4>(s1, count)->Ok_0.1;
        let c2 = s1.len() - s2.len();
        lemma_cut_vec::<u32, 4>(s2, count, stage, 0);
        let s3 = spec_vec::<u32, 4>(s2, count)->Ok_0.1;
        assert(s3 =~= s.skip(s.len() - s3.len()));
        if k >= c1 {
            lemma_take_skip(s, c1, k);
            lemma_cut_vec::<u32, 4>(s1, count, stage, k - c1);
            if k - c1 >= c2 {
                lemma_take_skip(s1, c2, k - c1);
                lemma_cut_vec::<u32, 4>(s2, count, stage, k - c1 - c2);
            }
        }
    }
}

proof fn lemma_cut_header(s: Seq<u8>, k: int)
    requires
        0 <= k <= s.len(),
    ensures
        cut_goes_as(spec_header(s), spec_header(s.take(k)), s.len() as int, k),
        spec_header(s) matches Ok((_, rest)) ==> is_end_of(rest, s),
{
    reveal(spec_header);
    let stage = ParsingStage::Header;
    if let Ok((header, rest)) = spec_header(s) {
        lemma_cut_scalar(s, stage, k);
        let s1 = spec_scalar::<u32, 4>(s)->Ok_0.1;
        let c1 = s.len() - s1.len();
        lemma_cut_scalar(s1, stage, 0);
        let s2 = spec_scalar::<u32, 4>(s1)->Ok_0.1;
        let c2 = s1.len() - s2.len();
        lemma_cut_scalar(s2, stage, 0);
        let s3 = spec_scalar::<u32, 4>(s2)->Ok_0.1;
        let c3 = s2.len() - s3.len();
        lemma_cut_scalar(s3, stage, 0);
        let s4 = spec_scalar::<u32, 4>(s3)->Ok_0.1;
        let c4 = s3.len() - s4.len();
        let count = header.num_orbitals as nat;
        lemma_cut_orbital_metadata(s4, count, 0);
        assert(rest =~= s.skip(s.len() - rest.len()));
        if k >= c1 {
            lemma_take_skip(s, c1, k);
            lemma_cut_scalar(s1, stage, k - c1);
            if k - c1 >= c2 {
                lemma_take_skip(s1, c2, k - c1);
                lemma_cut_scalar(s2, stage, k - c1 - c2);
                if k - c1 - c2 >= c3 {
                    lemma_take_skip(s2, c3, k - c1 - c2);
                    lemma_cut_scalar(s3, stage, k - c1 - c2 - c3);
                    if k - c1 - c2 - c3 >= c4 {
                        lemma_take_skip(s3, c4, k - c1 - c2 - c3);
                        lemma_cut_orbital_metadata(s4, count, k - c1 - c2 - c3 - c4);
                    }
                }
            }
        }
    }
}

proof fn lemma_cut_bands(s: Seq<u8>, count: nat, width: nat, k: int)
    requires
        0 <= k <= s.len(),
    ensures
        cut_goes_as(
            spec_bands(s, count, width),
            spec_bands(s.take(k), count, width),
            s.len() as int,
            k,
        ),
        spec_bands(s, count, width) matches Ok((_, rest)) ==> is_end_of(rest, s),
    decreases count,
{
    if count == 0 {
        assert(s.take(k) =~= s.take(k - 0));
        assert(s =~= s.skip(0));
    } else if let Ok((_, rest)) = spec_bands(s, count, width) {
        let stage = ParsingStage::SpinBlock;
        lemma_cut_vec::<u64, 8>(s, width, stage, k);
        let s1 = spec_vec::<u64, 8>(s, width)->Ok_0.1;
        let c1 = s.len() - s1.len();
        lemma_cut_bands(s1, (count - 1) as nat, width, 0);
        assert(rest =~= s.skip(s.len() - rest.len()));
        if k >= c1 {
            lemma_take_skip(s, c1, k);
            lemma_cut_bands(s1, (count - 1) as nat, width, k - c1);
        }
    }
}

proof fn lemma_cut_weight_per_spin(s: Seq<u8>, width: nat, k: int)
    requires
        0 <= k <= s.len(),
    ensures
        cut_goes_as(
            spec_weight_per_spin(s, width),
            spec_weight_per_spin(s.take(k), width),
            s.len() as int,
            k,
        ),
        spec_weight_per_spin(s, width) matches Ok((_, rest)) ==> is_end_of(rest, s),
{
    reveal(spec_weight_per_spin);
    let stage = ParsingStage::SpinBlock;
    if let Ok((spin, rest)) = spec_weight_per_spin(s, width) {
        lemma_cut_scalar(s, stage, k);
        let s1 = spec_scalar::<u32, 4>(s)->Ok_0.1;
        let c1 = s.len() - s1.len();
        lemma_cut_scalar(s1, stage, 0);
        let s2 = spec_scalar::<u32, 4>(s1)->Ok_0.1;
        let c2 = s1.len() - s2.len();
        lemma_cut_bands(s2, spin.nbands_occ as nat, width, 0);
        assert(rest =~= s.skip(s.len() - rest.len()));
        if k >= c1 {
            lemma_take_skip(s, c1, k);
            lemma_cut_scalar(s1, stage, k - c1);
            if k - c1 >= c2 {
                lemma_take_skip(s1, c2, k - c1);
                lemma_cut_bands(s2, spin.nbands_occ as nat, width, k - c1 - c2);
            }
        }
    }
}

proof fn lemma_cut_spins(s: Seq<u8>, count: nat, width: nat, k: int)
    requires
        0 <= k <= s.len(),
    ensures
        cut_goes_as(
            spec_spins(s, count, width),
            spec_spins(s.take(k), count, width),
            s.len() as int,
            k,
        ),
        spec_spins(s, count, width) matches Ok((_, rest)) ==> is_end_of(rest, s),
    decreases count,
{
    if count == 0 {
        assert(s.take(k) =~= s.take(k - 0));
        assert(s =~= s.skip(0));
    } else if let Ok((_, rest)) = spec_spins(s, count, width) {
        lemma_cut_weight_per_spin(s, width, k);
        let s1 = spec_weight_per_spin(s, width)->Ok_0.1;
        let c1 = s.len() - s1.len();
        lemma_cut_spins(s1, (count - 1) as nat, width, 0);
        assert(rest =~= s.skip(s.len() - rest.len()));
        if k >= c1 {
            lemma_take_skip(s, c1, k);
            lemma_cut_spins(s1, (count - 1) as nat, width, k - c1);
        }
    }
}

proof fn lemma_cut_kpoint(s: Seq<u8>, spins: nat, width: nat, k: int)
    requires
        0 <= k <= s.len(),
    ensures
        cut_goes_as(
            spec_kpoint(s, spins, width),
            spec_kpoint(s.take(k), spins, width),
            s.len() as int,
            k,
        ),
        spec_kpoint(s, spins, width) matches Ok((_, rest)) ==> is_end_of(rest, s),
{
    reveal(spec_kpoint);
    if let Ok((_, rest)) = spec_kpoint(s, spins, width) {
        lemma_cut_record(s, Some(28nat), ParsingStage::KpointIndex, k);
        let s1 = spec_record(s, Some(28nat))->Ok_0.1;
        let c1 = s.len() - s1.len();
        lemma_cut_spins(s1, spins, width, 0);
        assert(rest =~= s.skip(s.len() - rest.len()));
        if k >= c1 {
            lemma_take_skip(s, c1, k);
            lemma_cut_spins(s1, spins, width, k - c1);
        }
    }
}

proof fn lemma_cut_kpoints(s: Seq<u8>, count: nat, spins: nat, width: nat, k: int)
    requires
        0 <= k <= s.len(),
    ensures
        cut_goes_as(
            spec_kpoints(s, count, spins, width),
            spec_kpoints(s.take(k), count, spins, width),
            s.len() as int,
            k,
        ),
        spec_kpoints(s, count, spins, width) matches Ok((_, rest)) ==> is_end_of(rest, s),
    decreases count,
{
    if count == 0 {
        assert(s.take(k) =~= s.take(k - 0));
        assert(s =~= s.skip(0));
    } else if let Ok((_, rest)) = spec_kpoints(s, count, spins, width) {
        lemma_cut_kpoint(s, spins, width, k);
        let s1 = spec_kpoint(s, spins, width)->Ok_0.1;
        let c1 = s.len() - s1.len();
        lemma_cut_kpoints(s1, (count - 1) as nat, spins, width, 0);
        assert(rest =~= s.skip(s.len() - rest.len()));
        if k >= c1 {
            lemma_take_skip(s, c1, k);
            lemma_cut_kpoints(s1, (count - 1) as nat, spins, width, k - c1);
        }
    }
}

/// A `.pdos_weights` that ends inside a record is refused as truncated,
/// and one that ends behind the last k-point is read as the whole: where a
/// stream can be read, a prefix of it that does not hold all that was read
/// is refused with `Truncated`, and no shorter file is ever made of it.
pub proof fn lemma_truncated_pdos_weight(s: Seq<u8>, k: int)
    requires
        0 <= k <= s.len(),
    ensures
        cut_goes_as(spec_pdos_weight(s), spec_pdos_weight(s.take(k)), s.len() as int, k),
        spec_pdos_weight(s) matches Ok((_, rest)) ==> is_end_of(rest, s),
{
    if let Ok((_, rest)) = spec_pdos_weight(s) {
        lemma_cut_header(s, k);
        let (header, s1) = spec_header(s)->Ok_0;
        let c1 = s.len() - s1.len();
        let total = header.total_kpoints as nat;
        let spins = header.num_spins.count();
        let width = header.num_orbitals as nat;
        lemma_cut_kpoints(s1, total, spins, width, 0);
        assert(rest =~= s.skip(s.len() - rest.len()));
        if k >= c1 {
            lemma_take_skip(s, c1, k);
            lemma_cut_kpoints(s1, total, spins, width, k - c1);
        }
    }
}

/// A file that ends inside a record is refused as truncated, whichever of
/// the two kinds it is. The one cut that is told otherwise is that inside
/// the version record of a `.pdos_bin`: what is left is then no `.pdos_bin`
/// any more and is refused as a `.pdos_weights`.
pub proof fn lemma_truncated_pdos_weight_file(s: Seq<u8>, k: int)
    requires
        0 <= k <= s.len(),
        spec_scalar::<u64, 8>(s) is Ok ==> k >= 16,
    ensures
        cut_goes_as(spec_pdos_weight_file(s), spec_pdos_weight_file(s.take(k)), s.len() as int, k),
{
    if let Ok((_, rest)) = spec_pdos_weight_file(s) {
        if let Ok((_, s1)) = spec_scalar::<u64, 8>(s) {
            crate::helper::lemma_record_in_prefix(s, Some(8nat), k);
            lemma_take_skip(s, 16, k);
            lemma_cut_record(s1, None, ParsingStage::Header, k - 16);
            let s2 = spec_record(s1, None)->Ok_0.1;
            let c2 = s1.len() - s2.len();
            lemma_truncated_pdos_weight(s2, 0);
            if k - 16 >= c2 {
                lemma_take_skip(s1, c2, k - 16);
                lemma_truncated_pdos_weight(s2, k - 16 - c2);
            }
        } else {
            lemma_truncated_pdos_weight(s, k);
            // the first record of what can be read holds four bytes, so no
            // prefix starts with a record of eight
            reveal(spec_header);
            let first = spec_scalar::<u32, 4>(s);
            assert(first is Ok);
            if k >= 4 {
                assert(s.take(k).subrange(0, 4) =~= s.subrange(0, 4));
            }
            assert(spec_scalar::<u64, 8>(s.take(k)) is Err);
        }
    }
}

} // verus!
