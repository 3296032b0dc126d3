//! The parser of `.bands`: a fixed sequence of stages, each of which reads
//! its lines at the cursor and moves the cursor behind them.
//!
//! ```text
//! KpointCount -> SpinConfig -> ElectronCount -> EigenvalueCount
//!             -> FermiEnergy -> LatticeVectors -> PerKpointBlocks
//! ```
//!
//! A stage that fails leaves the parser as it was and names itself and the
//! offset of the line that did not fit.
use vstd::prelude::*;
use vstd::string::StringSliceAdditionalSpecFns;

use super::grammar::{
    eigenvalue_count_line, eigenvalue_lines, electron_count_line, fermi_energy_line,
    kpoint_count_line, kpoint_line, scan_eigenvalue_count_line, scan_eigenvalue_lines,
    scan_electron_count_line, scan_fermi_energy_line, scan_kpoint_count_line, scan_kpoint_line,
    scan_spin_component_line, scan_spin_config_line, scan_unit_cell_header_line,
    scan_vector_line, spin_component_line, spin_config_line, unit_cell_header_line, vector_line,
};
use super::{
    copy_decimals, BandsFile, BandsFileView, Eigenvalues, ElectronCount, FermiEnergy, KPoint,
    KPointView,
};
use super::tokens::{after_label, lemma_spaces_end_bounds, line_end, literal_at, spaces_end};
use crate::fundamental::decimal::{
    decimal_end, digits_end, lemma_decimal_end_bounds, lemma_digits_end_bounds,
};
use crate::fundamental::{Decimal, SpinPolarized, SpinView};

verus! {

/// The eigenvalues of one k-point: one list, or one for each spin.
#[derive(Debug, Clone, PartialEq)]
pub enum EigenvaluesPerBand {
    /// Non-spin-polarized: 1 entry
    NonPolarized(Vec<Decimal>),
    /// Spin-polarized: 2 entries
    SpinPolarized(Vec<Decimal>, Vec<Decimal>),
}

impl DeepView for EigenvaluesPerBand {
    type V = SpinView<Seq<Seq<u8>>>;

    open spec fn deep_view(&self) -> SpinView<Seq<Seq<u8>>> {
        match self {
            EigenvaluesPerBand::NonPolarized(v) => SpinView::NonPolarized(v.deep_view()),
            EigenvaluesPerBand::SpinPolarized(up, down) => SpinView::SpinPolarized(
                up.deep_view(),
                down.deep_view(),
            ),
        }
    }
}

impl EigenvaluesPerBand {
    /// The one list, where there is only one.
    pub fn as_non_polarized(&self) -> (r: Option<&Vec<Decimal>>)
        ensures
            match self {
                EigenvaluesPerBand::NonPolarized(v) => r == Some(v),
                EigenvaluesPerBand::SpinPolarized(_, _) => r is None,
            },
    {
        match self {
            EigenvaluesPerBand::NonPolarized(v) => Some(v),
            EigenvaluesPerBand::SpinPolarized(_, _) => None,
        }
    }

    /// The two lists, where there are two.
    pub fn as_spin_polarized(&self) -> (r: Option<(&Vec<Decimal>, &Vec<Decimal>)>)
        ensures
            match self {
                EigenvaluesPerBand::SpinPolarized(up, down) => r == Some((up, down)),
                EigenvaluesPerBand::NonPolarized(_) => r is None,
            },
    {
        match self {
            EigenvaluesPerBand::SpinPolarized(up, down) => Some((up, down)),
            EigenvaluesPerBand::NonPolarized(_) => None,
        }
    }
}

/// The block of one k-point: the k-point and its eigenvalues.
#[derive(Debug, Clone, PartialEq)]
pub struct BandPerKPoint {
    /// k-point of this band
    pub kpoint: KPoint,
    /// Eigenvalues of this k-point
    pub eigen_band: EigenvaluesPerBand,
}

/// What a `BandPerKPoint` holds.
pub struct BandBlock {
    pub kpoint: KPointView,
    pub eigen_band: SpinView<Seq<Seq<u8>>>,
}

impl DeepView for BandPerKPoint {
    type V = BandBlock;

    open spec fn deep_view(&self) -> BandBlock {
        BandBlock { kpoint: self.kpoint.deep_view(), eigen_band: self.eigen_band.deep_view() }
    }
}

impl BandPerKPoint {
    /// Constructor
    pub fn new(kpoint: KPoint, eigen_band: EigenvaluesPerBand) -> (r: Self)
        ensures
            r == (BandPerKPoint { kpoint, eigen_band }),
    {
        Self { kpoint, eigen_band }
    }
}

/// The stages of the parser, in their order.
#[derive(Debug, Clone, Copy, PartialEq, Eq, Structural)]
pub enum BandsStage {
    KpointCount,
    SpinConfig,
    ElectronCount,
    EigenvalueCount,
    FermiEnergy,
    LatticeVectors,
    PerKpointBlocks,
}

/// Why a `.bands` file was refused.
#[derive(Debug, Clone, Copy, PartialEq, Eq, Structural)]
pub enum BandsParsingError {
    /// The line that starts at byte `offset` is not what `stage` expects
    /// there.
    Grammar { stage: BandsStage, offset: usize },
    /// `stage` depends on the spin setting, and no `SpinConfig` stage has
    /// set it.
    SpinConfigMissing { stage: BandsStage },
}

impl BandsParsingError {
    /// The stage that failed.
    pub fn stage(&self) -> (r: BandsStage)
        ensures
            r == match *self {
                BandsParsingError::Grammar { stage, .. } => stage,
                BandsParsingError::SpinConfigMissing { stage } => stage,
            },
    {
        match self {
            BandsParsingError::Grammar { stage, .. } => *stage,
            BandsParsingError::SpinConfigMissing { stage } => *stage,
        }
    }

    /// What the failed stage expected, in words.
    pub open spec fn description(self) -> Seq<char> {
        match self {
            BandsParsingError::SpinConfigMissing { .. } => "Spin components have not been parsed"@,
            BandsParsingError::Grammar { stage, .. } => match stage {
                BandsStage::KpointCount => "expected the line `Number of k-points`"@,
                BandsStage::SpinConfig => "expected spin value 1 or 2"@,
                BandsStage::ElectronCount => "expected the line `Number of electrons`"@,
                BandsStage::EigenvalueCount => "expected the line `Number of eigenvalues`"@,
                BandsStage::FermiEnergy => "expected the line of the Fermi energy"@,
                BandsStage::LatticeVectors => "expected `Unit cell vectors` and three vectors"@,
                BandsStage::PerKpointBlocks => {
                    "expected a k-point, a spin component or an eigenvalue"@
                },
            },
        }
    }

    /// What the failed stage expected.
    pub fn message(&self) -> (r: String)
        ensures
            r@ == self.description(),
    {
        match self {
            BandsParsingError::SpinConfigMissing { .. } => {
                "Spin components have not been parsed".to_string()
            },
            BandsParsingError::Grammar { stage, .. } => match stage {
                BandsStage::KpointCount => "expected the line `Number of k-points`".to_string(),
                BandsStage::SpinConfig => "expected spin value 1 or 2".to_string(),
                BandsStage::ElectronCount => "expected the line `Number of electrons`".to_string(),
                BandsStage::EigenvalueCount => {
                    "expected the line `Number of eigenvalues`".to_string()
                },
                BandsStage::FermiEnergy => "expected the line of the Fermi energy".to_string(),
                BandsStage::LatticeVectors => {
                    "expected `Unit cell vectors` and three vectors".to_string()
                },
                BandsStage::PerKpointBlocks => {
                    "expected a k-point, a spin component or an eigenvalue".to_string()
                },
            },
        }
    }
}

/// All that a parser knows at one moment: the text, the cursor, and what
/// the stages passed so far have read.
pub struct ParserState {
    pub text: Seq<u8>,
    pub cursor: int,
    pub spin_polarized: Option<SpinPolarized>,
    pub electron_count: Option<SpinView<Seq<u8>>>,
    pub fermi_energy: Option<SpinView<Seq<u8>>>,
    pub lattice_vectors: Option<Seq<Seq<Seq<u8>>>>,
    pub eigens_bands: Option<Seq<BandBlock>>,
}

/// The state of a parser that has read nothing of `text` yet.
pub open spec fn initial_state(text: Seq<u8>) -> ParserState {
    ParserState {
        text,
        cursor: 0,
        spin_polarized: None,
        electron_count: None,
        fermi_energy: None,
        lattice_vectors: None,
        eigens_bands: None,
    }
}

/// The error of a stage that met a line it does not expect.
pub open spec fn grammar_error(stage: BandsStage, offset: int) -> BandsParsingError {
    BandsParsingError::Grammar { stage, offset: offset as usize }
}

/// Stage `KpointCount`: passes the line with the number of k-points.
pub open spec fn step_kpoint_count(st: ParserState) -> Result<ParserState, BandsParsingError> {
    match kpoint_count_line(st.text, st.cursor) {
        Some(end) => Ok(ParserState { cursor: end, ..st }),
        None => Err(grammar_error(BandsStage::KpointCount, st.cursor)),
    }
}

/// Stage `SpinConfig`: reads the spin setting, which all later stages go by.
pub open spec fn step_spin_config(st: ParserState) -> Result<ParserState, BandsParsingError> {
    match spin_config_line(st.text, st.cursor) {
        Some((spin, end)) => Ok(ParserState { cursor: end, spin_polarized: Some(spin), ..st }),
        None => Err(grammar_error(BandsStage::SpinConfig, st.cursor)),
    }
}

/// Stage `ElectronCount`: reads one count or two, as the spin setting says.
pub open spec fn step_electron_count(st: ParserState) -> Result<ParserState, BandsParsingError> {
    match st.spin_polarized {
        None => Err(BandsParsingError::SpinConfigMissing { stage: BandsStage::ElectronCount }),
        Some(spin) => match electron_count_line(st.text, st.cursor, spin) {
            Some((count, end)) => Ok(
                ParserState { cursor: end, electron_count: Some(count), ..st },
            ),
            None => Err(grammar_error(BandsStage::ElectronCount, st.cursor)),
        },
    }
}

/// Stage `EigenvalueCount`: passes the line with one count or two, as the
/// spin setting says. The counts are not kept.
pub open spec fn step_eigenvalue_count(st: ParserState) -> Result<ParserState, BandsParsingError> {
    match st.spin_polarized {
        None => Err(BandsParsingError::SpinConfigMissing { stage: BandsStage::EigenvalueCount }),
        Some(spin) => match eigenvalue_count_line(st.text, st.cursor, spin) {
            Some(end) => Ok(ParserState { cursor: end, ..st }),
            None => Err(grammar_error(BandsStage::EigenvalueCount, st.cursor)),
        },
    }
}

/// Stage `FermiEnergy`: reads one energy or two, as the spin setting says.
pub open spec fn step_fermi_energy(st: ParserState) -> Result<ParserState, BandsParsingError> {
    match st.spin_polarized {
        None => Err(BandsParsingError::SpinConfigMissing { stage: BandsStage::FermiEnergy }),
        Some(spin) => match fermi_energy_line(st.text, st.cursor, spin) {
            Some((energy, end)) => Ok(
                ParserState { cursor: end, fermi_energy: Some(energy), ..st },
            ),
            None => Err(grammar_error(BandsStage::FermiEnergy, st.cursor)),
        },
    }
}

/// The line `Unit cell vectors` and the three vectors behind it: the
/// vectors and the end of the last line, or the offset of the first line
/// that does not fit.
pub open spec fn unit_cell_vectors(s: Seq<u8>, pos: int) -> Result<(Seq<Seq<Seq<u8>>>, int), int> {
    match unit_cell_header_line(s, pos) {
        None => Err(pos),
        Some(p0) => match vector_line(s, p0) {
            None => Err(p0),
            Some((a, p1)) => match vector_line(s, p1) {
                None => Err(p1),
                Some((b, p2)) => match vector_line(s, p2) {
                    None => Err(p2),
                    Some((c, p3)) => Ok((seq![a, b, c], p3)),
                },
            },
        },
    }
}

/// Stage `LatticeVectors`: reads the three unit cell vectors.
pub open spec fn step_unit_cell_vectors(st: ParserState) -> Result<ParserState, BandsParsingError> {
    match unit_cell_vectors(st.text, st.cursor) {
        Ok((vectors, end)) => Ok(ParserState { cursor: end, lattice_vectors: Some(vectors), ..st }),
        Err(offset) => Err(grammar_error(BandsStage::LatticeVectors, offset)),
    }
}

/// A spin component line and the eigenvalue lines behind it, of which there
/// must be at least one: the eigenvalues and the end of the last line, or
/// the offset of the line that does not fit.
pub open spec fn spin_block(s: Seq<u8>, pos: int) -> Result<(Seq<Seq<u8>>, int), int> {
    match spin_component_line(s, pos) {
        None => Err(pos),
        Some(p) => {
            let (values, end) = eigenvalue_lines(s, p);
            if values.len() > 0 {
                Ok((values, end))
            } else {
                Err(p)
            }
        },
    }
}

/// The block of one k-point: its line, then one spin block, or two where
/// the spin is polarized.
pub open spec fn kpoint_block(s: Seq<u8>, pos: int, spin: SpinPolarized) -> Result<
    (BandBlock, int),
    int,
> {
    match kpoint_line(s, pos) {
        None => Err(pos),
        Some((kpoint, p)) => match spin_block(s, p) {
            Err(offset) => Err(offset),
            Ok((first, q)) => match spin {
                SpinPolarized::False => Ok(
                    (BandBlock { kpoint, eigen_band: SpinView::NonPolarized(first) }, q),
                ),
                SpinPolarized::True => match spin_block(s, q) {
                    Err(offset) => Err(offset),
                    Ok((second, r)) => Ok(
                        (
                            BandBlock {
                                kpoint,
                                eigen_band: SpinView::SpinPolarized(first, second),
                            },
                            r,
                        ),
                    ),
                },
            },
        },
    }
}

/// The blocks of all k-points: at least one, and then one after another up
/// to the end of the text.
pub open spec fn kpoint_blocks(s: Seq<u8>, pos: int, spin: SpinPolarized) -> Result<
    Seq<BandBlock>,
    int,
>
    decreases s.len() - pos,
{
    match kpoint_block(s, pos, spin) {
        Err(offset) => Err(offset),
        Ok((block, end)) => if pos < end < s.len() {
            match kpoint_blocks(s, end, spin) {
                Err(offset) => Err(offset),
                Ok(rest) => Ok(seq![block] + rest),
            }
        } else {
            Ok(seq![block])
        },
    }
}

/// Stage `PerKpointBlocks`: reads the blocks of all k-points, up to the
/// end of the text.
pub open spec fn step_band_per_kpoint(st: ParserState) -> Result<ParserState, BandsParsingError> {
    match st.spin_polarized {
        None => Err(BandsParsingError::SpinConfigMissing { stage: BandsStage::PerKpointBlocks }),
        Some(spin) => match kpoint_blocks(st.text, st.cursor, spin) {
            Ok(blocks) => Ok(
                ParserState { cursor: st.text.len() as int, eigens_bands: Some(blocks), ..st },
            ),
            Err(offset) => Err(grammar_error(BandsStage::PerKpointBlocks, offset)),
        },
    }
}

/// The stages up to and with `FermiEnergy`, one after another from `st` on.
pub open spec fn run_header_stages(st: ParserState) -> Result<ParserState, BandsParsingError> {
    match step_kpoint_count(st) {
        Err(e) => Err(e),
        Ok(s1) => match step_spin_config(s1) {
            Err(e) => Err(e),
            Ok(s2) => match step_electron_count(s2) {
                Err(e) => Err(e),
                Ok(s3) => match step_eigenvalue_count(s3) {
                    Err(e) => Err(e),
                    Ok(s4) => step_fermi_energy(s4),
                },
            },
        },
    }
}

/// All stages, one after another from `st` on, up to the first that fails.
pub open spec fn run_stages(st: ParserState) -> Result<ParserState, BandsParsingError> {
    match run_header_stages(st) {
        Err(e) => Err(e),
        Ok(s5) => match step_unit_cell_vectors(s5) {
            Err(e) => Err(e),
            Ok(s6) => step_band_per_kpoint(s6),
        },
    }
}

/// The eigenvalues of one spin channel of a k-point. Data that is not
/// polarized has the same eigenvalues in both channels.
pub open spec fn channel(band: SpinView<Seq<Seq<u8>>>, second: bool) -> Seq<Seq<u8>> {
    match band {
        SpinView::NonPolarized(values) => values,
        SpinView::SpinPolarized(up, down) => if second {
            down
        } else {
            up
        },
    }
}

/// The eigenvalues of one spin channel of every block, in the order of the
/// blocks.
pub open spec fn channel_of_all(blocks: Seq<BandBlock>, second: bool) -> Seq<Seq<Seq<u8>>> {
    Seq::new(blocks.len(), |i: int| channel(blocks[i].eigen_band, second))
}

/// The file that a parser holds when all stages have passed: what the
/// header stages read, the k-points in the order of their blocks, and the
/// eigenvalues turned from `[k-point][spin]` to `[spin][k-point]`.
pub open spec fn assemble(st: ParserState) -> BandsFileView
    recommends
        st.spin_polarized is Some,
        st.electron_count is Some,
        st.fermi_energy is Some,
        st.lattice_vectors is Some,
        st.eigens_bands is Some,
{
    let blocks = st.eigens_bands->0;
    BandsFileView {
        spin_polarized: st.spin_polarized->0,
        lattice_vectors: st.lattice_vectors->0,
        fermi_energy: st.fermi_energy->0,
        electron_count: st.electron_count->0,
        eigenvalues: match st.spin_polarized->0 {
            SpinPolarized::False => SpinView::NonPolarized(channel_of_all(blocks, false)),
            SpinPolarized::True => SpinView::SpinPolarized(
                channel_of_all(blocks, false),
                channel_of_all(blocks, true),
            ),
        },
        kpoints: Seq::new(blocks.len(), |i: int| blocks[i].kpoint),
    }
}

/// What parsing gives from state `st` on: the file where all stages pass,
/// else the error of the first stage that fails.
pub open spec fn spec_parse_bands_file(st: ParserState) -> Result<BandsFileView, BandsParsingError> {
    match run_stages(st) {
        Ok(done) => Ok(assemble(done)),
        Err(e) => Err(e),
    }
}

/// Parser of `.bands`: the text, the cursor, and what was read so far.
#[derive(Debug, Clone)]
pub struct BandsParser<'a> {
    input: &'a [u8],
    cursor: usize,
    /// Spin polarized settings
    pub spin_polarized: Option<SpinPolarized>,
    /// Number of electrons in system
    pub electron_count: Option<ElectronCount>,
    /// Fermi energy/energies in Hartree
    pub fermi_energy: Option<FermiEnergy>,
    /// Lattice vectors, one row each
    pub lattice_vectors: Option<[[Decimal; 3]; 3]>,
    /// Eigen values for each k-point
    pub eigens_bands: Option<Vec<BandPerKPoint>>,
}

impl<'a> View for BandsParser<'a> {
    type V = ParserState;

    closed spec fn view(&self) -> ParserState {
        ParserState {
            text: self.input@,
            cursor: self.cursor as int,
            spin_polarized: self.spin_polarized,
            electron_count: self.electron_count.deep_view(),
            fermi_energy: self.fermi_energy.deep_view(),
            lattice_vectors: self.lattice_vectors.deep_view(),
            eigens_bands: self.eigens_bands.deep_view(),
        }
    }
}

impl<'a> BandsParser<'a> {
    /// A parser at the start of `input`.
    pub fn new(input: &'a str) -> (r: Self)
        ensures
            r@ == initial_state(input.spec_bytes()),
    {
        Self {
            input: input.as_bytes(),
            cursor: 0,
            spin_polarized: None,
            electron_count: None,
            fermi_energy: None,
            lattice_vectors: None,
            eigens_bands: None,
        }
    }

    /// The whole text, to read or to change. The cursor and what was read
    /// so far stay as they are.
    pub fn input_mut(&mut self) -> (r: &mut &'a [u8])
        ensures
            (*r)@ == old(self)@.text,
            final(self)@ == (ParserState { text: (*final(r))@, ..old(self)@ }),
    {
        &mut self.input
    }

    /// The text that the stages have not read yet.
    pub fn remaining(&self) -> (r: &'a [u8])
        ensures
            0 <= self@.cursor <= self@.text.len() ==> r@ == self@.text.skip(self@.cursor),
            self@.cursor > self@.text.len() ==> r@.len() == 0,
    {
        let n: usize = self.input.len();
        if self.cursor <= n {
            &self.input[self.cursor..n]
        } else {
            &self.input[n..n]
        }
    }

    /// Stage `KpointCount`.
    pub fn parse_kpoint_count(&mut self) -> (r: Result<(), BandsParsingError>)
        ensures
            match step_kpoint_count(old(self)@) {
                Ok(next) => r is Ok && final(self)@ == next,
                Err(e) => r == Err::<(), BandsParsingError>(e) && final(self)@ == old(self)@,
            },
    {
        match scan_kpoint_count_line(self.input, self.cursor) {
            Some(end) => {
                self.cursor = end;
                Ok(())
            },
            None => Err(
                BandsParsingError::Grammar { stage: BandsStage::KpointCount, offset: self.cursor },
            ),
        }
    }

    /// Stage `SpinConfig`.
    pub fn parse_spin_config(&mut self) -> (r: Result<(), BandsParsingError>)
        ensures
            match step_spin_config(old(self)@) {
                Ok(next) => r is Ok && final(self)@ == next,
                Err(e) => r == Err::<(), BandsParsingError>(e) && final(self)@ == old(self)@,
            },
    {
        match scan_spin_config_line(self.input, self.cursor) {
            Some((spin, end)) => {
                self.cursor = end;
                self.spin_polarized = Some(spin);
                Ok(())
            },
            None => Err(
                BandsParsingError::Grammar { stage: BandsStage::SpinConfig, offset: self.cursor },
            ),
        }
    }

    /// Stage `ElectronCount`.
    pub fn parse_electron_count(&mut self) -> (r: Result<(), BandsParsingError>)
        ensures
            match step_electron_count(old(self)@) {
                Ok(next) => r is Ok && final(self)@ == next,
                Err(e) => r == Err::<(), BandsParsingError>(e) && final(self)@ == old(self)@,
            },
    {
        let spin = match self.spin_polarized {
            Some(spin) => spin,
            None => {
                return Err(
                    BandsParsingError::SpinConfigMissing { stage: BandsStage::ElectronCount },
                );
            },
        };
        match scan_electron_count_line(self.input, self.cursor, spin) {
            Some((count, end)) => {
                self.cursor = end;
                self.electron_count = Some(count);
                Ok(())
            },
            None => Err(
                BandsParsingError::Grammar {
                    stage: BandsStage::ElectronCount,
                    offset: self.cursor,
                },
            ),
        }
    }

    /// Stage `EigenvalueCount`.
    pub fn parse_eigenvalue_count(&mut self) -> (r: Result<(), BandsParsingError>)
        ensures
            match step_eigenvalue_count(old(self)@) {
                Ok(next) => r is Ok && final(self)@ == next,
                Err(e) => r == Err::<(), BandsParsingError>(e) && final(self)@ == old(self)@,
            },
    {
        let spin = match self.spin_polarized {
            Some(spin) => spin,
            None => {
                return Err(
                    BandsParsingError::SpinConfigMissing { stage: BandsStage::EigenvalueCount },
                );
            },
        };
        match scan_eigenvalue_count_line(self.input, self.cursor, spin) {
            Some(end) => {
                self.cursor = end;
                Ok(())
            },
            None => Err(
                BandsParsingError::Grammar {
                    stage: BandsStage::EigenvalueCount,
                    offset: self.cursor,
                },
            ),
        }
    }

    /// Stage `FermiEnergy`.
    pub fn parse_fermi_energy(&mut self) -> (r: Result<(), BandsParsingError>)
        ensures
            match step_fermi_energy(old(self)@) {
                Ok(next) => r is Ok && final(self)@ == next,
                Err(e) => r == Err::<(), BandsParsingError>(e) && final(self)@ == old(self)@,
            },
    {
        let spin = match self.spin_polarized {
            Some(spin) => spin,
            None => {
                return Err(BandsParsingError::SpinConfigMissing { stage: BandsStage::FermiEnergy });
            },
        };
        match scan_fermi_energy_line(self.input, self.cursor, spin) {
            Some((energy, end)) => {
                self.cursor = end;
                self.fermi_energy = Some(energy);
                Ok(())
            },
            None => Err(
                BandsParsingError::Grammar { stage: BandsStage::FermiEnergy, offset: self.cursor },
            ),
        }
    }

    /// Stage `LatticeVectors`.
    pub fn parse_unit_cell_vectors(&mut self) -> (r: Result<(), BandsParsingError>)
        ensures
            match step_unit_cell_vectors(old(self)@) {
                Ok(next) => r is Ok && final(self)@ == next,
                Err(e) => r == Err::<(), BandsParsingError>(e) && final(self)@ == old(self)@,
            },
    {
        match scan_unit_cell_vectors(self.input, self.cursor) {
            Ok((vectors, end)) => {
                self.cursor = end;
                self.lattice_vectors = Some(vectors);
                Ok(())
            },
            Err(offset) => Err(
                BandsParsingError::Grammar { stage: BandsStage::LatticeVectors, offset },
            ),
        }
    }

    /// Stage `PerKpointBlocks`.
    pub fn parse_band_per_kpoint(&mut self) -> (r: Result<(), BandsParsingError>)
        ensures
            match step_band_per_kpoint(old(self)@) {
                Ok(next) => r is Ok && final(self)@ == next,
                Err(e) => r == Err::<(), BandsParsingError>(e) && final(self)@ == old(self)@,
            },
    {
        let spin = match self.spin_polarized {
            Some(spin) => spin,
            None => {
                return Err(
                    BandsParsingError::SpinConfigMissing { stage: BandsStage::PerKpointBlocks },
                );
            },
        };
        let input: &'a [u8] = self.input;
        let start: usize = self.cursor;
        let n: usize = input.len();
        let mut blocks: Vec<BandPerKPoint> = Vec::new();
        let mut cursor: usize = start;
        loop
            invariant_except_break
                blocks@.len() > 0 ==> start < cursor < n,
                blocks@.len() == 0 ==> cursor == start,
                kpoint_blocks(input@, start as int, spin) == match kpoint_blocks(
                    input@,
                    cursor as int,
                    spin,
                ) {
                    Ok(rest) => Ok::<Seq<BandBlock>, int>(blocks.deep_view() + rest),
                    Err(offset) => Err::<Seq<BandBlock>, int>(offset),
                },
            invariant
                n == input@.len(),
                input == self.input,
                start == self.cursor,
                *self == *old(self),
                self.spin_polarized == Some(spin),
            ensures
                kpoint_blocks(input@, start as int, spin) == Ok::<Seq<BandBlock>, int>(
                    blocks.deep_view(),
                ),
            decreases n - cursor,
        {
            match scan_kpoint_block(input, cursor, spin) {
                Err(offset) => {
                    return Err(
                        BandsParsingError::Grammar { stage: BandsStage::PerKpointBlocks, offset },
                    );
                },
                Ok((block, end)) => {
                    let ghost before = blocks.deep_view();
                    let ghost rest = kpoint_blocks(input@, end as int, spin);
                    blocks.push(block);
                    proof {
                        assert(blocks.deep_view() =~= before.push(block.deep_view()));
                        if rest is Ok {
                            assert(before.push(block.deep_view()) + rest->Ok_0 =~= before + (
                            seq![block.deep_view()] + rest->Ok_0));
                        }
                        assert(before + seq![block.deep_view()] =~= before.push(
                            block.deep_view(),
                        ));
                    }
                    if end >= n {
                        break ;
                    }
                    cursor = end;
                },
            }
        }
        self.cursor = n;
        self.eigens_bands = Some(blocks);
        Ok(())
    }

    /// Runs the stages up to and with `FermiEnergy`. Stops at the first
    /// stage that fails; what the stages before it read stays read.
    fn parse_header_stages(&mut self) -> (r: Result<(), BandsParsingError>)
        ensures
            match run_header_stages(old(self)@) {
                Ok(next) => r is Ok && final(self)@ == next,
                Err(e) => r == Err::<(), BandsParsingError>(e),
            },
    {
        match self.parse_kpoint_count() {
            Ok(()) => {},
            Err(e) => {
                return Err(e);
            },
        }
        match self.parse_spin_config() {
            Ok(()) => {},
            Err(e) => {
                return Err(e);
            },
        }
        match self.parse_electron_count() {
            Ok(()) => {},
            Err(e) => {
                return Err(e);
            },
        }
        match self.parse_eigenvalue_count() {
            Ok(()) => {},
            Err(e) => {
                return Err(e);
            },
        }
        self.parse_fermi_energy()
    }

    /// Runs all stages. Stops at the first stage that fails; what the
    /// stages before it read stays read.
    fn parse_all_stages(&mut self) -> (r: Result<(), BandsParsingError>)
        ensures
            match run_stages(old(self)@) {
                Ok(next) => r is Ok && final(self)@ == next,
                Err(e) => r == Err::<(), BandsParsingError>(e),
            },
    {
        match self.parse_header_stages() {
            Ok(()) => {},
            Err(e) => {
                return Err(e);
            },
        }
        match self.parse_unit_cell_vectors() {
            Ok(()) => {},
            Err(e) => {
                return Err(e);
            },
        }
        self.parse_band_per_kpoint()
    }

    /// The file that the parser holds when all stages have passed.
    fn into_bands_file(self) -> (r: BandsFile)
        requires
            self@.spin_polarized is Some,
            self@.electron_count is Some,
            self@.fermi_energy is Some,
            self@.lattice_vectors is Some,
            self@.eigens_bands is Some,
        ensures
            r.deep_view() == assemble(self@),
    {
        let spin_polarized = self.spin_polarized.unwrap();
        let blocks = self.eigens_bands.unwrap();
        let kpoints = collect_kpoints(&blocks);
        let eigenvalues = match spin_polarized {
            SpinPolarized::True => Eigenvalues::SpinPolarized(
                [collect_channel(&blocks, false), collect_channel(&blocks, true)],
            ),
            SpinPolarized::False => Eigenvalues::NonPolarized(collect_channel(&blocks, false)),
        };
        BandsFile {
            spin_polarized,
            lattice_vectors: self.lattice_vectors.unwrap(),
            fermi_energy: self.fermi_energy.unwrap(),
            electron_count: self.electron_count.unwrap(),
            eigenvalues,
            kpoints,
        }
    }

    /// Runs all stages from where the parser stands and puts together what
    /// they read.
    pub fn parse_bands_file(self) -> (r: Result<BandsFile, BandsParsingError>)
        ensures
            match spec_parse_bands_file(self@) {
                Ok(file) => r matches Ok(found) && found.deep_view() == file
                    && file.well_formed(),
                Err(e) => r == Err::<BandsFile, BandsParsingError>(e),
            },
    {
        proof {
            lemma_parsed_file_well_formed(self@);
        }
        let mut parser = self;
        match parser.parse_all_stages() {
            Ok(()) => {},
            Err(e) => {
                return Err(e);
            },
        }
        proof {
            lemma_stages_fill_the_state(self@);
        }
        Ok(parser.into_bands_file())
    }
}

/// The unit cell vectors behind their header at `pos`, as
/// `unit_cell_vectors` gives them.
fn scan_unit_cell_vectors(input: &[u8], pos: usize) -> (r: Result<([[Decimal; 3]; 3], usize), usize>)
    ensures
        match unit_cell_vectors(input@, pos as int) {
            Ok((vectors, end)) => r matches Ok((found, e)) && found.deep_view() == vectors && e
                == end && pos < e <= input@.len(),
            Err(offset) => r matches Err(o) && o == offset,
        },
{
    let p0 = match scan_unit_cell_header_line(input, pos) {
        Some(p) => p,
        None => {
            return Err(pos);
        },
    };
    let (a, p1) = match scan_vector_line(input, p0) {
        Some(found) => found,
        None => {
            return Err(p0);
        },
    };
    let (b, p2) = match scan_vector_line(input, p1) {
        Some(found) => found,
        None => {
            return Err(p1);
        },
    };
    let (c, p3) = match scan_vector_line(input, p2) {
        Some(found) => found,
        None => {
            return Err(p2);
        },
    };
    let vectors = [a, b, c];
    assert(vectors.deep_view() =~= seq![a.deep_view(), b.deep_view(), c.deep_view()]);
    Ok((vectors, p3))
}

/// The eigenvalues of the spin block at `pos`, as `spin_block` gives them.
fn scan_spin_block(input: &[u8], pos: usize) -> (r: Result<(Vec<Decimal>, usize), usize>)
    ensures
        match spin_block(input@, pos as int) {
            Ok((values, end)) => r matches Ok((found, e)) && found.deep_view() == values && e
                == end && pos < e <= input@.len(),
            Err(offset) => r matches Err(o) && o == offset,
        },
{
    let p = match scan_spin_component_line(input, pos) {
        Some(p) => p,
        None => {
            return Err(pos);
        },
    };
    let (values, end) = scan_eigenvalue_lines(input, p);
    if values.len() > 0 {
        Ok((values, end))
    } else {
        Err(p)
    }
}

/// The block of the k-point at `pos`, as `kpoint_block` gives it.
fn scan_kpoint_block(input: &[u8], pos: usize, spin: SpinPolarized) -> (r: Result<
    (BandPerKPoint, usize),
    usize,
>)
    ensures
        match kpoint_block(input@, pos as int, spin) {
            Ok((block, end)) => r matches Ok((found, e)) && found.deep_view() == block && e == end
                && pos < e <= input@.len(),
            Err(offset) => r matches Err(o) && o == offset,
        },
{
    let (kpoint, p) = match scan_kpoint_line(input, pos) {
        Some(found) => found,
        None => {
            return Err(pos);
        },
    };
    let (first, q) = match scan_spin_block(input, p) {
        Ok(found) => found,
        Err(offset) => {
            return Err(offset);
        },
    };
    match spin {
        SpinPolarized::False => Ok(
            (BandPerKPoint { kpoint, eigen_band: EigenvaluesPerBand::NonPolarized(first) }, q),
        ),
        SpinPolarized::True => {
            let (second, r) = match scan_spin_block(input, q) {
                Ok(found) => found,
                Err(offset) => {
                    return Err(offset);
                },
            };
            Ok(
                (
                    BandPerKPoint {
                        kpoint,
                        eigen_band: EigenvaluesPerBand::SpinPolarized(first, second),
                    },
                    r,
                ),
            )
        },
    }
}

/// Copies of the k-points of all blocks, in the order of the blocks.
fn collect_kpoints(blocks: &Vec<BandPerKPoint>) -> (r: Vec<KPoint>)
    ensures
        r.deep_view() == Seq::new(
            blocks.deep_view().len(),
            |i: int| blocks.deep_view()[i].kpoint,
        ),
{
    let mut kpoints: Vec<KPoint> = Vec::with_capacity(blocks.len());
    let mut i: usize = 0;
    while i < blocks.len()
        invariant
            i <= blocks.len(),
            kpoints@.len() == i,
            forall|j: int|
                0 <= j < i ==> (#[trigger] kpoints@[j]).deep_view() == blocks@[j].kpoint.deep_view(),
        decreases blocks.len() - i,
    {
        kpoints.push(blocks[i].kpoint.clone());
        i += 1;
    }
    assert(kpoints.deep_view() =~= Seq::new(
        blocks.deep_view().len(),
        |i: int| blocks.deep_view()[i].kpoint,
    ));
    kpoints
}

/// Copies of the eigenvalues of one spin channel of all blocks, in the
/// order of the blocks.
fn collect_channel(blocks: &Vec<BandPerKPoint>, second: bool) -> (r: Vec<Vec<Decimal>>)
    ensures
        r.deep_view() == channel_of_all(blocks.deep_view(), second),
{
    let mut all: Vec<Vec<Decimal>> = Vec::with_capacity(blocks.len());
    let mut i: usize = 0;
    while i < blocks.len()
        invariant
            i <= blocks.len(),
            all@.len() == i,
            forall|j: int|
                0 <= j < i ==> (#[trigger] all@[j]).deep_view() == channel(
                    blocks@[j].eigen_band.deep_view(),
                    second,
                ),
        decreases blocks.len() - i,
    {
        let values = match &blocks[i].eigen_band {
            EigenvaluesPerBand::NonPolarized(values) => copy_decimals(values),
            EigenvaluesPerBand::SpinPolarized(up, down) => if second {
                copy_decimals(down)
            } else {
                copy_decimals(up)
            },
        };
        all.push(values);
        i += 1;
    }
    assert(all.deep_view() =~= channel_of_all(blocks.deep_view(), second));
    all
}

/// A text without the line `Unit cell vectors` behind its header is
/// refused at stage `LatticeVectors`, at the offset where the header ends,
/// whatever else the text holds.
pub proof fn lemma_missing_unit_cell_vectors(st: ParserState)
    requires
        run_header_stages(st) is Ok,
        unit_cell_header_line(
            run_header_stages(st)->Ok_0.text,
            run_header_stages(st)->Ok_0.cursor,
        ) is None,
    ensures
        spec_parse_bands_file(st) == Err::<BandsFileView, BandsParsingError>(
            grammar_error(BandsStage::LatticeVectors, run_header_stages(st)->Ok_0.cursor),
        ),
{
}

/// Whether a block has three coordinates, as many spin components as
/// `spin` says, and at least one eigenvalue in each.
pub open spec fn block_fits(block: BandBlock, spin: SpinPolarized) -> bool {
    &&& block.kpoint.coords.len() == 3
    &&& match block.eigen_band {
        SpinView::NonPolarized(values) => spin == SpinPolarized::False && values.len() > 0,
        SpinView::SpinPolarized(up, down) => spin == SpinPolarized::True && up.len() > 0
            && down.len() > 0,
    }
}

/// The blocks that were read are at least one, and each of them fits the
/// spin setting.
pub proof fn lemma_blocks_fit(s: Seq<u8>, pos: int, spin: SpinPolarized)
    ensures
        kpoint_blocks(s, pos, spin) matches Ok(blocks) ==> blocks.len() > 0 && forall|i: int|
            0 <= i < blocks.len() ==> block_fits(#[trigger] blocks[i], spin),
    decreases s.len() - pos,
{
    if let Ok((block, end)) = kpoint_block(s, pos, spin) {
        assert(block_fits(block, spin));
        if pos < end < s.len() {
            lemma_blocks_fit(s, end, spin);
            if let Ok(rest) = kpoint_blocks(s, end, spin) {
                let blocks = seq![block] + rest;
                assert forall|i: int| 0 <= i < blocks.len() implies block_fits(
                    #[trigger] blocks[i],
                    spin,
                ) by {
                    if i > 0 {
                        assert(blocks[i] == rest[i - 1]);
                    }
                }
            }
        }
    }
}

/// A file that was read is well formed.
pub proof fn lemma_parsed_file_well_formed(st: ParserState)
    ensures
        spec_parse_bands_file(st) matches Ok(file) ==> file.well_formed(),
{
    if let Ok(done) = run_stages(st) {
        let s5 = run_header_stages(st)->Ok_0;
        let s6 = step_unit_cell_vectors(s5)->Ok_0;
        let spin = s6.spin_polarized->0;
        lemma_blocks_fit(s6.text, s6.cursor, spin);
        let blocks = done.eigens_bands->0;
        let file = assemble(done);
        assert forall|k: int| 0 <= k < file.kpoints.len() implies (
        #[trigger] file.kpoints[k]).coords.len() == 3 by {
            assert(block_fits(blocks[k], spin));
        }
        assert forall|k: int| 0 <= k < blocks.len() implies (#[trigger] channel_of_all(
            blocks,
            false,
        )[k]).len() > 0 && (#[trigger] channel_of_all(blocks, true)[k]).len() > 0 by {
            assert(block_fits(blocks[k], spin));
        }
        assert(file.lattice_vectors.len() == 3);
        assert forall|i: int| 0 <= i < 3 implies (#[trigger] file.lattice_vectors[i]).len()
            == 3 by {}
    }
}

/// When all stages have passed, each of them has left what it read.
pub proof fn lemma_stages_fill_the_state(st: ParserState)
    ensures
        run_stages(st) matches Ok(done) ==> done.spin_polarized is Some && done.electron_count
            is Some && done.fermi_energy is Some && done.lattice_vectors is Some
            && done.eigens_bands is Some,
{
}

/// No stage changes the text, and a stage that passes moves the cursor
/// forward, never behind the end of the text.
pub proof fn lemma_stages_advance(st: ParserState)
    requires
        0 <= st.cursor <= st.text.len(),
    ensures
        step_kpoint_count(st) matches Ok(next) ==> next.text == st.text && st.cursor < next.cursor
            <= st.text.len(),
        step_spin_config(st) matches Ok(next) ==> next.text == st.text && st.cursor < next.cursor
            <= st.text.len(),
        step_electron_count(st) matches Ok(next) ==> next.text == st.text && st.cursor
            < next.cursor <= st.text.len(),
        step_eigenvalue_count(st) matches Ok(next) ==> next.text == st.text && st.cursor
            < next.cursor <= st.text.len(),
        step_fermi_energy(st) matches Ok(next) ==> next.text == st.text && st.cursor < next.cursor
            <= st.text.len(),
        step_unit_cell_vectors(st) matches Ok(next) ==> next.text == st.text && st.cursor
            < next.cursor <= st.text.len(),
        step_band_per_kpoint(st) matches Ok(next) ==> next.text == st.text && next.cursor
            == st.text.len(),
{
    let s = st.text;
    assert forall|p: int| 0 <= p <= s.len() implies (#[trigger] line_end(s, p) matches Some(e) ==> p
        < e <= s.len()) by {}
    assert forall|p: int, label: Seq<u8>| 0 <= p <= s.len() implies (#[trigger] after_label(
        s,
        p,
        label,
    ) matches Some(e) ==> p < e <= s.len()) by {
        if literal_at(s, p, label) {
            lemma_spaces_end_bounds(s, p + label.len());
        }
    }
    assert forall|p: int| 0 <= p <= s.len() implies p <= #[trigger] digits_end(s, p) <= s.len() by {
        lemma_digits_end_bounds(s, p);
    }
    assert forall|p: int| 0 <= p <= s.len() implies p <= #[trigger] spaces_end(s, p) <= s.len() by {
        lemma_spaces_end_bounds(s, p);
    }
    assert forall|p: int| 0 <= p <= s.len() implies (#[trigger] decimal_end(s, p) matches Some(e)
        ==> p < e <= s.len()) by {
        lemma_decimal_end_bounds(s, p);
    }
}

} // verus!
