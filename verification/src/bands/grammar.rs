//! The lines of a `.bands` file, one function for each kind of line: what
//! the line must look like, what it holds, and where it ends.
use vstd::prelude::*;
use vstd::string::StringSliceAdditionalSpecFns;

use super::tokens::{
    after_label, digits_value, line_end, literal_at, match_literal, scan_label,
    scan_line_end, scan_spaced_decimal, scan_spaces, scan_u32, spaced_decimal, spaces_end,
};
use super::{ElectronCount, FermiEnergy, KPoint, KPointView};
use crate::fundamental::decimal::{decimal_end, digits_end, scan_digits, Decimal};
use crate::fundamental::{SpinPolarized, SpinView};

verus! {

/// Label of the line that gives the number of k-points.
pub open spec fn label_kpoint_count() -> Seq<u8> {
    "Number of k-points".spec_bytes()
}

/// Label of the line that gives the number of spin components.
pub open spec fn label_spin_components() -> Seq<u8> {
    "Number of spin components".spec_bytes()
}

/// Label of the line that gives the number of electrons.
pub open spec fn label_electrons() -> Seq<u8> {
    "Number of electrons".spec_bytes()
}

/// Label of the line that gives the number of eigenvalues.
pub open spec fn label_eigenvalues() -> Seq<u8> {
    "Number of eigenvalues".spec_bytes()
}

/// Label of the line that gives the one Fermi energy.
pub open spec fn label_fermi_energy() -> Seq<u8> {
    "Fermi energy (in atomic units)".spec_bytes()
}

/// Label of the line that gives the Fermi energies of both spins.
pub open spec fn label_fermi_energies() -> Seq<u8> {
    "Fermi energies (in atomic units)".spec_bytes()
}

/// The line that stands before the three unit cell vectors.
pub open spec fn label_unit_cell() -> Seq<u8> {
    "Unit cell vectors".spec_bytes()
}

/// Label of the line that starts the block of a k-point.
pub open spec fn label_kpoint() -> Seq<u8> {
    "K-point".spec_bytes()
}

/// The line that starts the eigenvalues of the first spin component.
pub open spec fn label_spin_one() -> Seq<u8> {
    "Spin component 1".spec_bytes()
}

/// The line that starts the eigenvalues of the second spin component.
pub open spec fn label_spin_two() -> Seq<u8> {
    "Spin component 2".spec_bytes()
}

/// `Number of k-points`, blanks, digits, line ending. Gives the end of the
/// line; the number itself is not used.
pub open spec fn kpoint_count_line(s: Seq<u8>, pos: int) -> Option<int> {
    match after_label(s, pos, label_kpoint_count()) {
        Some(p) => if digits_end(s, p) > p {
            line_end(s, digits_end(s, p))
        } else {
            None
        },
        None => None,
    }
}

/// `Number of spin components`, blanks, the digit `1` or `2`, line ending.
pub open spec fn spin_config_line(s: Seq<u8>, pos: int) -> Option<(SpinPolarized, int)> {
    match after_label(s, pos, label_spin_components()) {
        Some(p) => if 0 <= p < s.len() && (s[p] == 0x31 || s[p] == 0x32) {
            match line_end(s, p + 1) {
                Some(end) => Some(
                    (
                        if s[p] == 0x31 {
                            SpinPolarized::False
                        } else {
                            SpinPolarized::True
                        },
                        end,
                    ),
                ),
                None => None,
            }
        } else {
            None
        },
        None => None,
    }
}

/// The decimal at `pos` and the place behind the blanks that follow it;
/// at least one blank must follow.
pub open spec fn decimal_then_spaces(s: Seq<u8>, pos: int) -> Option<(Seq<u8>, int)> {
    match decimal_end(s, pos) {
        Some(end) => if spaces_end(s, end) > end {
            Some((s.subrange(pos, end), spaces_end(s, end)))
        } else {
            None
        },
        None => None,
    }
}

/// `Number of electrons`, blanks, then one decimal, or two where the spin is
/// polarized, each followed by blanks, then the line ending.
pub open spec fn electron_count_line(s: Seq<u8>, pos: int, spin: SpinPolarized) -> Option<
    (SpinView<Seq<u8>>, int),
> {
    match after_label(s, pos, label_electrons()) {
        None => None,
        Some(p) => match decimal_then_spaces(s, p) {
            None => None,
            Some((first, q)) => match spin {
                SpinPolarized::False => match line_end(s, q) {
                    Some(end) => Some((SpinView::NonPolarized(first), end)),
                    None => None,
                },
                SpinPolarized::True => match decimal_then_spaces(s, q) {
                    None => None,
                    Some((second, r)) => match line_end(s, r) {
                        Some(end) => Some((SpinView::SpinPolarized(first, second), end)),
                        None => None,
                    },
                },
            },
        },
    }
}

/// `Number of eigenvalues`, blanks, digits, and where the spin is polarized
/// blanks and digits once more, then the line ending. Gives the end of the
/// line; the numbers are not used.
pub open spec fn eigenvalue_count_line(s: Seq<u8>, pos: int, spin: SpinPolarized) -> Option<int> {
    match after_label(s, pos, label_eigenvalues()) {
        None => None,
        Some(p) => {
            let first_end = digits_end(s, p);
            if first_end > p {
                match spin {
                    SpinPolarized::False => line_end(s, first_end),
                    SpinPolarized::True => {
                        let second = spaces_end(s, first_end);
                        if second > first_end && digits_end(s, second) > second {
                            line_end(s, digits_end(s, second))
                        } else {
                            None
                        }
                    },
                }
            } else {
                None
            }
        },
    }
}

/// `Fermi energy (in atomic units)`, blanks, a decimal, line ending; or,
/// where the spin is polarized, `Fermi energies (in atomic units)`, blanks,
/// a decimal, blanks, a decimal, line ending.
pub open spec fn fermi_energy_line(s: Seq<u8>, pos: int, spin: SpinPolarized) -> Option<
    (SpinView<Seq<u8>>, int),
> {
    match spin {
        SpinPolarized::False => match after_label(s, pos, label_fermi_energy()) {
            None => None,
            Some(p) => match decimal_end(s, p) {
                None => None,
                Some(e) => match line_end(s, e) {
                    Some(end) => Some((SpinView::NonPolarized(s.subrange(p, e)), end)),
                    None => None,
                },
            },
        },
        SpinPolarized::True => match after_label(s, pos, label_fermi_energies()) {
            None => None,
            Some(p) => match decimal_end(s, p) {
                None => None,
                Some(e) => match spaced_decimal(s, e) {
                    None => None,
                    Some((second, e2)) => match line_end(s, e2) {
                        Some(end) => Some(
                            (SpinView::SpinPolarized(s.subrange(p, e), second), end),
                        ),
                        None => None,
                    },
                },
            },
        },
    }
}

/// The line `Unit cell vectors`.
pub open spec fn unit_cell_header_line(s: Seq<u8>, pos: int) -> Option<int> {
    if literal_at(s, pos, label_unit_cell()) {
        line_end(s, pos + label_unit_cell().len())
    } else {
        None
    }
}

/// Three decimals, each behind blanks, then the line ending.
pub open spec fn vector_line(s: Seq<u8>, pos: int) -> Option<(Seq<Seq<u8>>, int)> {
    match spaced_decimal(s, pos) {
        None => None,
        Some((x, p1)) => match spaced_decimal(s, p1) {
            None => None,
            Some((y, p2)) => match spaced_decimal(s, p2) {
                None => None,
                Some((z, p3)) => match line_end(s, p3) {
                    Some(end) => Some((seq![x, y, z], end)),
                    None => None,
                },
            },
        },
    }
}

/// `K-point`, blanks, the index in digits, then four decimals, each behind
/// blanks: the three coordinates and the weight; then the line ending. The
/// index must fit in a `u32`.
pub open spec fn kpoint_line(s: Seq<u8>, pos: int) -> Option<(KPointView, int)> {
    match after_label(s, pos, label_kpoint()) {
        None => None,
        Some(p) => {
            let index_end = digits_end(s, p);
            if index_end > p && digits_value(s, p, index_end) <= u32::MAX {
                match vector_and_weight(s, index_end) {
                    Some((coords, weight, end)) => Some(
                        (
                            KPointView {
                                index: digits_value(s, p, index_end) as usize,
                                coords,
                                weight,
                            },
                            end,
                        ),
                    ),
                    None => None,
                }
            } else {
                None
            }
        },
    }
}

/// Four decimals, each behind blanks, then the line ending: the first
/// three as one vector, the fourth alone.
pub open spec fn vector_and_weight(s: Seq<u8>, pos: int) -> Option<(Seq<Seq<u8>>, Seq<u8>, int)> {
    match spaced_decimal(s, pos) {
        None => None,
        Some((x, p1)) => match spaced_decimal(s, p1) {
            None => None,
            Some((y, p2)) => match spaced_decimal(s, p2) {
                None => None,
                Some((z, p3)) => match spaced_decimal(s, p3) {
                    None => None,
                    Some((w, p4)) => match line_end(s, p4) {
                        Some(end) => Some((seq![x, y, z], w, end)),
                        None => None,
                    },
                },
            },
        },
    }
}

/// The line `Spin component 1` or the line `Spin component 2`.
pub open spec fn spin_component_line(s: Seq<u8>, pos: int) -> Option<int> {
    if literal_at(s, pos, label_spin_one()) {
        line_end(s, pos + label_spin_one().len())
    } else if literal_at(s, pos, label_spin_two()) {
        line_end(s, pos + label_spin_two().len())
    } else {
        None
    }
}

/// Blanks, one decimal, line ending: one eigenvalue.
pub open spec fn eigenvalue_line(s: Seq<u8>, pos: int) -> Option<(Seq<u8>, int)> {
    match spaced_decimal(s, pos) {
        None => None,
        Some((value, p)) => match line_end(s, p) {
            Some(end) => Some((value, end)),
            None => None,
        },
    }
}

/// All eigenvalue lines that follow one another from `pos` on, and the
/// place behind the last of them.
pub open spec fn eigenvalue_lines(s: Seq<u8>, pos: int) -> (Seq<Seq<u8>>, int)
    decreases s.len() - pos,
{
    match eigenvalue_line(s, pos) {
        Some((value, end)) => if pos < end <= s.len() {
            let (rest, last) = eigenvalue_lines(s, end);
            (seq![value] + rest, last)
        } else {
            (seq![], pos)
        },
        None => (seq![], pos),
    }
}

/// The end of the k-point count line at `pos`.
pub fn scan_kpoint_count_line(input: &[u8], pos: usize) -> (r: Option<usize>)
    ensures
        match kpoint_count_line(input@, pos as int) {
            Some(end) => r matches Some(e) && e == end && pos < e <= input@.len(),
            None => r is None,
        },
{
    let p = match scan_label(input, pos, "Number of k-points") {
        Some(p) => p,
        None => {
            return None;
        },
    };
    let digits = scan_digits(input, p);
    if digits > p {
        scan_line_end(input, digits)
    } else {
        None
    }
}

/// The spin setting that the line at `pos` gives, and the end of the line.
pub fn scan_spin_config_line(input: &[u8], pos: usize) -> (r: Option<(SpinPolarized, usize)>)
    ensures
        match spin_config_line(input@, pos as int) {
            Some((spin, end)) => r matches Some((found, e)) && found == spin && e == end && pos
                < e <= input@.len(),
            None => r is None,
        },
{
    let p = match scan_label(input, pos, "Number of spin components") {
        Some(p) => p,
        None => {
            return None;
        },
    };
    if p >= input.len() {
        return None;
    }
    let digit = input[p];
    if digit != 0x31 && digit != 0x32 {
        return None;
    }
    match scan_line_end(input, p + 1) {
        Some(end) => Some(
            (
                if digit == 0x31 {
                    SpinPolarized::False
                } else {
                    SpinPolarized::True
                },
                end,
            ),
        ),
        None => None,
    }
}

/// The decimal at `pos` and the place behind the blanks that follow it.
fn scan_decimal_then_spaces(input: &[u8], pos: usize) -> (r: Option<(Decimal, usize)>)
    ensures
        match decimal_then_spaces(input@, pos as int) {
            Some((text, end)) => r matches Some((d, e)) && d@ == text && e == end && pos < e
                <= input@.len(),
            None => r is None,
        },
{
    let (value, end) = match Decimal::scan(input, pos) {
        Some(found) => found,
        None => {
            return None;
        },
    };
    let after = scan_spaces(input, end);
    if after > end {
        Some((value, after))
    } else {
        None
    }
}

/// The electron count that the line at `pos` gives, and the end of the line.
pub fn scan_electron_count_line(input: &[u8], pos: usize, spin: SpinPolarized) -> (r: Option<
    (ElectronCount, usize),
>)
    ensures
        match electron_count_line(input@, pos as int, spin) {
            Some((count, end)) => r matches Some((found, e)) && found.deep_view() == count && e
                == end && pos < e <= input@.len(),
            None => r is None,
        },
{
    let p = match scan_label(input, pos, "Number of electrons") {
        Some(p) => p,
        None => {
            return None;
        },
    };
    let (first, q) = match scan_decimal_then_spaces(input, p) {
        Some(found) => found,
        None => {
            return None;
        },
    };
    match spin {
        SpinPolarized::False => match scan_line_end(input, q) {
            Some(end) => Some((ElectronCount::NonPolarized(first), end)),
            None => None,
        },
        SpinPolarized::True => {
            let (second, r) = match scan_decimal_then_spaces(input, q) {
                Some(found) => found,
                None => {
                    return None;
                },
            };
            match scan_line_end(input, r) {
                Some(end) => Some((ElectronCount::Polarized(first, second), end)),
                None => None,
            }
        },
    }
}

/// The end of the eigenvalue count line at `pos`.
pub fn scan_eigenvalue_count_line(input: &[u8], pos: usize, spin: SpinPolarized) -> (r: Option<
    usize,
>)
    ensures
        match eigenvalue_count_line(input@, pos as int, spin) {
            Some(end) => r matches Some(e) && e == end && pos < e <= input@.len(),
            None => r is None,
        },
{
    let p = match scan_label(input, pos, "Number of eigenvalues") {
        Some(p) => p,
        None => {
            return None;
        },
    };
    let first_end = scan_digits(input, p);
    if first_end <= p {
        return None;
    }
    match spin {
        SpinPolarized::False => scan_line_end(input, first_end),
        SpinPolarized::True => {
            let second = scan_spaces(input, first_end);
            if second <= first_end {
                return None;
            }
            let second_end = scan_digits(input, second);
            if second_end <= second {
                return None;
            }
            scan_line_end(input, second_end)
        },
    }
}

/// The Fermi energy that the line at `pos` gives, and the end of the line.
pub fn scan_fermi_energy_line(input: &[u8], pos: usize, spin: SpinPolarized) -> (r: Option<
    (FermiEnergy, usize),
>)
    ensures
        match fermi_energy_line(input@, pos as int, spin) {
            Some((energy, end)) => r matches Some((found, e)) && found.deep_view() == energy && e
                == end && pos < e <= input@.len(),
            None => r is None,
        },
{
    match spin {
        SpinPolarized::False => {
            let p = match scan_label(input, pos, "Fermi energy (in atomic units)") {
                Some(p) => p,
                None => {
                    return None;
                },
            };
            let (energy, e) = match Decimal::scan(input, p) {
                Some(found) => found,
                None => {
                    return None;
                },
            };
            match scan_line_end(input, e) {
                Some(end) => Some((FermiEnergy::NonPolarized(energy), end)),
                None => None,
            }
        },
        SpinPolarized::True => {
            let p = match scan_label(input, pos, "Fermi energies (in atomic units)") {
                Some(p) => p,
                None => {
                    return None;
                },
            };
            let (up, e) = match Decimal::scan(input, p) {
                Some(found) => found,
                None => {
                    return None;
                },
            };
            let (down, e2) = match scan_spaced_decimal(input, e) {
                Some(found) => found,
                None => {
                    return None;
                },
            };
            match scan_line_end(input, e2) {
                Some(end) => Some((FermiEnergy::Polarized(up, down), end)),
                None => None,
            }
        },
    }
}

/// The end of the line `Unit cell vectors` at `pos`.
pub fn scan_unit_cell_header_line(input: &[u8], pos: usize) -> (r: Option<usize>)
    ensures
        match unit_cell_header_line(input@, pos as int) {
            Some(end) => r matches Some(e) && e == end && pos < e <= input@.len(),
            None => r is None,
        },
{
    let label = "Unit cell vectors";
    if !match_literal(input, pos, label) {
        return None;
    }
    let n: usize = input.len();
    scan_line_end(input, pos + label.as_bytes().len())
}

/// The vector that the line at `pos` gives, and the end of the line.
pub fn scan_vector_line(input: &[u8], pos: usize) -> (r: Option<([Decimal; 3], usize)>)
    ensures
        match vector_line(input@, pos as int) {
            Some((vector, end)) => r matches Some((found, e)) && found.deep_view() == vector && e
                == end && pos < e <= input@.len(),
            None => r is None,
        },
{
    let (x, p1) = match scan_spaced_decimal(input, pos) {
        Some(found) => found,
        None => {
            return None;
        },
    };
    let (y, p2) = match scan_spaced_decimal(input, p1) {
        Some(found) => found,
        None => {
            return None;
        },
    };
    let (z, p3) = match scan_spaced_decimal(input, p2) {
        Some(found) => found,
        None => {
            return None;
        },
    };
    match scan_line_end(input, p3) {
        Some(end) => {
            let vector = [x, y, z];
            assert(vector.deep_view() =~= seq![x@, y@, z@]);
            Some((vector, end))
        },
        None => None,
    }
}

/// The k-point that the line at `pos` gives, and the end of the line.
pub fn scan_kpoint_line(input: &[u8], pos: usize) -> (r: Option<(KPoint, usize)>)
    ensures
        match kpoint_line(input@, pos as int) {
            Some((kpoint, end)) => r matches Some((found, e)) && found.deep_view() == kpoint && e
                == end && pos < e <= input@.len(),
            None => r is None,
        },
{
    let p = match scan_label(input, pos, "K-point") {
        Some(p) => p,
        None => {
            return None;
        },
    };
    let (index, index_end) = match scan_u32(input, p) {
        Some(found) => found,
        None => {
            return None;
        },
    };
    let (x, p1) = match scan_spaced_decimal(input, index_end) {
        Some(found) => found,
        None => {
            return None;
        },
    };
    let (y, p2) = match scan_spaced_decimal(input, p1) {
        Some(found) => found,
        None => {
            return None;
        },
    };
    let (z, p3) = match scan_spaced_decimal(input, p2) {
        Some(found) => found,
        None => {
            return None;
        },
    };
    let (weight, p4) = match scan_spaced_decimal(input, p3) {
        Some(found) => found,
        None => {
            return None;
        },
    };
    match scan_line_end(input, p4) {
        Some(end) => {
            let coords = [x, y, z];
            assert(coords.deep_view() =~= seq![x@, y@, z@]);
            Some((KPoint { index: index as usize, coords, weight }, end))
        },
        None => None,
    }
}

/// The end of the spin component line at `pos`.
pub fn scan_spin_component_line(input: &[u8], pos: usize) -> (r: Option<usize>)
    ensures
        match spin_component_line(input@, pos as int) {
            Some(end) => r matches Some(e) && e == end && pos < e <= input@.len(),
            None => r is None,
        },
{
    let one = "Spin component 1";
    let two = "Spin component 2";
    let n: usize = input.len();
    if match_literal(input, pos, one) {
        scan_line_end(input, pos + one.as_bytes().len())
    } else if match_literal(input, pos, two) {
        scan_line_end(input, pos + two.as_bytes().len())
    } else {
        None
    }
}

/// The eigenvalue that the line at `pos` gives, and the end of the line.
pub fn scan_eigenvalue_line(input: &[u8], pos: usize) -> (r: Option<(Decimal, usize)>)
    ensures
        match eigenvalue_line(input@, pos as int) {
            Some((value, end)) => r matches Some((found, e)) && found@ == value && e == end && pos
                < e <= input@.len(),
            None => r is None,
        },
{
    let (value, p) = match scan_spaced_decimal(input, pos) {
        Some(found) => found,
        None => {
            return None;
        },
    };
    match scan_line_end(input, p) {
        Some(end) => Some((value, end)),
        None => None,
    }
}

/// The eigenvalues of the lines from `pos` on, and the place behind the
/// last eigenvalue line.
pub fn scan_eigenvalue_lines(input: &[u8], pos: usize) -> (r: (Vec<Decimal>, usize))
    ensures
        r.0.deep_view() == eigenvalue_lines(input@, pos as int).0,
        r.1 == eigenvalue_lines(input@, pos as int).1,
        pos <= r.1,
        r.0@.len() > 0 ==> pos < r.1 <= input@.len(),
        r.0@.len() == 0 ==> r.1 == pos,
{
    let mut values: Vec<Decimal> = Vec::new();
    let mut cursor: usize = pos;
    let ghost whole = eigenvalue_lines(input@, pos as int);
    loop
        invariant
            pos <= cursor,
            values@.len() > 0 ==> pos < cursor <= input@.len(),
            values@.len() == 0 ==> cursor == pos,
            whole == eigenvalue_lines(input@, pos as int),
            whole.0 == values.deep_view() + eigenvalue_lines(input@, cursor as int).0,
            whole.1 == eigenvalue_lines(input@, cursor as int).1,
        decreases input@.len() - cursor,
    {
        match scan_eigenvalue_line(input, cursor) {
            Some((value, end)) => {
                let ghost before = values.deep_view();
                let ghost rest = eigenvalue_lines(input@, end as int).0;
                values.push(value);
                cursor = end;
                proof {
                    assert(values.deep_view() =~= before.push(value@));
                    assert(before.push(value@) + rest =~= before + (seq![value@] + rest));
                }
            },
            None => {
                assert(values.deep_view() + Seq::<Seq<u8>>::empty() =~= values.deep_view());
                return (values, cursor);
            },
        }
    }
}

} // verus!
