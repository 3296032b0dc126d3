//! The pieces that the lines of a `.bands` file are made of: labels, blanks,
//! digits, decimals and line endings. A position that lies behind the end of
//! the text matches nothing.
use vstd::prelude::*;
use vstd::string::StringSliceAdditionalSpecFns;

use crate::fundamental::decimal::{decimal_end, digits_end, is_digit, scan_digits, Decimal};

verus! {

/// A blank or a tab.
pub open spec fn is_space(b: u8) -> bool {
    b == 0x20 || b == 0x09
}

/// The end of the longest run of blanks and tabs that starts at `pos`; `pos`
/// itself where none stands there.
pub open spec fn spaces_end(s: Seq<u8>, pos: int) -> int
    decreases s.len() - pos,
{
    if 0 <= pos < s.len() && is_space(s[pos]) {
        spaces_end(s, pos + 1)
    } else {
        pos
    }
}

/// The place behind the line ending (`\n` or `\r\n`) that stands at `pos`.
pub open spec fn line_end(s: Seq<u8>, pos: int) -> Option<int> {
    if 0 <= pos < s.len() && s[pos] == 0x0a {
        Some(pos + 1)
    } else if 0 <= pos && pos + 1 < s.len() && s[pos] == 0x0d && s[pos + 1] == 0x0a {
        Some(pos + 2)
    } else {
        None
    }
}

/// Whether the bytes `lit` stand at `pos`.
pub open spec fn literal_at(s: Seq<u8>, pos: int, lit: Seq<u8>) -> bool {
    0 <= pos && pos + lit.len() <= s.len() && s.subrange(pos, pos + lit.len()) == lit
}

/// The place behind `label` and the blanks that follow it, where `label`
/// stands at `pos` with at least one blank behind it.
pub open spec fn after_label(s: Seq<u8>, pos: int, label: Seq<u8>) -> Option<int> {
    let blanks = pos + label.len();
    if literal_at(s, pos, label) && spaces_end(s, blanks) > blanks {
        Some(spaces_end(s, blanks))
    } else {
        None
    }
}

/// The decimal behind the blanks at `pos`, and its end, where at least one
/// blank stands at `pos` and a decimal follows the blanks.
pub open spec fn spaced_decimal(s: Seq<u8>, pos: int) -> Option<(Seq<u8>, int)> {
    let start = spaces_end(s, pos);
    if start > pos {
        match decimal_end(s, start) {
            Some(end) => Some((s.subrange(start, end), end)),
            None => None,
        }
    } else {
        None
    }
}

/// The number that the digits from `start` up to `end` spell.
pub open spec fn digits_value(s: Seq<u8>, start: int, end: int) -> nat
    decreases end - start,
{
    if start < end && 0 < end <= s.len() {
        (digits_value(s, start, end - 1) * 10 + (s[end - 1] - 0x30)) as nat
    } else {
        0
    }
}

/// The number spelled grows with every further digit.
pub proof fn lemma_digits_value_grows(s: Seq<u8>, start: int, mid: int, end: int)
    requires
        0 <= start <= mid <= end <= s.len(),
        forall|i: int| start <= i < end ==> is_digit(#[trigger] s[i]),
    ensures
        digits_value(s, start, mid) <= digits_value(s, start, end),
    decreases end - mid,
{
    if mid < end {
        lemma_digits_value_grows(s, start, mid, end - 1);
    }
}

/// A run of blanks ends at or behind its start and inside the text.
pub proof fn lemma_spaces_end_bounds(s: Seq<u8>, pos: int)
    requires
        0 <= pos <= s.len(),
    ensures
        pos <= spaces_end(s, pos) <= s.len(),
    decreases s.len() - pos,
{
    if pos < s.len() && is_space(s[pos]) {
        lemma_spaces_end_bounds(s, pos + 1);
    }
}

/// The end of the run of blanks that starts at `pos`.
pub fn scan_spaces(input: &[u8], pos: usize) -> (end: usize)
    ensures
        end == spaces_end(input@, pos as int),
        pos <= end,
        pos <= input@.len() ==> end <= input@.len(),
        pos >= input@.len() ==> end == pos,
{
    let n: usize = input.len();
    if pos >= n {
        return pos;
    }
    let mut i: usize = pos;
    while i < n && (input[i] == 0x20 || input[i] == 0x09)
        invariant
            pos <= i <= n,
            n == input@.len(),
            spaces_end(input@, i as int) == spaces_end(input@, pos as int),
        decreases n - i,
    {
        i += 1;
    }
    i
}

/// The place behind the line ending at `pos`, if one stands there.
pub fn scan_line_end(input: &[u8], pos: usize) -> (r: Option<usize>)
    ensures
        match line_end(input@, pos as int) {
            Some(end) => r matches Some(e) && e == end && pos < e <= input@.len(),
            None => r is None,
        },
{
    let n: usize = input.len();
    if pos >= n {
        None
    } else if input[pos] == 0x0a {
        Some(pos + 1)
    } else if input[pos] == 0x0d && n - pos > 1 && input[pos + 1] == 0x0a {
        Some(pos + 2)
    } else {
        None
    }
}

/// Whether `label` stands at `pos`.
pub fn match_literal(input: &[u8], pos: usize, label: &str) -> (r: bool)
    ensures
        r == literal_at(input@, pos as int, label.spec_bytes()),
{
    let lit = label.as_bytes();
    let n: usize = input.len();
    let m: usize = lit.len();
    if pos > n || n - pos < m {
        return false;
    }
    let mut i: usize = 0;
    while i < m
        invariant
            i <= m,
            m == lit@.len(),
            n == input@.len(),
            lit@ == label.spec_bytes(),
            pos + m <= n,
            input@.subrange(pos as int, pos + i) == lit@.take(i as int),
        decreases m - i,
    {
        if input[pos + i] != lit[i] {
            proof {
                let whole = input@.subrange(pos as int, pos + m);
                assert(whole[i as int] == input@[pos + i]);
            }
            return false;
        }
        assert(input@.subrange(pos as int, pos + i + 1) == input@.subrange(
            pos as int,
            pos + i,
        ).push(input@[pos + i]));
        assert(lit@.take(i + 1) == lit@.take(i as int).push(lit@[i as int]));
        i += 1;
    }
    assert(lit@.take(m as int) == lit@);
    true
}

/// The place behind `label` and its blanks, as `after_label` gives it.
pub fn scan_label(input: &[u8], pos: usize, label: &str) -> (r: Option<usize>)
    ensures
        match after_label(input@, pos as int, label.spec_bytes()) {
            Some(end) => r matches Some(e) && e == end && pos < e <= input@.len(),
            None => r is None,
        },
{
    if !match_literal(input, pos, label) {
        return None;
    }
    let lit = label.as_bytes();
    let n: usize = input.len();
    let blanks: usize = pos + lit.len();
    let end = scan_spaces(input, blanks);
    if end > blanks {
        Some(end)
    } else {
        None
    }
}

/// The decimal behind the blanks at `pos`, as `spaced_decimal` gives it.
pub fn scan_spaced_decimal(input: &[u8], pos: usize) -> (r: Option<(Decimal, usize)>)
    ensures
        match spaced_decimal(input@, pos as int) {
            Some((text, end)) => r matches Some((d, e)) && d@ == text && e == end && pos < e
                <= input@.len(),
            None => r is None,
        },
{
    let start = scan_spaces(input, pos);
    if start <= pos {
        return None;
    }
    Decimal::scan(input, start)
}

/// The number that a run of at least one digit at `pos` spells, and the end
/// of the run; `None` where no digit stands at `pos` or the number does not
/// fit in a `u32`.
pub fn scan_u32(input: &[u8], pos: usize) -> (r: Option<(u32, usize)>)
    ensures
        ({
            let end = digits_end(input@, pos as int);
            if end > pos && digits_value(input@, pos as int, end) <= u32::MAX {
                r matches Some((value, e)) && value == digits_value(input@, pos as int, end) && e
                    == end && e <= input@.len()
            } else {
                r is None
            }
        }),
{
    let end = scan_digits(input, pos);
    if end <= pos {
        return None;
    }
    proof {
        crate::fundamental::decimal::lemma_digits_end_bounds(input@, pos as int);
    }
    let mut value: u64 = 0;
    let mut i: usize = pos;
    while i < end
        invariant
            pos <= i <= end <= input@.len(),
            pos < end,
            end == digits_end(input@, pos as int),
            forall|k: int| pos <= k < end ==> is_digit(#[trigger] input@[k]),
            value == digits_value(input@, pos as int, i as int),
            value <= u32::MAX,
        decreases end - i,
    {
        let digit: u64 = (input[i] - 0x30) as u64;
        value = value * 10 + digit;
        i += 1;
        assert(value == digits_value(input@, pos as int, i as int));
        if value > u32::MAX as u64 {
            proof {
                lemma_digits_value_grows(input@, pos as int, i as int, end as int);
            }
            return None;
        }
    }
    Some((value as u32, end))
}

} // verus!
