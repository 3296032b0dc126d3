//! A decimal number as it stands in a text file.
//!
//! The grammar is
//!
//! ```text
//! decimal  := sign? mantissa exponent?
//! sign     := '+' | '-'
//! mantissa := digit+ ('.' digit*)? | '.' digit+
//! exponent := ('e' | 'E') sign? digit+
//! ```
//!
//! and a decimal is always taken as long as it can be. An `e` or `E` behind
//! the mantissa must start an exponent: `1e` and `1e+` are no decimals.
use vstd::prelude::*;
use vstd::slice::slice_to_vec;
use vstd::string::StringSliceAdditionalSpecFns;

verus! {

/// The text of a decimal number, kept byte for byte so that no digit is
/// lost. The bytes are always exactly one decimal.
#[derive(Debug, PartialEq, Eq)]
pub struct Decimal {
    text: Vec<u8>,
}

impl Clone for Decimal {
    fn clone(&self) -> (r: Self)
        ensures
            r@ == self@,
    {
        proof {
            use_type_invariant(self);
        }
        let mut bytes: Vec<u8> = Vec::with_capacity(self.text.len());
        let mut i: usize = 0;
        while i < self.text.len()
            invariant
                i <= self.text.len(),
                bytes@ == self.text@.take(i as int),
            decreases self.text.len() - i,
        {
            bytes.push(self.text[i]);
            i += 1;
        }
        assert(self.text@.take(self.text.len() as int) == self.text@);
        Decimal { text: bytes }
    }
}

impl View for Decimal {
    type V = Seq<u8>;

    closed spec fn view(&self) -> Seq<u8> {
        self.text@
    }
}

impl DeepView for Decimal {
    type V = Seq<u8>;

    open spec fn deep_view(&self) -> Seq<u8> {
        self@
    }
}

/// An ASCII digit.
pub open spec fn is_digit(b: u8) -> bool {
    0x30 <= b <= 0x39
}

/// `+` or `-`.
pub open spec fn is_sign(b: u8) -> bool {
    b == 0x2b || b == 0x2d
}

/// `e` or `E`.
pub open spec fn is_exponent_mark(b: u8) -> bool {
    b == 0x65 || b == 0x45
}

/// The end of the longest run of digits that starts at `pos`; `pos` itself
/// where no digit stands there.
pub open spec fn digits_end(s: Seq<u8>, pos: int) -> int
    decreases s.len() - pos,
{
    if 0 <= pos < s.len() && is_digit(s[pos]) {
        digits_end(s, pos + 1)
    } else {
        pos
    }
}

/// `pos`, or the place behind the sign that stands at `pos`.
pub open spec fn skip_sign(s: Seq<u8>, pos: int) -> int {
    if 0 <= pos < s.len() && is_sign(s[pos]) {
        pos + 1
    } else {
        pos
    }
}

/// The end of the mantissa that starts at `pos`, if one does.
pub open spec fn mantissa_end(s: Seq<u8>, pos: int) -> Option<int> {
    let whole = digits_end(s, pos);
    if whole > pos {
        if whole < s.len() && s[whole] == 0x2e {
            Some(digits_end(s, whole + 1))
        } else {
            Some(whole)
        }
    } else if 0 <= pos < s.len() && s[pos] == 0x2e && digits_end(s, pos + 1) > pos + 1 {
        Some(digits_end(s, pos + 1))
    } else {
        None
    }
}

/// The end of the decimal that starts at `pos`, if one does.
pub open spec fn decimal_end(s: Seq<u8>, pos: int) -> Option<int> {
    match mantissa_end(s, skip_sign(s, pos)) {
        None => None,
        Some(m) => {
            if 0 <= m < s.len() && is_exponent_mark(s[m]) {
                let first = skip_sign(s, m + 1);
                if digits_end(s, first) > first {
                    Some(digits_end(s, first))
                } else {
                    None
                }
            } else {
                Some(m)
            }
        },
    }
}

/// Whether the whole of `s` is one decimal.
pub open spec fn is_decimal(s: Seq<u8>) -> bool {
    decimal_end(s, 0) == Some(s.len() as int)
}

/// A run of digits ends at or behind its start and inside the text.
pub proof fn lemma_digits_end_bounds(s: Seq<u8>, pos: int)
    requires
        0 <= pos <= s.len(),
    ensures
        pos <= digits_end(s, pos) <= s.len(),
        forall|i: int| pos <= i < digits_end(s, pos) ==> is_digit(#[trigger] s[i]),
        digits_end(s, pos) < s.len() ==> !is_digit(s[digits_end(s, pos)]),
    decreases s.len() - pos,
{
    if pos < s.len() && is_digit(s[pos]) {
        lemma_digits_end_bounds(s, pos + 1);
    }
}

/// A decimal is not empty and ends inside the text.
pub proof fn lemma_decimal_end_bounds(s: Seq<u8>, pos: int)
    requires
        0 <= pos <= s.len(),
    ensures
        decimal_end(s, pos) matches Some(end) ==> pos < end <= s.len(),
{
    let p = skip_sign(s, pos);
    lemma_digits_end_bounds(s, p);
    if digits_end(s, p) < s.len() {
        lemma_digits_end_bounds(s, digits_end(s, p) + 1);
    }
    if p < s.len() {
        lemma_digits_end_bounds(s, p + 1);
    }
    if let Some(m) = mantissa_end(s, p) {
        if m < s.len() {
            let first = skip_sign(s, m + 1);
            lemma_digits_end_bounds(s, first);
        }
    }
}

/// Inside a part of a text, a run of digits ends where it ends in the whole
/// text, or at the end of the part where that comes first.
pub proof fn lemma_digits_end_window(s: Seq<u8>, from: int, to: int, pos: int)
    requires
        0 <= from <= pos <= to <= s.len(),
    ensures
        digits_end(s.subrange(from, to), pos - from) == (if digits_end(s, pos) < to {
            digits_end(s, pos)
        } else {
            to
        }) - from,
    decreases to - pos,
{
    lemma_digits_end_bounds(s, pos);
    if pos < to && is_digit(s[pos]) {
        lemma_digits_end_window(s, from, to, pos + 1);
    }
}

/// A decimal found in a text is a decimal when it stands alone.
pub proof fn lemma_token_is_decimal(s: Seq<u8>, pos: int)
    requires
        0 <= pos <= s.len(),
        decimal_end(s, pos) is Some,
    ensures
        is_decimal(s.subrange(pos, decimal_end(s, pos)->0)),
{
    let end = decimal_end(s, pos)->0;
    let t = s.subrange(pos, end);
    lemma_decimal_end_bounds(s, pos);
    let p = skip_sign(s, pos);
    lemma_digits_end_bounds(s, p);
    let whole = digits_end(s, p);
    let m = mantissa_end(s, p)->0;
    if whole < s.len() {
        lemma_digits_end_bounds(s, whole + 1);
    }
    if p < s.len() {
        lemma_digits_end_bounds(s, p + 1);
    }
    if m < s.len() {
        lemma_digits_end_bounds(s, skip_sign(s, m + 1));
    }
    assert(pos <= p <= m <= end);
    assert(skip_sign(t, 0) == p - pos);
    lemma_digits_end_window(s, pos, end, p);
    if whole > p {
        if whole < s.len() && s[whole] == 0x2e {
            lemma_digits_end_window(s, pos, end, whole + 1);
        }
    } else {
        lemma_digits_end_window(s, pos, end, p + 1);
    }
    assert(mantissa_end(t, p - pos) == Some(m - pos));
    if m < s.len() && is_exponent_mark(s[m]) {
        let first = skip_sign(s, m + 1);
        assert(skip_sign(t, m + 1 - pos) == first - pos);
        lemma_digits_end_window(s, pos, end, first);
    }
}

/// The end of the run of digits that starts at `pos`.
pub fn scan_digits(input: &[u8], pos: usize) -> (end: usize)
    ensures
        end == digits_end(input@, pos as int),
        pos <= end,
        pos <= input@.len() ==> end <= input@.len(),
        pos >= input@.len() ==> end == pos,
{
    let n: usize = input.len();
    if pos >= n {
        return pos;
    }
    let mut i: usize = pos;
    while i < n && input[i] >= 0x30 && input[i] <= 0x39
        invariant
            pos <= i <= n,
            n == input@.len(),
            digits_end(input@, i as int) == digits_end(input@, pos as int),
        decreases n - i,
    {
        i += 1;
    }
    i
}

/// The place behind the sign at `pos`, or `pos` where no sign stands there.
fn scan_sign(input: &[u8], pos: usize) -> (end: usize)
    ensures
        end == skip_sign(input@, pos as int),
{
    if pos < input.len() && (input[pos] == 0x2b || input[pos] == 0x2d) {
        pos + 1
    } else {
        pos
    }
}

/// The end of the mantissa that starts at `pos`, if one does.
fn scan_mantissa(input: &[u8], pos: usize) -> (r: Option<usize>)
    ensures
        match mantissa_end(input@, pos as int) {
            Some(end) => r matches Some(e) && e == end && pos < e <= input@.len(),
            None => r is None,
        },
{
    let n: usize = input.len();
    if pos >= n {
        return None;
    }
    let whole = scan_digits(input, pos);
    if whole > pos {
        if whole < n && input[whole] == 0x2e {
            Some(scan_digits(input, whole + 1))
        } else {
            Some(whole)
        }
    } else if input[pos] == 0x2e {
        let fraction = scan_digits(input, pos + 1);
        if fraction > pos + 1 {
            Some(fraction)
        } else {
            None
        }
    } else {
        None
    }
}

/// The end of the decimal that starts at `pos`, if one does.
pub fn scan_decimal(input: &[u8], pos: usize) -> (r: Option<usize>)
    ensures
        match decimal_end(input@, pos as int) {
            Some(end) => r matches Some(e) && e == end && pos < e <= input@.len(),
            None => r is None,
        },
{
    let n: usize = input.len();
    let start = scan_sign(input, pos);
    let m = match scan_mantissa(input, start) {
        Some(m) => m,
        None => {
            return None;
        },
    };
    if m < n && (input[m] == 0x65 || input[m] == 0x45) {
        let first = scan_sign(input, m + 1);
        let end = scan_digits(input, first);
        if end > first {
            Some(end)
        } else {
            None
        }
    } else {
        Some(m)
    }
}

impl Decimal {
    #[verifier::type_invariant]
    spec fn holds_one_decimal(self) -> bool {
        is_decimal(self.text@)
    }

    /// The decimal that `text` spells, or `None` where `text` is not exactly
    /// one decimal.
    pub fn parse(text: &str) -> (r: Option<Decimal>)
        ensures
            is_decimal(text.spec_bytes()) ==> (r matches Some(d) && d@ == text.spec_bytes()),
            !is_decimal(text.spec_bytes()) ==> r is None,
    {
        let bytes = text.as_bytes_vec();
        match scan_decimal(bytes.as_slice(), 0) {
            Some(end) => {
                if end == bytes.len() {
                    Some(Decimal { text: bytes })
                } else {
                    None
                }
            },
            None => None,
        }
    }

    /// The decimal that starts at `pos` in `input`, and its end.
    pub fn scan(input: &[u8], pos: usize) -> (r: Option<(Decimal, usize)>)
        ensures
            match decimal_end(input@, pos as int) {
                Some(end) => r matches Some((d, e)) && d@ == input@.subrange(pos as int, end) && e
                    == end && pos < e <= input@.len(),
                None => r is None,
            },
    {
        match scan_decimal(input, pos) {
            Some(end) => {
                proof {
                    lemma_token_is_decimal(input@, pos as int);
                }
                let text = slice_to_vec(&input[pos..end]);
                Some((Decimal { text }, end))
            },
            None => None,
        }
    }

    /// The bytes of the number: always exactly one decimal.
    pub fn as_bytes(&self) -> (r: &[u8])
        ensures
            r@ == self@,
            is_decimal(self@),
    {
        proof {
            use_type_invariant(self);
        }
        self.text.as_slice()
    }
}

} // verus!
