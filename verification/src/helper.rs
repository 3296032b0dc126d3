//! Framing of the binary weight file.
//!
//! Every field and array of the file is one record: a big-endian `u32` that
//! gives the number of payload bytes, the payload, and the same `u32` again.
use vstd::prelude::*;

verus! {

/// Why a record could not be read.
#[derive(Debug, Clone, Copy, PartialEq, Eq, Structural)]
pub enum HelperError {
    /// The input ends before the record does.
    Truncated,
    /// The record declares `found` payload bytes where another number was
    /// asked for.
    UnexpectedSize { found: u32 },
    /// The marker behind the payload differs from the one before it.
    SizeMismatch { leading: u32, trailing: u32 },
}

impl HelperError {
    /// What the error says in words.
    pub open spec fn description(self) -> Seq<char> {
        match self {
            HelperError::Truncated => "the input ends inside a record"@,
            HelperError::UnexpectedSize { .. } => "record size mismatch with expected size"@,
            HelperError::SizeMismatch { .. } => {
                "ending record size mismatch with starting record marker size"@
            },
        }
    }

    /// A description of the error.
    pub fn message(&self) -> (r: String)
        ensures
            r@ == self.description(),
    {
        match self {
            HelperError::Truncated => "the input ends inside a record".to_string(),
            HelperError::UnexpectedSize { .. } => "record size mismatch with expected size".to_string(),
            HelperError::SizeMismatch { .. } => {
                "ending record size mismatch with starting record marker size".to_string()
            },
        }
    }
}

/// The number that four bytes spell in big-endian order.
pub open spec fn be_u32(b: Seq<u8>) -> u32
    recommends
        b.len() == 4,
{
    (b[0] as int * 0x100_0000 + b[1] as int * 0x1_0000 + b[2] as int * 0x100 + b[3] as int) as u32
}

/// The number that eight bytes spell in big-endian order.
pub open spec fn be_u64(b: Seq<u8>) -> u64
    recommends
        b.len() == 8,
{
    (be_u32(b.subrange(0, 4)) as int * 0x1_0000_0000 + be_u32(b.subrange(4, 8)) as int) as u64
}

/// The four bytes that spell `v` in big-endian order.
pub open spec fn be_bytes_u32(v: u32) -> Seq<u8> {
    seq![
        (v / 0x100_0000) as u8,
        ((v / 0x1_0000) % 0x100) as u8,
        ((v / 0x100) % 0x100) as u8,
        (v % 0x100) as u8,
    ]
}

/// A value that is written as `N` bytes in big-endian order.
pub trait FromBeBytes<const N: usize>: Sized {
    /// The value that `bytes` spell.
    spec fn spec_from_be_bytes(bytes: Seq<u8>) -> Self;

    /// Decodes `N` bytes.
    fn from_be_bytes(bytes: &[u8]) -> (r: Self)
        requires
            bytes@.len() == N,
        ensures
            r == Self::spec_from_be_bytes(bytes@),
    ;
}

impl FromBeBytes<4> for u32 {
    open spec fn spec_from_be_bytes(bytes: Seq<u8>) -> u32 {
        be_u32(bytes)
    }

    fn from_be_bytes(bytes: &[u8]) -> (r: u32) {
        let b0: u32 = bytes[0] as u32;
        let b1: u32 = bytes[1] as u32;
        let b2: u32 = bytes[2] as u32;
        let b3: u32 = bytes[3] as u32;
        b0 * 0x100_0000 + b1 * 0x1_0000 + b2 * 0x100 + b3
    }
}

/// A double is decoded to its 64 bits, sign bit first.
impl FromBeBytes<8> for u64 {
    open spec fn spec_from_be_bytes(bytes: Seq<u8>) -> u64 {
        be_u64(bytes)
    }

    fn from_be_bytes(bytes: &[u8]) -> (r: u64) {
        let high: u32 = <u32 as FromBeBytes<4>>::from_be_bytes(&bytes[0..4]);
        let low: u32 = <u32 as FromBeBytes<4>>::from_be_bytes(&bytes[4..8]);
        high as u64 * 0x1_0000_0000 + low as u64
    }
}

/// What reading one record from the front of `s` gives: the payload and the
/// bytes that follow the record, or the error.
///
/// The checks come in the order of the bytes: the leading marker must be
/// there, must equal `expected` where one is given, the payload and the
/// trailing marker must be there, and the two markers must agree.
pub open spec fn spec_record(s: Seq<u8>, expected: Option<nat>) -> Result<
    (Seq<u8>, Seq<u8>),
    HelperError,
> {
    if s.len() < 4 {
        Err(HelperError::Truncated)
    } else {
        let size = be_u32(s.subrange(0, 4));
        if expected is Some && expected->0 != size {
            Err(HelperError::UnexpectedSize { found: size })
        } else if s.len() < 8 + size {
            Err(HelperError::Truncated)
        } else {
            let trailing = be_u32(s.subrange(4 + size, 8 + size));
            if trailing != size {
                Err(HelperError::SizeMismatch { leading: size, trailing })
            } else {
                Ok((s.subrange(4, 4 + size), s.skip(8 + size)))
            }
        }
    }
}

/// The bytes of the record that frames `payload`.
pub open spec fn spec_encode_record(payload: Seq<u8>) -> Seq<u8>
    recommends
        payload.len() <= u32::MAX,
{
    be_bytes_u32(payload.len() as u32) + payload + be_bytes_u32(payload.len() as u32)
}

/// An optional size as a natural number.
pub open spec fn size_as_nat(size: Option<usize>) -> Option<nat> {
    match size {
        Some(n) => Some(n as nat),
        None => None,
    }
}

/// The payload size that the next record declares, and the input behind
/// that declaration. Nothing is consumed.
pub fn peek_record<'a>(input: &'a [u8]) -> (r: Result<(&'a [u8], usize), HelperError>)
    ensures
        input@.len() < 4 ==> r == Err::<(&[u8], usize), HelperError>(HelperError::Truncated),
        input@.len() >= 4 ==> (r matches Ok((rest, size)) && rest@ == input@.skip(4) && size
            == be_u32(input@.subrange(0, 4))),
{
    let n: usize = input.len();
    if n < 4 {
        return Err(HelperError::Truncated);
    }
    let size: u32 = <u32 as FromBeBytes<4>>::from_be_bytes(&input[0..4]);
    Ok((&input[4..n], size as usize))
}

/// Reads one record from the front of `input` and returns its payload.
///
/// On success `input` is left behind the record. On an error nothing is
/// consumed.
pub fn parse_record<'a>(input: &mut &'a [u8], expected_size: Option<usize>) -> (r: Result<
    &'a [u8],
    HelperError,
>)
    ensures
        match spec_record(old(input)@, size_as_nat(expected_size)) {
            Ok((payload, rest)) => r matches Ok(data) && data@ == payload && final(input)@ == rest,
            Err(e) => r == Err::<&[u8], HelperError>(e) && final(input)@ == old(input)@,
        },
{
    let data: &'a [u8] = *input;
    let n: usize = data.len();
    if n < 4 {
        return Err(HelperError::Truncated);
    }
    let size: u32 = <u32 as FromBeBytes<4>>::from_be_bytes(&data[0..4]);
    let len: usize = size as usize;
    if let Some(expected) = expected_size {
        if expected != len {
            return Err(HelperError::UnexpectedSize { found: size });
        }
    }
    if n - 4 < len || n - 4 - len < 4 {
        return Err(HelperError::Truncated);
    }
    let trailing: u32 = <u32 as FromBeBytes<4>>::from_be_bytes(
        &data[4 + len..8 + len],
    );
    if trailing != size {
        return Err(HelperError::SizeMismatch { leading: size, trailing });
    }
    let payload: &'a [u8] = &data[4..4 + len];
    *input = &data[8 + len..n];
    Ok(payload)
}

/// What reading one scalar of `N` bytes gives: the value and the bytes that
/// follow its record.
pub open spec fn spec_scalar<T: FromBeBytes<N>, const N: usize>(s: Seq<u8>) -> Result<
    (T, Seq<u8>),
    HelperError,
> {
    match spec_record(s, Some(N as nat)) {
        Ok((payload, rest)) => Ok((T::spec_from_be_bytes(payload), rest)),
        Err(e) => Err(e),
    }
}

/// The `len` values of `N` bytes each that `payload` holds one after another.
pub open spec fn spec_chunks<T: FromBeBytes<N>, const N: usize>(payload: Seq<u8>, len: nat) -> Seq<T> {
    Seq::new(len, |i: int| T::spec_from_be_bytes(payload.subrange(N * i, N * i + N)))
}

/// What reading one array of `len` values of `N` bytes each gives: the values
/// and the bytes that follow the record.
pub open spec fn spec_vec<T: FromBeBytes<N>, const N: usize>(s: Seq<u8>, len: nat) -> Result<
    (Seq<T>, Seq<u8>),
    HelperError,
> {
    match spec_record(s, Some((N * len) as nat)) {
        Ok((payload, rest)) => Ok((spec_chunks::<T, N>(payload, len), rest)),
        Err(e) => Err(e),
    }
}

/// Reads a record that holds one `u32` (`N` = 4) or one double (`N` = 8).
pub fn parse_scalar<T, const N: usize>(input: &mut &[u8]) -> (r: Result<T, HelperError>) where
    T: FromBeBytes<N>,

    ensures
        match spec_scalar::<T, N>(old(input)@) {
            Ok((value, rest)) => r == Ok::<T, HelperError>(value) && final(input)@ == rest,
            Err(e) => r == Err::<T, HelperError>(e) && final(input)@ == old(input)@,
        },
{
    match parse_record(input, Some(N)) {
        Ok(data) => Ok(T::from_be_bytes(data)),
        Err(e) => Err(e),
    }
}

/// Reads a record that holds `len` values of `N` bytes each.
pub fn parse_vec<T, const N: usize>(input: &mut &[u8], len: usize) -> (r: Result<
    Vec<T>,
    HelperError,
>) where T: FromBeBytes<N>
    requires
        N > 0,
    ensures
        match spec_vec::<T, N>(old(input)@, len as nat) {
            Ok((values, rest)) => r matches Ok(v) && v@ == values && final(input)@ == rest,
            Err(e) => r == Err::<Vec<T>, HelperError>(e) && final(input)@ == old(input)@,
        },
{
    if len > (u32::MAX as usize) / N {
        // No record can declare that many bytes.
        assert(N * len > u32::MAX) by (nonlinear_arith)
            requires
                N > 0,
                len > (u32::MAX as usize) / N,
        ;
        return match peek_record(*input) {
            Ok((_, size)) => Err(HelperError::UnexpectedSize { found: size as u32 }),
            Err(e) => Err(e),
        };
    }
    assert(N * len <= u32::MAX) by (nonlinear_arith)
        requires
            N > 0,
            len <= (u32::MAX as usize) / N,
    ;
    let ghost before = input@;
    let data = match parse_record(input, Some(N * len)) {
        Ok(data) => data,
        Err(e) => {
            return Err(e);
        },
    };
    let mut values: Vec<T> = Vec::with_capacity(len);
    let mut i: usize = 0;
    while i < len
        invariant
            N > 0,
            i <= len,
            data@.len() == N * len,
            N * len <= u32::MAX,
            values@ == spec_chunks::<T, N>(data@, i as nat),
        decreases len - i,
    {
        assert(N * i + N <= N * len) by (nonlinear_arith)
            requires
                i < len,
                N > 0,
        ;
        let chunk = &data[N * i..N * i + N];
        values.push(T::from_be_bytes(chunk));
        i += 1;
    }
    Ok(values)
}

/// The bytes of the record that frames `payload`, or `None` where the
/// payload is longer than a marker can declare.
pub fn encode_record(payload: &[u8]) -> (r: Option<Vec<u8>>)
    ensures
        payload@.len() <= u32::MAX ==> (r matches Some(bytes) && bytes@ == spec_encode_record(
            payload@,
        )),
        payload@.len() > u32::MAX ==> r is None,
{
    let n: usize = payload.len();
    if n > u32::MAX as usize {
        return None;
    }
    let size: u32 = n as u32;
    let mut bytes: Vec<u8> = Vec::new();
    push_be_u32(&mut bytes, size);
    let mut i: usize = 0;
    while i < n
        invariant
            i <= n,
            n == payload@.len(),
            bytes@ == be_bytes_u32(size) + payload@.take(i as int),
        decreases n - i,
    {
        bytes.push(payload[i]);
        i += 1;
    }
    assert(payload@.take(n as int) == payload@);
    push_be_u32(&mut bytes, size);
    Some(bytes)
}

/// Appends the four bytes of `v`, highest first.
fn push_be_u32(bytes: &mut Vec<u8>, v: u32)
    ensures
        final(bytes)@ == old(bytes)@ + be_bytes_u32(v),
{
    bytes.push((v / 0x100_0000) as u8);
    bytes.push(((v / 0x1_0000) % 0x100) as u8);
    bytes.push(((v / 0x100) % 0x100) as u8);
    bytes.push((v % 0x100) as u8);
}

/// Decoding the four bytes of a number gives the number, and encoding the
/// number that four bytes spell gives the four bytes.
pub proof fn lemma_be_u32_round_trip(v: u32, b: Seq<u8>)
    requires
        b.len() == 4,
    ensures
        be_u32(be_bytes_u32(v)) == v,
        be_bytes_u32(be_u32(b)) == b,
{
    let x = v as int;
    assert(x == (x / 0x100_0000) * 0x100_0000 + ((x / 0x1_0000) % 0x100) * 0x1_0000 + ((x / 0x100)
        % 0x100) * 0x100 + x % 0x100) by {
        let x1 = x / 0x100;
        let x2 = x1 / 0x100;
        let x3 = x2 / 0x100;
        assert(x == x1 * 0x100 + x % 0x100);
        assert(x1 == x2 * 0x100 + x1 % 0x100);
        assert(x2 == x3 * 0x100 + x2 % 0x100);
        assert(x2 == x / 0x1_0000);
        assert(x3 == x / 0x100_0000);
    }
    let w = be_u32(b) as int;
    let (b0, b1, b2, b3) = (b[0] as int, b[1] as int, b[2] as int, b[3] as int);
    assert(w == b0 * 0x100_0000 + b1 * 0x1_0000 + b2 * 0x100 + b3);
    assert(w % 0x100 == b3);
    assert(w / 0x100 == b0 * 0x1_0000 + b1 * 0x100 + b2);
    assert((w / 0x100) % 0x100 == b2);
    assert(w / 0x1_0000 == b0 * 0x100 + b1);
    assert((w / 0x1_0000) % 0x100 == b1);
    assert(w / 0x100_0000 == b0);
    assert(be_bytes_u32(be_u32(b)) =~= b);
}

/// A framed payload is read back as it was, whatever follows it, both with
/// no size asked for and with its own size asked for.
pub proof fn lemma_record_round_trip(payload: Seq<u8>, rest: Seq<u8>)
    requires
        payload.len() <= u32::MAX,
    ensures
        spec_record(spec_encode_record(payload) + rest, None) == Ok::<
            (Seq<u8>, Seq<u8>),
            HelperError,
        >((payload, rest)),
        spec_record(spec_encode_record(payload) + rest, Some(payload.len())) == Ok::<
            (Seq<u8>, Seq<u8>),
            HelperError,
        >((payload, rest)),
{
    let size = payload.len() as u32;
    let marker = be_bytes_u32(size);
    let s = spec_encode_record(payload) + rest;
    lemma_be_u32_round_trip(size, marker);
    assert(s.subrange(0, 4) =~= marker);
    assert(s.subrange(4 + size, 8 + size) =~= marker);
    assert(s.subrange(4, 4 + size) =~= payload);
    assert(s.skip(8 + size) =~= rest);
}

/// A record whose trailing marker alone was changed is refused with
/// `SizeMismatch`, whatever the new marker is and whatever follows.
pub proof fn lemma_corrupt_trailing_marker(payload: Seq<u8>, marker: Seq<u8>, rest: Seq<u8>)
    requires
        payload.len() <= u32::MAX,
        marker.len() == 4,
        marker != be_bytes_u32(payload.len() as u32),
    ensures
        spec_record(be_bytes_u32(payload.len() as u32) + payload + marker + rest, None) == Err::<
            (Seq<u8>, Seq<u8>),
            HelperError,
        >(HelperError::SizeMismatch { leading: payload.len() as u32, trailing: be_u32(marker) }),
        be_u32(marker) != payload.len(),
{
    let size = payload.len() as u32;
    let leading = be_bytes_u32(size);
    let s = leading + payload + marker + rest;
    lemma_be_u32_round_trip(size, leading);
    lemma_be_u32_round_trip(size, marker);
    assert(s.subrange(0, 4) =~= leading);
    assert(s.subrange(4 + size, 8 + size) =~= marker);
}

/// A stream that ends inside a record is refused with `Truncated`: where a
/// record can be read from `s`, it cannot be read from any shorter prefix of
/// `s` that does not hold all of it.
pub proof fn lemma_truncated_record(s: Seq<u8>, expected: Option<nat>, k: int)
    requires
        spec_record(s, expected) is Ok,
        0 <= k < 8 + spec_record(s, expected)->Ok_0.0.len(),
    ensures
        spec_record(s.take(k), expected) == Err::<(Seq<u8>, Seq<u8>), HelperError>(
            HelperError::Truncated,
        ),
{
    if k >= 4 {
        assert(s.take(k).subrange(0, 4) =~= s.subrange(0, 4));
    }
}

/// What is behind a record that was read is the end of the stream, and a
/// prefix of the stream that holds all of the record gives the same
/// payload, with what is left of the prefix behind it.
pub proof fn lemma_record_in_prefix(s: Seq<u8>, expected: Option<nat>, k: int)
    requires
        spec_record(s, expected) is Ok,
        8 + spec_record(s, expected)->Ok_0.0.len() <= k <= s.len(),
    ensures
        spec_record(s, expected)->Ok_0.1 == s.skip(
            8 + spec_record(s, expected)->Ok_0.0.len() as int,
        ),
        spec_record(s.take(k), expected) == Ok::<(Seq<u8>, Seq<u8>), HelperError>(
            (
                spec_record(s, expected)->Ok_0.0,
                spec_record(s, expected)->Ok_0.1.take(
                    k - 8 - spec_record(s, expected)->Ok_0.0.len(),
                ),
            ),
        ),
{
    let (payload, rest) = spec_record(s, expected)->Ok_0;
    let size = payload.len() as int;
    let t = s.take(k);
    assert(t.subrange(0, 4) =~= s.subrange(0, 4));
    assert(t.subrange(4 + size, 8 + size) =~= s.subrange(4 + size, 8 + size));
    assert(t.subrange(4, 4 + size) =~= payload);
    assert(t.skip(8 + size) =~= rest.take(k - 8 - size));
}

} // verus!
