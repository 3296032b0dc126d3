use castep_dos_core::helper::{
    encode_record, parse_record, parse_scalar, parse_vec, peek_record, HelperError,
};

fn record(payload: &[u8]) -> Vec<u8> {
    let mut bytes = (payload.len() as u32).to_be_bytes().to_vec();
    bytes.extend_from_slice(payload);
    bytes.extend_from_slice(&(payload.len() as u32).to_be_bytes());
    bytes
}

#[test]
fn encode_record_frames_the_payload() {
    assert_eq!(encode_record(&[0xAA, 0xBB, 0xCC]), Some(vec![0, 0, 0, 3, 0xAA, 0xBB, 0xCC, 0, 0, 0, 3]));
    assert_eq!(encode_record(&[]), Some(vec![0, 0, 0, 0, 0, 0, 0, 0]));
}

#[test]
fn encode_record_writes_the_size_highest_byte_first() {
    let payload = vec![7u8; 0x0102];
    let bytes = encode_record(&payload).unwrap();
    assert_eq!(&bytes[0..4], &[0, 0, 1, 2]);
    assert_eq!(&bytes[bytes.len() - 4..], &[0, 0, 1, 2]);
    assert_eq!(bytes.len(), 0x0102 + 8);
}

#[test]
fn record_round_trips() {
    for payload in [vec![], vec![1u8], vec![1, 2, 3, 4, 5], vec![0xFF; 300]] {
        let mut stream = encode_record(&payload).unwrap();
        stream.extend_from_slice(&[9, 9, 9]);
        let mut input: &[u8] = &stream;
        let data = parse_record(&mut input, None).unwrap();
        assert_eq!(data, &payload[..]);
        assert_eq!(input, &[9, 9, 9]);

        let mut input: &[u8] = &stream;
        let data = parse_record(&mut input, Some(payload.len())).unwrap();
        assert_eq!(data, &payload[..]);
        assert_eq!(input, &[9, 9, 9]);
    }
}

#[test]
fn corrupt_trailing_marker_is_a_size_mismatch() {
    let payload = [1u8, 2, 3, 4, 5];
    let good = encode_record(&payload).unwrap();
    for wrong in [0u32, 4, 6, 0x0500_0000, u32::MAX] {
        let mut stream = good.clone();
        let at = stream.len() - 4;
        stream[at..].copy_from_slice(&wrong.to_be_bytes());
        let mut input: &[u8] = &stream;
        assert_eq!(
            parse_record(&mut input, None),
            Err(HelperError::SizeMismatch { leading: 5, trailing: wrong })
        );
        assert_eq!(input, &stream[..]);
    }
}

#[test]
fn truncated_record_is_truncated_at_every_cut() {
    let stream = encode_record(&[1u8, 2, 3, 4, 5, 6]).unwrap();
    for cut in 0..stream.len() {
        let mut input: &[u8] = &stream[..cut];
        assert_eq!(parse_record(&mut input, None), Err(HelperError::Truncated));
        assert_eq!(input, &stream[..cut]);
        let mut input: &[u8] = &stream[..cut];
        assert_eq!(parse_record(&mut input, Some(6)), Err(HelperError::Truncated));
    }
}

#[test]
fn unexpected_size_is_told_before_the_payload_is_read() {
    let stream = record(&[1, 2, 3, 4]);
    let mut input: &[u8] = &stream;
    assert_eq!(parse_record(&mut input, Some(8)), Err(HelperError::UnexpectedSize { found: 4 }));
    assert_eq!(input, &stream[..]);
    // the declared size is looked at even when the payload is missing
    let mut input: &[u8] = &stream[..5];
    assert_eq!(parse_record(&mut input, Some(8)), Err(HelperError::UnexpectedSize { found: 4 }));
}

#[test]
fn peek_record_consumes_nothing() {
    let stream = record(&[1, 2, 3]);
    let input: &[u8] = &stream;
    let (rest, size) = peek_record(input).unwrap();
    assert_eq!(size, 3);
    assert_eq!(rest, &stream[4..]);
    assert_eq!(input, &stream[..]);
    let short: &[u8] = &stream[..3];
    assert_eq!(peek_record(short), Err(HelperError::Truncated));
}

#[test]
fn scalar_u32_is_big_endian() {
    let stream = record(&[0x01, 0x02, 0x03, 0x04]);
    let mut input: &[u8] = &stream;
    assert_eq!(parse_scalar::<u32, 4>(&mut input), Ok(0x0102_0304));
    assert!(input.is_empty());
}

#[test]
fn scalar_double_keeps_every_bit() {
    for value in [1.0f64, -2.5, 0.1, f64::MIN_POSITIVE, f64::INFINITY, -0.0] {
        let stream = record(&value.to_be_bytes());
        let mut input: &[u8] = &stream;
        let bits = parse_scalar::<u64, 8>(&mut input).unwrap();
        assert_eq!(bits, value.to_bits());
        assert_eq!(f64::from_bits(bits).to_bits(), value.to_bits());
    }
}

#[test]
fn scalar_of_wrong_width_is_refused() {
    let stream = record(&[0, 0, 0, 1]);
    let mut input: &[u8] = &stream;
    assert_eq!(parse_scalar::<u64, 8>(&mut input), Err(HelperError::UnexpectedSize { found: 4 }));
    assert_eq!(input, &stream[..]);
}

#[test]
fn vec_u32_reads_each_chunk() {
    let stream = record(&[0, 0, 0, 1, 0, 0, 1, 0, 0xFF, 0xFF, 0xFF, 0xFF]);
    let mut input: &[u8] = &stream;
    assert_eq!(parse_vec::<u32, 4>(&mut input, 3), Ok(vec![1, 256, u32::MAX]));
    assert!(input.is_empty());
}

#[test]
fn vec_doubles_reads_each_chunk() {
    let values = [0.25f64, -1.5, 3.0];
    let mut payload = Vec::new();
    for v in values {
        payload.extend_from_slice(&v.to_be_bytes());
    }
    let mut stream = record(&payload);
    stream.push(0x77);
    let mut input: &[u8] = &stream;
    let bits = parse_vec::<u64, 8>(&mut input, 3).unwrap();
    assert_eq!(bits, values.iter().map(|v| v.to_bits()).collect::<Vec<u64>>());
    assert_eq!(input, &[0x77]);
}

#[test]
fn vec_of_no_values_is_an_empty_record() {
    let stream = record(&[]);
    let mut input: &[u8] = &stream;
    assert_eq!(parse_vec::<u32, 4>(&mut input, 0), Ok(vec![]));
    assert!(input.is_empty());
}

#[test]
fn vec_with_wrong_count_is_refused() {
    let stream = record(&[0; 8]);
    let mut input: &[u8] = &stream;
    assert_eq!(parse_vec::<u32, 4>(&mut input, 3), Err(HelperError::UnexpectedSize { found: 8 }));
    assert_eq!(input, &stream[..]);
}

#[test]
fn vec_longer_than_any_record_is_refused() {
    let stream = record(&[0; 8]);
    let mut input: &[u8] = &stream;
    assert_eq!(
        parse_vec::<u64, 8>(&mut input, usize::MAX / 4),
        Err(HelperError::UnexpectedSize { found: 8 })
    );
    let mut input: &[u8] = &stream[..2];
    assert_eq!(parse_vec::<u64, 8>(&mut input, usize::MAX / 4), Err(HelperError::Truncated));
}

#[test]
fn helper_error_messages_differ() {
    let a = HelperError::Truncated.message();
    let b = HelperError::UnexpectedSize { found: 1 }.message();
    let c = HelperError::SizeMismatch { leading: 1, trailing: 2 }.message();
    assert_ne!(a, b);
    assert_ne!(b, c);
    assert_ne!(a, c);
}
