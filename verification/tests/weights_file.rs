use castep_dos_core::fundamental::{
    AngularMomentum, AngularMomentumConvertError, Header, NumSpins, NumSpinsConvertError,
    OrbitalState, OrbitalWeight, SpinData, SpinIndex, SpinIndexConvertError, SpinPolarized,
};
use castep_dos_core::helper::HelperError;
use castep_dos_core::pdos_weights_parser::{
    parse_header, parse_kpoint, parse_pdos_weight, parse_pdos_weight_file, parse_weight_per_spin,
    ParsingError, ParsingStage,
};

fn record(payload: &[u8]) -> Vec<u8> {
    let mut bytes = (payload.len() as u32).to_be_bytes().to_vec();
    bytes.extend_from_slice(payload);
    bytes.extend_from_slice(&(payload.len() as u32).to_be_bytes());
    bytes
}

fn u32_record(v: u32) -> Vec<u8> {
    record(&v.to_be_bytes())
}

fn u32s_record(values: &[u32]) -> Vec<u8> {
    let mut payload = Vec::new();
    for v in values {
        payload.extend_from_slice(&v.to_be_bytes());
    }
    record(&payload)
}

fn f64s_record(values: &[f64]) -> Vec<u8> {
    let mut payload = Vec::new();
    for v in values {
        payload.extend_from_slice(&v.to_be_bytes());
    }
    record(&payload)
}

fn header_bytes(kpoints: u32, spins: u32, species: &[u32], ions: &[u32], am: &[u32]) -> Vec<u8> {
    let mut bytes = Vec::new();
    bytes.extend(u32_record(kpoints));
    bytes.extend(u32_record(spins));
    bytes.extend(u32_record(species.len() as u32));
    bytes.extend(u32_record(17));
    bytes.extend(u32s_record(species));
    bytes.extend(u32s_record(ions));
    bytes.extend(u32s_record(am));
    bytes
}

fn kpoint_record(index: u32, k: [f64; 3]) -> Vec<u8> {
    let mut payload = index.to_be_bytes().to_vec();
    for c in k {
        payload.extend_from_slice(&c.to_be_bytes());
    }
    record(&payload)
}

fn spin_block(index: u32, bands: &[Vec<f64>]) -> Vec<u8> {
    let mut bytes = u32_record(index);
    bytes.extend(u32_record(bands.len() as u32));
    for band in bands {
        bytes.extend(f64s_record(band));
    }
    bytes
}

fn bits(values: &[f64]) -> Vec<OrbitalWeight> {
    values.iter().map(|v| OrbitalWeight(v.to_bits())).collect()
}

/// One k-point, one band, two orbitals: s and p of ion 1 of species 1.
fn small_file() -> Vec<u8> {
    let mut bytes = header_bytes(1, 1, &[1, 1], &[1, 1], &[0, 1]);
    bytes.extend(kpoint_record(1, [0.0, 0.25, 0.5]));
    bytes.extend(spin_block(1, &[vec![1.0, 2.0]]));
    bytes
}

fn some_header(spins: NumSpins, orbitals: u32) -> Header {
    Header {
        total_kpoints: 1,
        num_spins: spins,
        num_orbitals: orbitals,
        max_bands: 4,
        orbital_species: vec![1; orbitals as usize],
        orbital_ion: vec![1; orbitals as usize],
        orbital_am: vec![AngularMomentum::S; orbitals as usize],
    }
}

#[test]
fn header_is_read_field_by_field() {
    let mut bytes = header_bytes(3, 2, &[1, 1, 2], &[1, 2, 1], &[0, 1, 3]);
    bytes.push(0xEE);
    let mut input: &[u8] = &bytes;
    let header = parse_header(&mut input).unwrap();
    assert_eq!(header.total_kpoints, 3);
    assert_eq!(header.num_spins, NumSpins::Two);
    assert_eq!(header.num_orbitals, 3);
    assert_eq!(header.max_bands, 17);
    assert_eq!(header.orbital_species, vec![1, 1, 2]);
    assert_eq!(header.orbital_ion, vec![1, 2, 1]);
    assert_eq!(
        header.orbital_am,
        vec![AngularMomentum::S, AngularMomentum::P, AngularMomentum::F]
    );
    assert_eq!(input, &[0xEE]);
    assert_eq!(header.spin_polarized(), SpinPolarized::True);
}

#[test]
fn header_with_three_spins_is_refused() {
    let bytes = header_bytes(1, 3, &[1], &[1], &[0]);
    let mut input: &[u8] = &bytes;
    let error = parse_header(&mut input).unwrap_err();
    assert_eq!(error, ParsingError::NumSpins(NumSpinsConvertError));
    assert_eq!(error.stage(), ParsingStage::Header);
    assert_eq!(input, &bytes[..]);
}

#[test]
fn header_with_unknown_angular_momentum_names_the_first_bad_code() {
    let bytes = header_bytes(1, 1, &[1, 1, 1], &[1, 1, 1], &[0, 7, 9]);
    let mut input: &[u8] = &bytes;
    let error = parse_header(&mut input).unwrap_err();
    assert_eq!(error, ParsingError::AngularMomentum(AngularMomentumConvertError(7)));
    assert_eq!(error.stage(), ParsingStage::OrbitalMetadata);
    assert_eq!(input, &bytes[..]);
}

#[test]
fn header_with_short_orbital_list_fails_in_the_orbital_metadata() {
    let mut bytes = Vec::new();
    bytes.extend(u32_record(1));
    bytes.extend(u32_record(1));
    bytes.extend(u32_record(2));
    bytes.extend(u32_record(4));
    bytes.extend(u32s_record(&[1, 1]));
    bytes.extend(u32s_record(&[1]));
    let mut input: &[u8] = &bytes;
    assert_eq!(
        parse_header(&mut input),
        Err(ParsingError::HelperError {
            stage: ParsingStage::OrbitalMetadata,
            source: HelperError::UnexpectedSize { found: 4 },
        })
    );
}

#[test]
fn header_cut_short_is_truncated_in_the_header() {
    let bytes = header_bytes(1, 1, &[1], &[1], &[0]);
    let mut input: &[u8] = &bytes[..30];
    let error = parse_header(&mut input).unwrap_err();
    assert_eq!(
        error,
        ParsingError::HelperError { stage: ParsingStage::Header, source: HelperError::Truncated }
    );
    assert_eq!(error.stage(), ParsingStage::Header);
}

#[test]
fn spin_block_is_read_band_by_band() {
    let header = some_header(NumSpins::One, 2);
    let mut bytes = spin_block(2, &[vec![0.5, 1.5], vec![2.5, 3.5]]);
    bytes.push(1);
    let mut input: &[u8] = &bytes;
    let spin = parse_weight_per_spin(&mut input, &header).unwrap();
    assert_eq!(spin.index, SpinIndex::Two);
    assert_eq!(spin.nbands_occ, 2);
    assert_eq!(spin.bands.len(), 2);
    assert_eq!(spin.bands[0].weights, vec![0.5f64.to_bits(), 1.5f64.to_bits()]);
    assert_eq!(spin.bands[1].weights, vec![2.5f64.to_bits(), 3.5f64.to_bits()]);
    assert_eq!(input, &[1]);
}

#[test]
fn spin_block_with_index_zero_is_refused() {
    let header = some_header(NumSpins::One, 1);
    let bytes = spin_block(0, &[vec![0.5]]);
    let mut input: &[u8] = &bytes;
    let error = parse_weight_per_spin(&mut input, &header).unwrap_err();
    assert_eq!(error, ParsingError::SpinIndex(SpinIndexConvertError));
    assert_eq!(error.stage(), ParsingStage::SpinBlock);
    assert_eq!(input, &bytes[..]);
}

#[test]
fn spin_block_with_a_band_of_wrong_width_is_refused() {
    let header = some_header(NumSpins::One, 3);
    let bytes = spin_block(1, &[vec![0.5, 1.5, 2.5], vec![0.5, 1.5]]);
    let mut input: &[u8] = &bytes;
    assert_eq!(
        parse_weight_per_spin(&mut input, &header),
        Err(ParsingError::HelperError {
            stage: ParsingStage::SpinBlock,
            source: HelperError::UnexpectedSize { found: 16 },
        })
    );
    assert_eq!(input, &bytes[..]);
}

#[test]
fn kpoint_block_holds_index_coordinates_and_spins() {
    let header = some_header(NumSpins::Two, 1);
    let mut bytes = kpoint_record(5, [0.125, -0.25, 0.5]);
    bytes.extend(spin_block(1, &[vec![0.5]]));
    bytes.extend(spin_block(2, &[vec![1.5], vec![2.5]]));
    let mut input: &[u8] = &bytes;
    let kpoint = parse_kpoint(&mut input, &header).unwrap();
    assert_eq!(kpoint.index, 5);
    assert_eq!(kpoint.kpoint, [0.125f64.to_bits(), (-0.25f64).to_bits(), 0.5f64.to_bits()]);
    assert_eq!(kpoint.spins.len(), 2);
    assert_eq!(kpoint.spins[0].index, SpinIndex::One);
    assert_eq!(kpoint.spins[1].index, SpinIndex::Two);
    assert_eq!(kpoint.spins[1].bands.len(), 2);
    assert!(input.is_empty());
}

#[test]
fn kpoint_record_of_wrong_size_fails_at_the_kpoint_index() {
    let header = some_header(NumSpins::One, 1);
    let bytes = record(&[0u8; 36]);
    let mut input: &[u8] = &bytes;
    let error = parse_kpoint(&mut input, &header).unwrap_err();
    assert_eq!(
        error,
        ParsingError::HelperError {
            stage: ParsingStage::KpointIndex,
            source: HelperError::UnexpectedSize { found: 36 },
        }
    );
    assert_eq!(error.stage(), ParsingStage::KpointIndex);
}

#[test]
fn small_file_is_parsed() {
    let bytes = small_file();
    let mut input: &[u8] = &bytes;
    let weights = parse_pdos_weight(&mut input).unwrap();
    assert!(input.is_empty());
    assert_eq!(weights.spin_polarized, SpinPolarized::False);
    assert_eq!(
        weights.orbital_states,
        vec![
            OrbitalState::new(1, 1, AngularMomentum::S),
            OrbitalState::new(1, 1, AngularMomentum::P),
        ]
    );
    match &weights.orbital_weights {
        SpinData::NonPolarized(channel) => {
            assert_eq!(channel.0.len(), 1);
            assert_eq!(channel.0[0].0.len(), 1);
            assert_eq!(channel.0[0].0[0].0, bits(&[1.0, 2.0]));
        }
        SpinData::SpinPolarized(_) => panic!("one spin was written"),
    }
}

#[test]
fn version_prefixed_file_is_parsed_like_the_plain_one() {
    let plain = small_file();
    let mut prefixed = f64s_record(&[1.0]);
    prefixed.extend(record(b"CASTEP version 25.1, generated some day"));
    prefixed.extend(&plain);
    let mut a: &[u8] = &plain;
    let mut b: &[u8] = &prefixed;
    let from_plain = parse_pdos_weight_file(&mut a).unwrap();
    let from_prefixed = parse_pdos_weight_file(&mut b).unwrap();
    assert_eq!(from_plain, from_prefixed);
    assert!(a.is_empty());
    assert!(b.is_empty());
}

#[test]
fn version_prefixed_file_without_its_description_fails_in_the_header() {
    let mut bytes = f64s_record(&[1.0]);
    bytes.extend(&[0, 0, 0, 9, 1, 2]);
    let mut input: &[u8] = &bytes;
    assert_eq!(
        parse_pdos_weight_file(&mut input),
        Err(ParsingError::HelperError { stage: ParsingStage::Header, source: HelperError::Truncated })
    );
    assert_eq!(input, &bytes[..]);
}

#[test]
fn spin_polarized_file_puts_first_block_up_and_second_down() {
    let mut bytes = header_bytes(2, 2, &[1], &[1], &[2]);
    // the blocks number themselves 2 then 1: their place decides, not their number
    bytes.extend(kpoint_record(1, [0.0, 0.0, 0.0]));
    bytes.extend(spin_block(2, &[vec![0.1], vec![0.2]]));
    bytes.extend(spin_block(1, &[vec![0.3]]));
    bytes.extend(kpoint_record(2, [0.5, 0.0, 0.0]));
    bytes.extend(spin_block(1, &[vec![0.4]]));
    bytes.extend(spin_block(2, &[vec![0.5], vec![0.6]]));
    let mut input: &[u8] = &bytes;
    let weights = parse_pdos_weight_file(&mut input).unwrap();
    assert_eq!(weights.spin_polarized, SpinPolarized::True);
    match &weights.orbital_weights {
        SpinData::SpinPolarized(pair) => {
            let up = &pair[0];
            let down = &pair[1];
            assert_eq!(up.0.len(), 2);
            assert_eq!(down.0.len(), 2);
            assert_eq!(up.0[0].0.len(), 2);
            assert_eq!(up.0[0].0[0].0, bits(&[0.1]));
            assert_eq!(up.0[0].0[1].0, bits(&[0.2]));
            assert_eq!(down.0[0].0.len(), 1);
            assert_eq!(down.0[0].0[0].0, bits(&[0.3]));
            assert_eq!(up.0[1].0[0].0, bits(&[0.4]));
            assert_eq!(down.0[1].0[1].0, bits(&[0.6]));
        }
        SpinData::NonPolarized(_) => panic!("two spins were written"),
    }
}

#[test]
fn negative_weights_are_kept_as_zero() {
    let mut bytes = header_bytes(1, 1, &[1, 1, 1, 1], &[1, 1, 1, 1], &[0, 0, 0, 0]);
    bytes.extend(kpoint_record(1, [0.0, 0.0, 0.0]));
    bytes.extend(spin_block(1, &[vec![-0.0000005, 0.3, -4.0, 0.0]]));
    let mut input: &[u8] = &bytes;
    let weights = parse_pdos_weight_file(&mut input).unwrap();
    match &weights.orbital_weights {
        SpinData::NonPolarized(channel) => {
            assert_eq!(channel.0[0].0[0].0, bits(&[0.0, 0.3, 0.0, 0.0]));
        }
        SpinData::SpinPolarized(_) => panic!("one spin was written"),
    }
}

#[test]
fn file_without_kpoints_has_empty_channels() {
    let bytes = header_bytes(0, 2, &[1], &[1], &[0]);
    let mut input: &[u8] = &bytes;
    let weights = parse_pdos_weight_file(&mut input).unwrap();
    match &weights.orbital_weights {
        SpinData::SpinPolarized(pair) => {
            assert!(pair[0].0.is_empty());
            assert!(pair[1].0.is_empty());
        }
        SpinData::NonPolarized(_) => panic!("two spins were written"),
    }
}

#[test]
fn plain_file_cut_anywhere_is_truncated() {
    let bytes = small_file();
    for cut in 0..bytes.len() {
        let mut input: &[u8] = &bytes[..cut];
        match parse_pdos_weight_file(&mut input) {
            Err(ParsingError::HelperError { source: HelperError::Truncated, .. }) => {}
            other => panic!("cut at {}: {:?}", cut, other),
        }
        assert_eq!(input, &bytes[..cut]);
    }
}

#[test]
fn version_prefixed_file_cut_behind_its_version_is_truncated() {
    let plain = small_file();
    let mut bytes = f64s_record(&[1.0]);
    bytes.extend(record(b"CASTEP version 25.1"));
    bytes.extend(&plain);
    for cut in 16..bytes.len() {
        let mut input: &[u8] = &bytes[..cut];
        match parse_pdos_weight_file(&mut input) {
            Err(ParsingError::HelperError { source: HelperError::Truncated, .. }) => {}
            other => panic!("cut at {}: {:?}", cut, other),
        }
        assert_eq!(input, &bytes[..cut]);
    }
    // cut inside the version record, the rest is no longer told from a plain file
    for cut in 4..16 {
        let mut input: &[u8] = &bytes[..cut];
        assert_eq!(
            parse_pdos_weight_file(&mut input),
            Err(ParsingError::HelperError {
                stage: ParsingStage::Header,
                source: HelperError::UnexpectedSize { found: 8 },
            })
        );
    }
}

#[test]
fn file_missing_a_kpoint_is_truncated_at_the_kpoint_index() {
    let mut bytes = header_bytes(2, 1, &[1], &[1], &[0]);
    bytes.extend(kpoint_record(1, [0.0, 0.0, 0.0]));
    bytes.extend(spin_block(1, &[vec![0.5]]));
    let mut input: &[u8] = &bytes;
    assert_eq!(
        parse_pdos_weight_file(&mut input),
        Err(ParsingError::HelperError {
            stage: ParsingStage::KpointIndex,
            source: HelperError::Truncated,
        })
    );
}

#[test]
fn trailing_bytes_are_left_in_the_input() {
    let mut bytes = small_file();
    bytes.extend_from_slice(&[1, 2, 3]);
    let mut input: &[u8] = &bytes;
    parse_pdos_weight_file(&mut input).unwrap();
    assert_eq!(input, &[1, 2, 3]);
}

#[test]
fn orbital_weight_new_clamps_negative_values() {
    assert_eq!(OrbitalWeight::new((-0.0000005f64).to_bits()).value(), 0.0f64.to_bits());
    assert_eq!(OrbitalWeight::new(0.3f64.to_bits()).value(), 0.3f64.to_bits());
    assert_eq!(f64::from_bits(OrbitalWeight::new((-0.0000005f64).to_bits()).value()), 0.0);
    assert_eq!(f64::from_bits(OrbitalWeight::new(0.3f64.to_bits()).value()), 0.3);
}

#[test]
fn orbital_weight_new_agrees_with_the_comparison_of_doubles() {
    let samples = [
        0.0f64,
        -0.0,
        1.0,
        -1.0,
        -1.0e-6,
        -1.0e-7,
        -2.0e-6,
        f64::MIN_POSITIVE,
        -f64::MIN_POSITIVE,
        f64::MAX,
        f64::MIN,
        f64::INFINITY,
        f64::NEG_INFINITY,
        f64::NAN,
        -f64::NAN,
        f64::from_bits(0x8000_0000_0000_0001),
        f64::from_bits(0xfff0_0000_0000_0001),
    ];
    for v in samples {
        let expected = if v < 0.0 { 0.0f64.to_bits() } else { v.to_bits() };
        assert_eq!(OrbitalWeight::new(v.to_bits()).value(), expected, "for {:?}", v);
    }
}
