use castep_dos_core::fundamental::{
    AngularMomentum, EigenvalueVec, KpointVec, OrbitalState, OrbitalWeight, OrbitalWeightVec,
    PDOSWeights, SpinData, SpinIndex, SpinPolarized,
};
use castep_dos_core::pdos_weights_parser::parse_pdos_weight_file;
use castep_dos_core::projectors::{
    extract_selections, AngularIndices, ChannelWeights, Mapping, PDOSConfig, ProjectionError,
    ProjectorConfig, Selection, SpeciesMapping, SpeciesSymbol,
};

fn symbol(s: &str) -> SpeciesSymbol {
    SpeciesSymbol(s.to_string())
}

fn selection(species: &str, atoms: Option<Vec<u32>>) -> Selection {
    Selection { species: symbol(species), atoms }
}

fn table(entries: &[(&str, u32)]) -> SpeciesMapping {
    SpeciesMapping(
        entries.iter().map(|(s, rank)| Mapping { species: symbol(s), rank: *rank }).collect(),
    )
}

fn projector(selections: Option<Vec<Selection>>) -> ProjectorConfig {
    ProjectorConfig { name: None, label: None, selections }
}

fn weights(values: &[f64]) -> OrbitalWeightVec {
    OrbitalWeightVec::new(values.iter().map(|v| OrbitalWeight::new(v.to_bits())).collect())
}

fn sum(bits: &[u64]) -> f64 {
    bits.iter().map(|b| f64::from_bits(*b)).sum()
}

/// Mo (species 2) with ions 1 and 2, S (species 1) with ion 1.
fn states() -> Vec<OrbitalState> {
    vec![
        OrbitalState::new(1, 1, AngularMomentum::S),
        OrbitalState::new(1, 1, AngularMomentum::P),
        OrbitalState::new(2, 1, AngularMomentum::S),
        OrbitalState::new(2, 1, AngularMomentum::P),
        OrbitalState::new(2, 1, AngularMomentum::D),
        OrbitalState::new(2, 2, AngularMomentum::S),
        OrbitalState::new(2, 2, AngularMomentum::D),
        OrbitalState::new(2, 2, AngularMomentum::F),
    ]
}

#[test]
fn species_with_ions_selects_only_those_ions() {
    let map = table(&[("Mo", 2), ("S", 1)]);
    let selected = extract_selections(&[selection("Mo", Some(vec![2]))], &map, &states());
    assert_eq!(selected, Ok(vec![5, 6, 7]));
}

#[test]
fn species_without_ions_selects_all_its_ions() {
    let map = table(&[("Mo", 2), ("S", 1)]);
    let selected = extract_selections(&[selection("Mo", None)], &map, &states());
    assert_eq!(selected, Ok(vec![2, 3, 4, 5, 6, 7]));
}

#[test]
fn selections_are_united_in_the_order_of_the_orbitals() {
    let map = table(&[("Mo", 2), ("S", 1)]);
    let selected = extract_selections(
        &[selection("Mo", Some(vec![2])), selection("S", Some(vec![1]))],
        &map,
        &states(),
    );
    assert_eq!(selected, Ok(vec![0, 1, 5, 6, 7]));
}

#[test]
fn overlapping_selections_select_each_orbital_once() {
    let map = table(&[("Mo", 2), ("S", 1)]);
    let selected = extract_selections(
        &[
            selection("Mo", Some(vec![1, 2, 1])),
            selection("Mo", None),
            selection("Mo", Some(vec![2])),
        ],
        &map,
        &states(),
    );
    assert_eq!(selected, Ok(vec![2, 3, 4, 5, 6, 7]));
}

#[test]
fn no_selection_and_unknown_ions_select_nothing() {
    let map = table(&[("Mo", 2), ("S", 1)]);
    assert_eq!(extract_selections(&[], &map, &states()), Ok(vec![]));
    assert_eq!(extract_selections(&[selection("S", Some(vec![]))], &map, &states()), Ok(vec![]));
    assert_eq!(extract_selections(&[selection("S", Some(vec![9]))], &map, &states()), Ok(vec![]));
}

#[test]
fn unknown_species_is_an_error_that_names_the_selection() {
    let map = table(&[("Mo", 2), ("S", 1)]);
    let list = [selection("Mo", None), selection("Se", Some(vec![])), selection("Te", None)];
    assert_eq!(
        extract_selections(&list, &map, &states()),
        Err(ProjectionError::UnknownSpecies { selection: 1 })
    );
    assert_eq!(
        projector(Some(list.to_vec())).angular_indices(&map, &states()),
        Err(ProjectionError::UnknownSpecies { selection: 1 })
    );
    assert!(!ProjectionError::UnknownSpecies { selection: 1 }.message().is_empty());
}

#[test]
fn species_symbols_are_case_sensitive() {
    let map = table(&[("Mo", 2)]);
    assert_eq!(map.get(&"Mo".to_string()), Some(2));
    assert_eq!(map.get(&"mo".to_string()), None);
    assert_eq!(map.get(&"M".to_string()), None);
}

#[test]
fn later_line_of_the_species_table_counts() {
    let map = table(&[("Mo", 2), ("S", 1), ("Mo", 1)]);
    assert_eq!(map.get(&"Mo".to_string()), Some(1));
    let selected = extract_selections(&[selection("Mo", None)], &map, &states());
    assert_eq!(selected, Ok(vec![0, 1]));
}

#[test]
fn species_mapping_comes_from_the_config() {
    let config = PDOSConfig {
        species_mapping: vec![
            Mapping { species: symbol("Mo"), rank: 2 },
            Mapping { species: symbol("S"), rank: 1 },
        ],
        projectors: vec![],
    };
    let map = config.species_mapping();
    assert_eq!(map.get(&"Mo".to_string()), Some(2));
    assert_eq!(map.get(&"S".to_string()), Some(1));
    assert_eq!(map.get(&"O".to_string()), None);
}

#[test]
fn example_config_selects_two_carbon_ions() {
    let config = PDOSConfig::example();
    assert_eq!(config.species_mapping, vec![Mapping { species: symbol("C"), rank: 1 }]);
    assert_eq!(
        config.projectors,
        vec![ProjectorConfig {
            name: Some("Example".to_string()),
            label: None,
            selections: Some(vec![selection("C", Some(vec![1, 2]))]),
        }]
    );
    let selections = config.projectors[0].selections.as_ref().unwrap();
    assert_eq!(selections[0].species().as_str(), "C");
    assert_eq!(selections[0].atoms(), Some(&vec![1, 2]));
    assert_eq!(selection("C", None).atoms(), None);
}

#[test]
fn config_test_config() {
    // mapping=[{species="Mo", rank=2}, {species="S", rank=1}]
    // one projector: Mo with atoms 1..8, and S with all atoms
    let config = PDOSConfig {
        species_mapping: vec![
            Mapping { species: symbol("Mo"), rank: 2 },
            Mapping { species: symbol("S"), rank: 1 },
        ],
        projectors: vec![ProjectorConfig {
            name: None,
            label: None,
            selections: Some(vec![
                selection("Mo", Some(vec![1, 2, 3, 4, 5, 6, 7, 8])),
                selection("S", None),
            ]),
        }],
    };
    let map = config.species_mapping();
    let groups = config.projectors[0].angular_indices(&map, &states()).unwrap();
    assert_eq!(
        groups,
        AngularIndices { s: vec![0, 2, 5], p: vec![1, 3], d: vec![4, 6], f: vec![7] }
    );
}

#[test]
fn angular_indices_part_the_selected_orbitals() {
    let map = table(&[("Mo", 2), ("S", 1)]);
    let groups =
        projector(Some(vec![selection("Mo", Some(vec![2]))])).angular_indices(&map, &states()).unwrap();
    assert_eq!(groups, AngularIndices { s: vec![5], p: vec![], d: vec![6], f: vec![7] });
}

#[test]
fn projector_without_selections_takes_every_orbital() {
    let map = table(&[]);
    let groups = projector(None).angular_indices(&map, &states()).unwrap();
    assert_eq!(
        groups,
        AngularIndices { s: vec![0, 2, 5], p: vec![1, 3], d: vec![4, 6], f: vec![7] }
    );
}

#[test]
fn all_of_species_one_gives_s_one_and_p_two() {
    // like a file with num_orbitals = 2, one k-point, one band, weights [1.0, 2.0]
    let pdos = PDOSWeights::new(
        SpinPolarized::False,
        vec![
            OrbitalState::new(1, 1, AngularMomentum::S),
            OrbitalState::new(1, 1, AngularMomentum::P),
        ],
        SpinData::NonPolarized(KpointVec::new(vec![EigenvalueVec::new(vec![weights(&[1.0, 2.0])])])),
    );
    let map = table(&[("Si", 1)]);
    let projected = projector(Some(vec![selection("Si", None)]))
        .project_pdos_from_config(&map, &pdos)
        .unwrap();
    match projected {
        SpinData::NonPolarized(channel) => {
            assert_eq!(channel.0.len(), 1);
            assert_eq!(channel.0[0].0.len(), 1);
            let at = &channel.0[0].0[0];
            assert_eq!(
                *at,
                ChannelWeights {
                    s: vec![1.0f64.to_bits()],
                    p: vec![2.0f64.to_bits()],
                    d: vec![],
                    f: vec![],
                }
            );
            assert_eq!((sum(&at.s), sum(&at.p), sum(&at.d), sum(&at.f)), (1.0, 2.0, 0.0, 0.0));
        }
        SpinData::SpinPolarized(_) => panic!("one spin was given"),
    }
}

#[test]
fn parsed_file_is_projected() {
    fn record(payload: &[u8]) -> Vec<u8> {
        let mut bytes = (payload.len() as u32).to_be_bytes().to_vec();
        bytes.extend_from_slice(payload);
        bytes.extend_from_slice(&(payload.len() as u32).to_be_bytes());
        bytes
    }
    fn u32s(values: &[u32]) -> Vec<u8> {
        record(&values.iter().flat_map(|v| v.to_be_bytes()).collect::<Vec<u8>>())
    }
    fn f64s(values: &[f64]) -> Vec<u8> {
        record(&values.iter().flat_map(|v| v.to_be_bytes()).collect::<Vec<u8>>())
    }
    let mut bytes = Vec::new();
    for v in [1u32, 1, 2, 1] {
        bytes.extend(u32s(&[v]));
    }
    bytes.extend(u32s(&[1, 1]));
    bytes.extend(u32s(&[1, 1]));
    bytes.extend(u32s(&[0, 1]));
    let mut kpoint = 1u32.to_be_bytes().to_vec();
    kpoint.extend([0.0f64; 3].iter().flat_map(|v| v.to_be_bytes()));
    bytes.extend(record(&kpoint));
    bytes.extend(u32s(&[1]));
    bytes.extend(u32s(&[1]));
    bytes.extend(f64s(&[1.0, 2.0]));
    let mut input: &[u8] = &bytes;
    let pdos = parse_pdos_weight_file(&mut input).unwrap();
    let map = table(&[("Si", 1)]);
    let projected = projector(Some(vec![selection("Si", None)]))
        .project_pdos_from_config(&map, &pdos)
        .unwrap();
    match projected {
        SpinData::NonPolarized(channel) => {
            let at = &channel.0[0].0[0];
            assert_eq!((sum(&at.s), sum(&at.p), sum(&at.d), sum(&at.f)), (1.0, 2.0, 0.0, 0.0));
        }
        SpinData::SpinPolarized(_) => panic!("one spin was written"),
    }
}

#[test]
fn projection_keeps_the_shape_of_both_spin_channels() {
    let pdos = PDOSWeights::new(
        SpinPolarized::True,
        vec![
            OrbitalState::new(1, 1, AngularMomentum::D),
            OrbitalState::new(1, 2, AngularMomentum::D),
            OrbitalState::new(2, 1, AngularMomentum::F),
        ],
        SpinData::SpinPolarized([
            KpointVec::new(vec![
                EigenvalueVec::new(vec![weights(&[0.1, 0.2, 0.3]), weights(&[0.4, 0.5, 0.6])]),
                EigenvalueVec::new(vec![]),
            ]),
            KpointVec::new(vec![
                EigenvalueVec::new(vec![weights(&[0.7, 0.8, 0.9])]),
                EigenvalueVec::new(vec![weights(&[1.0, 1.1, 1.2])]),
            ]),
        ]),
    );
    let map = table(&[("A", 1), ("B", 2)]);
    let projected = projector(None).project_pdos_from_config(&map, &pdos).unwrap();
    let d = |a: f64, b: f64, f: f64| ChannelWeights {
        s: vec![],
        p: vec![],
        d: vec![a.to_bits(), b.to_bits()],
        f: vec![f.to_bits()],
    };
    assert_eq!(
        projected,
        SpinData::SpinPolarized([
            KpointVec::new(vec![
                EigenvalueVec::new(vec![d(0.1, 0.2, 0.3), d(0.4, 0.5, 0.6)]),
                EigenvalueVec::new(vec![]),
            ]),
            KpointVec::new(vec![
                EigenvalueVec::new(vec![d(0.7, 0.8, 0.9)]),
                EigenvalueVec::new(vec![d(1.0, 1.1, 1.2)]),
            ]),
        ])
    );
    let unknown = projector(Some(vec![selection("C", None)])).project_pdos_from_config(&map, &pdos);
    assert_eq!(unknown, Err(ProjectionError::UnknownSpecies { selection: 0 }));
}

fn sum_weights_per_eigenvalue(indices: &[usize], weights: &OrbitalWeightVec) -> f64 {
    indices.iter().map(|&idx| f64::from_bits(weights[idx].value())).sum()
}

#[test]
fn defined_types() {
    let w = |v: f64| OrbitalWeight::new(v.to_bits());
    let pdos_weights = PDOSWeights {
        spin_polarized: SpinPolarized::True,
        orbital_states: vec![OrbitalState::new(1, 1, AngularMomentum::S)],
        orbital_weights: SpinData::SpinPolarized([
            KpointVec::new(vec![EigenvalueVec::new(vec![
                OrbitalWeightVec::new(vec![w(0.1), w(0.2)]),
                OrbitalWeightVec::new(vec![w(0.3), w(0.4)]),
            ])]),
            KpointVec::new(vec![EigenvalueVec::new(vec![
                OrbitalWeightVec::new(vec![w(0.5), w(0.6)]),
                OrbitalWeightVec::new(vec![w(0.7), w(0.8)]),
            ])]),
        ]),
    };

    // Access patterns - direct and intuitive
    let first_kpoint = &pdos_weights.orbital_weights.get(SpinIndex::One).unwrap()[0];
    let first_eigenvalue = &first_kpoint[0];
    let first_orbital = first_eigenvalue[0].value();
    assert_eq!(f64::from_bits(first_orbital), 0.1);

    // Iteration - using Deref to Vec
    for kpoint_data in pdos_weights.orbital_weights.get(SpinIndex::One).unwrap().iter() {
        for eigenvalue_data in kpoint_data.iter() {
            for orbital_weight in eigenvalue_data.iter() {
                println!("Weight: {}", f64::from_bits(orbital_weight.value()));
            }
        }
    }
    // Iteration - using Deref to Vec
    pdos_weights
        .orbital_weights
        .get(SpinIndex::One)
        .map(|spin_channel| {
            spin_channel.iter().for_each(|kpt_data| {
                kpt_data.iter().for_each(|eigen_data| {
                    eigen_data
                        .iter()
                        .for_each(|weight| println!("Weight: {}", f64::from_bits(weight.value())));
                });
            });
        })
        .unwrap();

    let indices = vec![0_usize, 1_usize];
    // Functional transformation
    let summed = pdos_weights
        .orbital_weights
        .map_on_data_of_eigenvalue(|w| sum_weights_per_eigenvalue(&indices, w));
    match summed {
        SpinData::SpinPolarized(pair) => {
            assert_eq!(pair[0][0].len(), 2);
            assert!((pair[0][0][0] - 0.3).abs() < 1e-12);
            assert!((pair[0][0][1] - 0.7).abs() < 1e-12);
            assert!((pair[1][0][0] - 1.1).abs() < 1e-12);
            assert!((pair[1][0][1] - 1.5).abs() < 1e-12);
        }
        SpinData::NonPolarized(_) => panic!("two spins were given"),
    }
}
