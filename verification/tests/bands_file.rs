use castep_dos_core::bands::parser::{BandsStage, EigenvaluesPerBand};
use castep_dos_core::bands::{
    BandsParser, BandsParsingError, Eigenvalues, ElectronCount, FermiEnergy, KPoint,
};
use castep_dos_core::fundamental::{Decimal, SpinData, SpinPolarized};

fn dec(text: &str) -> Decimal {
    Decimal::parse(text).unwrap()
}

fn decs(texts: &[&str]) -> Vec<Decimal> {
    texts.iter().map(|t| dec(t)).collect()
}

const HEADER: &str = "Number of k-points   2\n\
Number of spin components 1\n\
Number of electrons  8.000 \n\
Number of eigenvalues      4\n\
Fermi energy (in atomic units)     0.173123\n";

const CELL: &str = "Unit cell vectors\n\
\x20   5.131268    5.131268    0.000000\n\
\x20   0.000000    5.131268    5.131268\n\
\x20   5.131268    0.000000    5.131268\n";

const BLOCKS: &str = "K-point    1  0.00000000  0.00000000  0.00000000  0.25000000\n\
Spin component 1\n\
\x20  -0.21511493\n\
\x20   0.22520137\n\
K-point    2  0.50000000  0.00000000  0.00000000  0.75000000\n\
Spin component 1\n\
\x20  -0.10000000\n\
\x20   0.30000000\n\
\x20   0.4E+00\n";

const POLARIZED: &str = "Number of k-points 1\r\n\
Number of spin components 2\r\n\
Number of electrons  5.000    3.000  \r\n\
Number of eigenvalues      2     1\r\n\
Fermi energies (in atomic units)     0.25 \t-0.125\r\n\
Unit cell vectors\r\n\
\x201.0 0.0 0.0\r\n\
\x200.0 1.0 0.0\r\n\
\x200.0 0.0 1.0\r\n\
K-point 7 0.5 0.5 0.5 1.0\r\n\
Spin component 1\r\n\
\x20-0.5\r\n\
\x200.5\r\n\
Spin component 2\r\n\
\x20-0.25\r\n";

fn whole() -> String {
    format!("{}{}{}", HEADER, CELL, BLOCKS)
}

#[test]
fn non_polarized_file_is_parsed() {
    let text = whole();
    let file = BandsParser::new(&text).parse_bands_file().unwrap();
    assert_eq!(file.spin_polarized, SpinPolarized::False);
    assert_eq!(file.electron_count, ElectronCount::NonPolarized(dec("8.000")));
    assert_eq!(file.fermi_energy, FermiEnergy::NonPolarized(dec("0.173123")));
    assert_eq!(
        file.lattice_vectors,
        [
            [dec("5.131268"), dec("5.131268"), dec("0.000000")],
            [dec("0.000000"), dec("5.131268"), dec("5.131268")],
            [dec("5.131268"), dec("0.000000"), dec("5.131268")],
        ]
    );
    assert_eq!(
        file.kpoints,
        vec![
            KPoint::new(
                1,
                [dec("0.00000000"), dec("0.00000000"), dec("0.00000000")],
                dec("0.25000000")
            ),
            KPoint::new(
                2,
                [dec("0.50000000"), dec("0.00000000"), dec("0.00000000")],
                dec("0.75000000")
            ),
        ]
    );
    assert_eq!(
        file.eigenvalues,
        Eigenvalues::NonPolarized(vec![
            decs(&["-0.21511493", "0.22520137"]),
            decs(&["-0.10000000", "0.30000000", "0.4E+00"]),
        ])
    );
}

#[test]
fn parsed_decimals_read_as_the_numbers_written() {
    let text = whole();
    let file = BandsParser::new(&text).parse_bands_file().unwrap();
    let values: Vec<f64> = match &file.eigenvalues {
        Eigenvalues::NonPolarized(items) => items[1]
            .iter()
            .map(|d| std::str::from_utf8(d.as_bytes()).unwrap().parse::<f64>().unwrap())
            .collect(),
        Eigenvalues::SpinPolarized(_) => panic!("one spin was written"),
    };
    assert_eq!(values, vec![-0.1, 0.3, 0.4]);
}

#[test]
fn polarized_file_is_turned_spin_first() {
    let file = BandsParser::new(POLARIZED).parse_bands_file().unwrap();
    assert_eq!(file.spin_polarized, SpinPolarized::True);
    assert_eq!(file.electron_count, ElectronCount::Polarized(dec("5.000"), dec("3.000")));
    assert_eq!(file.fermi_energy, FermiEnergy::Polarized(dec("0.25"), dec("-0.125")));
    assert_eq!(file.kpoints.len(), 1);
    assert_eq!(file.kpoints[0].index, 7);
    assert_eq!(file.kpoints[0].weight, dec("1.0"));
    assert_eq!(
        file.eigenvalues,
        Eigenvalues::SpinPolarized([vec![decs(&["-0.5", "0.5"])], vec![decs(&["-0.25"])]])
    );
    assert_eq!(file.eigenvalues.as_non_polarized(), None);
    assert_eq!(file.eigenvalues.as_spin_polarized().unwrap()[1], vec![decs(&["-0.25"])]);
}

#[test]
fn band_structure_keeps_weights_fermi_energy_and_eigenvalues() {
    let text = whole();
    let structure = BandsParser::new(&text).parse_bands_file().unwrap().to_band_structure();
    assert_eq!(structure.spin_polarized, SpinPolarized::False);
    assert_eq!(structure.fermi_energy, SpinData::NonPolarized(dec("0.173123")));
    let weights: Vec<Decimal> = structure.kpoint_weights.0.iter().map(|w| w.value().clone()).collect();
    assert_eq!(weights, decs(&["0.25000000", "0.75000000"]));
    match &structure.eigenvalues {
        SpinData::NonPolarized(kpoints) => {
            assert_eq!(kpoints.0.len(), 2);
            assert_eq!(kpoints.0[0].0, decs(&["-0.21511493", "0.22520137"]));
            assert_eq!(kpoints.0[1].0, decs(&["-0.10000000", "0.30000000", "0.4E+00"]));
        }
        SpinData::SpinPolarized(_) => panic!("one spin was written"),
    }
}

#[test]
fn polarized_band_structure_has_two_channels() {
    let structure = BandsParser::new(POLARIZED).parse_bands_file().unwrap().to_band_structure();
    assert_eq!(structure.fermi_energy, SpinData::SpinPolarized([dec("0.25"), dec("-0.125")]));
    match &structure.eigenvalues {
        SpinData::SpinPolarized(pair) => {
            assert_eq!(pair[0].0[0].0, decs(&["-0.5", "0.5"]));
            assert_eq!(pair[1].0[0].0, decs(&["-0.25"]));
        }
        SpinData::NonPolarized(_) => panic!("two spins were written"),
    }
}

#[test]
fn missing_unit_cell_vectors_fails_at_the_lattice_stage() {
    for rest in [BLOCKS, "", "anything at all\n", "Unit cell vector\n 1 2 3\n", " 1.0 2.0 3.0\n"] {
        let text = format!("{}{}", HEADER, rest);
        let error = BandsParser::new(&text).parse_bands_file().unwrap_err();
        assert_eq!(
            error,
            BandsParsingError::Grammar { stage: BandsStage::LatticeVectors, offset: HEADER.len() }
        );
        assert_eq!(error.stage(), BandsStage::LatticeVectors);
    }
}

#[test]
fn short_lattice_block_names_the_line_that_does_not_fit() {
    let text = format!("{}Unit cell vectors\n 1.0 0.0 0.0\n 0.0 1.0\n 0.0 0.0 1.0\n{}", HEADER, BLOCKS);
    let offset = HEADER.len() + "Unit cell vectors\n 1.0 0.0 0.0\n".len();
    assert_eq!(
        BandsParser::new(&text).parse_bands_file(),
        Err(BandsParsingError::Grammar { stage: BandsStage::LatticeVectors, offset })
    );
}

#[test]
fn spin_value_three_is_refused() {
    let text = "Number of k-points 1\nNumber of spin components 3\n";
    let error = BandsParser::new(text).parse_bands_file().unwrap_err();
    assert_eq!(
        error,
        BandsParsingError::Grammar {
            stage: BandsStage::SpinConfig,
            offset: "Number of k-points 1\n".len(),
        }
    );
    assert_eq!(error.message(), "expected spin value 1 or 2");
}

#[test]
fn empty_text_fails_at_the_first_stage() {
    assert_eq!(
        BandsParser::new("").parse_bands_file(),
        Err(BandsParsingError::Grammar { stage: BandsStage::KpointCount, offset: 0 })
    );
}

#[test]
fn wrong_fermi_label_for_the_spin_is_refused() {
    let text = HEADER.replace("Fermi energy", "Fermi energies");
    let offset = HEADER.find("Fermi").unwrap();
    assert_eq!(
        BandsParser::new(&text).parse_bands_file(),
        Err(BandsParsingError::Grammar { stage: BandsStage::FermiEnergy, offset })
    );
}

#[test]
fn electron_count_needs_blanks_behind_the_number() {
    let text = HEADER.replace("8.000 \n", "8.000\n");
    let offset = HEADER.find("Number of electrons").unwrap();
    assert_eq!(
        BandsParser::new(&text).parse_bands_file(),
        Err(BandsParsingError::Grammar { stage: BandsStage::ElectronCount, offset })
    );
}

#[test]
fn eigenvalue_count_must_match_the_spin() {
    let text = HEADER.replace("eigenvalues      4\n", "eigenvalues      4   4\n");
    let offset = HEADER.find("Number of eigenvalues").unwrap();
    assert_eq!(
        BandsParser::new(&text).parse_bands_file(),
        Err(BandsParsingError::Grammar { stage: BandsStage::EigenvalueCount, offset })
    );
}

#[test]
fn file_without_blocks_is_refused() {
    let text = format!("{}{}", HEADER, CELL);
    assert_eq!(
        BandsParser::new(&text).parse_bands_file(),
        Err(BandsParsingError::Grammar { stage: BandsStage::PerKpointBlocks, offset: text.len() })
    );
}

#[test]
fn text_behind_the_last_block_is_refused() {
    let text = format!("{}{}{}\n", HEADER, CELL, BLOCKS);
    let offset = text.len() - 1;
    assert_eq!(
        BandsParser::new(&text).parse_bands_file(),
        Err(BandsParsingError::Grammar { stage: BandsStage::PerKpointBlocks, offset })
    );
}

#[test]
fn spin_block_without_eigenvalues_is_refused() {
    let blocks = "K-point 1 0.0 0.0 0.0 1.0\nSpin component 1\nK-point 2 0.0 0.0 0.0 1.0\n";
    let text = format!("{}{}{}", HEADER, CELL, blocks);
    let offset = HEADER.len() + CELL.len() + "K-point 1 0.0 0.0 0.0 1.0\nSpin component 1\n".len();
    assert_eq!(
        BandsParser::new(&text).parse_bands_file(),
        Err(BandsParsingError::Grammar { stage: BandsStage::PerKpointBlocks, offset })
    );
}

#[test]
fn second_spin_block_in_unpolarized_file_is_refused() {
    let blocks = "K-point 1 0.0 0.0 0.0 1.0\nSpin component 1\n 0.5\nSpin component 2\n 0.5\n";
    let text = format!("{}{}{}", HEADER, CELL, blocks);
    let offset = HEADER.len() + CELL.len() + "K-point 1 0.0 0.0 0.0 1.0\nSpin component 1\n 0.5\n".len();
    assert_eq!(
        BandsParser::new(&text).parse_bands_file(),
        Err(BandsParsingError::Grammar { stage: BandsStage::PerKpointBlocks, offset })
    );
}

#[test]
fn missing_second_spin_block_in_polarized_file_is_refused() {
    let text = POLARIZED.replace("Spin component 2\r\n -0.25\r\n", "");
    assert_eq!(
        BandsParser::new(&text).parse_bands_file(),
        Err(BandsParsingError::Grammar { stage: BandsStage::PerKpointBlocks, offset: text.len() })
    );
}

#[test]
fn kpoint_index_too_large_for_u32_is_refused() {
    let blocks = "K-point 4294967296 0.0 0.0 0.0 1.0\nSpin component 1\n 0.5\n";
    let text = format!("{}{}{}", HEADER, CELL, blocks);
    assert_eq!(
        BandsParser::new(&text).parse_bands_file(),
        Err(BandsParsingError::Grammar {
            stage: BandsStage::PerKpointBlocks,
            offset: HEADER.len() + CELL.len(),
        })
    );
    let blocks = "K-point 4294967295 0.0 0.0 0.0 1.0\nSpin component 1\n 0.5\n";
    let text = format!("{}{}{}", HEADER, CELL, blocks);
    let file = BandsParser::new(&text).parse_bands_file().unwrap();
    assert_eq!(file.kpoints[0].index, 4294967295);
}

#[test]
fn stages_run_one_by_one() {
    let text = whole();
    let mut parser = BandsParser::new(&text);
    assert_eq!(parser.remaining(), text.as_bytes());
    assert_eq!(parser.parse_kpoint_count(), Ok(()));
    assert_eq!(parser.remaining(), &text.as_bytes()["Number of k-points   2\n".len()..]);
    assert_eq!(parser.spin_polarized, None);
    assert_eq!(parser.parse_spin_config(), Ok(()));
    assert_eq!(parser.spin_polarized, Some(SpinPolarized::False));
    assert_eq!(parser.parse_electron_count(), Ok(()));
    assert_eq!(parser.electron_count, Some(ElectronCount::NonPolarized(dec("8.000"))));
    assert_eq!(parser.parse_eigenvalue_count(), Ok(()));
    assert_eq!(parser.parse_fermi_energy(), Ok(()));
    assert_eq!(parser.fermi_energy, Some(FermiEnergy::NonPolarized(dec("0.173123"))));
    assert_eq!(parser.parse_unit_cell_vectors(), Ok(()));
    assert!(parser.lattice_vectors.is_some());
    assert_eq!(parser.parse_band_per_kpoint(), Ok(()));
    assert_eq!(parser.remaining(), b"");
    let blocks = parser.eigens_bands.as_ref().unwrap();
    assert_eq!(blocks.len(), 2);
    assert_eq!(blocks[0].kpoint.index, 1);
    assert_eq!(
        blocks[0].eigen_band,
        EigenvaluesPerBand::NonPolarized(decs(&["-0.21511493", "0.22520137"]))
    );
    assert_eq!(blocks[0].eigen_band.as_non_polarized(), Some(&decs(&["-0.21511493", "0.22520137"])));
    assert_eq!(blocks[0].eigen_band.as_spin_polarized(), None);
}

#[test]
fn input_mut_hands_out_the_whole_text() {
    let text = whole();
    let other = format!("{}{}{}", HEADER.replace("8.000", "6.000"), CELL, BLOCKS);
    let mut parser = BandsParser::new(&text);
    assert_eq!(*parser.input_mut(), text.as_bytes());
    parser.parse_kpoint_count().unwrap();
    parser.parse_spin_config().unwrap();
    // the cursor stays where it is when the text is changed
    *parser.input_mut() = other.as_bytes();
    assert_eq!(parser.remaining(), &other.as_bytes()[other.len() - parser.remaining().len()..]);
    parser.parse_electron_count().unwrap();
    assert_eq!(parser.electron_count, Some(ElectronCount::NonPolarized(dec("6.000"))));
}

#[test]
fn failed_stage_leaves_the_parser_as_it_was() {
    let text = "Number of k-points 2\nNumber of spin components 1\nNumber of protons 8\n";
    let mut parser = BandsParser::new(text);
    parser.parse_kpoint_count().unwrap();
    parser.parse_spin_config().unwrap();
    let before = parser.remaining();
    let error = parser.parse_electron_count().unwrap_err();
    assert_eq!(
        error,
        BandsParsingError::Grammar { stage: BandsStage::ElectronCount, offset: text.len() - before.len() }
    );
    assert_eq!(parser.remaining(), before);
    assert_eq!(parser.electron_count, None);
    // the same stage fails the same way again
    assert_eq!(parser.parse_electron_count(), Err(error));
}

#[test]
fn stages_that_depend_on_the_spin_need_it_set() {
    let text = whole();
    let mut parser = BandsParser::new(&text);
    assert_eq!(
        parser.parse_electron_count(),
        Err(BandsParsingError::SpinConfigMissing { stage: BandsStage::ElectronCount })
    );
    assert_eq!(
        parser.parse_eigenvalue_count(),
        Err(BandsParsingError::SpinConfigMissing { stage: BandsStage::EigenvalueCount })
    );
    assert_eq!(
        parser.parse_fermi_energy(),
        Err(BandsParsingError::SpinConfigMissing { stage: BandsStage::FermiEnergy })
    );
    assert_eq!(
        parser.parse_band_per_kpoint(),
        Err(BandsParsingError::SpinConfigMissing { stage: BandsStage::PerKpointBlocks })
    );
    assert_eq!(parser.remaining(), text.as_bytes());
    assert_eq!(
        BandsParsingError::SpinConfigMissing { stage: BandsStage::FermiEnergy }.message(),
        "Spin components have not been parsed"
    );
}

#[test]
fn decimal_grammar_accepts_what_it_should() {
    for text in ["0", "12", "1.", "1.5", ".5", "-0.25", "+3.0", "1e5", "1E-5", "1.5e+10", "-.5E3", "007"] {
        let d = Decimal::parse(text).unwrap();
        assert_eq!(d.as_bytes(), text.as_bytes());
        assert!(text.parse::<f64>().is_ok());
    }
}

#[test]
fn decimal_grammar_refuses_what_it_should() {
    for text in ["", ".", "-", "+", "e5", "1e", "1e+", "1.5.2", "1 ", " 1", "abc", "1,5", "--1", "nan", "inf", "1e5.5", "0x10"] {
        assert_eq!(Decimal::parse(text), None, "for {:?}", text);
    }
}

#[test]
fn decimal_clone_is_equal() {
    let d = dec("-12.5e-3");
    assert_eq!(d.clone(), d);
    assert_eq!(d.clone().as_bytes(), b"-12.5e-3");
}

#[test]
fn kpoint_clone_is_equal() {
    let k = KPoint::new(3, [dec("0.5"), dec("-0.5"), dec("0")], dec("0.125"));
    assert_eq!(k.clone(), k);
}
