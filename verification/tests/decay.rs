use vbx::Decay;

fn row(decay: &Decay, class: usize) -> [Option<f64>; 4] {
    [
        decay.get_wood_density_proportion(class).map(f64::from_bits),
        decay.get_remaining_bark_proportion(class).map(f64::from_bits),
        decay.get_remaining_branch_proportion(class).map(f64::from_bits),
        decay.get_carbon_fraction(class).map(f64::from_bits),
    ]
}

#[test]
fn test_decay_no_value_outside_classes_one_to_five() {
    let softwood = Decay::new(1);
    let hardwood = Decay::new(300);
    for decay in [&softwood, &hardwood] {
        for class in [0usize, 6, 7, 100] {
            assert_eq!(decay.get_wood_density_proportion(class), None);
            assert_eq!(decay.get_remaining_bark_proportion(class), None);
            assert_eq!(decay.get_remaining_branch_proportion(class), None);
            assert_eq!(decay.get_carbon_fraction(class), None);
        }
    }
}

#[test]
fn test_decay_softwood_rows() {
    let decay = Decay::new(1);
    let expected: [[f64; 4]; 5] = [
        [0.97, 1.0, 1.0, 50.1],
        [1.0, 0.8, 0.5, 50.4],
        [0.92, 0.5, 0.1, 50.6],
        [0.55, 0.2, 0.0, 52.0],
        [0.55, 0.0, 0.0, 52.7],
    ];
    for (i, want) in expected.iter().enumerate() {
        let got = row(&decay, i + 1);
        for (g, w) in got.iter().zip(want.iter()) {
            assert_eq!(g.unwrap(), *w);
        }
    }
}

#[test]
fn test_decay_hardwood_rows() {
    let decay = Decay::new(300);
    let expected: [[f64; 4]; 5] = [
        [0.99, 1.0, 1.0, 47.0],
        [0.8, 0.8, 0.5, 47.3],
        [0.54, 0.5, 0.1, 48.1],
        [0.43, 0.2, 0.0, 48.0],
        [0.43, 0.0, 0.0, 47.2],
    ];
    for (i, want) in expected.iter().enumerate() {
        let got = row(&decay, i + 1);
        for (g, w) in got.iter().zip(want.iter()) {
            assert_eq!(g.unwrap(), *w);
        }
    }
}

#[test]
fn test_decay_split_at_species_code_three_hundred() {
    // Code 299 still selects the softwood table, code 300 the hardwood one.
    let softwood = Decay::new(299);
    let hardwood = Decay::new(300);
    assert_eq!(
        softwood.get_wood_density_proportion(1).map(f64::from_bits),
        Some(0.97)
    );
    assert_eq!(
        hardwood.get_wood_density_proportion(1).map(f64::from_bits),
        Some(0.99)
    );
    assert_eq!(
        softwood.get_carbon_fraction(5).map(f64::from_bits),
        Some(52.7)
    );
    assert_eq!(
        hardwood.get_carbon_fraction(5).map(f64::from_bits),
        Some(47.2)
    );
}
