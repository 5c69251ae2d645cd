use gdy_model_gen::elements::available_metals;

#[test]
fn test_metal_ranges() {
    let metals = available_metals();
    metals.iter().for_each(|m| println!("{}", m.symbol))
}

#[test]
fn candidate_metals_cover_the_d_block() {
    let metals = available_metals();
    assert_eq!(metals.len(), 44);
    let symbols: Vec<&str> = metals.iter().map(|m| m.symbol.as_str()).collect();
    let expected = vec![
        "Sc", "Ti", "V", "Cr", "Mn", "Fe", "Co", "Ni", "Cu", "Zn", "Y", "Zr", "Nb", "Mo", "Tc",
        "Ru", "Rh", "Pd", "Ag", "Cd", "La", "Ce", "Pr", "Nd", "Pm", "Sm", "Eu", "Gd", "Tb", "Dy",
        "Ho", "Er", "Tm", "Yb", "Lu", "Hf", "Ta", "W", "Re", "Os", "Ir", "Pt", "Au", "Hg",
    ];
    assert_eq!(symbols, expected);
    let numbers: Vec<u8> = metals.iter().map(|m| m.atomic_number).collect();
    let expected_numbers: Vec<u8> =
        (21..=30).chain(39..=48).chain(57..=80).collect();
    assert_eq!(numbers, expected_numbers);
    // No two candidate metals share a symbol.
    for i in 0..symbols.len() {
        for j in (i + 1)..symbols.len() {
            assert_ne!(symbols[i], symbols[j]);
        }
    }
}
