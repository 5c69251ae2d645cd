use gdy_model_gen::elements::MetalElement;
use gdy_model_gen::errors::GenError;
use gdy_model_gen::lattice::{
    edit_metal, generate_all_metal_models, load_base_model, GDYLattice, LatticeAtom, LatticeData,
};

fn carbon_atom(id: u32) -> LatticeAtom {
    LatticeAtom {
        element_symbol: "C".to_string(),
        atomic_number: 6,
        atom_id: id,
        coord_text: format!("0.0 0.0 {}.0", id),
    }
}

fn base_lattice(n_atoms: u32) -> GDYLattice {
    let atoms: Vec<LatticeAtom> = (1..=n_atoms).map(carbon_atom).collect();
    let data = LatticeData {
        vectors_text: "18.94 0.0 0.0 | -9.47 16.4 0.0 | 0.0 0.0 9.99".to_string(),
        atoms,
    };
    load_base_model(data)
}

fn metal(symbol: &str, atomic_number: u8) -> MetalElement {
    MetalElement { symbol: symbol.to_string(), atomic_number }
}

#[test]
fn base_model_carries_fixed_name_and_site() {
    let base = base_lattice(80);
    assert_eq!(base.lattice_name(), "SAC_GDY_M");
    assert_eq!(base.metal_site(), 73);
}

#[test]
fn substituting_iron_and_cobalt() {
    let base = base_lattice(80);
    let fe = edit_metal(&base, &metal("Fe", 26)).unwrap();
    assert_eq!(fe.lattice_name(), "SAC_GDY_Fe");
    let co = edit_metal(&base, &metal("Co", 27)).unwrap();
    assert_eq!(co.lattice_name(), "SAC_GDY_Co");
    for edited in [&fe, &co] {
        assert_eq!(edited.lattice().atoms.len(), base.lattice().atoms.len());
        assert_eq!(edited.lattice().vectors_text, base.lattice().vectors_text);
    }
    let site = 72usize;
    assert_eq!(fe.lattice().atoms[site].element_symbol, "Fe");
    assert_eq!(fe.lattice().atoms[site].atomic_number, 26);
    assert_eq!(fe.lattice().atoms[site].coord_text, base.lattice().atoms[site].coord_text);
    assert_eq!(co.lattice().atoms[site].element_symbol, "Co");
    assert_eq!(co.lattice().atoms[site].atomic_number, 27);
}

#[test]
fn substitution_changes_exactly_one_atom() {
    let base = base_lattice(80);
    let fe = edit_metal(&base, &metal("Fe", 26)).unwrap();
    let mut changed = 0;
    for (i, (a, b)) in base.lattice().atoms.iter().zip(fe.lattice().atoms.iter()).enumerate() {
        let same = a.element_symbol == b.element_symbol && a.atomic_number == b.atomic_number;
        assert_eq!(a.atom_id, b.atom_id);
        assert_eq!(a.coord_text, b.coord_text);
        if !same {
            assert_eq!(i, 72);
            changed += 1;
        }
    }
    assert_eq!(changed, 1);
}

#[test]
fn edit_fails_when_metal_site_out_of_range() {
    let base = base_lattice(50);
    match edit_metal(&base, &metal("Fe", 26)) {
        Err(GenError::MetalSiteOutOfRange { metal_site, atom_count }) => {
            assert_eq!(metal_site, 73);
            assert_eq!(atom_count, 50);
        }
        _ => panic!("expected a metal-site error"),
    }
}

#[test]
fn all_metal_variants_share_base_geometry() {
    let base = base_lattice(80);
    let metals = vec![metal("Sc", 21), metal("Fe", 26), metal("La", 57), metal("Hg", 80)];
    let variants = generate_all_metal_models(&base, &metals).unwrap();
    assert_eq!(variants.len(), 4);
    for (m, v) in metals.iter().zip(variants.iter()) {
        assert_eq!(v.lattice_name(), format!("SAC_GDY_{}", m.symbol));
        assert_eq!(v.lattice().atoms.len(), 80);
        assert_eq!(v.lattice().vectors_text, base.lattice().vectors_text);
        assert_eq!(v.lattice().atoms[72].element_symbol, m.symbol);
        assert_eq!(v.lattice().atoms[72].atomic_number, m.atomic_number);
        assert_eq!(v.metal_site(), 73);
    }
}

#[test]
fn error_messages_are_reportable() {
    let base = base_lattice(10);
    let err = edit_metal(&base, &metal("Fe", 26)).unwrap_err();
    assert!(!err.message().is_empty());
    let unknown = GenError::UnknownSiteId { site_id: 99 };
    assert!(!unknown.message().is_empty());
}
