use gdy_model_gen::candidate::{
    adsorption_naming, candidate_structure_name, join_with_underscore, metal_lattice_name,
};
use gdy_model_gen::enumerate::SiteCase;
use gdy_model_gen::errors::GenError;

#[test]
fn metal_lattice_names() {
    assert_eq!(metal_lattice_name("Fe"), "SAC_GDY_Fe");
    assert_eq!(metal_lattice_name("Ag"), "SAC_GDY_Ag");
}

#[test]
fn join_tokens_with_underscores() {
    let parts = vec!["SAC".to_string(), "GDY".to_string(), "Fe".to_string()];
    assert_eq!(join_with_underscore(&parts), "SAC_GDY_Fe");
    let one = vec!["only".to_string()];
    assert_eq!(join_with_underscore(&one), "only");
}

#[test]
fn adsorption_suffix_for_sites() {
    assert_eq!(adsorption_naming("CO", &vec![41]).unwrap(), "_CO_c1");
    assert_eq!(adsorption_naming("C2H4", &vec![41, 42]).unwrap(), "_C2H4_c1_c2");
    assert_eq!(adsorption_naming("CO", &vec![73]).unwrap(), "_CO_M");
}

#[test]
fn adsorption_naming_rejects_unknown_site() {
    match adsorption_naming("CO", &vec![41, 99]) {
        Err(GenError::UnknownSiteId { site_id }) => assert_eq!(site_id, 99),
        _ => panic!("expected an unknown-site error"),
    }
}

#[test]
fn single_site_structure_name() {
    let n = candidate_structure_name("SAC_GDY_Ag", "CO", &SiteCase::Single(41)).unwrap();
    assert_eq!(n, "SAC_GDY_Ag_CO_c1");
}

#[test]
fn asymmetric_edge_structure_names() {
    let fwd = candidate_structure_name("SAC_GDY_Ag", "C2H4", &SiteCase::Pair(41, 42)).unwrap();
    let rev = candidate_structure_name("SAC_GDY_Ag", "C2H4", &SiteCase::Pair(42, 41)).unwrap();
    assert_eq!(fwd, "SAC_GDY_Ag_C2H4_c1_c2");
    assert_eq!(rev, "SAC_GDY_Ag_C2H4_c2_c1");
    assert_ne!(fwd, rev);
}

#[test]
fn tandem_structure_name_repeats_adsorbate() {
    let n = candidate_structure_name("SAC_GDY_Fe", "CH", &SiteCase::Tandem(41, 42)).unwrap();
    assert_eq!(n, "SAC_GDY_Fe_CH_c1_CH_c2");
}

#[test]
fn structure_name_rejects_unknown_site() {
    match candidate_structure_name("SAC_GDY_Fe", "CO", &SiteCase::Single(7)) {
        Err(GenError::UnknownSiteId { site_id }) => assert_eq!(site_id, 7),
        _ => panic!("expected an unknown-site error"),
    }
}
