use gdy_model_gen::adsorbate::AdsorbateInfo;
use gdy_model_gen::enumerate::{enumerate_site_cases, SiteCase};
use gdy_model_gen::sites::{find_site_label, gdy_coord_sites, gdy_double_cases, gdy_single_cases};

fn ads(name: &str, coord_atom_ids: Vec<u32>, symmetric: bool, atom_nums: usize) -> AdsorbateInfo {
    AdsorbateInfo {
        name: name.to_string(),
        coord_atom_ids,
        stem_atom_ids: vec![1, 2],
        plane_atom_ids: vec![1, 2, 3],
        symmetric,
        upper_atom_id: 1,
        atom_nums,
        plane_angle_milli: None,
        stem_angle_at_coord_milli: None,
        bond_length_milli: None,
    }
}

#[test]
fn coord_site_table_has_seven_named_sites() {
    let sites = gdy_coord_sites();
    assert_eq!(sites.len(), 7);
    let labels: Vec<&str> = sites.iter().map(|s| s.site_name()).collect();
    assert_eq!(labels, vec!["c1", "c2", "c3", "c4", "FR", "NR", "M"]);
    let ids: Vec<u32> = sites.iter().map(|s| s.site_id()).collect();
    assert_eq!(ids, vec![41, 42, 54, 53, 52, 40, 73]);
}

#[test]
fn single_and_double_case_tables() {
    assert_eq!(gdy_single_cases(), vec![41, 42, 54, 53, 52, 40, 73]);
    assert_eq!(
        gdy_double_cases(),
        vec![(41, 42), (42, 54), (54, 53), (53, 52), (41, 40), (41, 73), (42, 73)]
    );
}

#[test]
fn site_label_lookup() {
    assert_eq!(find_site_label(41), Some("c1"));
    assert_eq!(find_site_label(73), Some("M"));
    assert_eq!(find_site_label(40), Some("NR"));
    assert_eq!(find_site_label(99), None);
    assert_eq!(find_site_label(0), None);
}

#[test]
fn arity_one_plain_yields_seven_singletons() {
    let cases = enumerate_site_cases(&ads("CO", vec![1], false, 2));
    assert_eq!(cases.len(), 7);
    let expected: Vec<SiteCase> = vec![41, 42, 54, 53, 52, 40, 73]
        .into_iter()
        .map(SiteCase::Single)
        .collect();
    assert_eq!(cases, expected);
}

#[test]
fn sequential_fragment_yields_singletons_plus_tandems() {
    for name in ["CH", "CH2"] {
        let cases = enumerate_site_cases(&ads(name, vec![1], false, 3));
        assert_eq!(cases.len(), 14);
        for (i, id) in [41u32, 42, 54, 53, 52, 40, 73].iter().enumerate() {
            assert_eq!(cases[i], SiteCase::Single(*id));
        }
        let edges = [(41u32, 42u32), (42, 54), (54, 53), (53, 52), (41, 40), (41, 73), (42, 73)];
        for (i, (a, b)) in edges.iter().enumerate() {
            assert_eq!(cases[7 + i], SiteCase::Tandem(*a, *b));
        }
    }
}

#[test]
fn arity_two_symmetric_yields_seven_edges() {
    let cases = enumerate_site_cases(&ads("C2H2", vec![1, 2], true, 4));
    assert_eq!(cases.len(), 7);
    let edges = [(41u32, 42u32), (42, 54), (54, 53), (53, 52), (41, 40), (41, 73), (42, 73)];
    for (i, (a, b)) in edges.iter().enumerate() {
        assert_eq!(cases[i], SiteCase::Pair(*a, *b));
    }
}

#[test]
fn arity_two_asymmetric_yields_fourteen_with_matching_swaps() {
    let cases = enumerate_site_cases(&ads("C2H4", vec![1, 2], false, 6));
    assert_eq!(cases.len(), 14);
    for i in 0..7 {
        match (cases[i], cases[7 + i]) {
            (SiteCase::Pair(a1, b1), SiteCase::Pair(a2, b2)) => {
                assert_eq!((a1, b1), (b2, a2));
            }
            _ => panic!("expected edge cases"),
        }
    }
}

#[test]
fn other_arities_yield_no_candidates() {
    assert!(enumerate_site_cases(&ads("X", vec![], false, 1)).is_empty());
    assert!(enumerate_site_cases(&ads("X", vec![1, 2, 3], false, 4)).is_empty());
}
