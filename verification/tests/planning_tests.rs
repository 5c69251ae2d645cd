use gdy_model_gen::adsorbate::AdsorbateInfo;
use gdy_model_gen::elements::{use_edft_for, MetalElement};
use gdy_model_gen::enumerate::SiteCase;
use gdy_model_gen::export::{
    aux_extension_file_name, batch_script_content, batch_script_path, metal_dir_path,
    metal_model_export_paths, metal_seeds_pattern, msi_glob_pattern, path_file_stem,
    path_join, path_last_component, path_parent_dir, pathway_export_loc,
    reorganize_destination, should_copy_aux, ServerScriptType,
};
use gdy_model_gen::ads_model::{adsorbate_file_path, adsorbate_model_path};
use gdy_model_gen::pathway::{CH2Pathway, COPathway, PathwayId};
use gdy_model_gen::pipeline::{plan_ads_jobs, plan_metal_jobs, plan_pathway_jobs};
use gdy_model_gen::placement::{build_ads_param, DirectionChoice};
use gdy_model_gen::tasks::{
    gen_ethane_pathway_seeds, gen_ethyne_pathway_seeds, gen_ketene_pathway_seeds,
    gen_oxalic_acid_seeds, gen_water_pathway_seeds,
};

fn ads(name: &str, coord_atom_ids: Vec<u32>, symmetric: bool, atom_nums: usize) -> AdsorbateInfo {
    AdsorbateInfo {
        name: name.to_string(),
        coord_atom_ids,
        stem_atom_ids: vec![1, 2],
        plane_atom_ids: vec![1, 2, 3],
        symmetric,
        upper_atom_id: 2,
        atom_nums,
        plane_angle_milli: None,
        stem_angle_at_coord_milli: None,
        bond_length_milli: None,
    }
}

fn metal(symbol: &str, atomic_number: u8) -> MetalElement {
    MetalElement { symbol: symbol.to_string(), atomic_number }
}

#[test]
fn placement_defaults_applied() {
    let info = ads("CO", vec![1], false, 2);
    let p = build_ads_param(&info, &vec![41]);
    assert_eq!(p.plane_angle_milli, 0);
    assert_eq!(p.stem_angle_at_coord_milli, 0);
    assert_eq!(p.bond_length_milli, 1400);
    assert_eq!(p.stem_atom_ids, vec![1, 2]);
    assert_eq!(p.coord_atom_ids, vec![1]);
    assert_eq!(p.plane_atom_ids, vec![1, 2, 3]);
}

#[test]
fn placement_keeps_specified_values() {
    let mut info = ads("CHO", vec![1], false, 3);
    info.plane_angle_milli = Some(90_000);
    info.stem_angle_at_coord_milli = Some(54_500);
    info.bond_length_milli = Some(1_600);
    let p = build_ads_param(&info, &vec![41]);
    assert_eq!(p.plane_angle_milli, 90_000);
    assert_eq!(p.stem_angle_at_coord_milli, 54_500);
    assert_eq!(p.bond_length_milli, 1_600);
}

#[test]
fn direction_rules() {
    let single_atom = ads("O", vec![1], false, 1);
    assert_eq!(build_ads_param(&single_atom, &vec![41]).direction, DirectionChoice::NoDirection);
    let frag = ads("CH2", vec![1], false, 3);
    assert_eq!(
        build_ads_param(&frag, &vec![54]).direction,
        DirectionChoice::BetweenSites(41, 73)
    );
    let arity_one = ads("CO", vec![1], false, 2);
    assert_eq!(
        build_ads_param(&arity_one, &vec![54]).direction,
        DirectionChoice::BetweenSites(41, 42)
    );
    let arity_two = ads("C2H4", vec![1, 2], false, 6);
    assert_eq!(
        build_ads_param(&arity_two, &vec![54, 53]).direction,
        DirectionChoice::BetweenSites(54, 53)
    );
}

#[test]
fn pathway_registry() {
    assert_eq!(PathwayId::CH2Coupling.table_name(), "ethane_ch2.yaml");
    assert_eq!(PathwayId::CH2Coupling.target_dir(), "CH2_coupling");
    assert_eq!(PathwayId::CODimer.table_name(), "ethane_co_dimer.yaml");
    assert_eq!(PathwayId::CODimer.target_dir(), "CO_dimer");
    assert_eq!(PathwayId::Water.table_name(), "water.yaml");
    assert_eq!(PathwayId::Water.target_dir(), "water");
    assert_eq!(PathwayId::Ethyne.table_name(), "ethyne_path.yaml");
    assert_eq!(PathwayId::Ethyne.target_dir(), "ethyne");
    assert_eq!(PathwayId::Ketene.table_name(), "ketene_others.yaml");
    assert_eq!(PathwayId::Ketene.target_dir(), "ketene");
    assert_eq!(PathwayId::OxalicAcid.table_name(), "oxalic_acid.yaml");
    assert_eq!(PathwayId::OxalicAcid.target_dir(), "oxalic_acid");
    assert_eq!(CH2Pathway::pathway_id(), PathwayId::CH2Coupling);
    assert_eq!(COPathway::pathway_id(), PathwayId::CODimer);
}

#[test]
fn export_path_helpers() {
    assert_eq!(path_join("a/b", "c"), "a/b/c");
    assert_eq!(path_last_component("a/b/c.msi"), "c.msi");
    assert_eq!(path_last_component("plain"), "plain");
    assert_eq!(path_parent_dir("a/b/c.msi"), Some("a/b".to_string()));
    assert_eq!(path_parent_dir("plain"), None);
    assert_eq!(path_file_stem("out/SAC_GDY_Fe_CO_c1/SAC_GDY_Fe_CO_c1.msi"), "SAC_GDY_Fe_CO_c1");
    assert_eq!(path_file_stem("nodot"), "nodot");
    assert_eq!(pathway_export_loc("/tmp/out", PathwayId::CODimer), "/tmp/out/CO_dimer");
    assert_eq!(msi_glob_pattern("/tmp/out"), "/tmp/out/**/*.msi");
    assert_eq!(metal_seeds_pattern("/tmp/out", "Fe"), "/tmp/out/**/SAC_GDY_Fe*_opt");
    assert_eq!(metal_dir_path("/tmp/out", "Fe"), "/tmp/out/Fe");
    assert_eq!(batch_script_path("/tmp/out/Fe"), "/tmp/out/Fe/batch_submit.sh");
    assert_eq!(
        reorganize_destination("/tmp/out/Fe", "/tmp/out/x/SAC_GDY_Fe_CO_c1_opt"),
        "/tmp/out/Fe/SAC_GDY_Fe_CO_c1_opt"
    );
    let (dir, path) = metal_model_export_paths("SAC_GDY_Fe");
    assert_eq!(dir, "./gdy_sac_models/SAC_GDY_Fe");
    assert_eq!(path, "./gdy_sac_models/SAC_GDY_Fe/SAC_GDY_Fe.msi");
    assert_eq!(adsorbate_file_path("adsorbates", "CO"), "adsorbates/CO.msi");
    assert_eq!(
        adsorbate_model_path(PathwayId::CH2Coupling, "CH2"),
        "adsorbates/CH2_coupling/CH2.msi"
    );
}

#[test]
fn batch_scripts_per_server_type() {
    let pbs = batch_script_content(ServerScriptType::PBS);
    assert_eq!(
        pbs,
        "#!/bin/sh\nfor i in `find . -maxdepth 1 -mindepth 1 -type d`; do\n    cd $i\n    qsub hpc.pbs.sh && cd ..\ndone"
    );
    let lsf = batch_script_content(ServerScriptType::LSF);
    assert!(lsf.contains("bsub MS70_YW_CASTEP.lsf"));
}

#[test]
fn aux_template_copy_is_idempotent() {
    // First export: the destination is absent, so the template is copied.
    let mut file: Option<Vec<u8>> = None;
    let template = vec![1u8, 2, 3];
    if should_copy_aux(file.is_some()) {
        file = Some(template.clone());
    }
    let after_first = file.clone();
    // Second export of the same structure: the file exists and is left as-is.
    assert!(!should_copy_aux(file.is_some()));
    if should_copy_aux(file.is_some()) {
        file = Some(vec![9u8]);
    }
    assert_eq!(file, after_first);
    assert_eq!(file, Some(template));
    assert_eq!(aux_extension_file_name("SAC_GDY_Fe_CO_c1"), "SMCastep_Extension_SAC_GDY_Fe_CO_c1.xms");
}

#[test]
fn edft_only_for_lanthanide_range() {
    assert!(use_edft_for(57, true));
    assert!(use_edft_for(71, true));
    assert!(!use_edft_for(56, true));
    assert!(!use_edft_for(72, true));
    assert!(!use_edft_for(26, true));
    assert!(!use_edft_for(60, false));
}

#[test]
fn per_adsorbate_jobs_follow_enumeration() {
    let info = ads("CH", vec![1], false, 2);
    let jobs = plan_ads_jobs("Fe", "SAC_GDY_Fe", &info, false);
    assert_eq!(jobs.len(), 14);
    assert_eq!(jobs[0].structure_name, "SAC_GDY_Fe_CH_c1");
    assert_eq!(jobs[7].structure_name, "SAC_GDY_Fe_CH_c1_CH_c2");
    assert_eq!(jobs[7].steps.len(), 2);
    assert_eq!(jobs[7].steps[0].target_site_ids, vec![41]);
    assert_eq!(jobs[7].steps[1].target_site_ids, vec![42]);
    match jobs[7].case {
        SiteCase::Tandem(41, 42) => {}
        _ => panic!("expected the first tandem case"),
    }
}

#[test]
fn per_metal_jobs_cover_catalogue() {
    let table = vec![ads("CO", vec![1], false, 2), ads("C2H4", vec![1, 2], false, 6)];
    let jobs = plan_metal_jobs("Ag", &table, false);
    assert_eq!(jobs.len(), 7 + 14);
    assert_eq!(jobs[0].structure_name, "SAC_GDY_Ag_CO_c1");
    assert_eq!(jobs[7].structure_name, "SAC_GDY_Ag_C2H4_c1_c2");
    assert_eq!(jobs[14].structure_name, "SAC_GDY_Ag_C2H4_c2_c1");
}

#[test]
fn product_names_are_unique() {
    let metals = vec![metal("Fe", 26), metal("Co", 27), metal("La", 57)];
    let table = vec![
        ads("CO", vec![1], false, 2),
        ads("CH", vec![1], false, 2),
        ads("C2H4", vec![1, 2], false, 6),
        ads("C2H2", vec![1, 2], true, 4),
    ];
    let jobs = plan_pathway_jobs(&metals, &table, true);
    assert_eq!(jobs.len(), 3 * (7 + 14 + 14 + 7));
    for i in 0..jobs.len() {
        for j in (i + 1)..jobs.len() {
            assert_ne!(jobs[i].structure_name, jobs[j].structure_name);
        }
    }
    // The numerical-method flag follows the metal, not the adsorbate.
    for j in &jobs {
        assert_eq!(j.use_edft, j.metal_symbol == "La");
    }
}

#[test]
fn ethane_task_plans_both_catalogues() {
    let metals = vec![metal("Fe", 26)];
    let ch2_table = vec![ads("CH2", vec![1], false, 3)];
    let co_table = vec![ads("CO", vec![1], false, 2)];
    let plans = gen_ethane_pathway_seeds(&metals, &ch2_table, &co_table, "/tmp/out", false);
    assert_eq!(plans.len(), 2);
    assert_eq!(plans[0].export_loc, "/tmp/out/CH2_coupling");
    assert_eq!(plans[0].jobs.len(), 14);
    assert_eq!(plans[1].export_loc, "/tmp/out/CO_dimer");
    assert_eq!(plans[1].jobs.len(), 7);
}

#[test]
fn single_catalogue_tasks_resolve_their_directories() {
    let metals = vec![metal("Fe", 26)];
    let table = vec![ads("OH", vec![1], false, 2)];
    assert_eq!(
        gen_ethyne_pathway_seeds(&metals, &table, "/o", false).export_loc,
        "/o/ethyne"
    );
    assert_eq!(gen_water_pathway_seeds(&metals, &table, "/o", false).export_loc, "/o/water");
    assert_eq!(gen_ketene_pathway_seeds(&metals, &table, "/o", false).export_loc, "/o/ketene");
    assert_eq!(gen_oxalic_acid_seeds(&metals, &table, "/o", false).export_loc, "/o/oxalic_acid");
}
