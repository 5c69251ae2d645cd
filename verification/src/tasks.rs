use vstd::prelude::*;

use crate::adsorbate::AdsorbateInfo;
use crate::candidate::candidate_name_spec;
use crate::elements::{edft_applies, MetalElement};
use crate::export::pathway_export_loc;
use crate::pathway::{target_dir_spec, PathwayId};
use crate::pipeline::{
    jobs_triples, plan_pathway_jobs, product_triples, steps_ok, syms_of, SeedJob,
};

verus! {

/// The planned generation work of one pathway catalogue: where its
/// structures are exported, and one job per (metal, adsorbate, site case)
/// combination.
#[derive(Debug)]
pub struct PathwaySeedPlan {
    pub pathway: PathwayId,
    pub export_loc: String,
    pub jobs: Vec<SeedJob>,
}

/// The plan covers the full product of `metals` and `table` for `pathway`,
/// exports under the pathway's subdirectory of `export_root`, and each job
/// carries its canonical name, its placement steps, and the
/// numerical-method flag of its metal.
pub open spec fn plan_ok(
    p: PathwaySeedPlan,
    metals: Seq<MetalElement>,
    table: Seq<AdsorbateInfo>,
    pathway: PathwayId,
    export_root: Seq<char>,
    edft: bool,
) -> bool {
    &&& p.pathway == pathway
    &&& p.export_loc@ == export_root + seq!['/'] + target_dir_spec(pathway)
    &&& jobs_triples(p.jobs@) == product_triples(syms_of(metals), table)
    &&& forall|k: int|
        0 <= k < p.jobs@.len() ==> {
            let j = #[trigger] p.jobs@[k];
            &&& j.structure_name@ == candidate_name_spec(j.metal_symbol@, j.ads_name@, j.case)
            &&& exists|mi: int|
                0 <= mi < metals.len() && (#[trigger] metals[mi]).symbol@ == j.metal_symbol@
                    && j.use_edft == edft_applies(metals[mi].atomic_number, edft)
            &&& exists|a: int|
                0 <= a < table.len() && (#[trigger] table[a]).name@ == j.ads_name@ && steps_ok(
                    j.steps@,
                    table[a],
                    j.case,
                )
        }
}

/// Plan the generation of one pathway catalogue: enumerate the full
/// (metal x adsorbate x site case) product and resolve the export location
/// from the pathway registry.
pub fn generate_seeds(
    metals: &Vec<MetalElement>,
    table: &Vec<AdsorbateInfo>,
    pathway: PathwayId,
    export_loc_str: &str,
    edft: bool,
) -> (r: PathwaySeedPlan)
    ensures
        plan_ok(r, metals@, table@, pathway, export_loc_str@, edft),
{
    let export_loc = pathway_export_loc(export_loc_str, pathway);
    let jobs = plan_pathway_jobs(metals, table, edft);
    PathwaySeedPlan { pathway, export_loc, jobs }
}

/// Plan the ethane pathway: its CH2-coupling catalogue, then its
/// CO-dimerization catalogue, each under its own export subdirectory.
pub fn gen_ethane_pathway_seeds(
    metals: &Vec<MetalElement>,
    ch2_table: &Vec<AdsorbateInfo>,
    co_table: &Vec<AdsorbateInfo>,
    export_loc_str: &str,
    edft: bool,
) -> (r: Vec<PathwaySeedPlan>)
    ensures
        r@.len() == 2,
        plan_ok(r@[0], metals@, ch2_table@, PathwayId::CH2Coupling, export_loc_str@, edft),
        plan_ok(r@[1], metals@, co_table@, PathwayId::CODimer, export_loc_str@, edft),
{
    let mut r: Vec<PathwaySeedPlan> = Vec::new();
    r.push(generate_seeds(metals, ch2_table, PathwayId::CH2Coupling, export_loc_str, edft));
    r.push(generate_seeds(metals, co_table, PathwayId::CODimer, export_loc_str, edft));
    r
}

/// Plan the ethyne pathway from its catalogue.
pub fn gen_ethyne_pathway_seeds(
    metals: &Vec<MetalElement>,
    ethyne_table: &Vec<AdsorbateInfo>,
    export_loc_str: &str,
    edft: bool,
) -> (r: PathwaySeedPlan)
    ensures
        plan_ok(r, metals@, ethyne_table@, PathwayId::Ethyne, export_loc_str@, edft),
{
    generate_seeds(metals, ethyne_table, PathwayId::Ethyne, export_loc_str, edft)
}

/// Plan the water pathway from its catalogue.
pub fn gen_water_pathway_seeds(
    metals: &Vec<MetalElement>,
    water_table: &Vec<AdsorbateInfo>,
    export_loc_str: &str,
    edft: bool,
) -> (r: PathwaySeedPlan)
    ensures
        plan_ok(r, metals@, water_table@, PathwayId::Water, export_loc_str@, edft),
{
    generate_seeds(metals, water_table, PathwayId::Water, export_loc_str, edft)
}

/// Plan the ketene pathway from its catalogue.
pub fn gen_ketene_pathway_seeds(
    metals: &Vec<MetalElement>,
    ketene_table: &Vec<AdsorbateInfo>,
    export_loc_str: &str,
    edft: bool,
) -> (r: PathwaySeedPlan)
    ensures
        plan_ok(r, metals@, ketene_table@, PathwayId::Ketene, export_loc_str@, edft),
{
    generate_seeds(metals, ketene_table, PathwayId::Ketene, export_loc_str, edft)
}

/// Plan the oxalic-acid pathway from its catalogue.
pub fn gen_oxalic_acid_seeds(
    metals: &Vec<MetalElement>,
    oxalic_table: &Vec<AdsorbateInfo>,
    export_loc_str: &str,
    edft: bool,
) -> (r: PathwaySeedPlan)
    ensures
        plan_ok(r, metals@, oxalic_table@, PathwayId::OxalicAcid, export_loc_str@, edft),
{
    generate_seeds(metals, oxalic_table, PathwayId::OxalicAcid, export_loc_str, edft)
}

} // verus!
