use vstd::prelude::*;

use crate::adsorbate::AdsorbateInfo;
use crate::candidate::{
    candidate_name_spec, candidate_structure_name, lemma_candidate_name_composition,
    lemma_candidate_name_injective, metal_lattice_name, metal_lattice_name_spec,
};
use crate::elements::{edft_applies, use_edft_for, MetalElement};
use crate::enumerate::{
    case_sites_valid, enumerate_cases_spec, enumerate_site_cases, lemma_enumerate_cases_distinct,
    lemma_enumerate_cases_valid, SiteCase,
};
use crate::naming::underscore_free;
use crate::placement::{
    build_ads_param, default_bond_length_milli, direction_spec, PlacementParams,
};

verus! {

/// One invocation of the placement engine: the target site ids, and the
/// placement parameters assembled for them.
#[derive(Debug)]
pub struct PlacementStep {
    pub target_site_ids: Vec<u32>,
    pub params: PlacementParams,
}

/// The parameters are exactly those `build_ads_param` assembles for `info`
/// at `targets`.
pub open spec fn params_match(p: PlacementParams, info: AdsorbateInfo, targets: Seq<u32>) -> bool {
    &&& p.direction == direction_spec(
        info.atom_nums as int,
        info.name@,
        info.coord_atom_ids@.len() as int,
        targets,
    )
    &&& p.plane_angle_milli == (if info.plane_angle_milli is Some {
        info.plane_angle_milli->0
    } else {
        0u64
    })
    &&& p.stem_angle_at_coord_milli == (if info.stem_angle_at_coord_milli is Some {
        info.stem_angle_at_coord_milli->0
    } else {
        0u64
    })
    &&& p.bond_length_milli == (if info.bond_length_milli is Some {
        info.bond_length_milli->0
    } else {
        default_bond_length_milli()
    })
    &&& p.stem_atom_ids@ == info.stem_atom_ids@
    &&& p.coord_atom_ids@ == info.coord_atom_ids@
    &&& p.plane_atom_ids@ == info.plane_atom_ids@
}

/// The placement steps of a candidate: one step for a singleton or edge
/// placement, two successive single-site steps for a tandem placement.
pub open spec fn steps_ok(steps: Seq<PlacementStep>, info: AdsorbateInfo, c: SiteCase) -> bool {
    match c {
        SiteCase::Single(a) => {
            &&& steps.len() == 1
            &&& steps[0].target_site_ids@ == seq![a]
            &&& params_match(steps[0].params, info, seq![a])
        },
        SiteCase::Pair(a, b) => {
            &&& steps.len() == 1
            &&& steps[0].target_site_ids@ == seq![a, b]
            &&& params_match(steps[0].params, info, seq![a, b])
        },
        SiteCase::Tandem(a, b) => {
            &&& steps.len() == 2
            &&& steps[0].target_site_ids@ == seq![a]
            &&& params_match(steps[0].params, info, seq![a])
            &&& steps[1].target_site_ids@ == seq![b]
            &&& params_match(steps[1].params, info, seq![b])
        },
    }
}

/// One unit of generation work: place one adsorbate on one metal variant at
/// one site case, and export the composed structure under its canonical
/// name.
#[derive(Debug)]
pub struct SeedJob {
    pub metal_symbol: String,
    pub ads_name: String,
    pub case: SiteCase,
    pub steps: Vec<PlacementStep>,
    pub structure_name: String,
    pub use_edft: bool,
}

/// The provenance triple of a job.
pub open spec fn job_triple(j: SeedJob) -> (Seq<char>, Seq<char>, SiteCase) {
    (j.metal_symbol@, j.ads_name@, j.case)
}

/// In the candidate sequence of an adsorbate, singleton and tandem cases
/// arise only at arity 1, and edge cases only at arity 2.
pub proof fn lemma_enumerate_case_shapes(arity: int, name: Seq<char>, symmetric: bool)
    ensures
        forall|i: int|
            0 <= i < enumerate_cases_spec(arity, name, symmetric).len() ==> match (
            #[trigger] enumerate_cases_spec(arity, name, symmetric)[i]) {
                SiteCase::Single(_) => arity == 1,
                SiteCase::Tandem(_, _) => arity == 1,
                SiteCase::Pair(_, _) => arity == 2,
            },
{
}

/// Assemble the placement steps for one candidate: a tandem case places the
/// adsorbate twice, at its two sites in order; the other cases place it
/// once.
fn build_steps(info: &AdsorbateInfo, c: &SiteCase) -> (r: Vec<PlacementStep>)
    requires
        c is Single || c is Tandem ==> info.coord_atom_ids@.len() == 1,
    ensures
        steps_ok(r@, *info, *c),
{
    let mut steps: Vec<PlacementStep> = Vec::new();
    match c {
        SiteCase::Single(a) => {
            let mut ids: Vec<u32> = Vec::new();
            ids.push(*a);
            let params = build_ads_param(info, &ids);
            proof {
                assert(ids@ =~= seq![*a]);
            }
            steps.push(PlacementStep { target_site_ids: ids, params });
        },
        SiteCase::Pair(a, b) => {
            let mut ids: Vec<u32> = Vec::new();
            ids.push(*a);
            ids.push(*b);
            let params = build_ads_param(info, &ids);
            proof {
                assert(ids@ =~= seq![*a, *b]);
            }
            steps.push(PlacementStep { target_site_ids: ids, params });
        },
        SiteCase::Tandem(a, b) => {
            let mut ids1: Vec<u32> = Vec::new();
            ids1.push(*a);
            let params1 = build_ads_param(info, &ids1);
            proof {
                assert(ids1@ =~= seq![*a]);
            }
            steps.push(PlacementStep { target_site_ids: ids1, params: params1 });
            let mut ids2: Vec<u32> = Vec::new();
            ids2.push(*b);
            let params2 = build_ads_param(info, &ids2);
            proof {
                assert(ids2@ =~= seq![*b]);
            }
            steps.push(PlacementStep { target_site_ids: ids2, params: params2 });
        },
    }
    steps
}

/// Plan every candidate of one adsorbate on one metal variant: one job per
/// enumerated site case, in enumeration order, each carrying its canonical
/// structure name and placement steps.
pub fn plan_ads_jobs(symbol: &str, lat_name: &str, info: &AdsorbateInfo, use_edft: bool) -> (r:
    Vec<SeedJob>)
    requires
        lat_name@ == metal_lattice_name_spec(symbol@),
    ensures
        r@.len() == enumerate_cases_spec(
            info.coord_atom_ids@.len() as int,
            info.name@,
            info.symmetric,
        ).len(),
        forall|i: int|
            0 <= i < r@.len() ==> {
                let j = #[trigger] r@[i];
                &&& j.case == enumerate_cases_spec(
                    info.coord_atom_ids@.len() as int,
                    info.name@,
                    info.symmetric,
                )[i]
                &&& j.metal_symbol@ == symbol@
                &&& j.ads_name@ == info.name@
                &&& j.use_edft == use_edft
                &&& j.structure_name@ == candidate_name_spec(symbol@, info.name@, j.case)
                &&& steps_ok(j.steps@, *info, j.case)
            },
{
    let ghost arity = info.coord_atom_ids@.len() as int;
    let cases = enumerate_site_cases(info);
    let mut jobs: Vec<SeedJob> = Vec::new();
    let mut i: usize = 0;
    while i < cases.len()
        invariant
            cases@ == enumerate_cases_spec(arity, info.name@, info.symmetric),
            arity == info.coord_atom_ids@.len() as int,
            lat_name@ == metal_lattice_name_spec(symbol@),
            i <= cases@.len(),
            jobs@.len() == i,
            forall|k: int|
                0 <= k < i ==> {
                    let j = #[trigger] jobs@[k];
                    &&& j.case == enumerate_cases_spec(arity, info.name@, info.symmetric)[k]
                    &&& j.metal_symbol@ == symbol@
                    &&& j.ads_name@ == info.name@
                    &&& j.use_edft == use_edft
                    &&& j.structure_name@ == candidate_name_spec(symbol@, info.name@, j.case)
                    &&& steps_ok(j.steps@, *info, j.case)
                },
        decreases cases@.len() - i,
    {
        let c = cases[i];
        proof {
            lemma_enumerate_cases_valid(arity, info.name@, info.symmetric);
            lemma_enumerate_case_shapes(arity, info.name@, info.symmetric);
        }
        let name = match candidate_structure_name(lat_name, info.name.as_str(), &c) {
            Ok(n) => n,
            Err(_) => {
                proof {
                    assert(false);
                }
                String::new()
            },
        };
        proof {
            lemma_candidate_name_composition(symbol@, info.name@, c);
        }
        let steps = build_steps(info, &c);
        jobs.push(
            SeedJob {
                metal_symbol: symbol.to_owned(),
                ads_name: info.name.clone(),
                case: c,
                steps,
                structure_name: name,
                use_edft,
            },
        );
        i = i + 1;
    }
    jobs
}

/// The (adsorbate name, site case) a job realizes.
pub open spec fn job_pair(j: SeedJob) -> (Seq<char>, SiteCase) {
    (j.ads_name@, j.case)
}

pub open spec fn jobs_pairs(jobs: Seq<SeedJob>) -> Seq<(Seq<char>, SiteCase)> {
    jobs.map_values(|j: SeedJob| job_pair(j))
}

pub open spec fn jobs_triples(jobs: Seq<SeedJob>) -> Seq<(Seq<char>, Seq<char>, SiteCase)> {
    jobs.map_values(|j: SeedJob| job_triple(j))
}

/// The (adsorbate name, site case) pairs one adsorbate contributes, in
/// enumeration order.
pub open spec fn ads_pairs(info: AdsorbateInfo) -> Seq<(Seq<char>, SiteCase)> {
    enumerate_cases_spec(
        info.coord_atom_ids@.len() as int,
        info.name@,
        info.symmetric,
    ).map_values(|c: SiteCase| (info.name@, c))
}

/// The pairs of a whole catalogue, adsorbate by adsorbate, in catalogue
/// order.
pub open spec fn table_pairs(table: Seq<AdsorbateInfo>) -> Seq<(Seq<char>, SiteCase)>
    decreases table.len(),
{
    if table.len() == 0 {
        Seq::empty()
    } else {
        ads_pairs(table[0]) + table_pairs(table.drop_first())
    }
}

pub proof fn lemma_table_pairs_push(table: Seq<AdsorbateInfo>, x: AdsorbateInfo)
    ensures
        table_pairs(table.push(x)) == table_pairs(table) + ads_pairs(x),
    decreases table.len(),
{
    if table.len() == 0 {
        assert(table =~= Seq::<AdsorbateInfo>::empty());
        assert(table.push(x)[0] == x);
        assert(table.push(x).drop_first() =~= Seq::<AdsorbateInfo>::empty());
        assert(table_pairs(Seq::<AdsorbateInfo>::empty()) == Seq::<(Seq<char>, SiteCase)>::empty());
        assert(table_pairs(table.push(x)) == ads_pairs(x) + table_pairs(
            Seq::<AdsorbateInfo>::empty(),
        ));
        assert(table_pairs(table.push(x)) =~= table_pairs(table) + ads_pairs(x));
    } else {
        assert(table.push(x)[0] == table[0]);
        assert(table.push(x).drop_first() =~= table.drop_first().push(x));
        lemma_table_pairs_push(table.drop_first(), x);
        assert(table_pairs(table.push(x)) =~= table_pairs(table) + ads_pairs(x));
    }
}

/// Plan every candidate of a whole catalogue on one metal variant: the jobs
/// realize exactly the catalogue's (adsorbate, site case) pairs, in order.
pub fn plan_metal_jobs(symbol: &str, table: &Vec<AdsorbateInfo>, use_edft: bool) -> (r: Vec<
    SeedJob,
>)
    ensures
        jobs_pairs(r@) == table_pairs(table@),
        forall|k: int|
            0 <= k < r@.len() ==> {
                let j = #[trigger] r@[k];
                &&& j.metal_symbol@ == symbol@
                &&& j.use_edft == use_edft
                &&& j.structure_name@ == candidate_name_spec(symbol@, j.ads_name@, j.case)
                &&& exists|a: int|
                    0 <= a < table@.len() && (#[trigger] table@[a]).name@ == j.ads_name@
                        && steps_ok(j.steps@, table@[a], j.case)
            },
{
    let lat_name = metal_lattice_name(symbol);
    let mut jobs: Vec<SeedJob> = Vec::new();
    let mut a: usize = 0;
    while a < table.len()
        invariant
            lat_name@ == metal_lattice_name_spec(symbol@),
            a <= table@.len(),
            jobs_pairs(jobs@) =~= table_pairs(table@.take(a as int)),
            forall|k: int|
                0 <= k < jobs@.len() ==> {
                    let j = #[trigger] jobs@[k];
                    &&& j.metal_symbol@ == symbol@
                    &&& j.use_edft == use_edft
                    &&& j.structure_name@ == candidate_name_spec(symbol@, j.ads_name@, j.case)
                    &&& exists|q: int|
                        0 <= q < table@.len() && (#[trigger] table@[q]).name@ == j.ads_name@
                            && steps_ok(j.steps@, table@[q], j.case)
                },
        decreases table@.len() - a,
    {
        let info = &table[a];
        let mut batch = plan_ads_jobs(symbol, lat_name.as_str(), info, use_edft);
        let ghost pre = jobs@;
        let ghost batch_view = batch@;
        jobs.append(&mut batch);
        proof {
            assert(jobs@ == pre + batch_view);
            assert(table@.take(a as int).push(table@[a as int]) =~= table@.take(a as int + 1));
            lemma_table_pairs_push(table@.take(a as int), table@[a as int]);
            assert forall|k: int| 0 <= k < jobs@.len() implies jobs_pairs(jobs@)[k] == table_pairs(
                table@.take(a as int + 1),
            )[k] by {
                if k < pre.len() {
                    assert(jobs_pairs(pre)[k] == table_pairs(table@.take(a as int))[k]);
                } else {
                    assert(jobs@[k] == batch_view[k - pre.len()]);
                }
            }
            assert(jobs_pairs(jobs@) =~= table_pairs(table@.take(a as int + 1)));
            assert forall|k: int| 0 <= k < jobs@.len() implies {
                let j = #[trigger] jobs@[k];
                &&& j.metal_symbol@ == symbol@
                &&& j.use_edft == use_edft
                &&& j.structure_name@ == candidate_name_spec(symbol@, j.ads_name@, j.case)
                &&& exists|q: int|
                    0 <= q < table@.len() && (#[trigger] table@[q]).name@ == j.ads_name@
                        && steps_ok(j.steps@, table@[q], j.case)
            } by {
                if k >= pre.len() {
                    let j = jobs@[k];
                    assert(j == batch_view[k - pre.len()]);
                    assert(table@[a as int].name@ == j.ads_name@ && steps_ok(
                        j.steps@,
                        table@[a as int],
                        j.case,
                    ));
                }
            }
        }
        a = a + 1;
    }
    proof {
        assert(table@.take(table@.len() as int) =~= table@);
    }
    jobs
}

/// The element symbols of a metal list.
pub open spec fn syms_of(metals: Seq<MetalElement>) -> Seq<Seq<char>> {
    metals.map_values(|m: MetalElement| m.symbol@)
}

/// The provenance triples one metal contributes: the catalogue's pairs,
/// tagged with the metal's symbol.
pub open spec fn sym_triples(sym: Seq<char>, table: Seq<AdsorbateInfo>) -> Seq<
    (Seq<char>, Seq<char>, SiteCase),
> {
    table_pairs(table).map_values(|p: (Seq<char>, SiteCase)| (sym, p.0, p.1))
}

/// The provenance triples of the full (metal x adsorbate x site case)
/// product, metal by metal, in order.
pub open spec fn product_triples(syms: Seq<Seq<char>>, table: Seq<AdsorbateInfo>) -> Seq<
    (Seq<char>, Seq<char>, SiteCase),
>
    decreases syms.len(),
{
    if syms.len() == 0 {
        Seq::empty()
    } else {
        sym_triples(syms[0], table) + product_triples(syms.drop_first(), table)
    }
}

pub proof fn lemma_product_triples_push(
    syms: Seq<Seq<char>>,
    s: Seq<char>,
    table: Seq<AdsorbateInfo>,
)
    ensures
        product_triples(syms.push(s), table) == product_triples(syms, table) + sym_triples(
            s,
            table,
        ),
    decreases syms.len(),
{
    if syms.len() == 0 {
        assert(syms =~= Seq::<Seq<char>>::empty());
        assert(syms.push(s)[0] == s);
        assert(syms.push(s).drop_first() =~= Seq::<Seq<char>>::empty());
        assert(product_triples(Seq::<Seq<char>>::empty(), table) == Seq::<
            (Seq<char>, Seq<char>, SiteCase),
        >::empty());
        assert(product_triples(syms.push(s), table) == sym_triples(s, table) + product_triples(
            Seq::<Seq<char>>::empty(),
            table,
        ));
        assert(product_triples(syms.push(s), table) =~= product_triples(syms, table)
            + sym_triples(s, table));
    } else {
        assert(syms.push(s)[0] == syms[0]);
        assert(syms.push(s).drop_first() =~= syms.drop_first().push(s));
        lemma_product_triples_push(syms.drop_first(), s, table);
        assert(product_triples(syms.push(s), table) =~= product_triples(syms, table)
            + sym_triples(s, table));
    }
}

/// Plan the full product for one pathway catalogue: every (metal, adsorbate,
/// site case) combination becomes exactly one job, in the deterministic
/// metal-major order, each carrying its canonical name, placement steps and
/// numerical-method flag.
pub fn plan_pathway_jobs(metals: &Vec<MetalElement>, table: &Vec<AdsorbateInfo>, edft: bool) -> (r:
    Vec<SeedJob>)
    ensures
        jobs_triples(r@) == product_triples(syms_of(metals@), table@),
        forall|k: int|
            0 <= k < r@.len() ==> {
                let j = #[trigger] r@[k];
                &&& j.structure_name@ == candidate_name_spec(j.metal_symbol@, j.ads_name@, j.case)
                &&& exists|mi: int|
                    0 <= mi < metals@.len() && (#[trigger] metals@[mi]).symbol@ == j.metal_symbol@
                        && j.use_edft == edft_applies(metals@[mi].atomic_number, edft)
                &&& exists|a: int|
                    0 <= a < table@.len() && (#[trigger] table@[a]).name@ == j.ads_name@
                        && steps_ok(j.steps@, table@[a], j.case)
            },
{
    let mut jobs: Vec<SeedJob> = Vec::new();
    let mut m: usize = 0;
    while m < metals.len()
        invariant
            m <= metals@.len(),
            jobs_triples(jobs@) =~= product_triples(syms_of(metals@.take(m as int)), table@),
            forall|k: int|
                0 <= k < jobs@.len() ==> {
                    let j = #[trigger] jobs@[k];
                    &&& j.structure_name@ == candidate_name_spec(
                        j.metal_symbol@,
                        j.ads_name@,
                        j.case,
                    )
                    &&& exists|mi: int|
                        0 <= mi < metals@.len() && (#[trigger] metals@[mi]).symbol@
                            == j.metal_symbol@ && j.use_edft == edft_applies(
                            metals@[mi].atomic_number,
                            edft,
                        )
                    &&& exists|a: int|
                        0 <= a < table@.len() && (#[trigger] table@[a]).name@ == j.ads_name@
                            && steps_ok(j.steps@, table@[a], j.case)
                },
        decreases metals@.len() - m,
    {
        let metal = &metals[m];
        let use_edft = use_edft_for(metal.atomic_number, edft);
        let mut batch = plan_metal_jobs(metal.symbol.as_str(), table, use_edft);
        let ghost pre = jobs@;
        let ghost batch_view = batch@;
        jobs.append(&mut batch);
        proof {
            assert(jobs@ == pre + batch_view);
            assert(syms_of(metals@.take(m as int)).push(metals@[m as int].symbol@) =~= syms_of(
                metals@.take(m as int + 1),
            ));
            lemma_product_triples_push(
                syms_of(metals@.take(m as int)),
                metals@[m as int].symbol@,
                table@,
            );
            assert forall|k: int| 0 <= k < jobs@.len() implies jobs_triples(jobs@)[k]
                == product_triples(syms_of(metals@.take(m as int + 1)), table@)[k] by {
                if k < pre.len() {
                    assert(jobs_triples(pre)[k] == product_triples(
                        syms_of(metals@.take(m as int)),
                        table@,
                    )[k]);
                } else {
                    let j = batch_view[k - pre.len()];
                    assert(jobs@[k] == j);
                    assert(jobs_pairs(batch_view)[k - pre.len()] == table_pairs(table@)[k
                        - pre.len()]);
                    assert(sym_triples(metals@[m as int].symbol@, table@)[k - pre.len()] == (
                        metals@[m as int].symbol@,
                        table_pairs(table@)[k - pre.len()].0,
                        table_pairs(table@)[k - pre.len()].1,
                    ));
                }
            }
            assert(jobs_triples(jobs@) =~= product_triples(
                syms_of(metals@.take(m as int + 1)),
                table@,
            ));
            assert forall|k: int| 0 <= k < jobs@.len() implies {
                let j = #[trigger] jobs@[k];
                &&& j.structure_name@ == candidate_name_spec(j.metal_symbol@, j.ads_name@, j.case)
                &&& exists|mi: int|
                    0 <= mi < metals@.len() && (#[trigger] metals@[mi]).symbol@ == j.metal_symbol@
                        && j.use_edft == edft_applies(metals@[mi].atomic_number, edft)
                &&& exists|a: int|
                    0 <= a < table@.len() && (#[trigger] table@[a]).name@ == j.ads_name@
                        && steps_ok(j.steps@, table@[a], j.case)
            } by {
                if k >= pre.len() {
                    let j = jobs@[k];
                    assert(j == batch_view[k - pre.len()]);
                    assert((#[trigger] metals@[m as int]).symbol@ == j.metal_symbol@ && j.use_edft
                        == edft_applies(metals@[m as int].atomic_number, edft));
                }
            }
        }
        m = m + 1;
    }
    proof {
        assert(metals@.take(metals@.len() as int) =~= metals@);
    }
    jobs
}

/// The pair comes from this adsorbate: it carries its name and one of its
/// enumerated cases.
pub open spec fn pair_from(info: AdsorbateInfo, p: (Seq<char>, SiteCase)) -> bool {
    &&& p.0 == info.name@
    &&& enumerate_cases_spec(
        info.coord_atom_ids@.len() as int,
        info.name@,
        info.symmetric,
    ).contains(p.1)
}

/// Every pair of a catalogue comes from one of its adsorbates.
pub proof fn lemma_table_pairs_elem(table: Seq<AdsorbateInfo>, k: int)
    requires
        0 <= k < table_pairs(table).len(),
    ensures
        exists|a: int| 0 <= a < table.len() && pair_from(#[trigger] table[a], table_pairs(table)[k]),
    decreases table.len(),
{
    let cases0 = enumerate_cases_spec(
        table[0].coord_atom_ids@.len() as int,
        table[0].name@,
        table[0].symmetric,
    );
    if k < ads_pairs(table[0]).len() {
        assert(table_pairs(table)[k] == ads_pairs(table[0])[k]);
        assert(ads_pairs(table[0])[k] == (table[0].name@, cases0[k]));
        assert(cases0.contains(cases0[k])) by {
            assert(cases0[k] == cases0[k]);
        }
        assert(pair_from(table[0], table_pairs(table)[k]));
    } else {
        let rest = table.drop_first();
        let kk = k - ads_pairs(table[0]).len();
        assert(table_pairs(table)[k] == table_pairs(rest)[kk]);
        lemma_table_pairs_elem(rest, kk);
        let a = choose|a: int| 0 <= a < rest.len() && pair_from(#[trigger] rest[a], table_pairs(rest)[kk]);
        assert(table[a + 1] == rest[a]);
        assert(pair_from(table[a + 1], table_pairs(table)[k]));
    }
}

/// A catalogue with pairwise-distinct adsorbate names yields
/// pairwise-distinct (adsorbate, case) pairs.
pub proof fn lemma_table_pairs_distinct(table: Seq<AdsorbateInfo>)
    requires
        forall|a1: int, a2: int|
            0 <= a1 < a2 < table.len() ==> table[a1].name@ != table[a2].name@,
    ensures
        forall|k1: int, k2: int|
            0 <= k1 < k2 < table_pairs(table).len() ==> table_pairs(table)[k1] != table_pairs(
                table,
            )[k2],
    decreases table.len(),
{
    if table.len() > 0 {
        let t0 = table[0];
        let rest = table.drop_first();
        let l0 = ads_pairs(t0).len();
        assert(forall|a1: int, a2: int|
            0 <= a1 < a2 < rest.len() ==> rest[a1].name@ != rest[a2].name@) by {
            assert(forall|a: int| 0 <= a < rest.len() ==> rest[a] == table[a + 1]);
        }
        lemma_table_pairs_distinct(rest);
        let arity0 = t0.coord_atom_ids@.len() as int;
        lemma_enumerate_cases_distinct(arity0, t0.name@, t0.symmetric);
        assert forall|k1: int, k2: int|
            0 <= k1 < k2 < table_pairs(table).len() implies table_pairs(table)[k1] != table_pairs(
            table,
        )[k2] by {
            if k2 < l0 {
                assert(table_pairs(table)[k1] == ads_pairs(t0)[k1]);
                assert(table_pairs(table)[k2] == ads_pairs(t0)[k2]);
                assert(enumerate_cases_spec(arity0, t0.name@, t0.symmetric)[k1]
                    != enumerate_cases_spec(arity0, t0.name@, t0.symmetric)[k2]);
            } else if k1 < l0 {
                assert(table_pairs(table)[k1] == ads_pairs(t0)[k1]);
                assert(table_pairs(table)[k1].0 == t0.name@);
                assert(table_pairs(table)[k2] == table_pairs(rest)[k2 - l0]);
                lemma_table_pairs_elem(rest, k2 - l0);
                let a = choose|a: int|
                    0 <= a < rest.len() && pair_from(#[trigger] rest[a], table_pairs(rest)[k2 - l0]);
                assert(rest[a] == table[a + 1]);
                assert(table[0].name@ != table[a + 1].name@);
            } else {
                assert(table_pairs(table)[k1] == table_pairs(rest)[k1 - l0]);
                assert(table_pairs(table)[k2] == table_pairs(rest)[k2 - l0]);
            }
        }
    }
}

/// Every product triple carries the symbol of one of the metals and a pair
/// of the catalogue.
pub proof fn lemma_product_triples_elem(syms: Seq<Seq<char>>, table: Seq<AdsorbateInfo>, k: int)
    requires
        0 <= k < product_triples(syms, table).len(),
    ensures
        exists|s: int| 0 <= s < syms.len() && product_triples(syms, table)[k].0 == syms[s],
        exists|kk: int|
            0 <= kk < table_pairs(table).len() && product_triples(syms, table)[k].1 == table_pairs(
                table,
            )[kk].0 && product_triples(syms, table)[k].2 == table_pairs(table)[kk].1,
    decreases syms.len(),
{
    let l0 = sym_triples(syms[0], table).len();
    if k < l0 {
        assert(product_triples(syms, table)[k] == sym_triples(syms[0], table)[k]);
        assert(sym_triples(syms[0], table)[k] == (
            syms[0],
            table_pairs(table)[k].0,
            table_pairs(table)[k].1,
        ));
    } else {
        let rest = syms.drop_first();
        assert(product_triples(syms, table)[k] == product_triples(rest, table)[k - l0]);
        lemma_product_triples_elem(rest, table, k - l0);
        let s = choose|s: int|
            0 <= s < rest.len() && product_triples(rest, table)[k - l0].0 == rest[s];
        assert(syms[s + 1] == rest[s]);
    }
}

/// Distinct metal symbols and distinct adsorbate names yield
/// pairwise-distinct provenance triples over the whole product.
pub proof fn lemma_product_triples_distinct(syms: Seq<Seq<char>>, table: Seq<AdsorbateInfo>)
    requires
        forall|s1: int, s2: int| 0 <= s1 < s2 < syms.len() ==> syms[s1] != syms[s2],
        forall|a1: int, a2: int|
            0 <= a1 < a2 < table.len() ==> table[a1].name@ != table[a2].name@,
    ensures
        forall|k1: int, k2: int|
            0 <= k1 < k2 < product_triples(syms, table).len() ==> product_triples(syms, table)[k1]
                != product_triples(syms, table)[k2],
    decreases syms.len(),
{
    if syms.len() > 0 {
        let s0 = syms[0];
        let rest = syms.drop_first();
        let l0 = sym_triples(s0, table).len();
        assert(forall|s1: int, s2: int|
            0 <= s1 < s2 < rest.len() ==> rest[s1] != rest[s2]) by {
            assert(forall|s: int| 0 <= s < rest.len() ==> rest[s] == syms[s + 1]);
        }
        lemma_product_triples_distinct(rest, table);
        lemma_table_pairs_distinct(table);
        assert forall|k1: int, k2: int|
            0 <= k1 < k2 < product_triples(syms, table).len() implies product_triples(
            syms,
            table,
        )[k1] != product_triples(syms, table)[k2] by {
            if k2 < l0 {
                assert(product_triples(syms, table)[k1] == sym_triples(s0, table)[k1]);
                assert(product_triples(syms, table)[k2] == sym_triples(s0, table)[k2]);
                assert(sym_triples(s0, table)[k1] == (
                    s0,
                    table_pairs(table)[k1].0,
                    table_pairs(table)[k1].1,
                ));
                assert(sym_triples(s0, table)[k2] == (
                    s0,
                    table_pairs(table)[k2].0,
                    table_pairs(table)[k2].1,
                ));
                assert(table_pairs(table)[k1] != table_pairs(table)[k2]);
            } else if k1 < l0 {
                assert(product_triples(syms, table)[k1] == sym_triples(s0, table)[k1]);
                assert(product_triples(syms, table)[k1].0 == s0);
                assert(product_triples(syms, table)[k2] == product_triples(rest, table)[k2 - l0]);
                lemma_product_triples_elem(rest, table, k2 - l0);
                let s = choose|s: int|
                    0 <= s < rest.len() && product_triples(rest, table)[k2 - l0].0 == rest[s];
                assert(rest[s] == syms[s + 1]);
                assert(syms[0] != syms[s + 1]);
            } else {
                assert(product_triples(syms, table)[k1] == product_triples(rest, table)[k1 - l0]);
                assert(product_triples(syms, table)[k2] == product_triples(rest, table)[k2 - l0]);
            }
        }
    }
}

/// Canonical names are unique across the full (metal x adsorbate x
/// site-case) product of one pathway catalogue: for metals with distinct,
/// underscore-free symbols and a catalogue with distinct, underscore-free
/// adsorbate names, no two distinct combinations produce the same name.
pub proof fn lemma_pathway_names_unique(syms: Seq<Seq<char>>, table: Seq<AdsorbateInfo>)
    requires
        forall|s1: int, s2: int| 0 <= s1 < s2 < syms.len() ==> syms[s1] != syms[s2],
        forall|s: int| 0 <= s < syms.len() ==> underscore_free(#[trigger] syms[s]),
        forall|a1: int, a2: int|
            0 <= a1 < a2 < table.len() ==> table[a1].name@ != table[a2].name@,
        forall|a: int| 0 <= a < table.len() ==> underscore_free((#[trigger] table[a]).name@),
    ensures
        forall|k1: int, k2: int|
            0 <= k1 < k2 < product_triples(syms, table).len() ==> candidate_name_spec(
                product_triples(syms, table)[k1].0,
                product_triples(syms, table)[k1].1,
                product_triples(syms, table)[k1].2,
            ) != candidate_name_spec(
                product_triples(syms, table)[k2].0,
                product_triples(syms, table)[k2].1,
                product_triples(syms, table)[k2].2,
            ),
{
    lemma_product_triples_distinct(syms, table);
    assert forall|k1: int, k2: int|
        0 <= k1 < k2 < product_triples(syms, table).len() implies candidate_name_spec(
        product_triples(syms, table)[k1].0,
        product_triples(syms, table)[k1].1,
        product_triples(syms, table)[k1].2,
    ) != candidate_name_spec(
        product_triples(syms, table)[k2].0,
        product_triples(syms, table)[k2].1,
        product_triples(syms, table)[k2].2,
    ) by {
        let t1 = product_triples(syms, table)[k1];
        let t2 = product_triples(syms, table)[k2];
        lemma_triple_components(syms, table, k1);
        lemma_triple_components(syms, table, k2);
        if candidate_name_spec(t1.0, t1.1, t1.2) == candidate_name_spec(t2.0, t2.1, t2.2) {
            lemma_candidate_name_injective(t1.0, t1.1, t1.2, t2.0, t2.1, t2.2);
            assert(t1 == t2);
        }
    }
}

/// A product triple's components are fit for naming: underscore-free symbol
/// and adsorbate name, and a case targeting coordination sites only.
proof fn lemma_triple_components(syms: Seq<Seq<char>>, table: Seq<AdsorbateInfo>, k: int)
    requires
        0 <= k < product_triples(syms, table).len(),
        forall|s: int| 0 <= s < syms.len() ==> underscore_free(#[trigger] syms[s]),
        forall|a: int| 0 <= a < table.len() ==> underscore_free((#[trigger] table[a]).name@),
    ensures
        underscore_free(product_triples(syms, table)[k].0),
        underscore_free(product_triples(syms, table)[k].1),
        case_sites_valid(product_triples(syms, table)[k].2),
{
    lemma_product_triples_elem(syms, table, k);
    let kk = choose|kk: int|
        0 <= kk < table_pairs(table).len() && product_triples(syms, table)[k].1 == table_pairs(
            table,
        )[kk].0 && product_triples(syms, table)[k].2 == table_pairs(table)[kk].1;
    lemma_table_pairs_elem(table, kk);
    let a = choose|a: int| 0 <= a < table.len() && pair_from(#[trigger] table[a], table_pairs(table)[kk]);
    let arity = table[a].coord_atom_ids@.len() as int;
    lemma_enumerate_cases_valid(arity, table[a].name@, table[a].symmetric);
    let cases = enumerate_cases_spec(arity, table[a].name@, table[a].symmetric);
    let i = choose|i: int| 0 <= i < cases.len() && cases[i] == table_pairs(table)[kk].1;
    assert(case_sites_valid(cases[i]));
}

/// No two jobs of one pathway plan share a structure name: with distinct,
/// underscore-free metal symbols and adsorbate names, the canonical names of
/// a planned product are pairwise distinct.
pub proof fn lemma_jobs_names_unique(
    jobs: Seq<SeedJob>,
    syms: Seq<Seq<char>>,
    table: Seq<AdsorbateInfo>,
)
    requires
        jobs_triples(jobs) == product_triples(syms, table),
        forall|k: int|
            0 <= k < jobs.len() ==> (#[trigger] jobs[k]).structure_name@ == candidate_name_spec(
                jobs[k].metal_symbol@,
                jobs[k].ads_name@,
                jobs[k].case,
            ),
        forall|s1: int, s2: int| 0 <= s1 < s2 < syms.len() ==> syms[s1] != syms[s2],
        forall|s: int| 0 <= s < syms.len() ==> underscore_free(#[trigger] syms[s]),
        forall|a1: int, a2: int|
            0 <= a1 < a2 < table.len() ==> table[a1].name@ != table[a2].name@,
        forall|a: int| 0 <= a < table.len() ==> underscore_free((#[trigger] table[a]).name@),
    ensures
        forall|k1: int, k2: int|
            0 <= k1 < k2 < jobs.len() ==> jobs[k1].structure_name@ != jobs[k2].structure_name@,
{
    lemma_pathway_names_unique(syms, table);
    assert forall|k1: int, k2: int|
        0 <= k1 < k2 < jobs.len() implies jobs[k1].structure_name@ != jobs[k2].structure_name@ by {
        assert(jobs_triples(jobs)[k1] == job_triple(jobs[k1]));
        assert(jobs_triples(jobs)[k2] == job_triple(jobs[k2]));
        assert(product_triples(syms, table)[k1] == job_triple(jobs[k1]));
        assert(product_triples(syms, table)[k2] == job_triple(jobs[k2]));
    }
}

} // verus!
