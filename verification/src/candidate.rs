use vstd::prelude::*;

use crate::enumerate::{case_sites_valid, SiteCase};
use crate::errors::GenError;
use crate::naming::{
    join_underscore, lemma_join_append, lemma_join_injective, underscore_free,
};
use crate::sites::{
    find_site_label, is_site_id, lemma_site_label_injective, lemma_site_label_underscore_free,
    site_label_spec,
};

verus! {

/// The site labels of a list of site ids.
pub open spec fn labels_of(ids: Seq<u32>) -> Seq<Seq<char>> {
    ids.map_values(|id: u32| site_label_spec(id))
}

/// The tokens of one naming suffix: the adsorbate name followed by the
/// labels of the target sites.
pub open spec fn suffix_tokens(ads: Seq<char>, ids: Seq<u32>) -> Seq<Seq<char>> {
    seq![ads] + labels_of(ids)
}

/// The name tokens a site case contributes after the lattice name: for a
/// tandem placement the adsorbate name appears once per occupant, exactly as
/// the two successive placements each append their own suffix.
pub open spec fn case_tokens(ads: Seq<char>, c: SiteCase) -> Seq<Seq<char>> {
    match c {
        SiteCase::Single(a) => seq![ads, site_label_spec(a)],
        SiteCase::Pair(a, b) => seq![ads, site_label_spec(a), site_label_spec(b)],
        SiteCase::Tandem(a, b) => seq![
            ads,
            site_label_spec(a),
            ads,
            site_label_spec(b),
        ],
    }
}

/// The suffix a site case appends to the lattice name.
pub open spec fn case_suffix_spec(ads: Seq<char>, c: SiteCase) -> Seq<char> {
    seq!['_'] + join_underscore(case_tokens(ads, c))
}

/// The tokens of a metal-variant lattice name: the fixed base prefix and the
/// metal's element symbol.
pub open spec fn metal_name_tokens(sym: Seq<char>) -> Seq<Seq<char>> {
    seq![seq!['S', 'A', 'C'], seq!['G', 'D', 'Y'], sym]
}

/// The metal-variant lattice name: `SAC_GDY_{symbol}`.
pub open spec fn metal_lattice_name_spec(sym: Seq<char>) -> Seq<char> {
    join_underscore(metal_name_tokens(sym))
}

/// The canonical name of one candidate structure, as token list.
pub open spec fn candidate_name_tokens(sym: Seq<char>, ads: Seq<char>, c: SiteCase) -> Seq<
    Seq<char>,
> {
    metal_name_tokens(sym) + case_tokens(ads, c)
}

/// The canonical name of one candidate structure:
/// `SAC_GDY_{symbol}_{adsorbate}_{site labels}`.
pub open spec fn candidate_name_spec(sym: Seq<char>, ads: Seq<char>, c: SiteCase) -> Seq<char> {
    join_underscore(candidate_name_tokens(sym, ads, c))
}

/// Appending a case suffix to a metal-variant lattice name gives the
/// candidate's canonical name.
pub proof fn lemma_candidate_name_composition(sym: Seq<char>, ads: Seq<char>, c: SiteCase)
    ensures
        metal_lattice_name_spec(sym) + case_suffix_spec(ads, c) == candidate_name_spec(
            sym,
            ads,
            c,
        ),
{
    lemma_join_append(metal_name_tokens(sym), case_tokens(ads, c));
    assert(metal_lattice_name_spec(sym) + case_suffix_spec(ads, c) =~= join_underscore(
        metal_name_tokens(sym),
    ) + seq!['_'] + join_underscore(case_tokens(ads, c)));
}

/// Join the given tokens with single underscores.
pub fn join_with_underscore(parts: &Vec<String>) -> (r: String)
    requires
        parts@.len() >= 1,
    ensures
        r@ == join_underscore(parts@.map_values(|s: String| s@)),
{
    let ghost m = parts@.map_values(|s: String| s@);
    let mut r: String = parts[0].clone();
    let mut i: usize = 1;
    while i < parts.len()
        invariant
            1 <= i <= parts@.len(),
            m == parts@.map_values(|s: String| s@),
            r@ == join_underscore(m.take(i as int)),
        decreases parts@.len() - i,
    {
        r.append("_");
        r.append(parts[i].as_str());
        proof {
            reveal_strlit("_");
            assert("_"@ =~= seq!['_']);
            lemma_join_append(m.take(i as int), seq![m[i as int]]);
            assert(m.take(i as int) + seq![m[i as int]] =~= m.take(i as int + 1));
            assert(join_underscore(seq![m[i as int]]) == m[i as int]);
        }
        i = i + 1;
    }
    proof {
        assert(m.take(parts@.len() as int) =~= m);
    }
    r
}

/// Format the naming suffix `_{adsorbate}_{site labels}` for a placement at
/// the given target sites.  Fails, naming the offending id, exactly when a
/// target id is not in the coordination-site table.
pub fn adsorption_naming(ads_name: &str, target_site_ids: &Vec<u32>) -> (r: Result<
    String,
    GenError,
>)
    ensures
        r is Ok <==> (forall|i: int|
            0 <= i < target_site_ids@.len() ==> is_site_id(#[trigger] target_site_ids@[i])),
        r matches Ok(n) ==> n@ == seq!['_'] + join_underscore(
            suffix_tokens(ads_name@, target_site_ids@),
        ),
        r matches Err(e) ==> e matches GenError::UnknownSiteId { site_id } && !is_site_id(site_id)
            && target_site_ids@.contains(site_id),
{
    let mut tokens: Vec<String> = Vec::new();
    tokens.push(ads_name.to_owned());
    let mut k: usize = 0;
    while k < target_site_ids.len()
        invariant
            k <= target_site_ids@.len(),
            forall|i: int| 0 <= i < k ==> is_site_id(#[trigger] target_site_ids@[i]),
            tokens@.len() == k + 1,
            tokens@[0]@ == ads_name@,
            forall|i: int|
                0 <= i < k ==> (#[trigger] tokens@[i + 1])@ == site_label_spec(
                    target_site_ids@[i],
                ),
        decreases target_site_ids@.len() - k,
    {
        let id = target_site_ids[k];
        match find_site_label(id) {
            Some(l) => {
                tokens.push(l.to_owned());
            },
            None => {
                return Err(GenError::UnknownSiteId { site_id: id });
            },
        }
        k = k + 1;
    }
    proof {
        let f = |s: String| s@;
        assert forall|i: int| 0 <= i < tokens@.len() implies tokens@.map_values(f)[i]
            == suffix_tokens(ads_name@, target_site_ids@)[i] by {
            if i > 0 {
                assert(tokens@[(i - 1) + 1]@ == site_label_spec(target_site_ids@[i - 1]));
            }
        }
        assert(tokens@.map_values(f) =~= suffix_tokens(ads_name@, target_site_ids@));
    }
    let joined = join_with_underscore(&tokens);
    let mut r: String = "_".to_owned();
    r.append(joined.as_str());
    proof {
        reveal_strlit("_");
        assert("_"@ =~= seq!['_']);
    }
    Ok(r)
}

/// Format the metal-variant lattice name `SAC_GDY_{symbol}`.
pub fn metal_lattice_name(symbol: &str) -> (r: String)
    ensures
        r@ == metal_lattice_name_spec(symbol@),
{
    let mut r: String = "SAC_GDY_".to_owned();
    r.append(symbol);
    proof {
        reveal_strlit("SAC_GDY_");
        assert("SAC_GDY_"@ =~= seq!['S', 'A', 'C', '_', 'G', 'D', 'Y', '_']);
        let toks = metal_name_tokens(symbol@);
        assert(join_underscore(seq![symbol@]) == symbol@);
        assert(toks.drop_first() =~= seq![seq!['G', 'D', 'Y'], symbol@]);
        assert(toks.drop_first().drop_first() =~= seq![symbol@]);
        assert(join_underscore(seq![seq!['G', 'D', 'Y'], symbol@]) == seq!['G', 'D', 'Y'] + seq![
            '_',
        ] + symbol@);
        assert(metal_lattice_name_spec(symbol@) == seq!['S', 'A', 'C'] + seq!['_'] + (seq![
            'G',
            'D',
            'Y',
        ] + seq!['_'] + symbol@));
        assert(r@ =~= metal_lattice_name_spec(symbol@));
    }
    r
}

/// The canonical structure name of one candidate: the lattice name with the
/// case's suffix appended.  For a tandem case the suffix is the two
/// single-placement suffixes in placement order.  Fails, naming the offending
/// id, exactly when a target id is not in the coordination-site table.
pub fn candidate_structure_name(lat_name: &str, ads_name: &str, c: &SiteCase) -> (r: Result<
    String,
    GenError,
>)
    ensures
        r is Ok <==> case_sites_valid(*c),
        r matches Ok(n) ==> n@ == lat_name@ + case_suffix_spec(ads_name@, *c),
        r matches Err(e) ==> e matches GenError::UnknownSiteId { site_id } && !is_site_id(
            site_id,
        ),
{
    match c {
        SiteCase::Single(a) => {
            let mut ids: Vec<u32> = Vec::new();
            ids.push(*a);
            let suffix = adsorption_naming(ads_name, &ids)?;
            let mut r: String = lat_name.to_owned();
            r.append(suffix.as_str());
            proof {
                assert(suffix_tokens(ads_name@, ids@) =~= case_tokens(ads_name@, *c));
            }
            Ok(r)
        },
        SiteCase::Pair(a, b) => {
            let mut ids: Vec<u32> = Vec::new();
            ids.push(*a);
            ids.push(*b);
            let suffix = adsorption_naming(ads_name, &ids)?;
            let mut r: String = lat_name.to_owned();
            r.append(suffix.as_str());
            proof {
                assert(suffix_tokens(ads_name@, ids@) =~= case_tokens(ads_name@, *c));
            }
            Ok(r)
        },
        SiteCase::Tandem(a, b) => {
            let mut ids1: Vec<u32> = Vec::new();
            ids1.push(*a);
            let suffix1 = adsorption_naming(ads_name, &ids1)?;
            let mut ids2: Vec<u32> = Vec::new();
            ids2.push(*b);
            let suffix2 = adsorption_naming(ads_name, &ids2)?;
            let mut r: String = lat_name.to_owned();
            r.append(suffix1.as_str());
            r.append(suffix2.as_str());
            proof {
                let t1 = suffix_tokens(ads_name@, ids1@);
                let t2 = suffix_tokens(ads_name@, ids2@);
                lemma_join_append(t1, t2);
                assert(t1 + t2 =~= case_tokens(ads_name@, *c));
                assert(r@ =~= lat_name@ + case_suffix_spec(ads_name@, *c));
            }
            Ok(r)
        },
    }
}

/// Canonical names are injective: two candidates with underscore-free metal
/// symbols and adsorbate names, targeting coordination-table sites, share a
/// name only if they are the same (metal, adsorbate, site-case) triple.
pub proof fn lemma_candidate_name_injective(
    sym1: Seq<char>,
    ads1: Seq<char>,
    c1: SiteCase,
    sym2: Seq<char>,
    ads2: Seq<char>,
    c2: SiteCase,
)
    requires
        underscore_free(sym1),
        underscore_free(ads1),
        case_sites_valid(c1),
        underscore_free(sym2),
        underscore_free(ads2),
        case_sites_valid(c2),
        candidate_name_spec(sym1, ads1, c1) == candidate_name_spec(sym2, ads2, c2),
    ensures
        sym1 == sym2,
        ads1 == ads2,
        c1 == c2,
{
    let t1 = candidate_name_tokens(sym1, ads1, c1);
    let t2 = candidate_name_tokens(sym2, ads2, c2);
    assert forall|i: int| 0 <= i < t1.len() implies underscore_free(#[trigger] t1[i]) by {
        lemma_case_tokens_underscore_free(ads1, c1);
    }
    assert forall|i: int| 0 <= i < t2.len() implies underscore_free(#[trigger] t2[i]) by {
        lemma_case_tokens_underscore_free(ads2, c2);
    }
    lemma_join_injective(t1, t2);
    assert(sym1 == t1[2] && sym2 == t2[2]);
    assert(ads1 == t1[3] && ads2 == t2[3]);
    match (c1, c2) {
        (SiteCase::Single(a1), SiteCase::Single(a2)) => {
            assert(site_label_spec(a1) == t1[4] && site_label_spec(a2) == t2[4]);
            lemma_site_label_injective(a1, a2);
        },
        (SiteCase::Pair(a1, b1), SiteCase::Pair(a2, b2)) => {
            assert(site_label_spec(a1) == t1[4] && site_label_spec(a2) == t2[4]);
            assert(site_label_spec(b1) == t1[5] && site_label_spec(b2) == t2[5]);
            lemma_site_label_injective(a1, a2);
            lemma_site_label_injective(b1, b2);
        },
        (SiteCase::Tandem(a1, b1), SiteCase::Tandem(a2, b2)) => {
            assert(site_label_spec(a1) == t1[4] && site_label_spec(a2) == t2[4]);
            assert(site_label_spec(b1) == t1[6] && site_label_spec(b2) == t2[6]);
            lemma_site_label_injective(a1, a2);
            lemma_site_label_injective(b1, b2);
        },
        _ => {
            // Token counts 5, 6 and 7 tell the three case shapes apart.
            assert(false);
        },
    }
}

/// Every token a case contributes is underscore-free, provided the adsorbate
/// name is.
pub proof fn lemma_case_tokens_underscore_free(ads: Seq<char>, c: SiteCase)
    requires
        underscore_free(ads),
    ensures
        forall|i: int|
            0 <= i < case_tokens(ads, c).len() ==> underscore_free(
                #[trigger] case_tokens(ads, c)[i],
            ),
{
    match c {
        SiteCase::Single(a) => {
            lemma_site_label_underscore_free(a);
        },
        SiteCase::Pair(a, b) => {
            lemma_site_label_underscore_free(a);
            lemma_site_label_underscore_free(b);
        },
        SiteCase::Tandem(a, b) => {
            lemma_site_label_underscore_free(a);
            lemma_site_label_underscore_free(b);
        },
    }
}

} // verus!
