use vstd::prelude::*;

use crate::adsorbate::{is_sequential_fragment, sequential_fragment_check, AdsorbateInfo};
use crate::sites::{
    double_cases_spec, gdy_double_cases, gdy_single_cases, is_site_id, single_cases_spec,
};

verus! {

/// One candidate placement target for an adsorbate.
///
/// - `Single(a)`: one unit placed at site `a`;
/// - `Pair(a, b)`: one unit bound across the adjacency edge `(a, b)`, in that
///   orientation;
/// - `Tandem(a, b)`: one unit placed at `a`, then a second unit of the same
///   adsorbate placed at `b` on the already-modified structure.
#[derive(Clone, Copy, PartialEq, Eq, Structural, Debug)]
pub enum SiteCase {
    Single(u32),
    Pair(u32, u32),
    Tandem(u32, u32),
}

/// Every site id the case targets is in the coordination-site table.
pub open spec fn case_sites_valid(c: SiteCase) -> bool {
    match c {
        SiteCase::Single(a) => is_site_id(a),
        SiteCase::Pair(a, b) => is_site_id(a) && is_site_id(b),
        SiteCase::Tandem(a, b) => is_site_id(a) && is_site_id(b),
    }
}

/// The seven singleton candidates, one per coordination site, in table order.
pub open spec fn singles_enum_spec() -> Seq<SiteCase> {
    seq![
        SiteCase::Single(41u32),
        SiteCase::Single(42u32),
        SiteCase::Single(54u32),
        SiteCase::Single(53u32),
        SiteCase::Single(52u32),
        SiteCase::Single(40u32),
        SiteCase::Single(73u32),
    ]
}

/// The seven tandem-pair candidates, one per adjacency edge, in table order.
pub open spec fn tandems_enum_spec() -> Seq<SiteCase> {
    seq![
        SiteCase::Tandem(41u32, 42u32),
        SiteCase::Tandem(42u32, 54u32),
        SiteCase::Tandem(54u32, 53u32),
        SiteCase::Tandem(53u32, 52u32),
        SiteCase::Tandem(41u32, 40u32),
        SiteCase::Tandem(41u32, 73u32),
        SiteCase::Tandem(42u32, 73u32),
    ]
}

/// The seven edge candidates in forward orientation, in table order.
pub open spec fn pairs_forward_spec() -> Seq<SiteCase> {
    seq![
        SiteCase::Pair(41u32, 42u32),
        SiteCase::Pair(42u32, 54u32),
        SiteCase::Pair(54u32, 53u32),
        SiteCase::Pair(53u32, 52u32),
        SiteCase::Pair(41u32, 40u32),
        SiteCase::Pair(41u32, 73u32),
        SiteCase::Pair(42u32, 73u32),
    ]
}

/// The seven edge candidates with endpoints swapped, in table order.
pub open spec fn pairs_swapped_spec() -> Seq<SiteCase> {
    seq![
        SiteCase::Pair(42u32, 41u32),
        SiteCase::Pair(54u32, 42u32),
        SiteCase::Pair(53u32, 54u32),
        SiteCase::Pair(52u32, 53u32),
        SiteCase::Pair(40u32, 41u32),
        SiteCase::Pair(73u32, 41u32),
        SiteCase::Pair(73u32, 42u32),
    ]
}

/// The deterministic candidate sequence for an adsorbate of the given
/// coordination arity, name and symmetry flag.  Arities other than 1 and 2
/// yield no candidates.
pub open spec fn enumerate_cases_spec(arity: int, name: Seq<char>, symmetric: bool) -> Seq<
    SiteCase,
> {
    if arity == 1 {
        if is_sequential_fragment(name) {
            singles_enum_spec() + tandems_enum_spec()
        } else {
            singles_enum_spec()
        }
    } else if arity == 2 {
        if symmetric {
            pairs_forward_spec()
        } else {
            pairs_forward_spec() + pairs_swapped_spec()
        }
    } else {
        Seq::empty()
    }
}

/// Enumerate the candidate site cases for one adsorbate, in the fixed
/// deterministic order: singleton sites in table order, then (for sequential
/// fragments) tandem pairs in edge order; for arity 2 the forward edges, then
/// (for asymmetric adsorbates) the same edges endpoint-swapped.
pub fn enumerate_site_cases(info: &AdsorbateInfo) -> (r: Vec<SiteCase>)
    ensures
        r@ == enumerate_cases_spec(info.arity(), info.name@, info.symmetric),
{
    let arity = info.coord_atom_ids.len();
    let mut v: Vec<SiteCase> = Vec::new();
    if arity == 1 {
        let singles = gdy_single_cases();
        let mut i: usize = 0;
        while i < singles.len()
            invariant
                singles@ == single_cases_spec(),
                i <= singles@.len(),
                v@ =~= singles_enum_spec().take(i as int),
            decreases singles@.len() - i,
        {
            v.push(SiteCase::Single(singles[i]));
            i = i + 1;
        }
        assert(v@ =~= singles_enum_spec());
        if sequential_fragment_check(info.name.as_str()) {
            let doubles = gdy_double_cases();
            let mut j: usize = 0;
            while j < doubles.len()
                invariant
                    doubles@ == double_cases_spec(),
                    j <= doubles@.len(),
                    v@ =~= singles_enum_spec() + tandems_enum_spec().take(j as int),
                decreases doubles@.len() - j,
            {
                let (a, b) = doubles[j];
                v.push(SiteCase::Tandem(a, b));
                j = j + 1;
            }
            assert(v@ =~= singles_enum_spec() + tandems_enum_spec());
        }
    } else if arity == 2 {
        let doubles = gdy_double_cases();
        let mut j: usize = 0;
        while j < doubles.len()
            invariant
                doubles@ == double_cases_spec(),
                j <= doubles@.len(),
                v@ =~= pairs_forward_spec().take(j as int),
            decreases doubles@.len() - j,
        {
            let (a, b) = doubles[j];
            v.push(SiteCase::Pair(a, b));
            j = j + 1;
        }
        assert(v@ =~= pairs_forward_spec());
        if !info.symmetric {
            let mut j: usize = 0;
            while j < doubles.len()
                invariant
                    doubles@ == double_cases_spec(),
                    j <= doubles@.len(),
                    v@ =~= pairs_forward_spec() + pairs_swapped_spec().take(j as int),
                decreases doubles@.len() - j,
            {
                let (a, b) = doubles[j];
                v.push(SiteCase::Pair(b, a));
                j = j + 1;
            }
            assert(v@ =~= pairs_forward_spec() + pairs_swapped_spec());
        }
    }
    v
}

/// For an arity-1 adsorbate outside the sequential-fragment name-set, the
/// enumerator yields exactly 7 candidates: one singleton per coordination
/// site, in table order.
pub proof fn lemma_arity_one_candidates(name: Seq<char>, symmetric: bool)
    requires
        !is_sequential_fragment(name),
    ensures
        enumerate_cases_spec(1, name, symmetric).len() == 7,
        forall|i: int|
            0 <= i < 7 ==> enumerate_cases_spec(1, name, symmetric)[i] == SiteCase::Single(
                single_cases_spec()[i],
            ),
{
}

/// For an arity-1 adsorbate in the sequential-fragment name-set, the
/// enumerator yields the 7 singleton candidates followed by 7 tandem-pair
/// candidates, one per adjacency edge, in table order.
pub proof fn lemma_sequential_fragment_candidates(name: Seq<char>, symmetric: bool)
    requires
        is_sequential_fragment(name),
    ensures
        enumerate_cases_spec(1, name, symmetric).len() == 14,
        forall|i: int|
            0 <= i < 7 ==> enumerate_cases_spec(1, name, symmetric)[i] == SiteCase::Single(
                single_cases_spec()[i],
            ),
        forall|i: int|
            0 <= i < 7 ==> enumerate_cases_spec(1, name, symmetric)[7 + i] == SiteCase::Tandem(
                double_cases_spec()[i].0,
                double_cases_spec()[i].1,
            ),
{
}

/// For an arity-2 symmetric adsorbate the enumerator yields exactly the 7
/// adjacency edges, forward, in table order.
pub proof fn lemma_arity_two_symmetric_candidates(name: Seq<char>)
    ensures
        enumerate_cases_spec(2, name, true).len() == 7,
        forall|i: int|
            0 <= i < 7 ==> enumerate_cases_spec(2, name, true)[i] == SiteCase::Pair(
                double_cases_spec()[i].0,
                double_cases_spec()[i].1,
            ),
{
}

/// For an arity-2 asymmetric adsorbate the enumerator yields 14 candidates:
/// the 7 forward edges, then the exact endpoint-swap of each of those 7, in
/// matching order.
pub proof fn lemma_arity_two_asymmetric_candidates(name: Seq<char>)
    ensures
        enumerate_cases_spec(2, name, false).len() == 14,
        forall|i: int|
            0 <= i < 7 ==> enumerate_cases_spec(2, name, false)[i] == SiteCase::Pair(
                double_cases_spec()[i].0,
                double_cases_spec()[i].1,
            ),
        forall|i: int|
            0 <= i < 7 ==> enumerate_cases_spec(2, name, false)[7 + i] == SiteCase::Pair(
                double_cases_spec()[i].1,
                double_cases_spec()[i].0,
            ),
{
}

/// The enumerator never yields the same candidate twice for one adsorbate.
pub proof fn lemma_enumerate_cases_distinct(arity: int, name: Seq<char>, symmetric: bool)
    ensures
        forall|i: int, j: int|
            0 <= i < j < enumerate_cases_spec(arity, name, symmetric).len()
                ==> enumerate_cases_spec(arity, name, symmetric)[i] != enumerate_cases_spec(
                arity,
                name,
                symmetric,
            )[j],
{
}

/// Every candidate the enumerator yields targets coordination-site ids only.
pub proof fn lemma_enumerate_cases_valid(arity: int, name: Seq<char>, symmetric: bool)
    ensures
        forall|i: int|
            0 <= i < enumerate_cases_spec(arity, name, symmetric).len() ==> case_sites_valid(
                #[trigger] enumerate_cases_spec(arity, name, symmetric)[i],
            ),
{
}

} // verus!
