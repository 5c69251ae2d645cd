use vstd::prelude::*;

verus! {

/// A named coordination position on the host lattice, eligible to bind an
/// adsorbate: a short label (such as "c1" or "M") paired with the stable atom
/// id of that position in the base lattice.
#[derive(Debug)]
pub struct CoordSite {
    pub site_name: &'static str,
    pub site_id: u32,
}

impl CoordSite {
    pub fn site_name(&self) -> (r: &str)
        ensures
            r@ == self.site_name@,
    {
        self.site_name
    }

    pub fn site_id(&self) -> (r: u32)
        ensures
            r == self.site_id,
    {
        self.site_id
    }
}

/// The atom ids of the seven coordination sites, in enumeration order.
pub open spec fn single_cases_spec() -> Seq<u32> {
    seq![41u32, 42u32, 54u32, 53u32, 52u32, 40u32, 73u32]
}

/// The seven undirected adjacency edges over the coordination sites, in
/// enumeration order; each pair is stored in its forward orientation.
pub open spec fn double_cases_spec() -> Seq<(u32, u32)> {
    seq![
        (41u32, 42u32),
        (42u32, 54u32),
        (54u32, 53u32),
        (53u32, 52u32),
        (41u32, 40u32),
        (41u32, 73u32),
        (42u32, 73u32),
    ]
}

/// Whether `id` is one of the seven coordination-site atom ids.
pub open spec fn is_site_id(id: u32) -> bool {
    id == 41 || id == 42 || id == 54 || id == 53 || id == 52 || id == 40 || id == 73
}

/// The label of a coordination site, as a sequence of characters.  Only
/// meaningful for ids satisfying `is_site_id`.
pub open spec fn site_label_spec(id: u32) -> Seq<char> {
    if id == 41 {
        seq!['c', '1']
    } else if id == 42 {
        seq!['c', '2']
    } else if id == 54 {
        seq!['c', '3']
    } else if id == 53 {
        seq!['c', '4']
    } else if id == 52 {
        seq!['F', 'R']
    } else if id == 40 {
        seq!['N', 'R']
    } else if id == 73 {
        seq!['M']
    } else {
        Seq::empty()
    }
}

/// Site labels never contain an underscore; the canonical-name parse relies
/// on this.
pub proof fn lemma_site_label_underscore_free(id: u32)
    ensures
        forall|i: int|
            0 <= i < site_label_spec(id).len() ==> site_label_spec(id)[i] != '_',
{
}

/// Distinct coordination sites carry distinct labels.
pub proof fn lemma_site_label_injective(a: u32, b: u32)
    requires
        is_site_id(a),
        is_site_id(b),
        site_label_spec(a) == site_label_spec(b),
    ensures
        a == b,
{
    if a != b {
        assert(site_label_spec(a)[0] != site_label_spec(b)[0] || site_label_spec(a).len()
            != site_label_spec(b).len() || site_label_spec(a)[1] != site_label_spec(b)[1]);
    }
}

/// The atom ids eligible for a single-site placement: the seven coordination
/// sites in their fixed enumeration order.
pub fn gdy_single_cases() -> (r: Vec<u32>)
    ensures
        r@ == single_cases_spec(),
{
    let mut v: Vec<u32> = Vec::new();
    v.push(41);
    v.push(42);
    v.push(54);
    v.push(53);
    v.push(52);
    v.push(40);
    v.push(73);
    proof {
        assert(v@ =~= single_cases_spec());
    }
    v
}

/// The adjacency edges eligible for a two-site placement, in their fixed
/// enumeration order and forward orientation.
pub fn gdy_double_cases() -> (r: Vec<(u32, u32)>)
    ensures
        r@ == double_cases_spec(),
{
    let mut v: Vec<(u32, u32)> = Vec::new();
    v.push((41, 42));
    v.push((42, 54));
    v.push((54, 53));
    v.push((53, 52));
    v.push((41, 40));
    v.push((41, 73));
    v.push((42, 73));
    proof {
        assert(v@ =~= double_cases_spec());
    }
    v
}

/// The full coordination-site table: label and atom id of each of the seven
/// sites, ordered as `single_cases_spec`.
pub fn gdy_coord_sites() -> (r: Vec<CoordSite>)
    ensures
        r@.len() == 7,
        forall|i: int|
            0 <= i < 7 ==> (#[trigger] r@[i]).site_id == single_cases_spec()[i],
        forall|i: int|
            0 <= i < 7 ==> (#[trigger] r@[i]).site_name@ == site_label_spec(single_cases_spec()[i]),
{
    let mut v: Vec<CoordSite> = Vec::new();
    v.push(CoordSite { site_name: "c1", site_id: 41 });
    v.push(CoordSite { site_name: "c2", site_id: 42 });
    v.push(CoordSite { site_name: "c3", site_id: 54 });
    v.push(CoordSite { site_name: "c4", site_id: 53 });
    v.push(CoordSite { site_name: "FR", site_id: 52 });
    v.push(CoordSite { site_name: "NR", site_id: 40 });
    v.push(CoordSite { site_name: "M", site_id: 73 });
    proof {
        reveal_strlit("c1");
        reveal_strlit("c2");
        reveal_strlit("c3");
        reveal_strlit("c4");
        reveal_strlit("FR");
        reveal_strlit("NR");
        reveal_strlit("M");
        assert(v@[0].site_name@ =~= site_label_spec(41));
        assert(v@[1].site_name@ =~= site_label_spec(42));
        assert(v@[2].site_name@ =~= site_label_spec(54));
        assert(v@[3].site_name@ =~= site_label_spec(53));
        assert(v@[4].site_name@ =~= site_label_spec(52));
        assert(v@[5].site_name@ =~= site_label_spec(40));
        assert(v@[6].site_name@ =~= site_label_spec(73));
    }
    v
}

/// Look a coordination site up by atom id; `None` exactly when the id is not
/// in the fixed table.
pub fn find_site_label(site_id: u32) -> (r: Option<&'static str>)
    ensures
        r is Some <==> is_site_id(site_id),
        r is Some ==> r->0@ == site_label_spec(site_id),
{
    let r: Option<&'static str> = if site_id == 41 {
        Some("c1")
    } else if site_id == 42 {
        Some("c2")
    } else if site_id == 54 {
        Some("c3")
    } else if site_id == 53 {
        Some("c4")
    } else if site_id == 52 {
        Some("FR")
    } else if site_id == 40 {
        Some("NR")
    } else if site_id == 73 {
        Some("M")
    } else {
        None
    };
    proof {
        reveal_strlit("c1");
        reveal_strlit("c2");
        reveal_strlit("c3");
        reveal_strlit("c4");
        reveal_strlit("FR");
        reveal_strlit("NR");
        reveal_strlit("M");
        if is_site_id(site_id) {
            assert(r->0@ =~= site_label_spec(site_id));
        }
    }
    r
}

} // verus!
