use vstd::prelude::*;

verus! {

/// Descriptor of one adsorbate, as read from a pathway's catalogue: the atom
/// ids that coordinate to the host, the stem and plane reference atoms, the
/// symmetry flag, and the optional placement angles and bond length.
///
/// Angles are stored in millidegrees and the bond length in thousandths of a
/// length unit, so that the record holds exact values; a missing entry means
/// the documented default applies when placement parameters are assembled.
#[derive(Debug)]
pub struct AdsorbateInfo {
    pub name: String,
    pub coord_atom_ids: Vec<u32>,
    pub stem_atom_ids: Vec<u32>,
    pub plane_atom_ids: Vec<u32>,
    pub symmetric: bool,
    pub upper_atom_id: u32,
    pub atom_nums: usize,
    pub plane_angle_milli: Option<u64>,
    pub stem_angle_at_coord_milli: Option<u64>,
    pub bond_length_milli: Option<u64>,
}

impl AdsorbateInfo {
    /// Coordination arity: how many host sites the adsorbate binds at once.
    pub open spec fn arity(&self) -> int {
        self.coord_atom_ids@.len() as int
    }
}

/// The fixed name-set of sequentially-bound fragments: adsorbates that, in
/// addition to their singleton placements, are placed twice on the two ends
/// of every adjacency edge.
pub open spec fn is_sequential_fragment(name: Seq<char>) -> bool {
    name == seq!['C', 'H'] || name == seq!['C', 'H', '2']
}

/// Decide membership in the sequential-fragment name-set.
pub fn sequential_fragment_check(name: &str) -> (r: bool)
    ensures
        r == is_sequential_fragment(name@),
{
    let n: String = name.to_owned();
    let ch: String = "CH".to_owned();
    let ch2: String = "CH2".to_owned();
    let r = n == ch || n == ch2;
    proof {
        reveal_strlit("CH");
        reveal_strlit("CH2");
        assert("CH"@ =~= seq!['C', 'H']);
        assert("CH2"@ =~= seq!['C', 'H', '2']);
    }
    r
}

} // verus!
