use vstd::prelude::*;

use crate::adsorbate::{is_sequential_fragment, sequential_fragment_check, AdsorbateInfo};

verus! {

/// How the adsorbate's reference direction is obtained: either no direction
/// is needed (single-atom adsorbates), or it is the vector between two atoms
/// of the host lattice, named by their ids.
#[derive(Clone, Copy, PartialEq, Eq, Structural, Debug)]
pub enum DirectionChoice {
    NoDirection,
    BetweenSites(u32, u32),
}

/// The placement-parameter record handed to the placement engine for one
/// candidate: the reference direction, the tilt angles and bond length with
/// their defaults applied, and the adsorbate's stem, coordination and plane
/// atom-id lists taken verbatim from its descriptor.
///
/// Angles are in millidegrees, the bond length in thousandths of a length
/// unit; the bond-length default is 1.4 length units.
#[derive(Debug)]
pub struct PlacementParams {
    pub direction: DirectionChoice,
    pub plane_angle_milli: u64,
    pub stem_angle_at_coord_milli: u64,
    pub bond_length_milli: u64,
    pub stem_atom_ids: Vec<u32>,
    pub coord_atom_ids: Vec<u32>,
    pub plane_atom_ids: Vec<u32>,
}

/// The documented bond-length default, in thousandths of a length unit.
pub open spec fn default_bond_length_milli() -> u64 {
    1400u64
}

/// The reference-direction rule: no direction for a single-atom adsorbate;
/// the fixed metal-anchor edge (41, 73) for sequential fragments; the fixed
/// default edge (41, 42) for other arity-1 adsorbates; the two target sites
/// themselves for arity-2 adsorbates.
pub open spec fn direction_spec(
    atom_nums: int,
    name: Seq<char>,
    arity: int,
    targets: Seq<u32>,
) -> DirectionChoice {
    if atom_nums == 1 {
        DirectionChoice::NoDirection
    } else if is_sequential_fragment(name) {
        DirectionChoice::BetweenSites(41u32, 73u32)
    } else if arity == 1 {
        DirectionChoice::BetweenSites(41u32, 42u32)
    } else {
        DirectionChoice::BetweenSites(targets[0], targets[1])
    }
}

/// Assemble the placement parameters for placing `info` at the given target
/// sites: the direction rule above, the adsorbate's angles with a 0 default,
/// its bond length with the 1.4-length-unit default, and its atom-id lists
/// copied verbatim.
pub fn build_ads_param(info: &AdsorbateInfo, target_site_ids: &Vec<u32>) -> (r: PlacementParams)
    requires
        info.atom_nums != 1 && !is_sequential_fragment(info.name@) && info.arity() != 1
            ==> target_site_ids@.len() >= 2,
    ensures
        r.direction == direction_spec(
            info.atom_nums as int,
            info.name@,
            info.arity(),
            target_site_ids@,
        ),
        r.plane_angle_milli == if info.plane_angle_milli is Some {
            info.plane_angle_milli->0
        } else {
            0u64
        },
        r.stem_angle_at_coord_milli == if info.stem_angle_at_coord_milli is Some {
            info.stem_angle_at_coord_milli->0
        } else {
            0u64
        },
        r.bond_length_milli == if info.bond_length_milli is Some {
            info.bond_length_milli->0
        } else {
            default_bond_length_milli()
        },
        r.stem_atom_ids@ == info.stem_atom_ids@,
        r.coord_atom_ids@ == info.coord_atom_ids@,
        r.plane_atom_ids@ == info.plane_atom_ids@,
{
    let direction: DirectionChoice = if info.atom_nums == 1 {
        DirectionChoice::NoDirection
    } else if sequential_fragment_check(info.name.as_str()) {
        DirectionChoice::BetweenSites(41, 73)
    } else if info.coord_atom_ids.len() == 1 {
        DirectionChoice::BetweenSites(41, 42)
    } else {
        DirectionChoice::BetweenSites(target_site_ids[0], target_site_ids[1])
    };
    let plane_angle_milli = match info.plane_angle_milli {
        Some(v) => v,
        None => 0,
    };
    let stem_angle_at_coord_milli = match info.stem_angle_at_coord_milli {
        Some(v) => v,
        None => 0,
    };
    let bond_length_milli = match info.bond_length_milli {
        Some(v) => v,
        None => 1400,
    };
    PlacementParams {
        direction,
        plane_angle_milli,
        stem_angle_at_coord_milli,
        bond_length_milli,
        stem_atom_ids: clone_id_list(&info.stem_atom_ids),
        coord_atom_ids: clone_id_list(&info.coord_atom_ids),
        plane_atom_ids: clone_id_list(&info.plane_atom_ids),
    }
}

/// Copy a list of atom ids.
fn clone_id_list(ids: &Vec<u32>) -> (r: Vec<u32>)
    ensures
        r@ == ids@,
{
    let mut r: Vec<u32> = Vec::new();
    let mut i: usize = 0;
    while i < ids.len()
        invariant
            i <= ids@.len(),
            r@ =~= ids@.take(i as int),
        decreases ids@.len() - i,
    {
        r.push(ids[i]);
        i = i + 1;
    }
    proof {
        assert(ids@.take(ids@.len() as int) =~= ids@);
    }
    r
}

} // verus!
