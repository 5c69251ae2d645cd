use vstd::prelude::*;

use crate::candidate::{metal_lattice_name, metal_lattice_name_spec};
use crate::elements::MetalElement;
use crate::errors::GenError;

verus! {

/// One atom of a lattice: its element identity (symbol and atomic number),
/// its stable 1-based id, and its position, carried as the exact text it was
/// read with so that edits that do not touch geometry provably leave it
/// byte-identical.
#[derive(Debug)]
pub struct LatticeAtom {
    pub element_symbol: String,
    pub atomic_number: u8,
    pub atom_id: u32,
    pub coord_text: String,
}

/// A structural model: the lattice-vectors block, carried as exact text, and
/// the ordered atom list.
#[derive(Debug)]
pub struct LatticeData {
    pub vectors_text: String,
    pub atoms: Vec<LatticeAtom>,
}

/// Two atoms are equal as values.
pub open spec fn atom_eq(a: LatticeAtom, b: LatticeAtom) -> bool {
    &&& a.element_symbol@ == b.element_symbol@
    &&& a.atomic_number == b.atomic_number
    &&& a.atom_id == b.atom_id
    &&& a.coord_text@ == b.coord_text@
}

/// The host lattice of the screening study: a structural model, its
/// human-readable name, and the designated metal-site atom id.
#[derive(Debug)]
pub struct GDYLattice {
    pub lattice: LatticeData,
    pub lattice_name: String,
    pub metal_site: u32,
}

/// The fixed metal-site atom id of the scaffold.
pub open spec fn gdy_metal_site() -> u32 {
    73u32
}

impl GDYLattice {
    /// Wrap a structural model under a name; the metal site is the
    /// scaffold's fixed site id.
    pub fn new(lattice: LatticeData, lattice_name: String) -> (r: GDYLattice)
        ensures
            r.lattice.vectors_text@ == lattice.vectors_text@,
            r.lattice.atoms@ == lattice.atoms@,
            r.lattice_name@ == lattice_name@,
            r.metal_site == gdy_metal_site(),
    {
        GDYLattice { lattice, lattice_name, metal_site: 73 }
    }

    pub fn lattice(&self) -> (r: &LatticeData)
        ensures
            r.vectors_text@ == self.lattice.vectors_text@,
            r.atoms@ == self.lattice.atoms@,
    {
        &self.lattice
    }

    pub fn lattice_name(&self) -> (r: &str)
        ensures
            r@ == self.lattice_name@,
    {
        self.lattice_name.as_str()
    }

    pub fn metal_site(&self) -> (r: u32)
        ensures
            r == self.metal_site,
    {
        self.metal_site
    }

    pub fn set_lattice_name(&mut self, lattice_name: String)
        ensures
            final (self).lattice_name@ == lattice_name@,
            final (self).lattice.vectors_text@ == old(self).lattice.vectors_text@,
            final (self).lattice.atoms@ == old(self).lattice.atoms@,
            final (self).metal_site == old(self).metal_site,
    {
        self.lattice_name = lattice_name;
    }
}

/// Wrap a freshly decoded base structural model under the scaffold's fixed
/// name `SAC_GDY_M`; decoding the on-disk text is the caller's concern.
pub fn load_base_model(lattice: LatticeData) -> (r: GDYLattice)
    ensures
        r.lattice.vectors_text@ == lattice.vectors_text@,
        r.lattice.atoms@ == lattice.atoms@,
        r.lattice_name@ == "SAC_GDY_M"@,
        r.metal_site == gdy_metal_site(),
{
    GDYLattice::new(lattice, "SAC_GDY_M".to_owned())
}

/// Copy one atom.
fn clone_atom(a: &LatticeAtom) -> (r: LatticeAtom)
    ensures
        atom_eq(r, *a),
{
    LatticeAtom {
        element_symbol: a.element_symbol.clone(),
        atomic_number: a.atomic_number,
        atom_id: a.atom_id,
        coord_text: a.coord_text.clone(),
    }
}

/// Produce the metal variant of the base lattice for one element: a new
/// lattice, identical to the base except that the atom at the metal-site id
/// carries the element's symbol and atomic number, named
/// `SAC_GDY_{symbol}`.  Fails exactly when the metal-site id does not
/// address an atom of the list (ids are 1-based positions).
pub fn edit_metal(basic_model: &GDYLattice, element: &MetalElement) -> (r: Result<
    GDYLattice,
    GenError,
>)
    ensures
        r is Ok <==> 1 <= basic_model.metal_site
            && basic_model.metal_site as int <= basic_model.lattice.atoms@.len(),
        r matches Ok(l2) ==> {
            let site = basic_model.metal_site as int - 1;
            &&& l2.lattice.atoms@.len() == basic_model.lattice.atoms@.len()
            &&& l2.lattice.vectors_text@ == basic_model.lattice.vectors_text@
            &&& forall|j: int|
                0 <= j < l2.lattice.atoms@.len() && j != site ==> atom_eq(
                    #[trigger] l2.lattice.atoms@[j],
                    basic_model.lattice.atoms@[j],
                )
            &&& l2.lattice.atoms@[site].element_symbol@ == element.symbol@
            &&& l2.lattice.atoms@[site].atomic_number == element.atomic_number
            &&& l2.lattice.atoms@[site].atom_id == basic_model.lattice.atoms@[site].atom_id
            &&& l2.lattice.atoms@[site].coord_text@ == basic_model.lattice.atoms@[site].coord_text@
            &&& l2.lattice_name@ == metal_lattice_name_spec(element.symbol@)
            &&& l2.metal_site == basic_model.metal_site
        },
        r matches Err(e) ==> e matches GenError::MetalSiteOutOfRange { metal_site, atom_count }
            && metal_site == basic_model.metal_site && atom_count
            == basic_model.lattice.atoms@.len(),
{
    let metal_id = basic_model.metal_site;
    let atom_count = basic_model.lattice.atoms.len();
    if metal_id == 0 || metal_id as usize > atom_count {
        return Err(
            GenError::MetalSiteOutOfRange { metal_site: metal_id, atom_count },
        );
    }
    let site = (metal_id - 1) as usize;
    let mut atoms: Vec<LatticeAtom> = Vec::new();
    let mut i: usize = 0;
    while i < atom_count
        invariant
            atom_count == basic_model.lattice.atoms@.len(),
            i <= atom_count,
            site < atom_count,
            site == basic_model.metal_site - 1,
            atoms@.len() == i,
            forall|j: int|
                0 <= j < i && j != site ==> atom_eq(
                    #[trigger] atoms@[j],
                    basic_model.lattice.atoms@[j],
                ),
            i > site ==> {
                &&& atoms@[site as int].element_symbol@ == element.symbol@
                &&& atoms@[site as int].atomic_number == element.atomic_number
                &&& atoms@[site as int].atom_id == basic_model.lattice.atoms@[
                    site as int
                ].atom_id
                &&& atoms@[site as int].coord_text@ == basic_model.lattice.atoms@[
                    site as int
                ].coord_text@
            },
        decreases atom_count - i,
    {
        let a = &basic_model.lattice.atoms[i];
        if i == site {
            atoms.push(
                LatticeAtom {
                    element_symbol: element.symbol.clone(),
                    atomic_number: element.atomic_number,
                    atom_id: a.atom_id,
                    coord_text: a.coord_text.clone(),
                },
            );
        } else {
            atoms.push(clone_atom(a));
        }
        i = i + 1;
    }
    let new_name = metal_lattice_name(element.symbol.as_str());
    Ok(
        GDYLattice {
            lattice: LatticeData {
                vectors_text: basic_model.lattice.vectors_text.clone(),
                atoms,
            },
            lattice_name: new_name,
            metal_site: basic_model.metal_site,
        },
    )
}

/// Produce the metal variant of the base lattice for every candidate metal,
/// in catalogue order.  Every variant keeps the base's atom count and
/// lattice vectors and differs from it in exactly the metal-site atom's
/// identity.  Fails exactly when the metal-site id is out of range.
pub fn generate_all_metal_models(base: &GDYLattice, metals: &Vec<MetalElement>) -> (r: Result<
    Vec<GDYLattice>,
    GenError,
>)
    ensures
        r is Ok <==> 1 <= base.metal_site && base.metal_site as int <= base.lattice.atoms@.len(),
        r matches Ok(v) ==> {
            &&& v@.len() == metals@.len()
            &&& forall|m: int|
                0 <= m < v@.len() ==> {
                    let l2 = #[trigger] v@[m];
                    let site = base.metal_site as int - 1;
                    &&& l2.lattice.atoms@.len() == base.lattice.atoms@.len()
                    &&& l2.lattice.vectors_text@ == base.lattice.vectors_text@
                    &&& forall|j: int|
                        0 <= j < l2.lattice.atoms@.len() && j != site ==> atom_eq(
                            #[trigger] l2.lattice.atoms@[j],
                            base.lattice.atoms@[j],
                        )
                    &&& l2.lattice.atoms@[site].element_symbol@ == metals@[m].symbol@
                    &&& l2.lattice.atoms@[site].atomic_number == metals@[m].atomic_number
                    &&& l2.lattice.atoms@[site].coord_text@ == base.lattice.atoms@[
                        site
                    ].coord_text@
                    &&& l2.lattice_name@ == metal_lattice_name_spec(metals@[m].symbol@)
                    &&& l2.metal_site == base.metal_site
                }
        },
{
    let mut v: Vec<GDYLattice> = Vec::new();
    let mut m: usize = 0;
    if base.metal_site == 0 || base.metal_site as usize > base.lattice.atoms.len() {
        return Err(
            GenError::MetalSiteOutOfRange {
                metal_site: base.metal_site,
                atom_count: base.lattice.atoms.len(),
            },
        );
    }
    while m < metals.len()
        invariant
            1 <= base.metal_site && base.metal_site as int <= base.lattice.atoms@.len(),
            m <= metals@.len(),
            v@.len() == m,
            forall|k: int|
                0 <= k < m ==> {
                    let l2 = #[trigger] v@[k];
                    let site = base.metal_site as int - 1;
                    &&& l2.lattice.atoms@.len() == base.lattice.atoms@.len()
                    &&& l2.lattice.vectors_text@ == base.lattice.vectors_text@
                    &&& forall|j: int|
                        0 <= j < l2.lattice.atoms@.len() && j != site ==> atom_eq(
                            #[trigger] l2.lattice.atoms@[j],
                            base.lattice.atoms@[j],
                        )
                    &&& l2.lattice.atoms@[site].element_symbol@ == metals@[k].symbol@
                    &&& l2.lattice.atoms@[site].atomic_number == metals@[k].atomic_number
                    &&& l2.lattice.atoms@[site].coord_text@ == base.lattice.atoms@[
                        site
                    ].coord_text@
                    &&& l2.lattice_name@ == metal_lattice_name_spec(metals@[k].symbol@)
                    &&& l2.metal_site == base.metal_site
                },
        decreases metals@.len() - m,
    {
        let lat = match edit_metal(base, &metals[m]) {
            Ok(l) => l,
            Err(_) => {
                proof {
                    assert(false);
                }
                return Err(
                    GenError::MetalSiteOutOfRange {
                        metal_site: base.metal_site,
                        atom_count: base.lattice.atoms.len(),
                    },
                );
            },
        };
        v.push(lat);
        m = m + 1;
    }
    Ok(v)
}

} // verus!
