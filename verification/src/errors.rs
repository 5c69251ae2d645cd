use vstd::prelude::*;

verus! {

/// A configuration or enumeration defect found while planning a generation
/// run.  Every variant names the value that caused it, so the caller can
/// report a precise diagnostic before aborting the batch.
#[derive(Debug)]
pub enum GenError {
    /// A target site id is not in the fixed coordination-site table.
    UnknownSiteId { site_id: u32 },
    /// The designated metal-site id does not address an atom of the lattice.
    MetalSiteOutOfRange { metal_site: u32, atom_count: usize },
}

/// The diagnostic text of each error.
pub open spec fn message_spec(e: GenError) -> Seq<char> {
    match e {
        GenError::UnknownSiteId { .. } => "target site id is not a coordination site"@,
        GenError::MetalSiteOutOfRange { .. } => "metal site id is out of range for the atom list"@,
    }
}

impl GenError {
    /// A short diagnostic text for the error.
    pub fn message(&self) -> (r: String)
        ensures
            r@ == message_spec(*self),
            r@.len() > 0,
    {
        let r = match self {
            GenError::UnknownSiteId { .. } => "target site id is not a coordination site".to_owned(),
            GenError::MetalSiteOutOfRange { .. } => "metal site id is out of range for the atom list".to_owned(),
        };
        proof {
            reveal_strlit("target site id is not a coordination site");
            reveal_strlit("metal site id is out of range for the atom list");
        }
        r
    }
}

} // verus!
