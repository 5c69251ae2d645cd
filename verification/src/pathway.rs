use vstd::prelude::*;

verus! {

/// Marker trait for reaction-pathway tags.
pub trait Pathway {

}

/// Marker for the CH2-coupling pathway.
pub struct CH2Pathway;

impl Pathway for CH2Pathway {

}

/// Marker for the CO-dimerization pathway.
pub struct COPathway;

impl Pathway for COPathway {

}

/// A reaction-pathway category.  Every category maps to exactly one
/// adsorbate-catalogue file and one output subdirectory; the mapping is total
/// over this enum, so no pathway can be silently unmapped.
#[derive(Clone, Copy, PartialEq, Eq, Structural, Debug)]
pub enum PathwayId {
    CH2Coupling,
    CODimer,
    Water,
    Ethyne,
    Ketene,
    OxalicAcid,
}

/// The catalogue file name of a pathway.
pub open spec fn table_name_spec(p: PathwayId) -> Seq<char> {
    match p {
        PathwayId::CH2Coupling => "ethane_ch2.yaml"@,
        PathwayId::CODimer => "ethane_co_dimer.yaml"@,
        PathwayId::Water => "water.yaml"@,
        PathwayId::Ethyne => "ethyne_path.yaml"@,
        PathwayId::Ketene => "ketene_others.yaml"@,
        PathwayId::OxalicAcid => "oxalic_acid.yaml"@,
    }
}

/// The output subdirectory of a pathway.
pub open spec fn target_dir_spec(p: PathwayId) -> Seq<char> {
    match p {
        PathwayId::CH2Coupling => "CH2_coupling"@,
        PathwayId::CODimer => "CO_dimer"@,
        PathwayId::Water => "water"@,
        PathwayId::Ethyne => "ethyne"@,
        PathwayId::Ketene => "ketene"@,
        PathwayId::OxalicAcid => "oxalic_acid"@,
    }
}

impl PathwayId {
    /// The name of the adsorbate-catalogue file of this pathway.
    pub fn table_name(&self) -> (r: &'static str)
        ensures
            r@ == table_name_spec(*self),
    {
        match self {
            PathwayId::CH2Coupling => "ethane_ch2.yaml",
            PathwayId::CODimer => "ethane_co_dimer.yaml",
            PathwayId::Water => "water.yaml",
            PathwayId::Ethyne => "ethyne_path.yaml",
            PathwayId::Ketene => "ketene_others.yaml",
            PathwayId::OxalicAcid => "oxalic_acid.yaml",
        }
    }

    /// The output subdirectory this pathway's structures are exported under.
    pub fn target_dir(&self) -> (r: &'static str)
        ensures
            r@ == target_dir_spec(*self),
    {
        match self {
            PathwayId::CH2Coupling => "CH2_coupling",
            PathwayId::CODimer => "CO_dimer",
            PathwayId::Water => "water",
            PathwayId::Ethyne => "ethyne",
            PathwayId::Ketene => "ketene",
            PathwayId::OxalicAcid => "oxalic_acid",
        }
    }
}

impl CH2Pathway {
    /// The pathway category this marker stands for.
    pub fn pathway_id() -> (r: PathwayId)
        ensures
            r == PathwayId::CH2Coupling,
    {
        PathwayId::CH2Coupling
    }
}

impl COPathway {
    /// The pathway category this marker stands for.
    pub fn pathway_id() -> (r: PathwayId)
        ensures
            r == PathwayId::CODimer,
    {
        PathwayId::CODimer
    }
}

} // verus!
