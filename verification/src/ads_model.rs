use vstd::prelude::*;

use crate::adsorbate::AdsorbateInfo;
use crate::lattice::{LatticeAtom, LatticeData};
use crate::pathway::{target_dir_spec, PathwayId};

verus! {

/// An adsorbate ready for placement: its own structural model paired with
/// its catalogue descriptor.
#[derive(Debug)]
pub struct AdsModel {
    pub lattice_model: LatticeData,
    pub ads_info: AdsorbateInfo,
}

impl AdsModel {
    pub fn new(lattice_model: LatticeData, ads_info: AdsorbateInfo) -> (r: AdsModel)
        ensures
            r.lattice_model.vectors_text@ == lattice_model.vectors_text@,
            r.lattice_model.atoms@ == lattice_model.atoms@,
            r.ads_info == ads_info,
    {
        AdsModel { lattice_model, ads_info }
    }

    pub fn lattice_model(&self) -> (r: &LatticeData)
        ensures
            r.vectors_text@ == self.lattice_model.vectors_text@,
            r.atoms@ == self.lattice_model.atoms@,
    {
        &self.lattice_model
    }

    pub fn ads_info(&self) -> (r: &AdsorbateInfo)
        ensures
            r == &self.ads_info,
    {
        &self.ads_info
    }
}

/// The file a named adsorbate's structural model is read from, below a
/// catalogue's source directory: `{source_dir}/{name}.msi`.
pub fn adsorbate_file_path(source_dir: &str, ads_name: &str) -> (r: String)
    ensures
        r@ == source_dir@ + seq!['/'] + ads_name@ + ".msi"@,
{
    let mut r: String = source_dir.to_owned();
    r.append("/");
    r.append(ads_name);
    r.append(".msi");
    proof {
        reveal_strlit("/");
        assert("/"@ =~= seq!['/']);
    }
    r
}

/// The file a pathway's named adsorbate model is read from:
/// `adsorbates/{pathway subdirectory}/{name}.msi`.
pub fn adsorbate_model_path(p: PathwayId, ads_name: &str) -> (r: String)
    ensures
        r@ == "adsorbates/"@ + target_dir_spec(p) + seq!['/'] + ads_name@ + ".msi"@,
{
    let mut r: String = "adsorbates/".to_owned();
    r.append(p.target_dir());
    r.append("/");
    r.append(ads_name);
    r.append(".msi");
    proof {
        reveal_strlit("/");
        assert("/"@ =~= seq!['/']);
    }
    r
}

} // verus!
