use vstd::prelude::*;

verus! {

/// A stored flower record, identified by the hyphenated text of a UUID.
#[derive(Debug, Clone)]
pub struct Flower {
    pub flw_id: String,
    pub flw_source: String,
    pub flw_name: String,
    pub flw_img: String,
    pub flw_family: String,
    pub flw_season: String,
    pub flw_desc: String,
    pub flw_site_chars: String,
    pub flw_plant_traits: String,
    pub flw_special_cons: String,
    pub flw_growing_infos: String,
    pub flw_varieties: String,
}

/// The fields a client supplies to create a flower: all but the identifier.
#[derive(Debug, Clone)]
pub struct NewFlower {
    pub flw_source: String,
    pub flw_name: String,
    pub flw_img: String,
    pub flw_family: String,
    pub flw_season: String,
    pub flw_desc: String,
    pub flw_site_chars: String,
    pub flw_plant_traits: String,
    pub flw_special_cons: String,
    pub flw_growing_infos: String,
    pub flw_varieties: String,
}

/// `f` carries every supplied field of `new_flower` unchanged, under the
/// identifier `id`.
pub open spec fn is_record_of(f: Flower, new_flower: NewFlower, id: Seq<char>) -> bool {
    &&& f.flw_id@ == id
    &&& f.flw_source == new_flower.flw_source
    &&& f.flw_name == new_flower.flw_name
    &&& f.flw_img == new_flower.flw_img
    &&& f.flw_family == new_flower.flw_family
    &&& f.flw_season == new_flower.flw_season
    &&& f.flw_desc == new_flower.flw_desc
    &&& f.flw_site_chars == new_flower.flw_site_chars
    &&& f.flw_plant_traits == new_flower.flw_plant_traits
    &&& f.flw_special_cons == new_flower.flw_special_cons
    &&& f.flw_growing_infos == new_flower.flw_growing_infos
    &&& f.flw_varieties == new_flower.flw_varieties
}

impl Flower {
    /// The record that stores `new_flower` under the identifier `id`.
    pub fn from_new(new_flower: &NewFlower, id: String) -> (r: Flower)
        ensures
            is_record_of(r, *new_flower, id@),
    {
        Flower {
            flw_id: id,
            flw_source: new_flower.flw_source.clone(),
            flw_name: new_flower.flw_name.clone(),
            flw_img: new_flower.flw_img.clone(),
            flw_family: new_flower.flw_family.clone(),
            flw_season: new_flower.flw_season.clone(),
            flw_desc: new_flower.flw_desc.clone(),
            flw_site_chars: new_flower.flw_site_chars.clone(),
            flw_plant_traits: new_flower.flw_plant_traits.clone(),
            flw_special_cons: new_flower.flw_special_cons.clone(),
            flw_growing_infos: new_flower.flw_growing_infos.clone(),
            flw_varieties: new_flower.flw_varieties.clone(),
        }
    }
}

} // verus!
