//! Answers of the geocoding service: the places that match a query.

use vstd::prelude::*;

verus! {

/// One place that matches a query. Numbers with a fraction are kept as decimal text.
#[derive(Debug)]
pub struct GeoCodingData {
    pub place_id: u64,
    pub licence: String,
    pub powered_by: String,
    pub osm_type: String,
    pub osm_id: u64,
    pub boundingbox: Vec<String>,
    /// Latitude, as decimal text.
    pub lat: String,
    /// Longitude, as decimal text.
    pub lon: String,
    pub display_name: String,
    pub class: String,
    pub kind: String,
    /// Rank of the match, as decimal text.
    pub importance: String,
}

/// The name a place is shown under.
pub fn get_display_name(data: &GeoCodingData) -> (name: String)
    ensures
        name@ == data.display_name@,
{
    data.display_name.clone()
}

/// The matches of a query, or `None` when the service found no place at all.
pub fn found_places(matches: Vec<GeoCodingData>) -> (found: Option<Vec<GeoCodingData>>)
    ensures
        matches@.len() == 0 ==> found is None,
        matches@.len() > 0 ==> found == Some(matches),
{
    if matches.len() == 0 {
        None
    } else {
        Some(matches)
    }
}

} // verus!
