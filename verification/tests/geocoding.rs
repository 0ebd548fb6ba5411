use weather_cli::geocoding::{found_places, get_display_name, GeoCodingData};

fn place(name: &str) -> GeoCodingData {
    GeoCodingData {
        place_id: 1,
        licence: "ODbL".to_string(),
        powered_by: "maps".to_string(),
        osm_type: "relation".to_string(),
        osm_id: 406091,
        boundingbox: vec![
            "59.8".to_string(),
            "60.1".to_string(),
            "10.4".to_string(),
            "10.9".to_string(),
        ],
        lat: "59.9133301".to_string(),
        lon: "10.7389701".to_string(),
        display_name: name.to_string(),
        class: "boundary".to_string(),
        kind: "administrative".to_string(),
        importance: "0.77".to_string(),
    }
}

#[test]
fn a_place_is_shown_under_its_display_name() {
    assert_eq!(get_display_name(&place("Oslo, Norge")), "Oslo, Norge");
    assert_eq!(get_display_name(&place("")), "");
}

#[test]
fn no_match_is_no_answer() {
    assert!(found_places(Vec::new()).is_none());
    let one = found_places(vec![place("Oslo")]).unwrap();
    assert_eq!(one.len(), 1);
    assert_eq!(one[0].display_name, "Oslo");
    let two = found_places(vec![place("Bergen"), place("Bergen, NL")]).unwrap();
    assert_eq!(two.len(), 2);
    assert_eq!(two[0].display_name, "Bergen");
    assert_eq!(two[1].display_name, "Bergen, NL");
}
