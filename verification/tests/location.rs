use gardena_exporter::location::{
    location_summaries, select_location, LocationError, LocationListResponse, LocationResource,
    LocationSummary,
};
use serde_json::Value;

fn place(id: &str, name: &str) -> LocationSummary {
    LocationSummary { id: id.to_string(), name: name.to_string() }
}

fn listed(id: &str, kind: &str, attributes: Option<&str>) -> LocationResource {
    LocationResource {
        id: id.to_string(),
        kind: kind.to_string(),
        attributes: attributes.map(|text| serde_json::from_str::<Value>(text).expect("JSON")),
    }
}

#[test]
fn locations_are_picked_out_of_a_list() {
    let response = LocationListResponse {
        data: vec![
            listed("l1", "LOCATION", Some(r#"{ "name": "Terrace" }"#)),
            listed("d1", "DEVICE", Some(r#"{ "name": "Hub" }"#)),
            listed("l2", "LOCATION", None),
            listed("l3", "LOCATION", Some(r#"{ "name": 3 }"#)),
        ],
    };
    let found: Vec<(String, String)> = location_summaries(&response)
        .into_iter()
        .map(|location| (location.id, location.name))
        .collect();
    let expected = [("l1", "Terrace"), ("l2", "l2"), ("l3", "l3")];
    assert_eq!(
        found,
        expected.map(|(id, name)| (id.to_string(), name.to_string())).to_vec()
    );
}

#[test]
fn the_only_location_is_selected() {
    let locations = [place("l1", "Terrace")];
    let selected = select_location(&locations, None).expect("one location");
    assert_eq!(selected.id, "l1");
    assert_eq!(selected.name, "Terrace");
}

#[test]
fn the_configured_location_is_selected() {
    let locations = [place("l1", "Terrace"), place("l2", "Garden"), place("l2", "Again")];
    let selected = select_location(&locations, Some("l2")).expect("configured location");
    assert_eq!(selected.name, "Garden");
}

#[test]
fn a_configured_location_has_to_exist() {
    let error = select_location(&[place("l1", "Terrace")], Some("l9")).expect_err("unknown");
    assert!(matches!(error, LocationError::NotFound { .. }));
    assert_eq!(error.message(), "configured location id l9 was not found");
}

#[test]
fn there_has_to_be_a_location() {
    let error = select_location(&[], None).expect_err("none");
    assert!(matches!(error, LocationError::NoneAvailable));
    assert_eq!(error.message(), "no Gardena locations are available for this application");
}

#[test]
fn several_locations_need_a_choice() {
    let locations = [place("l1", "Terrace"), place("l2", "Garden")];
    let error = select_location(&locations, None).expect_err("several");
    assert!(matches!(error, LocationError::Ambiguous { .. }));
    assert_eq!(
        error.message(),
        "multiple Gardena locations are available; set --location-id to one of: \
         Terrace (l1), Garden (l2)"
    );
}
