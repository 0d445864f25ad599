use ip_info_server::IpInfo;

fn record(loc: &str) -> IpInfo {
    IpInfo {
        ip: "8.8.8.8".to_string(),
        city: "Mountain View".to_string(),
        region: "California".to_string(),
        country: "US".to_string(),
        loc: loc.to_string(),
        org: "Google LLC".to_string(),
        timezone: "America/Los_Angeles".to_string(),
    }
}

#[test]
fn well_formed_location_parses_to_coordinates() {
    let info = record("37.7,-122.4");
    let (lat, lon) = info.location().unwrap();
    assert_eq!(lat, "37.7");
    assert_eq!(lon, "-122.4");
    assert_eq!(lat.parse::<f64>().unwrap(), 37.7);
    assert_eq!(lon.parse::<f64>().unwrap(), -122.4);
}

#[test]
fn integral_coordinates_parse_too() {
    let info = record("37,-122");
    let (lat, lon) = info.location().unwrap();
    assert_eq!(lat, "37");
    assert_eq!(lon, "-122");
}

#[test]
fn extra_parts_beyond_the_second_are_ignored() {
    let info = record("1.5,2.5,junk");
    let (lat, lon) = info.location().unwrap();
    assert_eq!(lat, "1.5");
    assert_eq!(lon, "2.5");
}

#[test]
fn garbage_location_yields_none() {
    assert!(record("garbage").location().is_none());
    assert!(record("").location().is_none());
    assert!(record("37.7").location().is_none());
    assert!(record("37.7,").location().is_none());
    assert!(record(",5").location().is_none());
    assert!(record("1.2.3,4").location().is_none());
    assert!(record("a,b").location().is_none());
}

#[test]
fn rendering_includes_location_when_well_formed() {
    let text = record("37.7,-122.4").render();
    assert_eq!(
        text,
        "IP Information:\n  IP Address: 8.8.8.8\n  City: Mountain View\n  Region: California\n  Country: US\n  Location: Latitude=37.7, Longitude=-122.4\n  Organization: Google LLC\n  Timezone: America/Los_Angeles\n"
    );
}

#[test]
fn rendering_omits_location_when_malformed_without_losing_fields() {
    let text = record("garbage").render();
    assert_eq!(
        text,
        "IP Information:\n  IP Address: 8.8.8.8\n  City: Mountain View\n  Region: California\n  Country: US\n  Organization: Google LLC\n  Timezone: America/Los_Angeles\n"
    );
    assert!(!text.contains("Location"));
    assert!(text.contains("Timezone: America/Los_Angeles"));
}
