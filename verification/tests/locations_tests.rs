use xdsign::locations::{LocationsCmdApp, LocationsParser, XdsignLocationInfoGetter};

fn entries() -> Vec<(String, String)> {
    vec![
        ("bg".to_string(), "北门".to_string()),
        ("ng".to_string(), "南门".to_string()),
    ]
}

#[test]
fn short_listing_shows_locations_only() {
    let p = LocationsParser { pretty: true, short: true };
    assert_eq!(LocationsCmdApp.lines(&p, &entries()), vec!["北门", "南门"]);
}

#[test]
fn pretty_listing_names_alias() {
    let p = LocationsParser { pretty: true, short: false };
    assert_eq!(
        LocationsCmdApp.lines(&p, &entries()),
        vec!["位置: 北门, 别名: bg", "位置: 南门, 别名: ng"]
    );
}

#[test]
fn plain_listing_joins_with_dollar() {
    let p = LocationsParser { pretty: false, short: false };
    assert_eq!(LocationsCmdApp.lines(&p, &entries()), vec!["北门$bg", "南门$ng"]);
    assert!(LocationsCmdApp.lines(&p, &vec![]).is_empty());
}

#[test]
fn lookup_by_alias() {
    let table = vec![("bg".to_string(), 1u32), ("ng".to_string(), 2u32)];
    let g = XdsignLocationInfoGetter;
    assert_eq!(g.get_location_by_location_str(&table, "ng"), Some(&2));
    assert_eq!(g.get_location_by_location_str(&table, "xx"), None);
    assert_eq!(g.get_fallback_location(&table), Some(&1));
    let empty: Vec<(String, u32)> = vec![];
    assert_eq!(g.get_fallback_location(&empty), None);
}
