use bingmaps::locations::{
    join_names, join_texts, point_params, point_request, query_params, query_request,
    ContextParams, EntityType, FindPoint,
};
use bingmaps::{Client, Error, Params};
use std::collections::BTreeMap;

fn decode(query: &str) -> BTreeMap<String, String> {
    serde_qs::from_str(query).unwrap()
}

#[test]
fn point_lookup_without_options_carries_only_the_key() {
    let client = Client::new("k");
    let text = format!("{:.5},{:.5}", 47.64054f64, -122.12934f64);
    let find = FindPoint::from_str(&text);
    assert_eq!(find.path(), "/Locations/47.64054,-122.12934");
    let url = point_request(&client, &find, &None).unwrap();
    assert_eq!(url, "https://dev.virtualearth.net/REST/v1//Locations/47.64054,-122.12934?key=k");
}

#[test]
fn query_lookup_encodes_the_query() {
    let client = Client::new("k");
    let url = query_request(&client, "1 Microsoft Way, Redmond WA", &None).unwrap();
    assert_eq!(
        url,
        "https://dev.virtualearth.net/REST/v1//Locations?key=k&q=1+Microsoft+Way%2C+Redmond+WA"
    );
    let query = url.split('?').nth(1).unwrap();
    let pairs = decode(query);
    assert_eq!(pairs.len(), 2);
    assert_eq!(pairs["q"], "1 Microsoft Way, Redmond WA");
    assert_eq!(pairs["key"], "k");
}

#[test]
fn absent_options_add_no_keys() {
    let find = FindPoint::from_str("1,2");
    let params = point_params(&find, &Some(ContextParams::default())).unwrap();
    for key in ["include_entity_types", "inclnb", "incl", "c", "umv", "ul", "uip", "ur", "key"] {
        assert_eq!(params.get(key), None);
    }
    assert_eq!(params.encode(), "");
}

#[test]
fn present_options_add_their_keys_once() {
    let mut find = FindPoint::from_str("1,2");
    find.include_entity_types = vec![EntityType::Address, EntityType::Postcode1, EntityType::River];
    find.include_neighborhood = true;
    find.include_ciso2 = true;
    let ctx = ContextParams {
        culture: None,
        user_map_view: Some(vec!["47.5".to_string(), "-122.5".to_string(), "48".to_string(), "-122".to_string()]),
        user_location: Some(vec!["47.6".to_string(), "-122.3".to_string()]),
        user_ip: Some("127.0.0.1".to_string()),
        user_region: Some("US-WA".to_string()),
    };
    let params = point_params(&find, &Some(ctx)).unwrap();
    assert_eq!(params.get("include_entity_types"), Some("Address,Postcode1,River"));
    assert_eq!(params.get("inclnb"), Some("1"));
    assert_eq!(params.get("incl"), Some("ciso2"));
    assert_eq!(params.get("umv"), Some("47.5,-122.5,48,-122"));
    assert_eq!(params.get("ul"), Some("47.6,-122.3"));
    assert_eq!(params.get("uip"), Some("127.0.0.1"));
    assert_eq!(params.get("ur"), Some("US-WA"));
    assert_eq!(params.get("c"), None);
    let encoded = params.encode();
    for key in ["include_entity_types", "inclnb", "incl", "umv", "ul", "uip", "ur"] {
        let n = encoded.split('&').filter(|p| p.split('=').next() == Some(key)).count();
        assert_eq!(n, 1, "{}", key);
    }
    assert_eq!(decode(&encoded).len(), 7);
}

#[test]
fn some_options_only() {
    let mut find = FindPoint::from_str("1,2");
    find.include_ciso2 = true;
    let ctx = ContextParams { user_ip: Some("10.0.0.1".to_string()), ..ContextParams::default() };
    let params = point_params(&find, &Some(ctx)).unwrap();
    assert_eq!(params.encode(), "incl=ciso2&uip=10.0.0.1");
}

#[test]
fn culture_is_a_conversion_error() {
    let ctx = ContextParams { culture: Some("en-US".to_string()), ..ContextParams::default() };
    let find = FindPoint::from_str("1,2");
    assert!(matches!(point_params(&find, &Some(ctx)), Err(Error::Conversion(_))));
    let ctx = ContextParams { culture: Some("en-US".to_string()), ..ContextParams::default() };
    let client = Client::new("k");
    assert!(matches!(query_request(&client, "Paris", &Some(ctx)), Err(Error::Conversion(_))));
}

#[test]
fn query_params_hold_the_query() {
    let params = query_params("a b", &None).unwrap();
    assert_eq!(params.get("q"), Some("a b"));
    assert_eq!(params.encode(), "q=a+b");
}

#[test]
fn key_overrides_a_given_key() {
    let client = Client::new("secret");
    assert_eq!(client.key(), "secret");
    let mut params = Params::new();
    params.insert("key", "mine");
    params.insert("q", "x");
    let url = client.request_url("/Locations", &mut params);
    assert_eq!(params.get("key"), Some("secret"));
    assert_eq!(url, "https://dev.virtualearth.net/REST/v1//Locations?key=secret&q=x");
}

#[test]
fn insert_replaces_and_adds() {
    let mut params = Params::new();
    assert_eq!(params.get("a"), None);
    params.insert("a", "1");
    params.insert("b", "2");
    params.insert("a", "3");
    assert_eq!(params.get("a"), Some("3"));
    assert_eq!(params.get("b"), Some("2"));
    assert_eq!(params.encode(), "a=3&b=2");
}

#[test]
fn encoding_round_trips() {
    let mut params = Params::new();
    let entries = [("q", "1 Microsoft Way, Redmond WA"), ("ur", "US-WA"), ("umv", "1.5,-2"), ("x", "a&b=c%d e")];
    for (k, v) in entries {
        params.insert(k, v);
    }
    let back = decode(&params.encode());
    let expected: BTreeMap<String, String> =
        entries.iter().map(|(k, v)| (k.to_string(), v.to_string())).collect();
    assert_eq!(back, expected);
}

#[test]
fn url_joins_root_path_and_query() {
    let mut params = Params::new();
    params.insert("q", "x y");
    assert_eq!(Client::url("/Locations", &params), "https://dev.virtualearth.net/REST/v1//Locations?q=x+y");
    assert_eq!(Client::url("/Locations", &Params::new()), "https://dev.virtualearth.net/REST/v1//Locations?");
}

#[test]
fn joins_with_commas() {
    assert_eq!(join_names(&vec![]), "");
    assert_eq!(join_names(&vec![EntityType::HigherEducationFacility]), "HigherEducationFacility");
    assert_eq!(join_names(&vec![EntityType::AdminDivision1, EntityType::AdminDivision2]), "AdminDivision1,AdminDivision2");
    assert_eq!(join_texts(&vec!["1".to_string(), "2".to_string(), "3".to_string()]), "1,2,3");
    assert_eq!(join_texts(&vec![]), "");
}

#[test]
fn entity_names_on_the_wire() {
    assert_eq!(EntityType::Address.name(), "Address");
    assert_eq!(EntityType::CountryRegion.name(), "CountryRegion");
    assert_eq!(EntityType::RoadBlock.name(), "RoadBlock");
    assert_eq!(EntityType::Lake.name(), "Lake");
}

#[test]
fn find_point_defaults() {
    let find = FindPoint::default();
    assert_eq!(find.point, "");
    assert!(find.include_entity_types.is_empty());
    assert!(!find.include_neighborhood && !find.include_ciso2);
    let find = FindPoint::from_str("47.64054,-122.12934");
    assert_eq!(find.point, "47.64054,-122.12934");
}
