use ambient_lamp::network::find_network;

#[test]
fn first_matching_network_is_chosen() {
    let scan: Vec<String> = ["Cafe", "HomeNet", "Guest", "HomeNet"].iter().map(|s| s.to_string()).collect();
    assert_eq!(find_network(&scan, &"HomeNet".to_string()), Some(1));
    assert_eq!(find_network(&scan, &"Cafe".to_string()), Some(0));
}

#[test]
fn missing_network_is_none() {
    let scan: Vec<String> = vec!["Cafe".to_string()];
    assert_eq!(find_network(&scan, &"HomeNet".to_string()), None);
    assert_eq!(find_network(&Vec::new(), &"HomeNet".to_string()), None);
}
