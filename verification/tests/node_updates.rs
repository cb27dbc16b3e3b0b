use netsepio::{
    deactivate_node, initialize, register_vpn_node, register_wifi_node, update_vpn_node,
    update_wifi_node, ErrorCode, Identity, Node, NodeDetails, NodeType,
};

fn id(tag: u8) -> Identity {
    Identity { bytes: [tag; 32] }
}

fn wifi_node(owner: Identity, operator: Identity) -> Node {
    let mut reg = initialize(owner);
    register_wifi_node(
        &mut reg,
        operator,
        "device-1".to_string(),
        "did:example:1".to_string(),
        "cafe-hotspot".to_string(),
        "old-location".to_string(),
        100,
    )
    .unwrap()
}

fn vpn_node(owner: Identity, operator: Identity) -> Node {
    let mut reg = initialize(owner);
    register_vpn_node(
        &mut reg,
        operator,
        "device-2".to_string(),
        "did:example:2".to_string(),
        "relay-a".to_string(),
        "203.0.113.9".to_string(),
        "ExampleISP".to_string(),
        "eu-west".to_string(),
        "old-location".to_string(),
    )
    .unwrap()
}

#[test]
fn update_on_inactive_node_fails_node_not_active() {
    let owner = id(1);
    let operator = id(2);
    let mut node = wifi_node(owner, operator);
    node.is_active = false;
    let before = node.clone();
    // even the rightful owner is rejected on an inactive node
    let r = update_wifi_node(&mut node, operator, Some("new".to_string()), None, Some(5));
    assert_eq!(r.unwrap_err(), ErrorCode::NodeNotActive);
    assert_eq!(node, before);
    // and so is any other caller
    let r2 = update_wifi_node(&mut node, id(9), Some("new".to_string()), None, None);
    assert_eq!(r2.unwrap_err(), ErrorCode::NodeNotActive);
    assert_eq!(node, before);
}

#[test]
fn update_with_wrong_caller_fails_unauthorized() {
    let owner = id(1);
    let operator = id(2);
    let stranger = id(3);
    let mut node = wifi_node(owner, operator);
    let before = node.clone();
    let r = update_wifi_node(
        &mut node,
        stranger,
        Some("valid-ssid".to_string()),
        Some("valid-location".to_string()),
        Some(1),
    );
    assert_eq!(r.unwrap_err(), ErrorCode::Unauthorized);
    assert_eq!(node, before);
    // the registry owner is not the node owner either
    let r2 = update_wifi_node(&mut node, owner, None, None, Some(1));
    assert_eq!(r2.unwrap_err(), ErrorCode::Unauthorized);
    assert_eq!(node, before);
}

#[test]
fn update_of_wrong_category_fails_invalid_node_type() {
    let owner = id(1);
    let operator = id(2);
    let mut wifi = wifi_node(owner, operator);
    let before_wifi = wifi.clone();
    let r = update_vpn_node(&mut wifi, operator, Some("n".to_string()), None, None, None, None);
    assert_eq!(r.unwrap_err(), ErrorCode::InvalidNodeType);
    assert_eq!(wifi, before_wifi);

    let mut vpn = vpn_node(owner, operator);
    let before_vpn = vpn.clone();
    let r2 = update_wifi_node(&mut vpn, operator, Some("s".to_string()), None, Some(1));
    assert_eq!(r2.unwrap_err(), ErrorCode::InvalidNodeType);
    assert_eq!(vpn, before_vpn);
}

#[test]
fn update_with_only_location_keeps_other_fields() {
    let owner = id(1);
    let operator = id(2);
    let mut node = wifi_node(owner, operator);
    let r = update_wifi_node(&mut node, operator, None, Some("new-location".to_string()), None);
    assert!(r.is_ok());
    assert_eq!(node.location, "new-location");
    match node.details {
        NodeDetails::WiFi { ssid, price_per_minute } => {
            assert_eq!(ssid, "cafe-hotspot");
            assert_eq!(price_per_minute, 100);
        }
        NodeDetails::VPN { .. } => panic!("variant changed by update"),
    }
    assert_eq!(node.device_id, "device-1");
    assert_eq!(node.did, "did:example:1");
    assert!(node.is_active);
    assert_eq!(node.total_checkpoints, 0);
}

#[test]
fn present_but_empty_value_still_overwrites() {
    let owner = id(1);
    let operator = id(2);
    let mut node = wifi_node(owner, operator);
    let r = update_wifi_node(&mut node, operator, Some(String::new()), None, None);
    assert!(r.is_ok());
    match node.details {
        NodeDetails::WiFi { ssid, price_per_minute } => {
            assert_eq!(ssid, "");
            assert_eq!(price_per_minute, 100);
        }
        NodeDetails::VPN { .. } => panic!("variant changed by update"),
    }
}

#[test]
fn update_vpn_applies_present_fields_only() {
    let owner = id(1);
    let operator = id(2);
    let mut node = vpn_node(owner, operator);
    let r = update_vpn_node(
        &mut node,
        operator,
        None,
        Some("198.51.100.4".to_string()),
        None,
        Some("ap-south".to_string()),
        None,
    );
    assert!(r.is_ok());
    assert_eq!(node.location, "old-location");
    match node.details {
        NodeDetails::VPN { node_name, ip_address, isp_info, region } => {
            assert_eq!(node_name, "relay-a");
            assert_eq!(ip_address, "198.51.100.4");
            assert_eq!(isp_info, "ExampleISP");
            assert_eq!(region, "ap-south");
        }
        NodeDetails::WiFi { .. } => panic!("variant changed by update"),
    }
}

#[test]
fn deactivate_requires_registry_owner() {
    let owner = id(1);
    let operator = id(2);
    let reg = initialize(owner);
    let mut node = wifi_node(owner, operator);
    // the node's own operator is not the registry owner
    let r = deactivate_node(&mut node, operator, &reg);
    assert_eq!(r.unwrap_err(), ErrorCode::Unauthorized);
    assert!(node.is_active);
    let r2 = deactivate_node(&mut node, owner, &reg);
    assert!(r2.is_ok());
    assert!(!node.is_active);
}

#[test]
fn deactivate_twice_is_idempotent() {
    let owner = id(1);
    let operator = id(2);
    let reg = initialize(owner);
    let mut node = wifi_node(owner, operator);
    assert!(deactivate_node(&mut node, owner, &reg).is_ok());
    assert!(!node.is_active);
    let again = deactivate_node(&mut node, owner, &reg);
    assert!(again.is_ok());
    assert!(!node.is_active);
}

#[test]
fn node_type_reports_the_variant() {
    let owner = id(1);
    let operator = id(2);
    let wifi = wifi_node(owner, operator);
    let vpn = vpn_node(owner, operator);
    assert_eq!(wifi.node_type(), NodeType::WiFi);
    assert_eq!(vpn.node_type(), NodeType::VPN);
}
