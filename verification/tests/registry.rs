use local::connect::message::ServerInfo;
use local::connect::registry::{ConnectionRegistry, DiscoveredServers};

#[test]
fn connection_registry_keeps_order() {
    let mut registry: ConnectionRegistry<&str> = ConnectionRegistry::new();
    assert!(registry.is_empty());
    assert_eq!(registry.len(), 0);
    assert_eq!(registry.get(0), None);
    registry.append("first");
    registry.append("second");
    registry.append("first");
    assert!(!registry.is_empty());
    assert_eq!(registry.len(), 3);
    assert_eq!(registry.get(0), Some(&"first"));
    assert_eq!(registry.get(1), Some(&"second"));
    assert_eq!(registry.get(2), Some(&"first"));
    assert_eq!(registry.get(3), None);
    assert_eq!(registry.get(usize::MAX), None);
}

#[test]
fn discovered_servers_keep_order_and_repeats() {
    let mut servers = DiscoveredServers::new();
    assert!(servers.is_empty());
    assert!(!servers.contains_name("ServerTest"));
    let one = ServerInfo::new(String::from("ServerTest"), None, false);
    let two = ServerInfo::new(String::from("Other"), None, true);
    servers.append(one.clone());
    servers.append(two.clone());
    servers.append(one.clone());
    assert_eq!(servers.len(), 3);
    assert_eq!(servers.get(0), Some(&one));
    assert_eq!(servers.get(1), Some(&two));
    assert_eq!(servers.get(2), Some(&one));
    assert_eq!(servers.get(3), None);
    assert!(servers.contains_name("ServerTest"));
    assert!(servers.contains_name("Other"));
    assert!(!servers.contains_name("other"));
    assert!(!servers.contains_name(""));
}
