use haproxy_api::{ProxyCapability, ProxyMode};

#[test]
fn capability_names_map_to_capabilities() {
    assert_eq!(ProxyCapability::from_name("frontend"), ProxyCapability::Frontend);
    assert_eq!(ProxyCapability::from_name("backend"), ProxyCapability::Backend);
    assert_eq!(ProxyCapability::from_name("proxy"), ProxyCapability::Proxy);
    assert_eq!(ProxyCapability::from_name("ruleset"), ProxyCapability::Ruleset);
    assert_eq!(ProxyCapability::from_name("Frontend"), ProxyCapability::Ruleset);
    assert_eq!(ProxyCapability::from_name(""), ProxyCapability::Ruleset);
}

#[test]
fn mode_names_map_to_modes() {
    assert_eq!(ProxyMode::from_name("tcp"), ProxyMode::Tcp);
    assert_eq!(ProxyMode::from_name("http"), ProxyMode::Http);
    assert_eq!(ProxyMode::from_name("health"), ProxyMode::Health);
    assert_eq!(ProxyMode::from_name("syslog"), ProxyMode::Unknown);
    assert_eq!(ProxyMode::from_name("HTTP"), ProxyMode::Unknown);
}
