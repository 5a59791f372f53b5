use dockhand::networks::{
    convert_ipam_config, convert_network, convert_network_list, created_network_id, network_driver,
    EngineIpamConfig, EngineNetwork,
};
use dockhand::volumes::{convert_volume, convert_volume_list, EngineVolume, VolumeInfo};

fn text(s: &str) -> Option<String> {
    Some(s.to_string())
}

fn pair(k: &str, v: &str) -> (String, String) {
    (k.to_string(), v.to_string())
}

fn empty_network() -> EngineNetwork {
    EngineNetwork { id: None, name: None, driver: None, scope: None, internal: None, ipam_config: None }
}

#[test]
fn address_configuration_shows_subnet_and_gateway() {
    let both = EngineIpamConfig { subnet: text("172.18.0.0/16"), gateway: text("172.18.0.1") };
    assert_eq!(
        convert_ipam_config(&both).entries(),
        vec![pair("subnet", "172.18.0.0/16"), pair("gateway", "172.18.0.1")]
    );
    let subnet = EngineIpamConfig { subnet: text("10.0.0.0/8"), gateway: None };
    assert_eq!(convert_ipam_config(&subnet).entries(), vec![pair("subnet", "10.0.0.0/8")]);
    let gateway = EngineIpamConfig { subnet: None, gateway: text("10.0.0.1") };
    assert_eq!(convert_ipam_config(&gateway).entries(), vec![pair("gateway", "10.0.0.1")]);
    let neither = EngineIpamConfig { subnet: None, gateway: None };
    assert!(convert_ipam_config(&neither).is_empty());
}

#[test]
fn only_the_first_address_configuration_counts() {
    let mut network = empty_network();
    network.ipam_config = Some(vec![
        EngineIpamConfig { subnet: text("172.18.0.0/16"), gateway: None },
        EngineIpamConfig { subnet: text("fd00::/64"), gateway: text("fd00::1") },
    ]);
    assert_eq!(convert_network(&network).ipam.entries(), vec![pair("subnet", "172.18.0.0/16")]);
    network.ipam_config = Some(Vec::new());
    assert!(convert_network(&network).ipam.is_empty());
}

#[test]
fn network_fields_default_to_empty() {
    let shown = convert_network(&empty_network());
    assert_eq!(shown.id, "");
    assert_eq!(shown.name, "");
    assert_eq!(shown.driver, "");
    assert_eq!(shown.scope, "");
    assert!(!shown.internal);
    assert!(shown.ipam.is_empty());
}

#[test]
fn network_is_carried_over() {
    let network = EngineNetwork {
        id: text("n1"),
        name: text("backend"),
        driver: text("bridge"),
        scope: text("local"),
        internal: Some(true),
        ipam_config: None,
    };
    let shown = convert_network(&network);
    assert_eq!(shown.id, "n1");
    assert_eq!(shown.name, "backend");
    assert_eq!(shown.driver, "bridge");
    assert_eq!(shown.scope, "local");
    assert!(shown.internal);
    let list = convert_network_list(&vec![empty_network(), network]);
    assert_eq!(list.len(), 2);
    assert_eq!(list[0].name, "");
    assert_eq!(list[1].name, "backend");
}

#[test]
fn created_network_defaults() {
    assert_eq!(network_driver(None), "bridge");
    assert_eq!(network_driver(text("overlay")), "overlay");
    assert_eq!(network_driver(text("")), "");
    assert_eq!(created_network_id(text("abc"), "mine".to_string()), "abc");
    assert_eq!(created_network_id(None, "mine".to_string()), "mine");
}

#[test]
fn volumes_are_carried_over() {
    let volume = EngineVolume {
        name: "data".to_string(),
        driver: "local".to_string(),
        mountpoint: "/var/lib/docker/volumes/data/_data".to_string(),
        created_at: text("2024-01-01T00:00:00Z"),
    };
    let shown = VolumeInfo {
        name: "data".to_string(),
        driver: "local".to_string(),
        mountpoint: "/var/lib/docker/volumes/data/_data".to_string(),
        created_at: "2024-01-01T00:00:00Z".to_string(),
    };
    assert_eq!(convert_volume(&volume), shown);
    let mut undated = volume.clone();
    undated.created_at = None;
    assert_eq!(convert_volume(&undated).created_at, "");
    assert_eq!(convert_volume_list(&Some(vec![volume, undated])).len(), 2);
    assert!(convert_volume_list(&Some(Vec::new())).is_empty());
    assert!(convert_volume_list(&None).is_empty());
}
