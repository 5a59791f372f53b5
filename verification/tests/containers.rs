use dockhand::containers::{
    convert_container_list, convert_container_summary, ContainerInfo, EngineContainer, EnginePort,
    PortMapping,
};
use dockhand::details::{
    convert_binding, convert_container_details, convert_mounts, convert_networks,
    convert_port_bindings, EngineBinding, EngineEndpoint, EngineInspect, EngineMount,
    EnginePortBindings, MountInfo,
};

fn text(s: &str) -> Option<String> {
    Some(s.to_string())
}

fn pair(k: &str, v: &str) -> (String, String) {
    (k.to_string(), v.to_string())
}

fn empty_container() -> EngineContainer {
    EngineContainer {
        id: None,
        names: None,
        image: None,
        state: None,
        status: None,
        ports: None,
        created: None,
    }
}

fn empty_inspect() -> EngineInspect {
    EngineInspect {
        id: None,
        name: None,
        created: None,
        image: None,
        env: None,
        state: None,
        state_text: String::new(),
        port_bindings: None,
        mounts: None,
        networks: None,
    }
}

#[test]
fn absent_fields_become_defaults() {
    assert_eq!(
        convert_container_summary(&empty_container()),
        ContainerInfo {
            id: String::new(),
            name: String::new(),
            image: String::new(),
            state: String::new(),
            status: String::new(),
            ports: Vec::new(),
            created: 0,
        }
    );
}

#[test]
fn summary_is_carried_over() {
    let container = EngineContainer {
        id: text("abc"),
        names: Some(vec!["/web".to_string(), "/alias".to_string()]),
        image: text("nginx:alpine"),
        state: text("running"),
        status: text("Up 2 hours"),
        ports: Some(vec![
            EnginePort {
                ip: text("0.0.0.0"),
                private_port: 80,
                public_port: Some(8080),
                typ: text("tcp"),
            },
            EnginePort { ip: None, private_port: 53, public_port: None, typ: None },
        ]),
        created: Some(1700000000),
    };
    assert_eq!(
        convert_container_summary(&container),
        ContainerInfo {
            id: "abc".to_string(),
            name: "web".to_string(),
            image: "nginx:alpine".to_string(),
            state: "running".to_string(),
            status: "Up 2 hours".to_string(),
            ports: vec![
                PortMapping {
                    ip: "0.0.0.0".to_string(),
                    private_port: 80,
                    public_port: Some(8080),
                    port_type: "tcp".to_string(),
                },
                PortMapping {
                    ip: String::new(),
                    private_port: 53,
                    public_port: None,
                    port_type: String::new(),
                },
            ],
            created: 1700000000,
        }
    );
}

#[test]
fn shown_name_has_no_leading_slash() {
    let mut container = empty_container();
    container.names = Some(vec!["//deep/name".to_string()]);
    assert_eq!(convert_container_summary(&container).name, "deep/name");
    container.names = Some(Vec::new());
    assert_eq!(convert_container_summary(&container).name, "");
    container.names = Some(vec!["plain".to_string()]);
    assert_eq!(convert_container_summary(&container).name, "plain");
}

#[test]
fn lists_are_converted_entry_by_entry() {
    let mut first = empty_container();
    first.id = text("1");
    let mut second = empty_container();
    second.id = text("2");
    second.names = Some(vec!["/two".to_string()]);
    let shown = convert_container_list(&vec![first, second]);
    assert_eq!(shown.len(), 2);
    assert_eq!(shown[0].id, "1");
    assert_eq!(shown[1].id, "2");
    assert_eq!(shown[1].name, "two");
    assert!(convert_container_list(&Vec::new()).is_empty());
}

#[test]
fn bindings_become_published_ports() {
    let binding = EngineBinding { host_ip: text("0.0.0.0"), host_port: text("6379") };
    assert_eq!(
        convert_binding("6379/tcp", &binding),
        PortMapping {
            ip: "0.0.0.0".to_string(),
            private_port: 6379,
            public_port: Some(6379),
            port_type: "tcp".to_string(),
        }
    );
    assert_eq!(convert_binding("53/udp", &binding).port_type, "udp");
    assert_eq!(convert_binding("53/udp/x", &binding).port_type, "udp");
    assert_eq!(convert_binding("53", &binding).port_type, "tcp");
    assert_eq!(convert_binding("53/", &binding).port_type, "");
}

#[test]
fn unreadable_ports_are_lenient() {
    let binding = EngineBinding { host_ip: None, host_port: text("http") };
    let shown = convert_binding("web/tcp", &binding);
    assert_eq!(shown.ip, "");
    assert_eq!(shown.private_port, 0);
    assert_eq!(shown.public_port, None);
    let absent = EngineBinding { host_ip: None, host_port: None };
    assert_eq!(convert_binding("70000/tcp", &absent).private_port, 0);
    assert_eq!(convert_binding("/tcp", &absent).private_port, 0);
    assert_eq!(convert_binding("80/tcp", &absent).public_port, None);
    let wide = EngineBinding { host_ip: None, host_port: text("65536") };
    assert_eq!(convert_binding("80/tcp", &wide).public_port, None);
}

#[test]
fn port_table_is_flattened_row_by_row() {
    let rows = vec![
        EnginePortBindings {
            port: "80/tcp".to_string(),
            bindings: Some(vec![
                EngineBinding { host_ip: text("0.0.0.0"), host_port: text("8080") },
                EngineBinding { host_ip: text("::"), host_port: text("8080") },
            ]),
        },
        EnginePortBindings { port: "443/tcp".to_string(), bindings: None },
        EnginePortBindings { port: "9000/tcp".to_string(), bindings: Some(Vec::new()) },
        EnginePortBindings {
            port: "53/udp".to_string(),
            bindings: Some(vec![EngineBinding { host_ip: None, host_port: text("5353") }]),
        },
    ];
    let shown = convert_port_bindings(&rows);
    assert_eq!(shown.len(), 3);
    assert_eq!((shown[0].ip.as_str(), shown[0].private_port), ("0.0.0.0", 80));
    assert_eq!((shown[1].ip.as_str(), shown[1].private_port), ("::", 80));
    assert_eq!(
        shown[2],
        PortMapping {
            ip: String::new(),
            private_port: 53,
            public_port: Some(5353),
            port_type: "udp".to_string(),
        }
    );
    assert!(convert_port_bindings(&Vec::new()).is_empty());
}

#[test]
fn mounts_are_carried_over() {
    let mounts = vec![
        EngineMount {
            typ: text("volume"),
            source: text("/var/lib/docker/volumes/data/_data"),
            destination: text("/data"),
            mode: text("z"),
            rw: Some(true),
        },
        EngineMount { typ: None, source: None, destination: None, mode: None, rw: None },
    ];
    assert_eq!(
        convert_mounts(&mounts),
        vec![
            MountInfo {
                mount_type: "volume".to_string(),
                source: "/var/lib/docker/volumes/data/_data".to_string(),
                destination: "/data".to_string(),
                mode: "z".to_string(),
                rw: true,
            },
            MountInfo {
                mount_type: String::new(),
                source: String::new(),
                destination: String::new(),
                mode: String::new(),
                rw: false,
            },
        ]
    );
}

#[test]
fn networks_map_names_to_addresses() {
    let endpoints = vec![
        EngineEndpoint { network: "bridge".to_string(), ip_address: text("172.17.0.2") },
        EngineEndpoint { network: "backend".to_string(), ip_address: None },
        EngineEndpoint { network: "bridge".to_string(), ip_address: text("172.17.0.9") },
    ];
    let map = convert_networks(&endpoints);
    assert_eq!(map.entries(), vec![pair("bridge", "172.17.0.9"), pair("backend", "")]);
}

#[test]
fn empty_inspection_gives_empty_details() {
    let details = convert_container_details(&empty_inspect());
    assert_eq!(details.id, "");
    assert_eq!(details.name, "");
    assert_eq!(details.image, "");
    assert_eq!(details.state, "");
    assert_eq!(details.status, "");
    assert_eq!(details.created, "");
    assert!(details.ports.is_empty());
    assert!(details.mounts.is_empty());
    assert!(details.env.is_empty());
    assert!(details.network_settings.networks.is_empty());
}

#[test]
fn inspection_becomes_details() {
    let mut inspect = empty_inspect();
    inspect.id = text("f00");
    inspect.name = text("/test-redis-template-e2e");
    inspect.created = text("2024-01-01T00:00:00Z");
    inspect.image = text("redis:alpine");
    inspect.env = Some(vec!["REDIS_PASSWORD=testpass".to_string()]);
    inspect.state = text("running");
    inspect.state_text = "ContainerState { status: Some(RUNNING), running: Some(true) }".to_string();
    inspect.port_bindings = Some(vec![EnginePortBindings {
        port: "6379/tcp".to_string(),
        bindings: Some(vec![EngineBinding { host_ip: text("0.0.0.0"), host_port: text("6379") }]),
    }]);
    inspect.networks =
        Some(vec![EngineEndpoint { network: "bridge".to_string(), ip_address: text("172.17.0.3") }]);
    let details = convert_container_details(&inspect);
    assert_eq!(details.id, "f00");
    assert_eq!(details.name, "test-redis-template-e2e");
    assert_eq!(details.created, "2024-01-01T00:00:00Z");
    assert_eq!(details.image, "redis:alpine");
    assert_eq!(details.env, vec!["REDIS_PASSWORD=testpass".to_string()]);
    assert_eq!(details.state, "running");
    assert_eq!(
        details.status,
        "ContainerState { status: Some(RUNNING), running: Some(true) }"
    );
    assert_eq!(
        details.ports,
        vec![PortMapping {
            ip: "0.0.0.0".to_string(),
            private_port: 6379,
            public_port: Some(6379),
            port_type: "tcp".to_string(),
        }]
    );
    assert_eq!(details.network_settings.networks.entries(), vec![pair("bridge", "172.17.0.3")]);
}
