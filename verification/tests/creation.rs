use dockhand::creation::{
    plan_container, read_volume_entry, CreateContainerRequest, PortBinding, RestartPolicy,
    VolumeEntry, VolumeMount,
};
use dockhand::string_map::StringMap;

fn bare_request(image: &str) -> CreateContainerRequest {
    CreateContainerRequest {
        name: None,
        image: image.to_string(),
        env: None,
        ports: None,
        volumes: None,
        network: None,
        restart_policy: None,
        command: None,
        memory_limit: None,
        cpu_quota: None,
    }
}

fn owned(items: &[&str]) -> Vec<String> {
    items.iter().map(|s| s.to_string()).collect()
}

#[test]
fn bare_request_asks_for_the_image_alone() {
    let plan = plan_container(&bare_request("nginx:alpine"));
    assert_eq!(plan.image, "nginx:alpine");
    assert_eq!(plan.name, None);
    assert_eq!(plan.env, None);
    assert_eq!(plan.command, None);
    assert_eq!(plan.exposed_ports, None);
    assert_eq!(plan.port_bindings, None);
    assert_eq!(plan.binds, None);
    assert_eq!(plan.mounts, None);
    assert_eq!(plan.memory, None);
    assert_eq!(plan.cpu_quota, None);
    assert_eq!(plan.restart_policy, None);
    assert!(plan.endpoints.is_empty());
}

#[test]
fn ports_are_exposed_and_bound_on_every_address() {
    let mut request = bare_request("redis:alpine");
    let mut ports = StringMap::new();
    ports.insert("6379/tcp".to_string(), "6379".to_string());
    ports.insert("53/udp".to_string(), "5353".to_string());
    request.ports = Some(ports);
    request.env = Some(owned(&["REDIS_PASSWORD=testpass"]));
    let plan = plan_container(&request);
    assert_eq!(plan.exposed_ports, Some(owned(&["6379/tcp", "53/udp"])));
    assert_eq!(
        plan.port_bindings,
        Some(vec![
            PortBinding {
                container_port: "6379/tcp".to_string(),
                host_ip: "0.0.0.0".to_string(),
                host_port: "6379".to_string(),
            },
            PortBinding {
                container_port: "53/udp".to_string(),
                host_ip: "0.0.0.0".to_string(),
                host_port: "5353".to_string(),
            },
        ])
    );
    assert_eq!(plan.env, Some(owned(&["REDIS_PASSWORD=testpass"])));
}

#[test]
fn empty_port_map_is_left_out() {
    let mut request = bare_request("nginx");
    request.ports = Some(StringMap::new());
    let plan = plan_container(&request);
    assert_eq!(plan.exposed_ports, None);
    assert_eq!(plan.port_bindings, None);
}

#[test]
fn volume_entries_are_told_apart() {
    assert_eq!(
        read_volume_entry("/host/path:/container/path"),
        VolumeEntry::Bind("/host/path:/container/path:rw".to_string())
    );
    assert_eq!(
        read_volume_entry("./data:/data:ro"),
        VolumeEntry::Bind("./data:/data:ro".to_string())
    );
    assert_eq!(
        read_volume_entry("test-postgres-data:/var/lib/postgresql/data"),
        VolumeEntry::Volume(VolumeMount {
            source: "test-postgres-data".to_string(),
            target: "/var/lib/postgresql/data".to_string(),
            read_only: false,
        })
    );
    assert_eq!(
        read_volume_entry("cache:/cache:ro"),
        VolumeEntry::Volume(VolumeMount {
            source: "cache".to_string(),
            target: "/cache".to_string(),
            read_only: true,
        })
    );
    assert_eq!(
        read_volume_entry("cache:/cache:RO"),
        VolumeEntry::Volume(VolumeMount {
            source: "cache".to_string(),
            target: "/cache".to_string(),
            read_only: false,
        })
    );
    assert_eq!(read_volume_entry("/only-one-part"), VolumeEntry::Skipped);
    assert_eq!(read_volume_entry(""), VolumeEntry::Skipped);
    assert_eq!(
        read_volume_entry(":"),
        VolumeEntry::Volume(VolumeMount {
            source: String::new(),
            target: String::new(),
            read_only: false,
        })
    );
    assert_eq!(read_volume_entry("/a:/b:z:extra"), VolumeEntry::Bind("/a:/b:z".to_string()));
}

#[test]
fn volumes_are_sorted_into_binds_and_mounts() {
    let mut request = bare_request("postgres:alpine");
    request.volumes = Some(owned(&[
        "pgdata:/var/lib/postgresql/data",
        "/etc/pg:/etc/postgresql:ro",
        "broken",
        "logs:/logs:ro",
        "./init:/docker-entrypoint-initdb.d",
    ]));
    let plan = plan_container(&request);
    assert_eq!(
        plan.binds,
        Some(owned(&["/etc/pg:/etc/postgresql:ro", "./init:/docker-entrypoint-initdb.d:rw"]))
    );
    assert_eq!(
        plan.mounts,
        Some(vec![
            VolumeMount {
                source: "pgdata".to_string(),
                target: "/var/lib/postgresql/data".to_string(),
                read_only: false,
            },
            VolumeMount {
                source: "logs".to_string(),
                target: "/logs".to_string(),
                read_only: true,
            },
        ])
    );
}

#[test]
fn skipped_volumes_leave_no_list() {
    let mut request = bare_request("nginx");
    request.volumes = Some(owned(&["one", ""]));
    let plan = plan_container(&request);
    assert_eq!(plan.binds, None);
    assert_eq!(plan.mounts, None);
    request.volumes = Some(Vec::new());
    let plan = plan_container(&request);
    assert_eq!(plan.binds, None);
    assert_eq!(plan.mounts, None);
}

#[test]
fn any_restart_policy_asks_for_unless_stopped() {
    for policy in ["always", "no", "on-failure", "unless-stopped", ""] {
        let mut request = bare_request("nginx");
        request.restart_policy = Some(policy.to_string());
        assert_eq!(plan_container(&request).restart_policy, Some(RestartPolicy::UnlessStopped));
    }
}

#[test]
fn limits_name_command_and_network_are_handed_on() {
    let mut request = bare_request("nginx");
    request.name = Some("test-nginx-e2e".to_string());
    request.memory_limit = Some(536870912);
    request.cpu_quota = Some(50000);
    request.command = Some(owned(&["nginx", "-g", "daemon off;"]));
    request.network = Some("backend".to_string());
    let plan = plan_container(&request);
    assert_eq!(plan.name, Some("test-nginx-e2e".to_string()));
    assert_eq!(plan.memory, Some(536870912));
    assert_eq!(plan.cpu_quota, Some(50000));
    assert_eq!(plan.command, Some(owned(&["nginx", "-g", "daemon off;"])));
    assert_eq!(plan.endpoints, owned(&["backend"]));
}
