use dockhand::validation::{
    validate_env_key, validate_image_name, validate_memory_limit, validate_name,
    validate_network_name, validate_port, validate_port_string, validate_volume_path,
    validate_volume_path_for, HostKind,
};

#[test]
fn test_validate_name() {
    assert!(validate_name("my-container").is_ok());
    assert!(validate_name("container_1").is_ok());
    assert!(validate_name("").is_err());
    assert!(validate_name("-invalid").is_err());
    assert!(validate_name("with space").is_err());
}

#[test]
fn test_validate_port() {
    assert!(validate_port(80).is_ok());
    assert!(validate_port(65535).is_ok());
    assert!(validate_port(0).is_err());
}

#[test]
fn test_validate_env_key() {
    assert!(validate_env_key("PATH").is_ok());
    assert!(validate_env_key("MY_VAR").is_ok());
    assert!(validate_env_key("_PRIVATE").is_ok());
    assert!(validate_env_key("123").is_err());
    assert!(validate_env_key("").is_err());
}

#[test]
fn test_validate_volume_path() {
    assert!(validate_volume_path("/data").is_ok());
    assert!(validate_volume_path("/var/lib/data").is_ok());
    assert!(validate_volume_path("../etc").is_err());
    assert!(validate_volume_path("relative/path").is_err());
}

#[test]
fn name_messages() {
    assert_eq!(validate_name(""), Err("Name cannot be empty".to_string()));
    let long = "a".repeat(256);
    assert_eq!(validate_name(&long), Err("Name too long (max 255 characters)".to_string()));
    assert!(validate_name(&"a".repeat(255)).is_ok());
    assert_eq!(
        validate_name("bad name"),
        Err("Name must start with alphanumeric and contain only alphanumeric, hyphens, underscores, or dots".to_string())
    );
    assert!(validate_name("a.b-c_d9").is_ok());
    assert!(validate_name(".hidden").is_err());
    assert!(validate_name("name\n").is_err());
    assert!(validate_name("caf\u{e9}").is_err());
}

#[test]
fn name_length_counts_bytes() {
    // 128 two-byte characters pass the byte limit before the pattern is asked.
    let wide = "\u{e9}".repeat(128);
    assert_eq!(validate_name(&wide), Err("Name too long (max 255 characters)".to_string()));
}

#[test]
fn image_names() {
    assert!(validate_image_name("nginx").is_ok());
    assert!(validate_image_name("nginx:latest").is_ok());
    assert!(validate_image_name("registry.io/repo/image:tag").is_ok());
    assert_eq!(validate_image_name(""), Err("Image name cannot be empty".to_string()));
    assert_eq!(
        validate_image_name("localhost:5000/nginx:latest"),
        Err("Invalid image format (multiple colons)".to_string())
    );
    assert_eq!(validate_image_name(&"i".repeat(256)), Err("Image name too long".to_string()));
    assert!(validate_image_name(&"i".repeat(255)).is_ok());
}

#[test]
fn port_strings() {
    assert_eq!(validate_port_string("80"), Ok(80));
    assert_eq!(validate_port_string("65535"), Ok(65535));
    assert_eq!(validate_port_string("+443"), Ok(443));
    assert_eq!(validate_port_string("0080"), Ok(80));
    assert_eq!(validate_port_string("0"), Err("Port number cannot be 0".to_string()));
    assert_eq!(validate_port_string("abc"), Err("Invalid port number: abc".to_string()));
    assert_eq!(validate_port_string("65536"), Err("Invalid port number: 65536".to_string()));
    assert_eq!(validate_port_string("-1"), Err("Invalid port number: -1".to_string()));
    assert_eq!(validate_port_string(""), Err("Invalid port number: ".to_string()));
    assert_eq!(validate_port_string(" 80"), Err("Invalid port number:  80".to_string()));
    assert_eq!(validate_port_string("+"), Err("Invalid port number: +".to_string()));
}

#[test]
fn port_strings_agree_with_the_standard_parser() {
    for text in ["1", "007", "+0", "-0", "65535", "65536", "99999999999999999999", "8o", "", "+", "٣"] {
        let expected = text.parse::<u16>().ok().filter(|p| *p != 0);
        assert_eq!(validate_port_string(text).ok(), expected, "{:?}", text);
    }
}

#[test]
fn port_message() {
    assert_eq!(validate_port(0), Err("Port number cannot be 0".to_string()));
}

#[test]
fn env_key_messages() {
    assert_eq!(
        validate_env_key(""),
        Err("Environment variable name cannot be empty".to_string())
    );
    assert_eq!(
        validate_env_key("1ST"),
        Err("Invalid environment variable name: 1ST (must start with letter/underscore, contain only alphanumeric/underscore)".to_string())
    );
    assert!(validate_env_key("a1_b2").is_ok());
    assert!(validate_env_key("MY-VAR").is_err());
}

#[test]
fn volume_path_messages() {
    assert_eq!(validate_volume_path(""), Err("Volume path cannot be empty".to_string()));
    assert_eq!(
        validate_volume_path("/data/../etc"),
        Err("Volume path cannot contain '..' (directory traversal)".to_string())
    );
    assert_eq!(
        validate_volume_path("data"),
        Err("Volume path must be absolute (start with /)".to_string())
    );
    assert!(validate_volume_path("/a.b/c.d").is_ok());
    assert!(validate_volume_path("/").is_ok());
}

#[test]
fn volume_paths_on_windows() {
    assert!(validate_volume_path_for(HostKind::Windows, "C:\\data").is_ok());
    assert!(validate_volume_path_for(HostKind::Windows, "d:").is_ok());
    assert!(validate_volume_path_for(HostKind::Windows, "\\\\server\\share").is_ok());
    assert!(validate_volume_path_for(HostKind::Windows, "//server/share").is_ok());
    assert_eq!(
        validate_volume_path_for(HostKind::Windows, "data"),
        Err("Volume path must be absolute (drive letter or UNC path)".to_string())
    );
    assert_eq!(
        validate_volume_path_for(HostKind::Windows, "\\data"),
        Err("Volume path must be absolute (drive letter or UNC path)".to_string())
    );
    assert_eq!(
        validate_volume_path_for(HostKind::Windows, "C:\\data\\..\\x"),
        Err("Volume path cannot contain '..' (directory traversal)".to_string())
    );
    assert_eq!(
        validate_volume_path_for(HostKind::Windows, ""),
        Err("Volume path cannot be empty".to_string())
    );
    assert!(validate_volume_path_for(HostKind::Posix, "C:\\data").is_err());
    assert!(validate_volume_path_for(HostKind::Posix, "/data").is_ok());
}

#[test]
fn memory_limits() {
    assert!(validate_memory_limit("").is_ok());
    assert!(validate_memory_limit("   ").is_ok());
    assert!(validate_memory_limit("512m").is_ok());
    assert!(validate_memory_limit("1G").is_ok());
    assert!(validate_memory_limit(" 2Kb ").is_ok());
    assert!(validate_memory_limit("64MB").is_ok());
    assert!(validate_memory_limit("3gb").is_ok());
    assert!(validate_memory_limit("1024").is_ok());
    assert!(validate_memory_limit("k").is_ok());
    assert_eq!(
        validate_memory_limit("lots"),
        Err("Memory limit must be a number or include suffix (k, m, g)".to_string())
    );
    assert!(validate_memory_limit("-5").is_err());
    assert!(validate_memory_limit("12b").is_err());
    assert!(validate_memory_limit("1.5").is_err());
}

#[test]
fn network_names() {
    assert!(validate_network_name("bridge").is_ok());
    assert!(validate_network_name("host").is_ok());
    assert!(validate_network_name("none").is_ok());
    assert!(validate_network_name("container:web 1").is_ok());
    assert!(validate_network_name("my-net").is_ok());
    assert_eq!(validate_network_name(""), Err("Network name cannot be empty".to_string()));
    assert_eq!(
        validate_network_name("my net"),
        Err("Name must start with alphanumeric and contain only alphanumeric, hyphens, underscores, or dots".to_string())
    );
    assert!(validate_network_name("Bridge!").is_err());
}
