use light_guide::docker::{
    cert_paths, container_exists, docker_package_path, docker_pkgs_folder, find_container,
    find_image, not_found_body, package_list, registry_binds, registry_env, registry_plan,
    registry_port_binding, require_package_file, resolve_cert_dir, should_start_engine_service,
    validate_create_registry_input, ContainerRecord, CreateRegistryInput, ImageRecord, ImageStep,
    Registry, RegistryPlan,
};
use light_guide::error::{AppError, ErrorOutput};
use light_guide::netutil::{pick_local_ip, IfaceRecord};
use light_guide::settings::{
    get_settings, set_settings, AppSettings, SettingEntry, SettingsStore,
};

#[test]
fn error_output_keeps_its_message() {
    let e = ErrorOutput::new("boom".to_string());
    assert_eq!(e.error, "boom");
}

#[test]
fn app_error_messages_and_statuses() {
    let any = AppError::AnyError("db down".to_string());
    assert_eq!(any.message(), "general error: db down");
    assert_eq!(any.status_code(), 500);
    let nf = AppError::NotFound("thing".to_string());
    assert_eq!(nf.message(), "not found: thing");
    assert_eq!(nf.status_code(), 404);
    let inp = AppError::InputParamsError("bad".to_string());
    assert_eq!(inp.message(), "invalid input: bad");
    assert_eq!(inp.status_code(), 400);
}

#[test]
fn settings_default_and_store() {
    let settings = AppSettings::default();
    assert_eq!(settings.base_folder, "files");
    let mut store = SettingsStore::new();
    assert_eq!(get_settings(&store).base_folder, "files");
    set_settings(&mut store, AppSettings { base_folder: "/srv".to_string() });
    assert_eq!(get_settings(&store).base_folder, "/srv");
}

#[test]
fn settings_rows_apply_in_order_last_wins() {
    let entries = vec![
        SettingEntry { key: "base_folder".to_string(), value: "one".to_string() },
        SettingEntry { key: "unrelated".to_string(), value: "x".to_string() },
        SettingEntry { key: "base_folder".to_string(), value: "two".to_string() },
    ];
    assert_eq!(AppSettings::from_entries(entries).base_folder, "two");
    assert_eq!(AppSettings::from_entries(vec![]).base_folder, "files");
}

fn image(id: &str, tags: &[&str]) -> ImageRecord {
    ImageRecord {
        id: id.to_string(),
        repo_tags: tags.iter().map(|t| t.to_string()).collect(),
    }
}

#[test]
fn find_image_matches_exact_tags_only() {
    let images = vec![
        image("sha1", &["alpine:3", "alpine:latest"]),
        image("sha2", &["registry:2", "registry:latest"]),
    ];
    let found = find_image(&images, "registry:2").unwrap();
    assert_eq!(found.id, "sha2");
    assert_eq!(found.repo_tags, Some(vec!["registry:2".to_string(), "registry:latest".to_string()]));
    assert!(find_image(&images, "registry").is_none());
    assert!(find_image(&vec![], "registry:2").is_none());
}

#[test]
fn find_container_matches_slash_prefixed_names() {
    let containers = vec![
        ContainerRecord {
            id: Some("c1".to_string()),
            image: Some("registry:2".to_string()),
            state: Some("running".to_string()),
            names: vec!["/registry".to_string()],
        },
    ];
    let found = find_container(&containers, "registry").unwrap();
    assert_eq!(found.id.as_deref(), Some("c1"));
    assert_eq!(found.name.as_deref(), Some("registry"));
    assert_eq!(found.image.as_deref(), Some("registry:2"));
    assert_eq!(found.state.as_deref(), Some("running"));
    // a bare name, without the engine's slash, does not match
    assert!(find_container(&containers, "egistry").is_none());
    let exists = Some(found);
    assert!(container_exists(&exists));
    assert!(!container_exists(&None));
}

#[test]
fn registry_plan_decisions() {
    assert!(matches!(registry_plan(true, false, None), RegistryPlan::AlreadyRunning));
    assert!(matches!(
        registry_plan(false, true, None),
        RegistryPlan::Start(ImageStep::AlreadyPresent)
    ));
    match registry_plan(false, false, Some("registry.tar".to_string())) {
        RegistryPlan::Start(ImageStep::LoadFromFile(f)) => assert_eq!(f, "registry.tar"),
        other => panic!("unexpected plan: {:?}", other),
    }
    assert!(matches!(registry_plan(false, false, None), RegistryPlan::Start(ImageStep::Pull)));
}

#[test]
fn registry_container_configuration() {
    assert_eq!(
        registry_env(),
        vec![
            "REGISTRY_HTTP_ADDR=0.0.0.0:5000".to_string(),
            "REGISTRY_HTTP_TLS_CERTIFICATE=/certs/registry.crt".to_string(),
            "REGISTRY_HTTP_TLS_KEY=/certs/registry.key".to_string(),
        ]
    );
    assert_eq!(
        registry_binds("/tmp/certs"),
        vec!["/var/lib/registry:/var/lib/registry".to_string(), "/tmp/certs:/certs".to_string()]
    );
    let (key, ip, port) = registry_port_binding(5443);
    assert_eq!(key, "5000/tcp");
    assert_eq!(ip, "0.0.0.0");
    assert_eq!(port, "5443");
}

#[test]
fn cert_directory_resolution() {
    assert_eq!(resolve_cert_dir("/etc/certs", "/home/op"), "/etc/certs");
    assert_eq!(resolve_cert_dir("certs", "/home/op"), "/home/op/certs");
    assert_eq!(resolve_cert_dir("", "/home/op"), "/home/op/");
    let (crt, key) = cert_paths("certs");
    assert_eq!(crt, "certs/registry.crt");
    assert_eq!(key, "certs/registry.key");
}

#[test]
fn engine_service_is_started_only_on_500() {
    assert!(should_start_engine_service(500));
    assert!(!should_start_engine_service(404));
}

#[test]
fn new_registry_row_is_stamped() {
    let r = Registry::new("name".to_string(), "host".to_string(), 5000, 1700000000);
    assert_eq!(r.id, 0);
    assert_eq!(r.name, "name");
    assert_eq!(r.host, "host");
    assert_eq!(r.port, 5000);
    assert!(r.username.is_none());
    assert!(r.status.is_none());
    assert_eq!(r.created_at, 1700000000);
    assert_eq!(r.updated_at, 1700000000);
}

fn input(name: &str, host: &str, port: i64) -> CreateRegistryInput {
    CreateRegistryInput {
        name: name.to_string(),
        host: host.to_string(),
        port,
        ssl: None,
        auth: None,
    }
}

#[test]
fn registry_input_validation() {
    assert!(validate_create_registry_input(&input("r", "h", 5000), false).is_ok());
    for bad in [input("", "h", 5000), input("r", "", 5000), input("r", "h", 0)] {
        match validate_create_registry_input(&bad, false) {
            Err(AppError::InputParamsError(s)) => {
                assert_eq!(s, "name, host, port can't be empty")
            },
            other => panic!("unexpected: {:?}", other),
        }
    }
    match validate_create_registry_input(&input("mine", "h", 5000), true) {
        Err(AppError::InputParamsError(s)) => assert_eq!(s, "registry mine already exists"),
        other => panic!("unexpected: {:?}", other),
    }
}

#[test]
fn package_listing_numbers_from_one() {
    let pkgs = package_list(vec![
        ("a.tar".to_string(), Some(10)),
        ("b.tar".to_string(), None),
    ]);
    assert_eq!(pkgs.len(), 2);
    assert_eq!(pkgs[0].index, 1);
    assert_eq!(pkgs[0].name, "a.tar");
    assert_eq!(pkgs[0].create_time, Some(10));
    assert_eq!(pkgs[1].index, 2);
    assert_eq!(pkgs[1].name, "b.tar");
    assert_eq!(pkgs[1].create_time, None);
    assert!(package_list(vec![]).is_empty());
}

#[test]
fn package_paths_and_presence() {
    assert_eq!(docker_pkgs_folder("files"), "files/docker_pkgs");
    assert_eq!(docker_package_path("files", "a.tar"), "files/docker_pkgs/a.tar");
    assert!(require_package_file(true).is_ok());
    match require_package_file(false) {
        Err(AppError::NotFound(s)) => assert_eq!(s, "docker package file not found"),
        other => panic!("unexpected: {:?}", other),
    }
    assert_eq!(not_found_body("dist/app.js"), "File not found: dist/app.js");
}

fn iface(lo: bool, v4: bool, ip: &str) -> IfaceRecord {
    IfaceRecord { is_loopback: lo, is_ipv4: v4, ip: ip.to_string() }
}

#[test]
fn local_ip_is_the_first_external_ipv4() {
    let ifaces = vec![
        iface(true, true, "127.0.0.1"),
        iface(false, false, "fe80::1"),
        iface(false, true, "192.168.1.7"),
        iface(false, true, "10.0.0.2"),
    ];
    assert_eq!(pick_local_ip(&ifaces).as_deref(), Some("192.168.1.7"));
    assert!(pick_local_ip(&vec![iface(true, true, "127.0.0.1")]).is_none());
    assert!(pick_local_ip(&vec![]).is_none());
}
