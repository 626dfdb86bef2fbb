use stock_operator::config::{IpAddress, NetworkMode, OperatorConfig, SocketAddress};
use stock_operator::desktop::keychain::{resolve_token, token_status, validate_token};
use stock_operator::desktop::settings::{
    load_public_settings, restart_reasons, save_response, seed_writes, settings_writes,
    validate_settings_request, RunningSettings, SaveSettingsRequest, SaveSettingsResponse,
    StoredSettings,
};
use stock_operator::desktop::status::check_restart_required;
use stock_operator::desktop::validation::{validate_bind_addr, validate_stock_service_url};

/// The address as the standard library would parse and display it, for the
/// few forms these tests use.
fn parse(addr: &str) -> (Option<SocketAddress>, String) {
    let addr = addr.trim();
    if let Some(rest) = addr.strip_prefix("[::1]:") {
        let port = rest.parse::<u16>().ok();
        return (
            port.map(|port| SocketAddress {
                ip: IpAddress::V6(0, 0, 0, 0, 0, 0, 0, 1),
                port,
            }),
            addr.to_string(),
        );
    }
    let Some((host, port)) = addr.split_once(':') else {
        return (None, String::new());
    };
    let octets: Vec<Option<u8>> = host.split('.').map(|p| p.parse::<u8>().ok()).collect();
    let port = port.parse::<u16>().ok();
    match (octets.as_slice(), port) {
        ([Some(a), Some(b), Some(c), Some(d)], Some(port)) => (
            Some(SocketAddress {
                ip: IpAddress::V4(*a, *b, *c, *d),
                port,
            }),
            addr.to_string(),
        ),
        _ => (None, String::new()),
    }
}

fn sample_request() -> SaveSettingsRequest {
    SaveSettingsRequest {
        stock_service_url: Some("http://localhost:3000".to_string()),
        bind_addr: "127.0.0.1:5190".to_string(),
        mcp_path: "/mcp".to_string(),
        target_bundle_id: "com.citics.mac.tdx".to_string(),
        target_process_name: "中信证券网上交易".to_string(),
        max_depth: 6,
        max_nodes: 300,
        network_mode: "loopback".to_string(),
        private_overlay_ack: false,
    }
}

fn running() -> RunningSettings {
    RunningSettings {
        bind_addr: "127.0.0.1:5190".to_string(),
        mcp_path: "/mcp".to_string(),
        target_bundle_id: "com.citics.mac.tdx".to_string(),
        target_process_name: "中信证券网上交易".to_string(),
        max_depth: 6,
        max_nodes: 300,
        network_mode: "loopback".to_string(),
    }
}

fn empty_store() -> StoredSettings {
    StoredSettings {
        stock_service_url: None,
        bind_addr: None,
        mcp_path: None,
        target_bundle_id: None,
        target_process_name: None,
        max_depth: None,
        max_nodes: None,
        instance_id: Some("instance-1".to_string()),
        network_mode: None,
    }
}

/// Validates and saves a request into an in-memory store, as the desktop
/// shell does against its database.
fn save(store: &mut StoredSettings, request: SaveSettingsRequest) -> Result<SaveSettingsResponse, String> {
    let (parsed, shown) = parse(&request.bind_addr);
    let validated = validate_settings_request(&request, parsed, &shown)?;
    for write in settings_writes(&validated) {
        let slot = match write.key {
            "bind_addr" => &mut store.bind_addr,
            "mcp_path" => &mut store.mcp_path,
            "target_bundle_id" => &mut store.target_bundle_id,
            "target_process_name" => &mut store.target_process_name,
            "max_depth" => &mut store.max_depth,
            "max_nodes" => &mut store.max_nodes,
            "network_mode" => &mut store.network_mode,
            "stock_main_service_url" => &mut store.stock_service_url,
            other => panic!("unexpected key {other}"),
        };
        *slot = write.value;
    }
    let reasons = restart_reasons(&validated, &running());
    Ok(save_response(load_public_settings(store), reasons))
}

#[test]
fn validates_bind_addr_loopback_only() {
    for (addr, ok) in [
        ("127.0.0.1:5190", true),
        ("[::1]:5190", true),
        ("0.0.0.0:5190", false),
        ("192.168.1.10:5190", false),
        ("not-an-addr", false),
    ] {
        let (parsed, _) = parse(addr);
        assert_eq!(validate_bind_addr(addr, parsed).is_ok(), ok, "{addr}");
    }
}

#[test]
fn validates_stock_url() {
    assert!(validate_stock_service_url(&Some("http://localhost:3000".to_string())).is_ok());
    assert!(validate_stock_service_url(&Some("https://example.com/api".to_string())).is_ok());
    assert!(validate_stock_service_url(&Some("ftp://example.com".to_string())).is_err());
    assert!(validate_stock_service_url(&Some("not a url".to_string())).is_err());
    assert!(validate_stock_service_url(&None).unwrap().is_none());
    assert!(validate_stock_service_url(&Some("".to_string()))
        .unwrap()
        .is_none());
}

#[test]
fn round_trips_settings() {
    let mut store = empty_store();
    let resp = save(&mut store, sample_request()).unwrap();
    assert!(!resp.restart_required);
    assert_eq!(resp.message, "settings saved");
    let loaded = load_public_settings(&store);
    assert_eq!(loaded.bind_addr, "127.0.0.1:5190");
    assert_eq!(loaded.mcp_path, "/mcp");
    assert_eq!(loaded.stock_service_url.unwrap(), "http://localhost:3000");
    assert_eq!(loaded.network_mode, "loopback");
    assert_eq!(loaded.max_depth, 6);
    assert_eq!(loaded.instance_id, "instance-1");
}

#[test]
fn rejects_non_loopback_without_private_mode() {
    let mut req = sample_request();
    req.bind_addr = "0.0.0.0:5190".to_string();
    let err = save(&mut empty_store(), req).unwrap_err();
    assert!(err.contains("bind_addr"));
}

#[test]
fn private_overlay_requires_ack() {
    let mut req = sample_request();
    req.network_mode = "private-overlay".to_string();
    req.private_overlay_ack = false;
    let err = save(&mut empty_store(), req).unwrap_err();
    assert!(err.contains("acknowledgement"));
}

#[test]
fn private_overlay_with_ack_allows_private_bind() {
    let mut store = empty_store();
    let mut req = sample_request();
    req.network_mode = "private-overlay".to_string();
    req.private_overlay_ack = true;
    req.bind_addr = "192.168.1.10:5190".to_string();
    let resp = save(&mut store, req).unwrap();
    assert!(resp.restart_required);
    let loaded = load_public_settings(&store);
    assert_eq!(loaded.network_mode, "private-overlay");
    assert_eq!(loaded.bind_addr, "192.168.1.10:5190");
}

#[test]
fn rejects_public_even_with_private_mode() {
    let mut req = sample_request();
    req.network_mode = "private-overlay".to_string();
    req.private_overlay_ack = true;
    req.bind_addr = "8.8.8.8:5190".to_string();
    let err = save(&mut empty_store(), req).unwrap_err();
    assert!(err.contains("private"));
}

#[test]
fn detects_restart_required() {
    let mut req = sample_request();
    req.bind_addr = "127.0.0.1:5191".to_string();
    let resp = save(&mut empty_store(), req).unwrap();
    assert!(resp.restart_required);
    assert!(resp
        .restart_reasons
        .iter()
        .any(|r| r.contains("bind address")));
    assert_eq!(resp.message, "settings saved; restart required for some changes");
}

#[test]
fn detects_network_mode_restart() {
    let mut req = sample_request();
    req.network_mode = "private-overlay".to_string();
    req.private_overlay_ack = true;
    let resp = save(&mut empty_store(), req).unwrap();
    assert!(resp.restart_required);
    assert!(resp
        .restart_reasons
        .iter()
        .any(|r| r.contains("network mode")));
}

#[test]
fn rejects_invalid_url() {
    let mut req = sample_request();
    req.stock_service_url = Some("ftp://example.com".to_string());
    let err = save(&mut empty_store(), req).unwrap_err();
    assert!(err.contains("stock_service_url"));
}

#[test]
fn plain_storage_does_not_contain_token() {
    let (parsed, shown) = parse("127.0.0.1:5190");
    let validated = validate_settings_request(&sample_request(), parsed, &shown).unwrap();
    assert!(settings_writes(&validated)
        .iter()
        .all(|w| !w.key.contains("token")));
}

#[test]
fn clearing_url_removes_setting() {
    let mut store = empty_store();
    save(&mut store, sample_request()).unwrap();
    let mut clear = sample_request();
    clear.stock_service_url = None;
    save(&mut store, clear).unwrap();
    assert!(load_public_settings(&store).stock_service_url.is_none());
}

#[test]
fn repeated_save_no_restart_when_unchanged() {
    let mut store = empty_store();
    assert!(!save(&mut store, sample_request()).unwrap().restart_required);
    assert!(!save(&mut store, sample_request()).unwrap().restart_required);
}

#[test]
fn load_falls_back_to_defaults_for_blank_or_invalid_values() {
    let mut store = empty_store();
    store.bind_addr = Some("   ".to_string());
    store.max_depth = Some("deep".to_string());
    store.network_mode = Some("public".to_string());
    store.instance_id = None;
    let loaded = load_public_settings(&store);
    assert_eq!(loaded.bind_addr, "127.0.0.1:5190");
    assert_eq!(loaded.mcp_path, "/mcp");
    assert_eq!(loaded.target_bundle_id, "com.citics.mac.tdx");
    assert_eq!(loaded.max_depth, 6);
    assert_eq!(loaded.max_nodes, 300);
    assert_eq!(loaded.network_mode, "loopback");
    assert_eq!(loaded.instance_id, "unknown");
}

fn config() -> OperatorConfig {
    OperatorConfig {
        bind_addr: "127.0.0.1:5190".to_string(),
        mcp_path: "/mcp".to_string(),
        auth_token: None,
        target_bundle_id: "com.citics.mac.tdx".to_string(),
        target_process_name: "中信证券网上交易".to_string(),
        max_depth: 6,
        max_nodes: 300,
        network_mode: NetworkMode::Loopback,
    }
}

fn seeded() -> StoredSettings {
    StoredSettings {
        stock_service_url: None,
        bind_addr: Some("127.0.0.1:5190".to_string()),
        mcp_path: Some("/mcp".to_string()),
        target_bundle_id: Some("com.citics.mac.tdx".to_string()),
        target_process_name: Some("中信证券网上交易".to_string()),
        max_depth: Some("6".to_string()),
        max_nodes: Some("300".to_string()),
        instance_id: None,
        network_mode: Some("loopback".to_string()),
    }
}

#[test]
fn detects_no_restart_when_unchanged() {
    let (required, reasons) = check_restart_required(&seeded(), &config());
    assert!(!required);
    assert!(reasons.is_empty());
}

#[test]
fn detects_restart_on_bind_change() {
    let mut stored = seeded();
    stored.bind_addr = Some("127.0.0.1:5191".to_string());
    let (required, reasons) = check_restart_required(&stored, &config());
    assert!(required);
    assert!(reasons.iter().any(|r| r.contains("bind address")));
}

#[test]
fn detects_restart_on_network_mode_change() {
    let mut stored = seeded();
    stored.network_mode = Some("private-overlay".to_string());
    let (required, reasons) = check_restart_required(&stored, &config());
    assert!(required);
    assert!(reasons.iter().any(|r| r.contains("network mode")));
}

#[test]
fn save_empty_token_fails_without_touching_keychain() {
    assert!(validate_token("   ").is_err());
    assert!(validate_token("").is_err());
    assert!(validate_token("a\nb").is_err());
    assert_eq!(validate_token(" abc ").unwrap(), "abc");
}

#[test]
fn token_status_does_not_expose_secret() {
    let status = token_status(Some("super-secret-123"), Ok(None));
    assert!(status.configured);
    assert_eq!(status.source, "env");
    assert!(!format!("{status:?}").contains("super-secret"));
    let from_keychain = token_status(None, Ok(Some("k".to_string())));
    assert_eq!(from_keychain.source, "keychain");
    let none = token_status(Some("  "), Err("locked".to_string()));
    assert!(!none.configured);
    assert_eq!(none.source, "none");
    assert_eq!(resolve_token(None, Ok(Some("  ".to_string()))).1, "none");
}

#[test]
fn seeding_writes_only_absent_settings() {
    let mut stored = empty_store();
    stored.mcp_path = Some("/custom".to_string());
    let writes = seed_writes(
        &stored,
        Some("  http://localhost:3000 "),
        "127.0.0.1:5190",
        "/mcp",
        "com.citics.mac.tdx",
        "中信证券网上交易",
        6,
        300,
    );
    let keys: Vec<&str> = writes.iter().map(|(k, _)| *k).collect();
    assert_eq!(
        keys,
        vec![
            "bind_addr",
            "target_bundle_id",
            "target_process_name",
            "max_depth",
            "max_nodes",
            "stock_main_service_url"
        ]
    );
    assert_eq!(writes[3].1, "6");
    assert_eq!(writes[5].1, "http://localhost:3000");
    stored.stock_service_url = Some("x".to_string());
    let writes = seed_writes(
        &stored, Some("   "), "a", "b", "c", "d", 1, 2,
    );
    assert_eq!(writes.len(), 5);
}

#[test]
fn failed_save_leaves_store_unchanged() {
    let mut store = empty_store();
    save(&mut store, sample_request()).unwrap();
    let before = format!("{:?}", store);
    let mut bad = sample_request();
    bad.max_depth = 0;
    assert!(save(&mut store, bad).is_err());
    assert_eq!(format!("{:?}", store), before);
}
