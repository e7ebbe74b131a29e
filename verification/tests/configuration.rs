use sekai_client::config::{
    default_host, default_log_level, default_port, resolve_proxy_value, BackendConfig, Config,
    DatabaseConfig, GitConfig, LoginProtocol, RedisConfig, ServerConfig, ServerRegion,
};
use sekai_client::headers::HeaderMap;
use std::collections::HashMap;

fn server(proxy: Option<&str>) -> ServerConfig {
    ServerConfig {
        enabled: true,
        master_dir: String::new(),
        version_path: String::new(),
        account_dir: String::new(),
        api_url: String::new(),
        nuverse_master_data_url: String::new(),
        nuverse_structure_file_path: String::new(),
        require_cookies: false,
        headers: HeaderMap::new(),
        aes_key_hex: String::new(),
        aes_iv_hex: String::new(),
        enable_master_updater: false,
        master_updater_cron: String::new(),
        enable_app_hash_updater: false,
        app_hash_updater_cron: String::new(),
        remote_version_url: String::new(),
        proxy: proxy.map(|p| p.to_string()),
        login_protocol: LoginProtocol::default(),
    }
}

fn config(backend: BackendConfig) -> Config {
    Config {
        proxy: String::new(),
        jp_sekai_cookie_url: String::new(),
        git: GitConfig::default(),
        redis: RedisConfig::default(),
        backend,
        database: DatabaseConfig::default(),
        master_database: DatabaseConfig::default(),
        apphash_sources: vec![],
        asset_updater_servers: vec![],
        servers: HashMap::new(),
    }
}

#[test]
fn omitted_server_proxy_inherits_global_proxy() {
    assert_eq!(
        resolve_proxy_value(None, "http://proxy.internal:7890"),
        Some("http://proxy.internal:7890".to_string())
    );
}

#[test]
fn server_proxy_overrides_global_proxy() {
    assert_eq!(
        resolve_proxy_value(Some("http://tw-proxy.internal:7890"), "http://global:7890"),
        Some("http://tw-proxy.internal:7890".to_string())
    );
}

#[test]
fn explicit_empty_server_proxy_disables_global_proxy() {
    assert_eq!(resolve_proxy_value(Some("  "), "http://global:7890"), None);
}

#[test]
fn proxies_keep_the_space_around_them() {
    assert_eq!(resolve_proxy_value(None, "\t\n"), None);
    assert_eq!(resolve_proxy_value(None, " p "), Some(" p ".to_string()));
    assert_eq!(server(Some(" own")).resolve_proxy("global"), Some(" own".to_string()));
    assert_eq!(server(None).resolve_proxy("global"), Some("global".to_string()));
    assert_eq!(server(Some("")).resolve_proxy("global"), None);
}

#[test]
fn regions_have_names_and_kinds() {
    let regions = [
        (ServerRegion::Jp, "jp", true),
        (ServerRegion::En, "en", true),
        (ServerRegion::Tw, "tw", false),
        (ServerRegion::Kr, "kr", false),
        (ServerRegion::Cn, "cn", false),
    ];
    for (region, name, is_cp) in regions {
        assert_eq!(region.as_str(), name);
        assert_eq!(region.is_cp_server(), is_cp);
        assert_eq!(name.parse::<ServerRegion>(), Ok(region));
        assert_eq!(name.to_uppercase().parse::<ServerRegion>(), Ok(region));
    }
    assert!("us".parse::<ServerRegion>().is_err());
    assert!(" jp".parse::<ServerRegion>().is_err());
}

#[test]
fn the_port_can_be_overridden() {
    let mut config = config(sample_backend());
    assert_eq!(config.override_port(None), Ok(()));
    assert_eq!(config.backend.port, default_port());
    assert_eq!(config.override_port(Some("9000")), Ok(()));
    assert_eq!(config.backend.port, 9000);
    assert_eq!(config.override_port(Some("+80")), Ok(()));
    assert_eq!(config.backend.port, 80);
    assert_eq!(
        config.override_port(Some("65536")),
        Err("Invalid PORT '65536': number too large to fit in target type".to_string())
    );
    assert_eq!(
        config.override_port(Some("x")),
        Err("Invalid PORT 'x': invalid digit found in string".to_string())
    );
    assert_eq!(
        config.override_port(Some("")),
        Err("Invalid PORT '': cannot parse integer from empty string".to_string())
    );
    assert_eq!(config.backend.port, 80);
}

fn sample_backend() -> BackendConfig {
    BackendConfig {
        host: default_host(),
        port: default_port(),
        ssl: false,
        ssl_cert: String::new(),
        ssl_key: String::new(),
        log_level: default_log_level(),
        main_log_file: String::new(),
        access_log: String::new(),
        access_log_path: String::new(),
        sekai_user_jwt_signing_key: String::new(),
        enable_trust_proxy: false,
        trusted_proxies: vec![],
        proxy_header: String::new(),
    }
}

#[test]
fn what_is_not_configured_has_a_default() {
    let backend = sample_backend();
    assert_eq!((backend.host.as_str(), backend.port), ("0.0.0.0", 9999));
    assert_eq!(backend.log_level, "info");
    let redis = RedisConfig::default();
    assert_eq!((redis.enabled, redis.host.as_str(), redis.port), (false, "localhost", 6379));
    assert_eq!(redis.password, "");
    let database = DatabaseConfig::default();
    assert_eq!((database.enabled, database.max_connections), (false, 0));
    assert_eq!((database.driver.as_str(), database.dsn.as_str()), ("", ""));
    let git = GitConfig::default();
    assert!(!git.enabled);
    assert_eq!((git.username.as_str(), git.email.as_str(), git.password.as_str()), ("", "", ""));
    assert_eq!(LoginProtocol::default(), LoginProtocol::V1);
}

#[test]
fn headers_are_kept_once_each() {
    let mut headers = HeaderMap::new();
    headers.insert("A".to_string(), "1".to_string());
    headers.insert("a".to_string(), "2".to_string());
    headers.insert("A".to_string(), "3".to_string());
    assert_eq!(headers.get("A"), Some(&"3".to_string()));
    assert_eq!(headers.get("a"), Some(&"2".to_string()));
    assert_eq!(headers.get("b"), None);
    let copy = headers.clone();
    assert_eq!(
        copy.entries(),
        &vec![
            ("A".to_string(), "3".to_string()),
            ("a".to_string(), "2".to_string())
        ]
    );
}
