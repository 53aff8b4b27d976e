use web_api::config::{
    config_files, join_path,
    apply_cli, default_data_dir, default_host, default_jwt_expires_minutes, default_jwt_issuer, default_jwt_secret,
    default_lock_timeout_millis, default_port, default_queue_size, default_wait_interval_seconds, get_exe_name,
    get_system_config_file, normalize, split_cli_args, Cli, Config, ConfigError, LoggingConfig, SecurityConfig,
    ServerConfig, StorageConfig,
};

fn base() -> Config {
    Config {
        server: ServerConfig::default(),
        storage: StorageConfig::default(),
        security: SecurityConfig::default_for("web-api".to_string()),
        logging: LoggingConfig { level: Some("info".to_string()) },
    }
}

fn no_options() -> Cli {
    Cli {
        host: None,
        port: None,
        static_dir: None,
        cors: vec![],
        no_cors: false,
        no_static: false,
        lock_timeout_millis: None,
        data_dir: None,
        queue_size: None,
        wait_interval_seconds: None,
        allow_signup: false,
        deny_signup: false,
        jwt_secret: None,
        jwt_issuer: None,
        jwt_expires_minutes: None,
        log_level: None,
        no_log: false,
    }
}

#[test]
fn defaults() {
    assert_eq!(default_host(), "0.0.0.0");
    assert_eq!(default_port(), 3000);
    assert_eq!(default_lock_timeout_millis(), 50);
    assert_eq!(default_data_dir(), "data");
    assert_eq!(default_queue_size(), 32);
    assert_eq!(default_wait_interval_seconds(), 5);
    assert_eq!(default_jwt_expires_minutes(), 10080);
    assert_eq!(default_jwt_secret().len(), 25);
    assert_eq!(default_jwt_issuer("prog".to_string()), "prog");
    let s = SecurityConfig::default_for("prog".to_string());
    assert!(!s.allow_signup);
    assert_eq!(s.jwt_issuer, "prog");
    assert_eq!(s.jwt_expires_minutes, 10080);
    let srv = ServerConfig::default();
    assert_eq!(srv.host, "0.0.0.0");
    assert_eq!(srv.port, 3000);
    assert!(srv.static_dir.is_none());
    assert!(srv.cors.is_empty());
}

#[test]
fn paths_and_names() {
    assert_eq!(get_system_config_file("web-api"), "/etc/web-api/config.yaml");
    assert_eq!(get_exe_name(Some("srv".to_string())), "srv");
    assert_eq!(get_exe_name(None), "unknown");
    assert_eq!(
        ConfigError::DataDirNotWriteable("/data".to_string()).message(),
        "data directory (/data) is not writeable"
    );
}

#[test]
fn no_options_keep_the_file() {
    let c = apply_cli(base(), no_options());
    assert_eq!(c.server.host, "0.0.0.0");
    assert_eq!(c.server.port, 3000);
    assert_eq!(c.storage.data_dir, "data");
    assert!(!c.security.allow_signup);
    assert_eq!(c.logging.level.as_deref(), Some("info"));
}

#[test]
fn options_override() {
    let mut cli = no_options();
    cli.host = Some("127.0.0.1".to_string());
    cli.port = Some(8080);
    cli.static_dir = Some("html".to_string());
    cli.cors = vec!["http://a".to_string()];
    cli.data_dir = Some("/tmp/d".to_string());
    cli.allow_signup = true;
    cli.jwt_secret = Some("s3cr3t".to_string());
    cli.jwt_issuer = Some("".to_string());
    cli.jwt_expires_minutes = Some(5);
    cli.log_level = Some("debug".to_string());
    let c = apply_cli(base(), cli);
    assert_eq!(c.server.host, "127.0.0.1");
    assert_eq!(c.server.port, 8080);
    assert_eq!(c.server.static_dir.as_deref(), Some("html"));
    assert_eq!(c.server.cors, vec!["http://a"]);
    assert_eq!(c.storage.data_dir, "/tmp/d");
    assert!(c.security.allow_signup);
    assert_eq!(c.security.jwt_secret, "s3cr3t");
    assert_eq!(c.security.jwt_issuer, "web-api");
    assert_eq!(c.security.jwt_expires_minutes, 5);
    assert_eq!(c.logging.level.as_deref(), Some("debug"));
}

#[test]
fn switches_win() {
    let mut cli = no_options();
    cli.static_dir = Some("html".to_string());
    cli.no_static = true;
    cli.cors = vec!["http://a".to_string()];
    cli.no_cors = true;
    cli.allow_signup = true;
    cli.deny_signup = true;
    cli.log_level = Some("debug".to_string());
    cli.no_log = true;
    cli.host = Some("".to_string());
    let c = apply_cli(base(), cli);
    assert!(c.server.static_dir.is_none());
    assert!(c.server.cors.is_empty());
    assert!(!c.security.allow_signup);
    assert!(c.logging.level.is_none());
    assert_eq!(c.server.host, "0.0.0.0");
}

#[test]
fn wildcard_origin_stands_alone() {
    let mut cli = no_options();
    cli.cors = vec!["http://a".to_string(), "*".to_string(), "http://b".to_string()];
    let c = apply_cli(base(), cli);
    assert_eq!(c.server.cors, vec!["*"]);
}

#[test]
fn normalize_clamps() {
    let mut c = base();
    c.server.lock_timeout_millis = 0;
    c.storage.queue_size = 1000;
    c.storage.wait_interval_seconds = 0;
    c.security.jwt_expires_minutes = 60 * 24 * 365;
    c.server.static_dir = Some("html".to_string());
    let n = normalize(c, true, false).ok().unwrap();
    assert_eq!(n.server.lock_timeout_millis, 1);
    assert_eq!(n.storage.queue_size, 128);
    assert_eq!(n.storage.wait_interval_seconds, 1);
    assert_eq!(n.security.jwt_expires_minutes, 259200);
    assert!(n.server.static_dir.is_none());

    let mut c = base();
    c.server.lock_timeout_millis = 5000;
    c.storage.queue_size = 0;
    c.storage.wait_interval_seconds = 1000;
    c.security.jwt_expires_minutes = -3;
    c.server.static_dir = Some("html".to_string());
    let n = normalize(c, true, true).ok().unwrap();
    assert_eq!(n.server.lock_timeout_millis, 1000);
    assert_eq!(n.storage.queue_size, 3);
    assert_eq!(n.storage.wait_interval_seconds, 300);
    assert_eq!(n.security.jwt_expires_minutes, 1);
    assert_eq!(n.server.static_dir.as_deref(), Some("html"));

    let n = normalize(base(), true, true).ok().unwrap();
    assert_eq!(n.server.lock_timeout_millis, 50);
    assert_eq!(n.storage.queue_size, 32);
    assert_eq!(n.storage.wait_interval_seconds, 5);
    assert_eq!(n.security.jwt_expires_minutes, 10080);
}

#[test]
fn unwriteable_data_dir_is_an_error() {
    match normalize(base(), false, true) {
        Err(ConfigError::DataDirNotWriteable(d)) => assert_eq!(d, "data"),
        Ok(_) => panic!("expected an error"),
    }
}

#[test]
fn split_arguments() {
    let args: Vec<String> = ["web-api", "--port=8080", "--log", "debug", "x=y", "--jwt-secret=a=b", "-=", "--flag"]
        .iter()
        .map(|s| s.to_string())
        .collect();
    let out = split_cli_args(args);
    assert_eq!(
        out,
        vec!["web-api", "--port", "8080", "--log", "debug", "x=y", "--jwt-secret", "a=b", "-", "", "--flag"]
    );
    assert!(split_cli_args(vec![]).is_empty());
}

#[test]
fn paths_join_as_pathbuf_does() {
    let cases = [("a", "b"), ("a/", "b"), ("", "b"), ("a", "/b"), ("/", "x"), ("a//", "b"), ("a", ""), ("", "")];
    for (base, part) in cases {
        let expected = std::path::PathBuf::from(base).join(part);
        assert_eq!(join_path(base, part), expected.to_str().unwrap(), "{:?} {:?}", base, part);
    }
}

#[test]
fn settings_files_in_order() {
    let files = config_files(
        Some("/work".to_string()),
        Some("/opt/bin/".to_string()),
        Some("/xdg".to_string()),
        Some("/home/u".to_string()),
        "web-api",
    );
    assert_eq!(
        files,
        vec![
            "/work/config.yaml".to_string(),
            "/opt/bin/config.yaml".to_string(),
            "/xdg/web-api/config.yaml".to_string(),
            "/etc/web-api/config.yaml".to_string(),
        ]
    );
    let files = config_files(None, None, None, Some("/home/u".to_string()), "web-api");
    assert_eq!(files[0], "unknown/config.yaml");
    assert_eq!(files[1], "unknown/config.yaml");
    assert_eq!(files[2], "/home/u/.config/web-api/config.yaml");
    let files = config_files(None, None, None, None, "web-api");
    assert_eq!(files[2], "unknown/.config/web-api/config.yaml");
    let files = config_files(None, None, Some(String::new()), None, "web-api");
    assert_eq!(files[2], "web-api/config.yaml");
}
