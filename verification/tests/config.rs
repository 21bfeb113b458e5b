use chat_analytics::config::{choose_config_source, AppConfig, AuthConfig, ConfigSource, ServerConfig};

#[test]
fn local_file_comes_first() {
    assert!(matches!(choose_config_source(true, true, Some("x.yml".to_string())), Some(ConfigSource::LocalFile)));
    assert!(matches!(choose_config_source(true, false, None), Some(ConfigSource::LocalFile)));
}

#[test]
fn system_file_comes_second() {
    assert!(matches!(choose_config_source(false, true, Some("x.yml".to_string())), Some(ConfigSource::SystemFile)));
}

#[test]
fn env_path_comes_last() {
    match choose_config_source(false, false, Some("/tmp/a.yml".to_string())) {
        Some(ConfigSource::EnvPath(p)) => assert_eq!(p, "/tmp/a.yml"),
        _ => panic!("expected the environment path"),
    }
    assert!(choose_config_source(false, false, None).is_none());
}

#[test]
fn config_holds_its_values() {
    let c = AppConfig {
        server: ServerConfig {
            port: 6690,
            db_url: "http://localhost:8123".to_string(),
            db_user: None,
            db_password: None,
            db_name: "analytics".to_string(),
            base_dir: "/tmp/analytics".to_string(),
        },
        auth: AuthConfig { pk: "key".to_string() },
    };
    assert_eq!(c.server.port, 6690);
    assert_eq!(c.auth.pk, "key");
}
