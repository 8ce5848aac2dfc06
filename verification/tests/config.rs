use pr_bridge::config::{
    default_host, default_poll_interval, default_port, default_use_ssh_agent, Config, ConfigError,
};

fn base() -> Config {
    Config {
        server_host: "127.0.0.1".to_string(),
        server_port: 9001,
        database_url: "postgres://localhost/bridge".to_string(),
        github_token: Some("t0ken".to_string()),
        git_ssh_key_path: None,
        git_ssh_key_passphrase: None,
        git_use_ssh_agent: false,
        jenkins_url: "http://jenkins".to_string(),
        jenkins_user: "ci".to_string(),
        jenkins_token: "secret".to_string(),
        poll_interval_seconds: 60,
    }
}

#[test]
fn defaults_are_the_documented_ones() {
    assert_eq!(default_host(), "0.0.0.0");
    assert_eq!(default_port(), 8080);
    assert_eq!(default_poll_interval(), 60);
    assert!(!default_use_ssh_agent());
}

#[test]
fn server_addr_joins_host_and_port() {
    assert_eq!(base().server_addr(), "127.0.0.1:9001");
    let mut c = base();
    c.server_host = default_host();
    c.server_port = default_port();
    assert_eq!(c.server_addr(), "0.0.0.0:8080");
    c.server_port = 0;
    assert_eq!(c.server_addr(), "0.0.0.0:0");
    c.server_port = 65535;
    assert_eq!(c.server_addr(), "0.0.0.0:65535");
    c.server_port = 10;
    assert_eq!(c.server_addr(), "0.0.0.0:10");
}

#[test]
fn token_mode_needs_a_token() {
    let mut c = base();
    c.github_token = None;
    assert_eq!(Config::from_env(c).err(), Some(ConfigError::MissingToken));
    let mut c = base();
    c.github_token = Some(String::new());
    assert_eq!(Config::from_env(c).err(), Some(ConfigError::MissingToken));
    let ok = Config::from_env(base()).unwrap();
    assert_eq!(ok.github_token.as_deref(), Some("t0ken"));
    assert_eq!(ok.server_port, 9001);
}

#[test]
fn ssh_mode_needs_a_key_path() {
    let mut c = base();
    c.git_use_ssh_agent = true;
    assert_eq!(Config::from_env(c).err(), Some(ConfigError::MissingSshKey));
    let mut c = base();
    c.git_use_ssh_agent = true;
    c.git_ssh_key_path = Some(String::new());
    assert_eq!(Config::from_env(c).err(), Some(ConfigError::MissingSshKey));
    let mut c = base();
    c.git_use_ssh_agent = true;
    c.github_token = None;
    c.git_ssh_key_path = Some("/home/ci/.ssh/id_ed25519".to_string());
    let ok = Config::from_env(c).unwrap();
    assert_eq!(ok.git_ssh_key_path.as_deref(), Some("/home/ci/.ssh/id_ed25519"));
}

#[test]
fn config_errors_have_messages() {
    assert_eq!(
        ConfigError::MissingToken.message(),
        "GitHub token is required when use ssh agent is false"
    );
    assert_eq!(
        ConfigError::MissingSshKey.message(),
        "SSH key path is required when use ssh agent is true"
    );
    assert_eq!(
        ConfigError::InvalidSetting.message(),
        "A poll interval setting is not a number of seconds"
    );
}
