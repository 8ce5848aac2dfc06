use pr_bridge::config::Config;
use pr_bridge::git::{Credential, GitClient, RemoteBranch};

fn config() -> Config {
    Config {
        server_host: "0.0.0.0".to_string(),
        server_port: 8080,
        database_url: "postgres://localhost/bridge".to_string(),
        github_token: None,
        git_ssh_key_path: None,
        git_ssh_key_passphrase: None,
        git_use_ssh_agent: false,
        jenkins_url: String::new(),
        jenkins_user: String::new(),
        jenkins_token: String::new(),
        poll_interval_seconds: 60,
    }
}

fn branch(name: &str, is_head: bool, sha: Option<&str>) -> RemoteBranch {
    RemoteBranch { name: name.to_string(), is_head, head_sha: sha.map(|s| s.to_string()) }
}

fn pair(name: &str, sha: &str) -> (String, String) {
    (name.to_string(), sha.to_string())
}

#[test]
fn new_keeps_the_configuration() {
    let mut c = config();
    c.github_token = Some("abc".to_string());
    let client = GitClient::new(c);
    assert_eq!(client.config.github_token.as_deref(), Some("abc"));
    assert_eq!(client.config.server_port, 8080);
}

#[test]
fn token_mode_gives_the_token_under_the_user_git() {
    let mut c = config();
    c.github_token = Some("ghp_123".to_string());
    let client = GitClient::new(c);
    match client.credentials(Some("someone")) {
        Credential::UserPass { username, password } => {
            assert_eq!(username, "git");
            assert_eq!(password, "ghp_123");
        }
        other => panic!("{:?}", other),
    }
}

#[test]
fn token_mode_without_token_gives_the_default() {
    let client = GitClient::new(config());
    assert!(matches!(client.credentials(None), Credential::Default));
    let mut c = config();
    c.github_token = Some(String::new());
    let client = GitClient::new(c);
    assert!(matches!(client.credentials(Some("x")), Credential::Default));
}

#[test]
fn ssh_mode_gives_the_key_with_its_passphrase() {
    let mut c = config();
    c.git_use_ssh_agent = true;
    c.git_ssh_key_path = Some("/keys/id".to_string());
    c.git_ssh_key_passphrase = Some("open".to_string());
    c.github_token = Some("unused".to_string());
    let client = GitClient::new(c);
    match client.credentials(None) {
        Credential::SshKey { username, key_path, passphrase } => {
            assert_eq!(username, "git");
            assert_eq!(key_path, "/keys/id");
            assert_eq!(passphrase.as_deref(), Some("open"));
        }
        other => panic!("{:?}", other),
    }
    match client.credentials(Some("deploy")) {
        Credential::SshKey { username, key_path, passphrase } => {
            assert_eq!(username, "deploy");
            assert_eq!(key_path, "/keys/id");
            assert_eq!(passphrase.as_deref(), Some("open"));
        }
        other => panic!("{:?}", other),
    }
}

#[test]
fn ssh_mode_without_key_falls_back_to_the_agent() {
    let mut c = config();
    c.git_use_ssh_agent = true;
    let client = GitClient::new(c);
    match client.credentials(Some("deploy")) {
        Credential::SshAgent { username } => assert_eq!(username, "deploy"),
        other => panic!("{:?}", other),
    }
    match client.credentials(None) {
        Credential::SshAgent { username } => assert_eq!(username, "git"),
        other => panic!("{:?}", other),
    }
}

#[test]
fn get_branches_keeps_order_and_tips() {
    let client = GitClient::new(config());
    let found = vec![
        branch("origin/main", false, Some("a1")),
        branch("origin/dev", false, Some("b2")),
        branch("origin/feature/x", false, Some("c3")),
    ];
    assert_eq!(
        client.get_branches(&found),
        vec![pair("origin/main", "a1"), pair("origin/dev", "b2"), pair("origin/feature/x", "c3")]
    );
}

#[test]
fn get_branches_leaves_out_head_aliases_and_nameless_branches() {
    let client = GitClient::new(config());
    let found = vec![
        branch("origin/HEAD", false, Some("a1")),
        branch("origin/main", true, Some("a1")),
        branch("", false, Some("d4")),
        branch("origin/dev", false, Some("b2")),
    ];
    assert_eq!(client.get_branches(&found), vec![pair("origin/dev", "b2")]);
}

#[test]
fn get_branches_of_a_remote_with_only_a_head_symref_is_empty() {
    let client = GitClient::new(config());
    let found = vec![branch("origin/HEAD", false, Some("a1"))];
    assert_eq!(client.get_branches(&found), Vec::<(String, String)>::new());
    assert_eq!(client.get_branches(&Vec::new()), Vec::<(String, String)>::new());
}

#[test]
fn get_branches_skips_an_unresolved_tip_and_keeps_the_rest() {
    let client = GitClient::new(config());
    let found = vec![
        branch("origin/main", false, Some("a1")),
        branch("origin/broken", false, None),
        branch("origin/dev", false, Some("b2")),
    ];
    let without = vec![found[0].clone(), found[2].clone()];
    let got = client.get_branches(&found);
    assert_eq!(got, vec![pair("origin/main", "a1"), pair("origin/dev", "b2")]);
    assert_eq!(got, client.get_branches(&without));
}

#[test]
fn get_branches_takes_origin_head_by_its_exact_name_only() {
    let client = GitClient::new(config());
    let found = vec![
        branch("origin/HEAD2", false, Some("a1")),
        branch("upstream/HEAD", false, Some("b2")),
        branch("origin/head", false, Some("c3")),
    ];
    assert_eq!(client.get_branches(&found).len(), 3);
}
