use pr_bridge::config::{Config, ConfigError};
use pr_bridge::db::{Branch, Queries, Repository, StoreError, SystemSetting};
use pr_bridge::git::{GitClient, RemoteBranch};
use pr_bridge::scheduler::scheduler::{find_target, local_path, remote_url, store_has_branch_of};
use pr_bridge::scheduler::{RefSync, Scheduler, SyncAction, SyncEvent, SyncPhase};

fn config() -> Config {
    Config {
        server_host: "0.0.0.0".to_string(),
        server_port: 8080,
        database_url: String::new(),
        github_token: Some("t".to_string()),
        git_ssh_key_path: None,
        git_ssh_key_passphrase: None,
        git_use_ssh_agent: false,
        jenkins_url: String::new(),
        jenkins_user: String::new(),
        jenkins_token: String::new(),
        poll_interval_seconds: 60,
    }
}

fn repo(id: i32, owner: &str, name: &str, is_active: bool) -> Repository {
    Repository {
        id,
        owner: owner.to_string(),
        name: name.to_string(),
        poll_interval_seconds: Some(300),
        is_active,
        created_at: chrono::NaiveDateTime::default(),
        updated_at: chrono::NaiveDateTime::default(),
    }
}

fn row(id: i32, repository_id: i32, name: &str, sha: &str) -> Branch {
    Branch {
        id,
        repository_id,
        name: name.to_string(),
        head_sha: sha.to_string(),
        created_at: chrono::NaiveDateTime::default(),
        updated_at: chrono::NaiveDateTime::default(),
    }
}

fn setting(key: &str, value: &str) -> SystemSetting {
    SystemSetting {
        key: key.to_string(),
        value: value.to_string(),
        description: None,
        updated_at: chrono::NaiveDateTime::default(),
    }
}

fn pair(name: &str, sha: &str) -> (String, String) {
    (name.to_string(), sha.to_string())
}

fn loaded(repositories: Vec<Repository>, branches: Vec<Branch>) -> SyncEvent {
    SyncEvent::Loaded { repositories: Ok(repositories), branches: Ok(branches) }
}

fn expect_probe(action: SyncAction, path: &str) {
    match action {
        SyncAction::ProbePath { path: p } => assert_eq!(p, path),
        other => panic!("{:?}", other),
    }
}

fn expect_clone(action: SyncAction, url: &str, path: &str) {
    match action {
        SyncAction::Clone { url: u, path: p } => {
            assert_eq!(u, url);
            assert_eq!(p, path);
        }
        other => panic!("{:?}", other),
    }
}

fn expect_list(action: SyncAction, path: &str) {
    match action {
        SyncAction::ListBranches { path: p } => assert_eq!(p, path),
        other => panic!("{:?}", other),
    }
}

fn expect_upsert(action: SyncAction, repository_id: i32, name: &str, sha: &str) {
    match action {
        SyncAction::UpsertBranch { repository_id: r, name: n, head_sha: s } => {
            assert_eq!(r, repository_id);
            assert_eq!(n, name);
            assert_eq!(s, sha);
        }
        other => panic!("{:?}", other),
    }
}

fn expect_wait(job: &RefSync, action: SyncAction) {
    assert!(matches!(action, SyncAction::Wait), "{:?}", action);
    assert_eq!(job.phase, SyncPhase::Idle);
    assert!(job.repositories.is_empty());
    assert!(job.branches.is_empty());
    assert!(job.found.is_empty());
    assert_eq!(job.cursor, 0);
    assert_eq!(job.stored, 0);
}

/// Runs one tick against a store and remotes that tests make up, and gives
/// back the store's branches after it.
fn run_tick(
    repositories: &Vec<Repository>,
    mut table: Vec<Branch>,
    clones: &mut Vec<String>,
    remote: &dyn Fn(&str) -> Option<Vec<RemoteBranch>>,
) -> Vec<Branch> {
    let client = GitClient::new(config());
    let mut job = RefSync::new();
    let mut action = job.step(SyncEvent::TimerFired);
    let mut steps = 0;
    loop {
        steps += 1;
        assert!(steps < 10_000);
        let event = match action {
            SyncAction::Wait => return table,
            SyncAction::LoadStore => loaded(repositories.clone(), table.clone()),
            SyncAction::ProbePath { path } => SyncEvent::Probed { exists: clones.contains(&path) },
            SyncAction::Clone { url, path } => {
                let ok = remote(&url).is_some();
                if ok {
                    clones.push(path);
                }
                SyncEvent::Cloned { ok }
            }
            SyncAction::ListBranches { path } => {
                let url = format!(
                    "https://github.com/{}.git",
                    path.strip_prefix("repositories/").unwrap()
                );
                SyncEvent::Listed { branches: remote(&url).map(|found| client.get_branches(&found)) }
            }
            SyncAction::UpsertBranch { repository_id, name, head_sha } => {
                match table.iter_mut().find(|b| b.repository_id == repository_id && b.name == name) {
                    Some(existing) => existing.head_sha = head_sha,
                    None => {
                        let id = table.len() as i32 + 1;
                        table.push(row(id, repository_id, &name, &head_sha));
                    }
                }
                SyncEvent::Stored { ok: true }
            }
        };
        action = job.step(event);
    }
}

#[test]
fn scheduler_keeps_its_intervals() {
    let s = Scheduler::new(300, 180, GitClient::new(config()));
    assert_eq!(s.pr_poll_interval, 300);
    assert_eq!(s.refs_sync_interval, 180);
    assert_eq!(s.git_client.config.server_port, 8080);
}

#[test]
fn intervals_fall_back_where_a_key_is_absent() {
    let none = Queries::get_system_settings(Vec::new());
    assert_eq!(Scheduler::intervals(&none), Ok((300, 180)));
    let one = Queries::get_system_settings(vec![setting("sync_refs_interval", "15")]);
    assert_eq!(Scheduler::intervals(&one), Ok((300, 15)));
    let other = Queries::get_system_settings(vec![setting("github_api_poll_interval", "20")]);
    assert_eq!(Scheduler::intervals(&other), Ok((20, 180)));
}

#[test]
fn intervals_come_from_the_settings() {
    let both = Queries::get_system_settings(vec![
        setting("github_api_poll_interval", "600"),
        setting("sync_refs_interval", "90"),
        setting("unrelated", "x"),
    ]);
    assert_eq!(Scheduler::intervals(&both), Ok((600, 90)));
}

#[test]
fn an_interval_that_is_no_number_is_an_error() {
    for bad in ["", "fast", "-5", "1.5", "18446744073709551616"] {
        let s = Queries::get_system_settings(vec![setting("sync_refs_interval", bad)]);
        assert_eq!(Scheduler::intervals(&s), Err(ConfigError::InvalidSetting), "{:?}", bad);
        let s = Queries::get_system_settings(vec![setting("github_api_poll_interval", bad)]);
        assert_eq!(Scheduler::intervals(&s), Err(ConfigError::InvalidSetting), "{:?}", bad);
    }
}

#[test]
fn paths_and_urls_are_made_of_owner_and_name() {
    let r = repo(1, "acme", "lib", true);
    assert_eq!(local_path(&r), "repositories/acme/lib");
    assert_eq!(remote_url(&r), "https://github.com/acme/lib.git");
    let r = repo(2, "", "", true);
    assert_eq!(local_path(&r), "repositories//");
    assert_eq!(remote_url(&r), "https://github.com//.git");
}

#[test]
fn a_repository_with_a_branch_row_counts_as_synced() {
    let rows = vec![row(1, 7, "origin/main", "a1"), row(2, 9, "origin/main", "b2")];
    assert!(store_has_branch_of(&rows, 7));
    assert!(store_has_branch_of(&rows, 9));
    assert!(!store_has_branch_of(&rows, 8));
    assert!(!store_has_branch_of(&Vec::new(), 7));
}

#[test]
fn find_target_skips_synced_and_inactive_repositories() {
    let repos = vec![
        repo(1, "a", "one", true),
        repo(2, "a", "two", false),
        repo(3, "a", "three", true),
        repo(4, "a", "four", true),
    ];
    let rows = vec![row(1, 1, "origin/main", "a1"), row(2, 4, "origin/main", "d4")];
    assert_eq!(find_target(&repos, &rows, 0), 2);
    assert_eq!(find_target(&repos, &rows, 2), 2);
    assert_eq!(find_target(&repos, &rows, 3), 4);
    assert_eq!(find_target(&repos, &rows, 4), 4);
    assert_eq!(find_target(&repos, &Vec::new(), 0), 0);
    assert_eq!(find_target(&repos, &Vec::new(), 1), 2);
    assert_eq!(find_target(&Vec::new(), &rows, 0), 0);
}

#[test]
fn start_reads_the_store_at_once() {
    let s = Scheduler::new(300, 180, GitClient::new(config()));
    let (job, action) = s.start();
    assert!(matches!(action, SyncAction::LoadStore));
    assert_eq!(job.phase, SyncPhase::Loading);
}

#[test]
fn a_tick_clones_lists_and_stores() {
    let mut job = RefSync::new();
    assert_eq!(job.phase, SyncPhase::Idle);
    assert!(matches!(job.step(SyncEvent::TimerFired), SyncAction::LoadStore));
    assert_eq!(job.phase, SyncPhase::Loading);

    let a = job.step(loaded(vec![repo(5, "acme", "lib", true)], Vec::new()));
    expect_probe(a, "repositories/acme/lib");
    assert_eq!(job.phase, SyncPhase::Probing);
    assert_eq!(job.cursor, 0);

    let a = job.step(SyncEvent::Probed { exists: false });
    expect_clone(a, "https://github.com/acme/lib.git", "repositories/acme/lib");
    assert_eq!(job.phase, SyncPhase::Cloning);

    let a = job.step(SyncEvent::Cloned { ok: true });
    expect_list(a, "repositories/acme/lib");
    assert_eq!(job.phase, SyncPhase::Listing);

    let a = job.step(SyncEvent::Listed {
        branches: Some(vec![pair("origin/main", "a1"), pair("origin/dev", "b2")]),
    });
    expect_upsert(a, 5, "origin/main", "a1");
    assert_eq!(job.phase, SyncPhase::Storing);
    assert_eq!(job.stored, 0);

    let a = job.step(SyncEvent::Stored { ok: true });
    expect_upsert(a, 5, "origin/dev", "b2");
    assert_eq!(job.stored, 1);

    let a = job.step(SyncEvent::Stored { ok: true });
    expect_wait(&job, a);
}

#[test]
fn an_existing_clone_is_not_cloned_again() {
    let mut job = RefSync::new();
    job.step(SyncEvent::TimerFired);
    job.step(loaded(vec![repo(5, "acme", "lib", true)], Vec::new()));
    let a = job.step(SyncEvent::Probed { exists: true });
    expect_list(a, "repositories/acme/lib");
    assert_eq!(job.phase, SyncPhase::Listing);
}

#[test]
fn a_failed_read_gives_the_tick_up() {
    for (repos_ok, branches_ok) in [(false, true), (true, false), (false, false)] {
        let mut job = RefSync::new();
        job.step(SyncEvent::TimerFired);
        let a = job.step(SyncEvent::Loaded {
            repositories: if repos_ok {
                Ok(vec![repo(1, "a", "b", true)])
            } else {
                Err(StoreError::Failed)
            },
            branches: if branches_ok { Ok(Vec::new()) } else { Err(StoreError::Failed) },
        });
        expect_wait(&job, a);
        assert!(matches!(job.step(SyncEvent::TimerFired), SyncAction::LoadStore));
    }
}

#[test]
fn a_failed_clone_skips_that_repository_only() {
    let mut job = RefSync::new();
    job.step(SyncEvent::TimerFired);
    job.step(loaded(vec![repo(1, "a", "one", true), repo(2, "a", "two", true)], Vec::new()));
    job.step(SyncEvent::Probed { exists: false });
    let a = job.step(SyncEvent::Cloned { ok: false });
    expect_probe(a, "repositories/a/two");
    assert_eq!(job.cursor, 1);
    assert_eq!(job.phase, SyncPhase::Probing);
}

#[test]
fn a_failed_enumeration_skips_that_repository_only() {
    let mut job = RefSync::new();
    job.step(SyncEvent::TimerFired);
    job.step(loaded(vec![repo(1, "a", "one", true), repo(2, "a", "two", true)], Vec::new()));
    job.step(SyncEvent::Probed { exists: true });
    let a = job.step(SyncEvent::Listed { branches: None });
    expect_probe(a, "repositories/a/two");
    job.step(SyncEvent::Probed { exists: true });
    let a = job.step(SyncEvent::Listed { branches: None });
    expect_wait(&job, a);
}

#[test]
fn a_refused_branch_costs_nothing_but_itself() {
    let mut job = RefSync::new();
    job.step(SyncEvent::TimerFired);
    job.step(loaded(vec![repo(1, "a", "one", true)], Vec::new()));
    job.step(SyncEvent::Probed { exists: true });
    let a = job.step(SyncEvent::Listed {
        branches: Some(vec![pair("origin/x", "1"), pair("origin/y", "2"), pair("origin/z", "3")]),
    });
    expect_upsert(a, 1, "origin/x", "1");
    let a = job.step(SyncEvent::Stored { ok: false });
    expect_upsert(a, 1, "origin/y", "2");
    let a = job.step(SyncEvent::Stored { ok: false });
    expect_upsert(a, 1, "origin/z", "3");
    let a = job.step(SyncEvent::Stored { ok: true });
    expect_wait(&job, a);
}

#[test]
fn a_clone_without_branches_stores_nothing() {
    let mut job = RefSync::new();
    job.step(SyncEvent::TimerFired);
    job.step(loaded(vec![repo(1, "a", "one", true), repo(2, "a", "two", true)], Vec::new()));
    job.step(SyncEvent::Probed { exists: true });
    let a = job.step(SyncEvent::Listed { branches: Some(Vec::new()) });
    expect_probe(a, "repositories/a/two");
}

#[test]
fn synced_and_inactive_repositories_are_passed_over() {
    let mut job = RefSync::new();
    job.step(SyncEvent::TimerFired);
    let a = job.step(loaded(
        vec![
            repo(1, "a", "synced", true),
            repo(2, "a", "inactive", false),
            repo(3, "a", "fresh", true),
        ],
        vec![row(10, 1, "origin/main", "a1")],
    ));
    expect_probe(a, "repositories/a/fresh");
    assert_eq!(job.cursor, 2);
}

#[test]
fn a_tick_with_nothing_to_do_waits() {
    let mut job = RefSync::new();
    job.step(SyncEvent::TimerFired);
    let a = job.step(loaded(Vec::new(), Vec::new()));
    expect_wait(&job, a);

    job.step(SyncEvent::TimerFired);
    let a = job.step(loaded(
        vec![repo(1, "a", "synced", true), repo(2, "a", "inactive", false)],
        vec![row(10, 1, "origin/main", "a1")],
    ));
    expect_wait(&job, a);
}

#[test]
fn an_event_that_answers_nothing_ends_the_tick() {
    let mut job = RefSync::new();
    let a = job.step(SyncEvent::Probed { exists: true });
    expect_wait(&job, a);
    let a = job.step(SyncEvent::Stored { ok: true });
    expect_wait(&job, a);

    job.step(SyncEvent::TimerFired);
    job.step(loaded(vec![repo(1, "a", "one", true)], Vec::new()));
    assert!(!job.expects(&SyncEvent::TimerFired));
    assert!(job.expects(&SyncEvent::Probed { exists: false }));
    let a = job.step(SyncEvent::Cloned { ok: true });
    expect_wait(&job, a);

    job.step(SyncEvent::TimerFired);
    let a = job.step(SyncEvent::TimerFired);
    expect_wait(&job, a);
}

#[test]
fn a_state_without_a_repository_in_work_ends_the_tick() {
    let mut job = RefSync::new();
    job.phase = SyncPhase::Storing;
    job.cursor = 3;
    job.stored = usize::MAX;
    let a = job.step(SyncEvent::Stored { ok: true });
    expect_wait(&job, a);
}

#[test]
fn one_tick_for_a_fresh_repository() {
    let repositories = vec![repo(1, "acme", "lib", true)];
    let mut clones = Vec::new();
    let remote = |url: &str| {
        if url == "https://github.com/acme/lib.git" {
            Some(vec![
                RemoteBranch {
                    name: "origin/HEAD".to_string(),
                    is_head: false,
                    head_sha: Some("a1".to_string()),
                },
                RemoteBranch {
                    name: "origin/main".to_string(),
                    is_head: false,
                    head_sha: Some("a1".to_string()),
                },
                RemoteBranch {
                    name: "origin/dev".to_string(),
                    is_head: false,
                    head_sha: Some("b2".to_string()),
                },
            ])
        } else {
            None
        }
    };
    let table = run_tick(&repositories, Vec::new(), &mut clones, &remote);
    assert_eq!(clones, vec!["repositories/acme/lib".to_string()]);
    assert_eq!(table.len(), 2);
    assert_eq!(table[0].repository_id, 1);
    assert_eq!(table[0].name, "origin/main");
    assert_eq!(table[0].head_sha, "a1");
    assert_eq!(table[1].name, "origin/dev");
    assert_eq!(table[1].head_sha, "b2");
}

#[test]
fn one_tick_for_a_remote_with_only_a_head_symref() {
    let repositories = vec![repo(1, "acme", "lib", true)];
    let mut clones = Vec::new();
    let remote = |_url: &str| {
        Some(vec![RemoteBranch {
            name: "origin/HEAD".to_string(),
            is_head: false,
            head_sha: Some("a1".to_string()),
        }])
    };
    let table = run_tick(&repositories, Vec::new(), &mut clones, &remote);
    assert_eq!(clones, vec!["repositories/acme/lib".to_string()]);
    assert!(table.is_empty());
}

#[test]
fn a_second_tick_changes_nothing() {
    let repositories = vec![
        repo(1, "acme", "lib", true),
        repo(2, "acme", "empty", true),
        repo(3, "acme", "gone", true),
        repo(4, "acme", "off", false),
        repo(5, "acme", "known", true),
    ];
    let start = vec![row(1, 5, "origin/main", "k1")];
    let mut clones = Vec::new();
    let remote = |url: &str| match url {
        "https://github.com/acme/lib.git" => Some(vec![
            RemoteBranch {
                name: "origin/main".to_string(),
                is_head: false,
                head_sha: Some("a1".to_string()),
            },
            RemoteBranch {
                name: "origin/main".to_string(),
                is_head: false,
                head_sha: Some("a2".to_string()),
            },
            RemoteBranch { name: "origin/bad".to_string(), is_head: false, head_sha: None },
            RemoteBranch {
                name: "origin/dev".to_string(),
                is_head: false,
                head_sha: Some("b2".to_string()),
            },
        ]),
        "https://github.com/acme/empty.git" => Some(Vec::new()),
        "https://github.com/acme/known.git" => Some(vec![RemoteBranch {
            name: "origin/other".to_string(),
            is_head: false,
            head_sha: Some("zz".to_string()),
        }]),
        _ => None,
    };
    let first = run_tick(&repositories, start, &mut clones, &remote);
    let summary: Vec<(i32, String, String)> =
        first.iter().map(|b| (b.repository_id, b.name.clone(), b.head_sha.clone())).collect();
    assert_eq!(
        summary,
        vec![
            (5, "origin/main".to_string(), "k1".to_string()),
            (1, "origin/main".to_string(), "a2".to_string()),
            (1, "origin/dev".to_string(), "b2".to_string()),
        ]
    );
    let second = run_tick(&repositories, first.clone(), &mut clones, &remote);
    assert_eq!(second, first);
    let third = run_tick(&repositories, second.clone(), &mut clones, &remote);
    assert_eq!(third, first);
}
