use std::collections::HashMap;

use xrepotui::config::{
    config_choice, default_actions_interval, default_dashboard_interval, ConfigLocation, default_logs_interval, plan_token,
    split_repo_key, token_from_command, validate, CommandOutcome, Config, ConfigError, RefreshConfig, TokenPlan,
};

fn config_with(repos: Vec<&str>, token: Option<&str>, token_cmd: Option<&str>) -> Config {
    Config {
        repos: repos.into_iter().map(|s| s.to_string()).collect(),
        token: token.map(|s| s.to_string()),
        token_cmd: token_cmd.map(|s| s.to_string()),
        refresh: RefreshConfig::default(),
        filters: HashMap::new(),
    }
}

#[test]
fn validate_valid_repos() {
    let config = Config {
        repos: vec!["owner/repo".to_string(), "org/project".to_string()],
        token: None,
        token_cmd: None,
        refresh: RefreshConfig::default(),
        filters: HashMap::new(),
    };
    assert!(validate(&config).is_ok());
}

#[test]
fn validate_invalid_repo_format() {
    let config = Config {
        repos: vec!["notavalidrepo".to_string()],
        token: None,
        token_cmd: None,
        refresh: RefreshConfig::default(),
        filters: HashMap::new(),
    };
    let err = validate(&config).unwrap_err();
    assert!(matches!(err, ConfigError::InvalidRepoFormat { .. }));
}

#[test]
fn validate_empty_owner() {
    let config = Config {
        repos: vec!["/repo".to_string()],
        token: None,
        token_cmd: None,
        refresh: RefreshConfig::default(),
        filters: HashMap::new(),
    };
    let err = validate(&config).unwrap_err();
    assert!(matches!(err, ConfigError::InvalidRepoFormat { .. }));
}

#[test]
fn validate_zero_dashboard_interval() {
    let config = Config {
        repos: vec![],
        token: None,
        token_cmd: None,
        refresh: RefreshConfig { dashboard: 0, actions: 30, logs: 2 },
        filters: HashMap::new(),
    };
    let err = validate(&config).unwrap_err();
    assert!(matches!(err, ConfigError::InvalidRefreshInterval { .. }));
}

#[test]
fn validate_reports_first_bad_entry_and_empty_repo_name() {
    let config = config_with(vec!["a/b", "owner/", "x"], None, None);
    match validate(&config) {
        Err(ConfigError::InvalidRepoFormat { entry }) => assert_eq!(entry, "owner/"),
        other => panic!("unexpected {:?}", other),
    }
    // Only the first slash separates owner and repo.
    assert!(validate(&config_with(vec!["a/b/c"], None, None)).is_ok());
}

#[test]
fn validate_names_the_zero_interval() {
    let mut config = config_with(vec!["a/b"], None, None);
    config.refresh.actions = 0;
    match validate(&config) {
        Err(ConfigError::InvalidRefreshInterval { key, value }) => {
            assert_eq!(key, "actions");
            assert_eq!(value, 0);
        }
        other => panic!("unexpected {:?}", other),
    }
    config.refresh.actions = 30;
    config.refresh.logs = 0;
    match validate(&config) {
        Err(ConfigError::InvalidRefreshInterval { key, .. }) => assert_eq!(key, "logs"),
        other => panic!("unexpected {:?}", other),
    }
}

#[test]
fn default_intervals() {
    assert_eq!(default_dashboard_interval(), 60);
    assert_eq!(default_actions_interval(), 30);
    assert_eq!(default_logs_interval(), 2);
    let r = RefreshConfig::default();
    assert_eq!((r.dashboard, r.actions, r.logs), (60, 30, 2));
}

#[test]
fn token_from_env_takes_priority() {
    let config = config_with(vec![], Some("config-token"), None);
    match plan_token(Some("env-token"), &config) {
        TokenPlan::Use(t) => assert_eq!(t, "env-token"),
        other => panic!("unexpected {:?}", other),
    }
}

#[test]
fn token_from_config_when_no_env() {
    let config = config_with(vec![], Some("config-token"), None);
    match plan_token(None, &config) {
        TokenPlan::Use(t) => assert_eq!(t, "config-token"),
        other => panic!("unexpected {:?}", other),
    }
}

#[test]
fn no_token_returns_error() {
    let config = config_with(vec![], None, None);
    assert!(matches!(plan_token(None, &config), TokenPlan::Missing));
}

#[test]
fn config_token_when_environment_is_blank() {
    let config = config_with(vec![], Some("  config-token \n"), Some("gh auth token"));
    match plan_token(Some("   "), &config) {
        TokenPlan::Use(t) => assert_eq!(t, "config-token"),
        other => panic!("unexpected {:?}", other),
    }
    match plan_token(None, &config) {
        TokenPlan::Use(t) => assert_eq!(t, "config-token"),
        other => panic!("unexpected {:?}", other),
    }
}

#[test]
fn token_command_then_missing() {
    let config = config_with(vec![], Some(""), Some("gh auth token"));
    match plan_token(None, &config) {
        TokenPlan::RunCommand(c) => assert_eq!(c, "gh auth token"),
        other => panic!("unexpected {:?}", other),
    }
    let config = config_with(vec![], None, None);
    assert!(matches!(plan_token(None, &config), TokenPlan::Missing));
}

#[test]
fn token_from_command_outcomes() {
    let ok = token_from_command(
        "gh auth token",
        CommandOutcome::Exited {
            success: true,
            status: "exit status: 0".to_string(),
            stdout: " ghp_abc\n".to_string(),
            stderr: String::new(),
        },
    );
    assert_eq!(ok.unwrap(), "ghp_abc");

    let failed = token_from_command(
        "gh auth token",
        CommandOutcome::Exited {
            success: false,
            status: "exit status: 1".to_string(),
            stdout: String::new(),
            stderr: "not logged in\n".to_string(),
        },
    );
    match failed {
        Err(ConfigError::TokenCmdFailed { cmd, detail }) => {
            assert_eq!(cmd, "gh auth token");
            assert_eq!(detail, "exited with exit status: 1: not logged in");
        }
        other => panic!("unexpected {:?}", other),
    }

    let empty = token_from_command(
        "true",
        CommandOutcome::Exited {
            success: true,
            status: "exit status: 0".to_string(),
            stdout: "\n".to_string(),
            stderr: String::new(),
        },
    );
    assert!(matches!(empty, Err(ConfigError::NoToken)));

    let spawn = token_from_command(
        "missing",
        CommandOutcome::SpawnFailed { detail: "No such file".to_string() },
    );
    match spawn {
        Err(ConfigError::TokenCmdFailed { cmd, detail }) => {
            assert_eq!(cmd, "missing");
            assert_eq!(detail, "No such file");
        }
        other => panic!("unexpected {:?}", other),
    }
}

#[test]
fn split_repo_key_at_first_slash() {
    assert_eq!(
        split_repo_key("rust-lang/rust"),
        Some(("rust-lang".to_string(), "rust".to_string()))
    );
    assert_eq!(split_repo_key("a/b/c"), Some(("a".to_string(), "b/c".to_string())));
    assert_eq!(split_repo_key("/x"), Some((String::new(), "x".to_string())));
    assert_eq!(split_repo_key("noslash"), None);
    assert_eq!(split_repo_key(""), None);
}

#[test]
fn config_file_choice() {
    assert_eq!(config_choice(true, true), Some(ConfigLocation::Xdg));
    assert_eq!(config_choice(true, false), Some(ConfigLocation::Xdg));
    assert_eq!(config_choice(false, true), Some(ConfigLocation::Home));
    assert_eq!(config_choice(false, false), None);
}
