//! Configuration values, their validation, and the choice of the GitHub token.
//!
//! Reading the configuration file, the environment and running the token
//! command are done by the program around this library; this module holds
//! the rules that decide on what was read.

use std::collections::HashMap;

use vstd::prelude::*;

use crate::text::{
    chars_of, lemma_trimmed_is_trimmed, push_str, string_of, string_of_range, trim, trimmed,
};

verus! {

#[verifier::external_type_specification]
#[verifier::external_body]
pub struct ExFigmentError(figment::Error);

/// Errors that can occur during configuration loading or validation.
#[derive(Debug)]
pub enum ConfigError {
    ParseError { path: String, message: String },
    InvalidRepoFormat { entry: String },
    NoRepos,
    InvalidRefreshInterval { key: String, value: i64 },
    NoToken,
    TokenCmdFailed { cmd: String, detail: String },
    Figment(figment::Error),
}

/// Refresh interval settings (in seconds).
#[derive(Debug, Clone, Copy)]
pub struct RefreshConfig {
    /// How often to refresh dashboard data (default: 60s).
    pub dashboard: u64,
    /// How often to refresh Actions run data (default: 30s).
    pub actions: u64,
    /// How often to poll job logs when in-progress (default: 2s).
    pub logs: u64,
}

/// Default dashboard refresh interval, in seconds.
pub fn default_dashboard_interval() -> (r: u64)
    ensures
        r == 60,
{
    60
}

/// Default Actions refresh interval, in seconds.
pub fn default_actions_interval() -> (r: u64)
    ensures
        r == 30,
{
    30
}

/// Default log polling interval, in seconds.
pub fn default_logs_interval() -> (r: u64)
    ensures
        r == 2,
{
    2
}

impl Default for RefreshConfig {
    fn default() -> (r: Self)
        ensures
            r == (RefreshConfig { dashboard: 60, actions: 30, logs: 2 }),
    {
        RefreshConfig {
            dashboard: default_dashboard_interval(),
            actions: default_actions_interval(),
            logs: default_logs_interval(),
        }
    }
}

/// Top-level application configuration.
#[derive(Debug, Clone)]
pub struct Config {
    /// List of repositories to monitor, in `owner/repo` format.
    pub repos: Vec<String>,
    /// GitHub Personal Access Token (alternative to env var or token_cmd).
    pub token: Option<String>,
    /// Shell command whose stdout is used as the GitHub token.
    pub token_cmd: Option<String>,
    /// Refresh intervals.
    pub refresh: RefreshConfig,
    /// Named filter presets: map of preset name → list of repo strings.
    pub filters: HashMap<String, Vec<String>>,
}

// ── Validation ────────────────────────────────────────────────────────────────

/// `entry` has the form `owner/repo`: its first `/` has text on both sides.
pub open spec fn repo_entry_ok(entry: Seq<char>) -> bool {
    exists|i: int|
        0 < i < entry.len() - 1 && #[trigger] entry[i] == '/' && forall|j: int|
            0 <= j < i ==> entry[j] != '/'
}

/// Every entry of `repos` has the form `owner/repo`.
pub open spec fn all_repos_ok(repos: Seq<String>) -> bool {
    forall|k: int| 0 <= k < repos.len() ==> repo_entry_ok(#[trigger] repos[k]@)
}

/// `k` is the first entry of `repos` without the form `owner/repo`.
pub open spec fn first_bad_repo(repos: Seq<String>, k: int) -> bool {
    &&& 0 <= k < repos.len()
    &&& !repo_entry_ok(repos[k]@)
    &&& forall|j: int| 0 <= j < k ==> repo_entry_ok(#[trigger] repos[j]@)
}

/// Whether `entry` has the form `owner/repo`.
fn repo_entry_valid(entry: &str) -> (r: bool)
    ensures
        r == repo_entry_ok(entry@),
{
    let v = chars_of(entry);
    let mut i: usize = 0;
    while i < v.len() && v[i] != '/'
        invariant
            v@ == entry@,
            i <= v@.len(),
            forall|j: int| 0 <= j < i ==> v@[j] != '/',
        decreases v.len() - i,
    {
        i = i + 1;
    }
    if i == v.len() {
        return false;
    }
    let r = i > 0 && i + 1 < v.len();
    proof {
        if !r {
            assert forall|k: int|
                0 < k < entry@.len() - 1 && #[trigger] entry@[k] == '/' implies !(forall|j: int|
                0 <= j < k ==> entry@[j] != '/') by {
                if k < i {
                } else if k > i {
                    assert(entry@[i as int] == '/');
                } else {
                }
            }
        }
    }
    r
}

/// Which configuration file is read.
#[derive(Debug, Clone, Copy, PartialEq, Eq, Structural)]
pub enum ConfigLocation {
    /// `xrepotui/config.toml` under the XDG configuration directory.
    Xdg,
    /// `.xrepotui.toml` in the home directory.
    Home,
}

/// The configuration file to read, given which of the two candidates exist:
/// the XDG one first, then the one in the home directory, else none.
pub fn config_choice(xdg_exists: bool, home_exists: bool) -> (r: Option<ConfigLocation>)
    ensures
        r == (if xdg_exists {
            Some(ConfigLocation::Xdg)
        } else if home_exists {
            Some(ConfigLocation::Home)
        } else {
            None
        }),
{
    if xdg_exists {
        Some(ConfigLocation::Xdg)
    } else if home_exists {
        Some(ConfigLocation::Home)
    } else {
        None
    }
}

/// Splits a configured `owner/repo` entry at its first `/` into owner and
/// repository; `None` when the entry holds no `/`.
pub fn split_repo_key(key: &str) -> (r: Option<(String, String)>)
    ensures
        r is None <==> forall|j: int| 0 <= j < key@.len() ==> key@[j] != '/',
        r matches Some((owner, repo)) ==> {
            &&& key@ == owner@ + seq!['/'] + repo@
            &&& forall|j: int| 0 <= j < owner@.len() ==> owner@[j] != '/'
        },
{
    let v = chars_of(key);
    let mut i: usize = 0;
    while i < v.len() && v[i] != '/'
        invariant
            v@ == key@,
            i <= v@.len(),
            forall|j: int| 0 <= j < i ==> v@[j] != '/',
        decreases v.len() - i,
    {
        i = i + 1;
    }
    if i == v.len() {
        return None;
    }
    let owner = string_of_range(&v, 0, i);
    let repo = string_of_range(&v, i + 1, v.len());
    assert(key@ =~= owner@ + seq!['/'] + repo@);
    Some((owner, repo))
}

/// Validate the loaded configuration.
pub fn validate(config: &Config) -> (r: Result<(), ConfigError>)
    ensures
        r is Ok <==> all_repos_ok(config.repos@) && config.refresh.dashboard > 0
            && config.refresh.actions > 0 && config.refresh.logs > 0,
        !all_repos_ok(config.repos@) ==> (r matches Err(ConfigError::InvalidRepoFormat { entry })
            && exists|k: int| first_bad_repo(config.repos@, k) && entry@ == config.repos@[k]@),
        all_repos_ok(config.repos@) && config.refresh.dashboard == 0 ==> (r matches Err(
            ConfigError::InvalidRefreshInterval { key, value },
        ) && key@ == "dashboard"@ && value == 0),
        all_repos_ok(config.repos@) && config.refresh.dashboard > 0 && config.refresh.actions == 0
            ==> (r matches Err(ConfigError::InvalidRefreshInterval { key, value }) && key@
            == "actions"@ && value == 0),
        all_repos_ok(config.repos@) && config.refresh.dashboard > 0 && config.refresh.actions > 0
            && config.refresh.logs == 0 ==> (r matches Err(
            ConfigError::InvalidRefreshInterval { key, value },
        ) && key@ == "logs"@ && value == 0),
{
    let mut k: usize = 0;
    while k < config.repos.len()
        invariant
            k <= config.repos@.len(),
            forall|j: int| 0 <= j < k ==> repo_entry_ok(#[trigger] config.repos@[j]@),
        decreases config.repos.len() - k,
    {
        if !repo_entry_valid(config.repos[k].as_str()) {
            assert(first_bad_repo(config.repos@, k as int));
            return Err(ConfigError::InvalidRepoFormat { entry: config.repos[k].clone() });
        }
        k = k + 1;
    }
    if config.refresh.dashboard == 0 {
        return Err(
            ConfigError::InvalidRefreshInterval { key: string_of("dashboard"), value: 0 },
        );
    }
    if config.refresh.actions == 0 {
        return Err(ConfigError::InvalidRefreshInterval { key: string_of("actions"), value: 0 });
    }
    if config.refresh.logs == 0 {
        return Err(ConfigError::InvalidRefreshInterval { key: string_of("logs"), value: 0 });
    }
    Ok(())
}

// ── Token resolution ──────────────────────────────────────────────────────────

/// Where the GitHub token comes from.
#[derive(Debug)]
pub enum TokenPlan {
    /// This token, trimmed, is the one to use.
    Use(String),
    /// Run this shell command and take its output.
    RunCommand(String),
    /// No source of a token is configured.
    Missing,
}

/// `o` holds a text that is not blank.
pub open spec fn has_text(o: Option<Seq<char>>) -> bool {
    o matches Some(t) && trimmed(t).len() > 0
}

/// A source's text as an optional sequence.
pub open spec fn text_of(o: Option<String>) -> Option<Seq<char>> {
    match o {
        Some(s) => Some(s@),
        None => None,
    }
}

/// An optional string's text.
pub open spec fn str_text(o: Option<&str>) -> Option<Seq<char>> {
    match o {
        Some(s) => Some(s@),
        None => None,
    }
}

/// Decide where the token comes from, by priority: the `GITHUB_TOKEN`
/// environment value, then the `token` of the configuration, then its
/// `token_cmd`. Blank values do not count.
pub fn plan_token(env_token: Option<&str>, config: &Config) -> (r: TokenPlan)
    ensures
        has_text(str_text(env_token)) ==> (r matches TokenPlan::Use(u) && u@ == trimmed(
            str_text(env_token)->0,
        )),
        !has_text(str_text(env_token)) && has_text(text_of(config.token)) ==> (r matches TokenPlan::Use(u)
            && u@ == trimmed(config.token->0@)),
        !has_text(str_text(env_token)) && !has_text(text_of(config.token)) && config.token_cmd is Some
            ==> (r matches TokenPlan::RunCommand(c) && c == config.token_cmd->0),
        !has_text(str_text(env_token)) && !has_text(text_of(config.token)) && config.token_cmd is None
            ==> (r is Missing),
{
    if let Some(t) = env_token {
        let tt = trim(t);
        if !tt.as_str().is_empty() {
            return TokenPlan::Use(tt);
        }
    }
    if let Some(t) = &config.token {
        let tt = trim(t.as_str());
        if !tt.as_str().is_empty() {
            return TokenPlan::Use(tt);
        }
    }
    if let Some(cmd) = &config.token_cmd {
        return TokenPlan::RunCommand(cmd.clone());
    }
    TokenPlan::Missing
}

/// How running the token command went.
#[derive(Debug)]
pub enum CommandOutcome {
    /// The command could not be started; the error's text.
    SpawnFailed { detail: String },
    /// The command ran: whether it succeeded, its exit status as text, and
    /// its output and error output.
    Exited { success: bool, status: String, stdout: String, stderr: String },
}

/// The token taken from the outcome of running `cmd`: its trimmed output on
/// success, an error naming the command otherwise.
pub fn token_from_command(cmd: &str, outcome: CommandOutcome) -> (r: Result<String, ConfigError>)
    ensures
        match outcome {
            CommandOutcome::SpawnFailed { detail } => (r matches Err(
                ConfigError::TokenCmdFailed { cmd: c, detail: d },
            ) && c@ == cmd@ && d == detail),
            CommandOutcome::Exited { success, status, stdout, stderr } => if !success {
                (r matches Err(ConfigError::TokenCmdFailed { cmd: c, detail: d }) && c@ == cmd@
                    && d@ == "exited with "@ + status@ + ": "@ + trimmed(stderr@))
            } else if trimmed(stdout@).len() > 0 {
                (r matches Ok(t) && t@ == trimmed(stdout@))
            } else {
                (r matches Err(e) && e is NoToken)
            },
        },
{
    match outcome {
        CommandOutcome::SpawnFailed { detail } => {
            Err(ConfigError::TokenCmdFailed { cmd: string_of(cmd), detail })
        },
        CommandOutcome::Exited { success, status, stdout, stderr } => {
            if !success {
                let mut detail = string_of("exited with ");
                push_str(&mut detail, status.as_str());
                push_str(&mut detail, ": ");
                let err = trim(stderr.as_str());
                push_str(&mut detail, err.as_str());
                return Err(ConfigError::TokenCmdFailed { cmd: string_of(cmd), detail });
            }
            let token = trim(stdout.as_str());
            if !token.as_str().is_empty() {
                Ok(token)
            } else {
                Err(ConfigError::NoToken)
            }
        },
    }
}

/// Every token that `plan_token` or `token_from_command` hands back is its
/// own trim and is not empty: a text with something besides white space,
/// trimmed.
pub proof fn law_token_is_its_own_trim(s: Seq<char>)
    requires
        has_text(Some(s)),
    ensures
        trimmed(s).len() > 0,
        trimmed(trimmed(s)) == trimmed(s),
{
    lemma_trimmed_is_trimmed(s);
}

} // verus!
