//! Deployment configuration.

use vstd::prelude::*;
use vstd::string::*;
use crate::log_anchor;
use crate::log_anchor::LogAnchorConfig;
use crate::log_anchor::LogAnchorView;
use crate::params;
use crate::params::Params;
use crate::text;

verus! {

/// Default bind (8095, after registry 8090, issuer 8091, trust/log 8092).
pub const DEFAULT_BIND: &'static str = "127.0.0.1:8095";

/// Deployment configuration. Addresses and paths are texts here; what they
/// denote is up to the platform.
#[derive(Debug)]
pub struct Config {
    /// Listen address (`UNIDPP_ARCHIVE_BIND`).
    pub bind: String,
    /// Bearer token guarding mutations and `/admin/*`; `None` = open (dev mode).
    pub admin_token: Option<String>,
    /// Optional JSONL journal file (append-only, replayed on start).
    pub state_file: Option<String>,
    /// Optional snapshot directory (verified and re-materialized on replay).
    pub snapshot_dir: Option<String>,
    /// The deterministic dev seed when env-key mode is unavailable.
    pub dev_seed: Option<String>,
    /// Transparency-log anchoring configuration (`UNIDPP_LOG_URL`).
    pub log: LogAnchorConfig,
}

/// The content of a configuration.
#[verifier::ext_equal]
pub struct ConfigView {
    pub bind: Seq<char>,
    pub admin_token: Option<Seq<char>>,
    pub state_file: Option<Seq<char>>,
    pub snapshot_dir: Option<Seq<char>>,
    pub dev_seed: Option<Seq<char>>,
    pub log: LogAnchorView,
}

impl View for Config {
    type V = ConfigView;

    open spec fn view(&self) -> ConfigView {
        ConfigView {
            bind: self.bind@,
            admin_token: self.admin_token.deep_view(),
            state_file: self.state_file.deep_view(),
            snapshot_dir: self.snapshot_dir.deep_view(),
            dev_seed: self.dev_seed.deep_view(),
            log: self.log@,
        }
    }
}

impl Clone for Config {
    fn clone(&self) -> (r: Config)
        ensures
            r@ == self@,
    {
        Config {
            bind: self.bind.clone(),
            admin_token: text::clone_option(&self.admin_token),
            state_file: text::clone_option(&self.state_file),
            snapshot_dir: text::clone_option(&self.snapshot_dir),
            dev_seed: text::clone_option(&self.dev_seed),
            log: self.log.clone(),
        }
    }
}

impl Default for Config {
    fn default() -> (r: Config)
        ensures
            r@ == config_in(Map::empty()),
    {
        let r = Config {
            bind: DEFAULT_BIND.to_owned(),
            admin_token: None,
            state_file: None,
            snapshot_dir: None,
            dev_seed: None,
            log: LogAnchorConfig::disabled(),
        };
        r
    }
}

/// The text of a variable, unless it is empty.
pub open spec fn nonempty(vars: Map<Seq<char>, Seq<char>>, name: Seq<char>) -> Option<Seq<char>> {
    match params::value_of(vars, name) {
        Some(s) => if s.len() > 0 {
            Some(s)
        } else {
            None
        },
        None => None,
    }
}

/// The configuration that the variables of an environment describe.
pub open spec fn config_in(vars: Map<Seq<char>, Seq<char>>) -> ConfigView {
    ConfigView {
        bind: match params::value_of(vars, "UNIDPP_ARCHIVE_BIND"@) {
            Some(s) => s,
            None => DEFAULT_BIND@,
        },
        admin_token: nonempty(vars, "UNIDPP_ARCHIVE_ADMIN_TOKEN"@),
        state_file: nonempty(vars, "UNIDPP_ARCHIVE_STATE_FILE"@),
        snapshot_dir: nonempty(vars, "UNIDPP_ARCHIVE_SNAPSHOT_DIR"@),
        dev_seed: nonempty(vars, "UNIDPP_ARCHIVE_DEV_SEED"@),
        log: log_anchor::config_in(vars),
    }
}

fn read_nonempty(vars: &Params, name: &str) -> (r: Option<String>)
    ensures
        r.deep_view() == nonempty(vars@, name@),
{
    match vars.get(name) {
        Some(s) => {
            if text::chars_of(s).len() > 0 {
                Some(s.to_owned())
            } else {
                None
            }
        },
        None => None,
    }
}

impl Config {
    /// The environment variables this service consumes: the deployment contract.
    pub fn env_keys() -> (r: Vec<&'static str>)
        ensures
            r.deep_view() == env_key_names(),
    {
        let mut r: Vec<&'static str> = Vec::new();
        r.push("UNIDPP_ARCHIVE_BIND");
        r.push("UNIDPP_ARCHIVE_ADMIN_TOKEN");
        r.push("UNIDPP_ARCHIVE_STATE_FILE");
        r.push("UNIDPP_ARCHIVE_SNAPSHOT_DIR");
        r.push("UNIDPP_ARCHIVE_DEV_SEED");
        r.push("UNIDPP_ARCHIVE_SIGN_SEED");
        r.push("UNIDPP_LOG_URL");
        r.push("UNIDPP_ARCHIVE_LOG_TOKEN");
        r.push("UNIDPP_ARCHIVE_LOG_TIMEOUT_MS");
        proof {
            assert(r.deep_view() =~= env_key_names());
        }
        r
    }

    /// Resolve the configuration from the variables of an environment.
    pub fn from_env_map(vars: &Params) -> (r: Config)
        ensures
            r@ == config_in(vars@),
    {
        let bind = match vars.get("UNIDPP_ARCHIVE_BIND") {
            Some(s) => s.to_owned(),
            None => DEFAULT_BIND.to_owned(),
        };
        Config {
            bind,
            admin_token: read_nonempty(vars, "UNIDPP_ARCHIVE_ADMIN_TOKEN"),
            state_file: read_nonempty(vars, "UNIDPP_ARCHIVE_STATE_FILE"),
            snapshot_dir: read_nonempty(vars, "UNIDPP_ARCHIVE_SNAPSHOT_DIR"),
            dev_seed: read_nonempty(vars, "UNIDPP_ARCHIVE_DEV_SEED"),
            log: LogAnchorConfig::from_env_map(vars),
        }
    }
}

/// The names of the environment variables this service consumes.
pub open spec fn env_key_names() -> Seq<Seq<char>> {
    seq![
        "UNIDPP_ARCHIVE_BIND"@,
        "UNIDPP_ARCHIVE_ADMIN_TOKEN"@,
        "UNIDPP_ARCHIVE_STATE_FILE"@,
        "UNIDPP_ARCHIVE_SNAPSHOT_DIR"@,
        "UNIDPP_ARCHIVE_DEV_SEED"@,
        "UNIDPP_ARCHIVE_SIGN_SEED"@,
        "UNIDPP_LOG_URL"@,
        "UNIDPP_ARCHIVE_LOG_TOKEN"@,
        "UNIDPP_ARCHIVE_LOG_TIMEOUT_MS"@,
    ]
}

} // verus!
