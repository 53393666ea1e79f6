//! The transparency-log anchoring hop: what is sent to a log to have a snapshot
//! commitment sequenced, and what its reply means.
//!
//! When the log is not configured, not reachable or refuses, the reason is given
//! in words, and the snapshot is recorded as unanchored with that reason.

use core::time::Duration;
use serde_json::Value;
use vstd::prelude::*;
use vstd::string::*;
use crate::hex;
use crate::json;
use crate::json::JsonView;
use crate::params;
use crate::params::Params;
use crate::text;

verus! {

/// The default anchoring timeout (a log that cannot answer in time is treated as
/// unreachable, because the snapshot must not hang on it).
pub const DEFAULT_TIMEOUT_MS: u64 = 3_000;

/// The duration of a number of milliseconds.
pub uninterp spec fn millis(n: u64) -> Duration;

/// `Duration::from_millis` gives the duration of a number of milliseconds, which
/// depends on that number alone.
pub assume_specification[ core::time::Duration::from_millis ](n: u64) -> (d: Duration)
    ensures
        d == millis(n),
;

/// Where and how to reach the transparency log.
#[derive(Debug)]
pub struct LogAnchorConfig {
    /// Base URL of a log (`UNIDPP_LOG_URL`), e.g. `http://127.0.0.1:8092`. `None`
    /// disables anchoring entirely.
    pub base_url: Option<String>,
    /// Optional Bearer token for the log's append guard
    /// (`UNIDPP_ARCHIVE_LOG_TOKEN`).
    pub bearer: Option<String>,
    /// Per-request timeout (`UNIDPP_ARCHIVE_LOG_TIMEOUT_MS`).
    pub timeout: Duration,
}

/// The content of an anchoring configuration.
#[verifier::ext_equal]
pub struct LogAnchorView {
    pub base_url: Option<Seq<char>>,
    pub bearer: Option<Seq<char>>,
    pub timeout: Duration,
}

impl View for LogAnchorConfig {
    type V = LogAnchorView;

    open spec fn view(&self) -> LogAnchorView {
        LogAnchorView {
            base_url: self.base_url.deep_view(),
            bearer: self.bearer.deep_view(),
            timeout: self.timeout,
        }
    }
}

impl Clone for LogAnchorConfig {
    fn clone(&self) -> (r: LogAnchorConfig)
        ensures
            r@ == self@,
    {
        LogAnchorConfig {
            base_url: text::clone_option(&self.base_url),
            bearer: text::clone_option(&self.bearer),
            timeout: self.timeout,
        }
    }
}

/// Whether a log is configured: a base URL that is not blank.
pub open spec fn configured(c: LogAnchorView) -> bool {
    c.base_url is Some && text::trimmed(c.base_url->0).len() > 0
}

/// Anchoring to a log, or none, with the default timeout.
pub open spec fn with_base(base_url: Option<Seq<char>>) -> LogAnchorView {
    LogAnchorView { base_url, bearer: None, timeout: millis(DEFAULT_TIMEOUT_MS) }
}

impl Default for LogAnchorConfig {
    fn default() -> (r: LogAnchorConfig)
        ensures
            r@ == with_base(None),
    {
        LogAnchorConfig {
            base_url: None,
            bearer: None,
            timeout: Duration::from_millis(DEFAULT_TIMEOUT_MS),
        }
    }
}

/// The text of a variable without the white space around it, unless nothing is
/// left.
pub open spec fn setting(vars: Map<Seq<char>, Seq<char>>, name: Seq<char>) -> Option<Seq<char>> {
    match params::value_of(vars, name) {
        Some(s) => if text::trimmed(s).len() > 0 {
            Some(text::trimmed(s))
        } else {
            None
        },
        None => None,
    }
}

/// The timeout in milliseconds that a variable sets: a number above zero.
pub open spec fn timeout_setting(vars: Map<Seq<char>, Seq<char>>) -> u64 {
    match params::value_of(vars, "UNIDPP_ARCHIVE_LOG_TIMEOUT_MS"@) {
        Some(s) => match text::number_of(text::trimmed(s), u64::MAX as nat) {
            Some(n) => if n > 0 {
                n as u64
            } else {
                DEFAULT_TIMEOUT_MS
            },
            None => DEFAULT_TIMEOUT_MS,
        },
        None => DEFAULT_TIMEOUT_MS,
    }
}

/// The configuration that the variables of an environment describe.
pub open spec fn config_in(vars: Map<Seq<char>, Seq<char>>) -> LogAnchorView {
    LogAnchorView {
        base_url: setting(vars, "UNIDPP_LOG_URL"@),
        bearer: setting(vars, "UNIDPP_ARCHIVE_LOG_TOKEN"@),
        timeout: millis(timeout_setting(vars)),
    }
}

fn read_setting(vars: &Params, name: &str) -> (r: Option<String>)
    ensures
        r.deep_view() == setting(vars@, name@),
{
    match vars.get(name) {
        Some(s) => {
            let t = text::trim(s);
            if text::chars_of(&t).len() > 0 {
                Some(t)
            } else {
                None
            }
        },
        None => None,
    }
}

fn read_timeout(vars: &Params) -> (r: u64)
    ensures
        r == timeout_setting(vars@),
{
    match vars.get("UNIDPP_ARCHIVE_LOG_TIMEOUT_MS") {
        Some(s) => match text::parse_number(&text::trim(s), u64::MAX) {
            Some(n) => {
                if n > 0 {
                    n
                } else {
                    DEFAULT_TIMEOUT_MS
                }
            },
            None => DEFAULT_TIMEOUT_MS,
        },
        None => DEFAULT_TIMEOUT_MS,
    }
}

impl LogAnchorConfig {
    /// Anchoring disabled (no `UNIDPP_LOG_URL`).
    pub fn disabled() -> (r: LogAnchorConfig)
        ensures
            r@ == with_base(None),
    {
        LogAnchorConfig::default()
    }

    /// Anchoring enabled against `base` with the default timeout.
    pub fn enabled(base: &str) -> (r: LogAnchorConfig)
        ensures
            r@ == with_base(Some(base@)),
    {
        LogAnchorConfig {
            base_url: Some(base.to_owned()),
            bearer: None,
            timeout: Duration::from_millis(DEFAULT_TIMEOUT_MS),
        }
    }

    /// Resolve from the variables of an environment.
    pub fn from_env_map(vars: &Params) -> (r: LogAnchorConfig)
        ensures
            r@ == config_in(vars@),
    {
        LogAnchorConfig {
            base_url: read_setting(vars, "UNIDPP_LOG_URL"),
            bearer: read_setting(vars, "UNIDPP_ARCHIVE_LOG_TOKEN"),
            timeout: Duration::from_millis(read_timeout(vars)),
        }
    }

    /// Whether anchoring will be attempted.
    pub fn is_enabled(&self) -> (r: bool)
        ensures
            r == configured(self@),
    {
        match &self.base_url {
            Some(s) => text::chars_of(&text::trim(s)).len() > 0,
            None => false,
        }
    }
}

// ---------------------------------------------------------------------------
// Request and reply
// ---------------------------------------------------------------------------

/// What is to be sent to the log: a `POST` of a JSON body.
#[derive(Debug)]
pub struct AnchorRequest {
    pub url: String,
    pub body: String,
    pub bearer: Option<String>,
    pub timeout: Duration,
}

/// The content of an anchoring request.
#[verifier::ext_equal]
pub struct RequestView {
    pub url: Seq<char>,
    pub body: Seq<char>,
    pub bearer: Option<Seq<char>>,
    pub timeout: Duration,
}

impl DeepView for AnchorRequest {
    type V = RequestView;

    open spec fn deep_view(&self) -> RequestView {
        RequestView {
            url: self.url@,
            body: self.body@,
            bearer: self.bearer.deep_view(),
            timeout: self.timeout,
        }
    }
}

/// What came back from the log.
#[derive(Debug)]
pub struct AnchorReply {
    pub status: u16,
    pub body: String,
}

/// The content of a reply.
pub struct ReplyView {
    pub status: u16,
    pub body: Seq<char>,
}

impl DeepView for AnchorReply {
    type V = ReplyView;

    open spec fn deep_view(&self) -> ReplyView {
        ReplyView { status: self.status, body: self.body@ }
    }
}

/// The body of an anchoring request.
pub open spec fn commitment_body(subject: Seq<char>, commitment: Seq<u8>) -> JsonView {
    JsonView::Obj(
        map![
            "subject"@ => JsonView::Str(subject),
            "commitment"@ => JsonView::Str(hex::hex_text(commitment)),
        ],
    )
}

/// The request that anchors a commitment under a subject, or that no log is
/// configured.
pub open spec fn request_for(
    c: LogAnchorView,
    subject: Seq<char>,
    commitment: Seq<u8>,
) -> Result<RequestView, Seq<char>> {
    if configured(c) {
        Ok(
            RequestView {
                url: text::without_trailing(text::trimmed(c.base_url->0), '/') + "/commitments"@,
                body: json::compact_text(commitment_body(subject, commitment)),
                bearer: c.bearer,
                timeout: c.timeout,
            },
        )
    } else {
        Err("log anchoring not configured (UNIDPP_LOG_URL is unset)"@)
    }
}

/// Decide what is to be sent to the log to anchor `commitment` under `subject`.
pub fn anchor_request(
    config: &LogAnchorConfig,
    subject: &str,
    commitment: &crate::hash::Hash,
) -> (r: Result<AnchorRequest, String>)
    ensures
        text::outcome(r) == request_for(config@, subject@, commitment@),
{
    let base = match &config.base_url {
        Some(s) => text::trim(s),
        None => "".to_owned(),
    };
    proof {
        reveal_strlit("");
    }
    if text::chars_of(&base).len() == 0 {
        return Err("log anchoring not configured (UNIDPP_LOG_URL is unset)".to_owned());
    }
    let url = text::cat2(&text::trim_trailing(&base, '/'), "/commitments");
    let mut e = json::entries();
    json::put(&mut e, "subject", json::text(subject));
    json::put(&mut e, "commitment", json::string(commitment.hex()));
    let body = json::compact(&json::object(e));
    Ok(
        AnchorRequest {
            url,
            body,
            bearer: text::clone_option(&config.bearer),
            timeout: config.timeout,
        },
    )
}

/// Why a log did not sequence a commitment: its status, and the start of what it
/// said.
pub open spec fn refusal(status: u16, body: Seq<char>) -> Seq<char> {
    let snippet = text::prefix(body, 200);
    "log refused the commitment: "@ + text::decimal(status as nat) + (if snippet.len() == 0 {
        Seq::empty()
    } else {
        ": "@ + snippet
    })
}

/// What the reply of a log means: the receipt, or why there is none.
pub open spec fn receipt_of(reply: Result<ReplyView, Seq<char>>) -> Result<JsonView, Seq<char>> {
    match reply {
        Err(e) => Err("log unreachable: "@ + e),
        Ok(x) => if x.status < 200 || x.status >= 300 {
            Err(refusal(x.status, x.body))
        } else {
            match json::json_parsed(x.body) {
                Ok(j) => Ok(j),
                Err(e) => Err("log returned a non-JSON receipt: "@ + e),
            }
        },
    }
}

/// Read the reply of a log, or the words of the failure to get one. Only that
/// the log answered with JSON and a success status is checked here; what the
/// receipt says is read by `anchor_summary_from_receipt`.
pub fn anchor_outcome(reply: Result<AnchorReply, String>) -> (r: Result<Value, String>)
    ensures
        match receipt_of(text::outcome(reply)) {
            Ok(j) => r is Ok && json::json_of(r->Ok_0) == j,
            Err(e) => r is Err && r->Err_0@ == e,
        },
{
    match reply {
        Err(e) => Err(text::cat2("log unreachable: ", &e)),
        Ok(x) => {
            if x.status < 200 || x.status >= 300 {
                let snippet = text::take_prefix(&x.body, 200);
                let start = text::cat2(
                    "log refused the commitment: ",
                    &text::decimal_u64(x.status as u64),
                );
                if text::chars_of(&snippet).len() == 0 {
                    proof {
                        assert(refusal(x.status, x.body@) =~= start@);
                    }
                    return Err(start);
                }
                let r = text::cat3(&start, ": ", &snippet);
                proof {
                    assert(refusal(x.status, x.body@) =~= r@);
                }
                return Err(r);
            }
            match json::parse(&x.body) {
                Ok(v) => Ok(v),
                Err(e) => Err(text::cat2("log returned a non-JSON receipt: ", &e)),
            }
        },
    }
}

} // verus!
