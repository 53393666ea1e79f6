//! What is read from requests, queries and the environment, and what is sent to and
//! heard from a transparency log.

use vstd::prelude::*;
use crate::api::access;
use crate::api::config;
use crate::api::ingest;
use crate::api::request;
use crate::api::request::CreateView;
use crate::api::response;
use crate::json;
use crate::json::JsonView;
use crate::keys;
use crate::laws::documents;
use crate::laws::texts;
use crate::laws::words;
use crate::log_anchor;
use crate::log_anchor::LogAnchorView;
use crate::log_anchor::ReplyView;
use crate::text;
use crate::time;
use crate::time::Timestamp;

verus! {

// ---------------------------------------------------------------------------
// Ingest requests
// ---------------------------------------------------------------------------

/// Whether a field holds a text that is `t` but for white space around it.
pub open spec fn told(v: JsonView, name: Seq<char>, t: Seq<char>) -> bool {
    exists|s: Seq<char>| #[trigger] words::says(v, name, s) && words::stripped(s, t)
}

/// Whether a field holds a digest in hexadecimal text, but for white space around it.
pub open spec fn digest_told(v: JsonView, name: Seq<char>, b: Seq<u8>) -> bool {
    b.len() == 32 && exists|t: Seq<char>| #[trigger] told(v, name, t) && words::spells(t, b)
}

/// Whether a text has 1 to 512 bytes in UTF-8.
pub open spec fn short(s: Seq<char>) -> bool {
    s.len() > 0 && vstd::utf8::encode_utf8(s).len() <= 512
}

/// Whether a text holds no control character.
pub open spec fn printable(s: Seq<char>) -> bool {
    forall|i: int|
        0 <= i < s.len() ==> !((#[trigger] s[i]) as int <= 31 || 127 <= s[i] as int <= 159)
}

/// Whether a body submits this: the passport id, the two digests, and the submitter
/// and the state size where it names them.
pub open spec fn submits(v: JsonView, req: CreateView) -> bool {
    &&& told(v, "passport_id"@, req.passport_id)
    &&& short(req.passport_id)
    &&& printable(req.passport_id)
    &&& digest_told(v, "state_hash"@, req.state_hash)
    &&& digest_told(v, "log_head"@, req.log_head)
    &&& (match req.submitter {
        Some(s) => told(v, "submitter"@, s) && short(s),
        None => words::leaves_out(v, "submitter"@),
    })
    &&& documents::number_or_nothing(v, "state_size"@, req.state_size)
}

proof fn lemma_told(v: JsonView, name: Seq<char>, t: Seq<char>)
    ensures
        told(v, name, t) <==> json::text_in(json::field(v, name)) is Some && text::trimmed(
            json::text_in(json::field(v, name))->0,
        ) == t,
{
    match json::field(v, name) {
        Some(JsonView::Str(s)) => {
            assert(words::says(v, name, s));
            texts::law_trimming_takes_white_space_only(s, t);
            if told(v, name, t) {
                let x = choose|x: Seq<char>| #[trigger]
                    words::says(v, name, x) && words::stripped(x, t);
                assert(x == s);
            }
        },
        _ => {},
    }
}

proof fn lemma_digest_told(v: JsonView, name: Seq<char>, b: Seq<u8>)
    ensures
        digest_told(v, name, b) <==> request::demanded_digest(v, name) == Ok::<
            Seq<u8>,
            Seq<char>,
        >(b),
{
    match json::field(v, name) {
        Some(JsonView::Str(s)) => {
            let t = text::trimmed(s);
            lemma_told(v, name, t);
            texts::law_digest_is_read_as_spelled(t, b);
            if digest_told(v, name, b) {
                let x = choose|x: Seq<char>| #[trigger] told(v, name, x) && words::spells(x, b);
                lemma_told(v, name, x);
            }
        },
        _ => {
            if digest_told(v, name, b) {
                let x = choose|x: Seq<char>| #[trigger] told(v, name, x) && words::spells(x, b);
                lemma_told(v, name, x);
            }
        },
    }
}

proof fn lemma_printable(s: Seq<char>)
    ensures
        printable(s) <==> !exists|i: int| 0 <= i < s.len() && text::is_control(#[trigger] s[i]),
{
    if printable(s) {
        assert forall|i: int| 0 <= i < s.len() implies !text::is_control(#[trigger] s[i]) by {
            texts::law_control_characters_are_those_of_unicode(s[i]);
        }
    } else {
        let i = choose|i: int|
            0 <= i < s.len() && ((#[trigger] s[i]) as int <= 31 || 127 <= s[i] as int <= 159);
        texts::law_control_characters_are_those_of_unicode(s[i]);
    }
}

/// A request is taken as it was submitted, whole: it is admitted exactly if the body
/// submits it.
pub proof fn law_request_is_taken_as_submitted(v: JsonView, req: CreateView)
    ensures
        request::create_request_in(v) == Ok::<CreateView, Seq<char>>(req) <==> submits(v, req),
{
    lemma_told(v, "passport_id"@, req.passport_id);
    lemma_printable(req.passport_id);
    lemma_digest_told(v, "state_hash"@, req.state_hash);
    lemma_digest_told(v, "log_head"@, req.log_head);
    if req.submitter is Some {
        lemma_told(v, "submitter"@, req.submitter->0);
    }
    assert((match req.submitter {
        Some(s) => told(v, "submitter"@, s) && short(s),
        None => words::leaves_out(v, "submitter"@),
    }) <==> request::allowed_text(v, "submitter"@) == Ok::<Option<Seq<char>>, Seq<char>>(
        req.submitter,
    ));
    assert(documents::number_or_nothing(v, "state_size"@, req.state_size)
        <==> request::allowed_number(v, "state_size"@) == Ok::<Option<u64>, Seq<char>>(
        req.state_size,
    ));
    assert(told(v, "passport_id"@, req.passport_id) && req.passport_id.len() > 0
        <==> request::demanded_text(v, "passport_id"@) == Ok::<Seq<char>, Seq<char>>(
        req.passport_id,
    ));
    assert(short(req.passport_id) && printable(req.passport_id) <==> request::passport_id_flaw(
        req.passport_id,
    ) is None);
}

/// A body that submits nothing is refused for its first fault, and the refusal names the
/// field: the passport id `p`, the two digests, the submitter, the state size.
pub proof fn law_refusal_names_the_first_fault(
    v: JsonView,
    p: Seq<char>,
    state_hash: Seq<u8>,
    log_head: Seq<u8>,
)
    ensures
        ({
            let flawed = |why: Seq<char>|
                request::create_request_in(v) == Err::<CreateView, Seq<char>>(why);
            let named = told(v, "passport_id"@, p) && short(p) && printable(p);
            let hashed = named && digest_told(v, "state_hash"@, state_hash);
            let headed = hashed && digest_told(v, "log_head"@, log_head);
            &&& told_nothing(v, "passport_id"@) ==> flawed("`"@ + "passport_id"@ + "` is required"@)
            &&& told(v, "passport_id"@, p) && p.len() > 0 && !short(p) ==> flawed(
                "`passport_id` must be 1-512 characters"@,
            )
            &&& told(v, "passport_id"@, p) && short(p) && !printable(p) ==> flawed(
                "`passport_id` must not contain control characters"@,
            )
            &&& named && told_nothing(v, "state_hash"@) ==> flawed(
                "`"@ + "state_hash"@ + "` is required"@,
            )
            &&& named && !told_nothing(v, "state_hash"@) && (forall|b: Seq<u8>|
                !#[trigger] digest_told(v, "state_hash"@, b)) ==> flawed(
                "`"@ + "state_hash"@ + "` must be a 64-character hex SHA-256 value"@,
            )
            &&& hashed && told_nothing(v, "log_head"@) ==> flawed(
                "`"@ + "log_head"@ + "` is required"@,
            )
            &&& hashed && !told_nothing(v, "log_head"@) && (forall|b: Seq<u8>|
                !#[trigger] digest_told(v, "log_head"@, b)) ==> flawed(
                "`"@ + "log_head"@ + "` must be a 64-character hex SHA-256 value"@,
            )
            &&& headed && told(v, "submitter"@, Seq::empty()) ==> flawed(
                "`"@ + "submitter"@ + "` must not be blank"@,
            )
            &&& headed && words::leaves_out(v, "submitter"@) && !words::leaves_out(
                v,
                "state_size"@,
            ) && (forall|n: u64| !#[trigger] words::has(v, "state_size"@, JsonView::UInt(n)))
                ==> flawed("`"@ + "state_size"@ + "` must be an unsigned integer"@)
        }),
{
    lemma_told(v, "passport_id"@, p);
    lemma_printable(p);
    lemma_told_nothing(v, "passport_id"@);
    lemma_told_nothing(v, "state_hash"@);
    lemma_told_nothing(v, "log_head"@);
    lemma_digest_told(v, "state_hash"@, state_hash);
    lemma_digest_told(v, "log_head"@, log_head);
    lemma_told(v, "submitter"@, Seq::empty());
    if request::demanded_digest(v, "state_hash"@) is Ok {
        lemma_digest_told(v, "state_hash"@, request::demanded_digest(v, "state_hash"@)->Ok_0);
    }
    if request::demanded_digest(v, "log_head"@) is Ok {
        lemma_digest_told(v, "log_head"@, request::demanded_digest(v, "log_head"@)->Ok_0);
    }
    if json::number_in(json::field(v, "state_size"@)) is Some {
        let n = json::number_in(json::field(v, "state_size"@))->0;
        assert(words::has(v, "state_size"@, JsonView::UInt(n)));
    }
}

/// Whether a field is missing, is no text, or is blank.
pub open spec fn told_nothing(v: JsonView, name: Seq<char>) -> bool {
    forall|t: Seq<char>| #[trigger] told(v, name, t) ==> t.len() == 0
}

proof fn lemma_told_nothing(v: JsonView, name: Seq<char>)
    ensures
        told_nothing(v, name) <==> request::demanded_text(v, name) is Err,
{
    match json::field(v, name) {
        Some(JsonView::Str(s)) => {
            let t = text::trimmed(s);
            lemma_told(v, name, t);
            assert forall|x: Seq<char>| #[trigger] told(v, name, x) implies x == t by {
                lemma_told(v, name, x);
            }
        },
        _ => {
            assert forall|x: Seq<char>| !#[trigger] told(v, name, x) by {
                lemma_told(v, name, x);
            }
        },
    }
}

/// A passport id without white space at its ends is taken over unchanged, and two
/// bodies that name different ones make different requests.
pub proof fn law_passport_ids_are_kept_apart(
    v: JsonView,
    w: JsonView,
    p: Seq<char>,
    q: Seq<char>,
)
    requires
        words::says(v, "passport_id"@, p),
        words::says(w, "passport_id"@, q),
        words::bare_ends(p),
        words::bare_ends(q),
    ensures
        request::create_request_in(v) matches Ok(req) ==> req.passport_id == p,
        request::create_request_in(v) is Ok && request::create_request_in(v)
            == request::create_request_in(w) ==> p == q,
{
    texts::law_bare_text_stays_whole(p);
    texts::law_bare_text_stays_whole(q);
    if request::create_request_in(v) is Ok {
        let req = request::create_request_in(v)->Ok_0;
        law_request_is_taken_as_submitted(v, req);
        lemma_told(v, "passport_id"@, req.passport_id);
        law_request_is_taken_as_submitted(w, req);
        lemma_told(w, "passport_id"@, req.passport_id);
    }
}

/// What is told of one body is one request.
pub proof fn law_body_submits_one_request(v: JsonView, a: CreateView, b: CreateView)
    requires
        submits(v, a),
        submits(v, b),
    ensures
        a == b,
{
    law_request_is_taken_as_submitted(v, a);
    law_request_is_taken_as_submitted(v, b);
}

/// The guard: without a token everyone may pass; with one, those who carry exactly
/// `Bearer ` and the token.
pub proof fn law_guard_wants_the_token(token: Option<Seq<char>>, authorization: Option<Seq<char>>)
    ensures
        response::authorized(token, authorization) <==> (token matches Some(t) ==> authorization
            == Some("Bearer "@ + t)),
{
}

/// An ingest is admitted exactly if the request may pass the guard and its body is
/// JSON that submits it.
pub proof fn law_ingest_is_admitted_as_submitted(
    token: Option<Seq<char>>,
    authorization: Option<Seq<char>>,
    body: Seq<char>,
    now: Timestamp,
    req: CreateView,
)
    ensures
        ingest::admitted(token, authorization, body, now) == Ok::<
            CreateView,
            response::ResponseView,
        >(req) <==> (token matches Some(t) ==> authorization == Some("Bearer "@ + t)) && (
        json::json_parsed(body) matches Ok(v) && submits(v, req)),
        ingest::admitted(token, authorization, body, now) matches Err(a) ==> a.status == if (
        token matches Some(t) ==> authorization == Some("Bearer "@ + t)) {
            400int
        } else {
            401int
        },
{
    if json::json_parsed(body) is Ok {
        law_request_is_taken_as_submitted(json::json_parsed(body)->Ok_0, req);
    }
}

// ---------------------------------------------------------------------------
// Queries
// ---------------------------------------------------------------------------

/// What a query says of the instant: `at`, or else `asof`.
pub open spec fn instant_named(q: Map<Seq<char>, Seq<char>>, s: Seq<char>) -> bool {
    ||| q.contains_key("at"@) && q["at"@] == s
    ||| !q.contains_key("at"@) && q.contains_key("asof"@) && q["asof"@] == s
}

/// A query asks for the instant that it names, for none if it names none or an empty
/// one, and is refused if it names something else.
pub proof fn law_instant_is_asked_as_named(q: Map<Seq<char>, Seq<char>>, t: Timestamp)
    ensures
        request::instant_asked(q) == Ok::<Option<Timestamp>, Seq<char>>(Some(t)) <==> exists|
            s: Seq<char>,
        | #[trigger]
            instant_named(q, s) && s.len() > 0 && time::stamp_parsed(s) == Ok::<
                Timestamp,
                Seq<char>,
            >(t),
        request::instant_asked(q) == Ok::<Option<Timestamp>, Seq<char>>(None) <==> instant_named(
            q,
            Seq::empty(),
        ) || (!q.contains_key("at"@) && !q.contains_key("asof"@)),
{
    let s = if q.contains_key("at"@) {
        q["at"@]
    } else {
        q["asof"@]
    };
    if q.contains_key("at"@) || q.contains_key("asof"@) {
        assert(instant_named(q, s));
        if s.len() == 0 {
            assert(s =~= Seq::empty());
        }
    }
}

/// A parameter is asked for without the white space around it, whole, and not at all
/// where nothing else is in it.
pub proof fn law_parameter_is_asked_whole(
    q: Map<Seq<char>, Seq<char>>,
    key: Seq<char>,
    t: Seq<char>,
)
    ensures
        request::asked(q, key) == Some(t) <==> q.contains_key(key) && words::stripped(q[key], t)
            && t.len() > 0,
        request::asked(q, key) is None <==> (q.contains_key(key) ==> words::all_white(q[key])),
{
    if q.contains_key(key) {
        let s = q[key];
        let e = Seq::<char>::empty();
        texts::law_trimming_takes_white_space_only(s, t);
        texts::law_trimming_takes_white_space_only(s, text::trimmed(s));
        texts::law_trimming_takes_white_space_only(s, e);
        if words::all_white(s) {
            assert((s + e + e) =~= s);
            assert(words::stripped(s, e)) by {
                assert((s + e + e) == s);
            }
        }
        if text::trimmed(s).len() == 0 {
            assert(text::trimmed(s) =~= e);
            let (a, b) = choose|a: Seq<char>, b: Seq<char>| #[trigger]
                (a + e + b) == s && words::all_white(a) && words::all_white(b);
            assert forall|i: int| 0 <= i < s.len() implies words::white(#[trigger] s[i]) by {
                if i < a.len() {
                    assert(s[i] == a[i]);
                } else {
                    assert(s[i] == b[i - a.len()]);
                }
            }
        }
    }
}

/// A page holds as many records as asked for, or 100, but at most 10 000, and starts
/// after as many as asked for, or none.
pub proof fn law_page_is_as_asked(q: Map<Seq<char>, Seq<char>>, n: nat)
    ensures
        q.contains_key("limit"@) && words::reads_as_number(q["limit"@], n as int) && n
            <= usize::MAX ==> access::page_limit(q) == if n < 10_000 {
            n
        } else {
            10_000
        },
        !q.contains_key("limit"@) || (forall|k: nat|
            k <= usize::MAX ==> !#[trigger] words::reads_as_number(q["limit"@], k as int))
            ==> access::page_limit(q) == 100,
        q.contains_key("offset"@) && words::reads_as_number(q["offset"@], n as int) && n
            <= usize::MAX ==> access::page_offset(q) == n,
        !q.contains_key("offset"@) || (forall|k: nat|
            k <= usize::MAX ==> !#[trigger] words::reads_as_number(q["offset"@], k as int))
            ==> access::page_offset(q) == 0,
{
    lemma_number_asked(q, "limit"@, n);
    lemma_number_asked(q, "offset"@, n);
}

proof fn lemma_number_asked(q: Map<Seq<char>, Seq<char>>, key: Seq<char>, n: nat)
    ensures
        request::number_asked(q, key, usize::MAX as nat) == Some(n) <==> q.contains_key(key)
            && words::reads_as_number(q[key], n as int) && n <= usize::MAX,
        request::number_asked(q, key, usize::MAX as nat) matches Some(k) ==> k <= usize::MAX
            && words::reads_as_number(q[key], k as int),
{
    if q.contains_key(key) {
        texts::law_numbers_are_read_whole(q[key], usize::MAX as nat, n);
        if request::number_asked(q, key, usize::MAX as nat) is Some {
            let k = request::number_asked(q, key, usize::MAX as nat)->0;
            texts::law_numbers_are_read_whole(q[key], usize::MAX as nat, k);
        }
    }
}

// ---------------------------------------------------------------------------
// The environment
// ---------------------------------------------------------------------------

/// Whether a setting is what a variable holds, if it holds anything.
pub open spec fn set_to(
    vars: Map<Seq<char>, Seq<char>>,
    name: Seq<char>,
    x: Option<Seq<char>>,
) -> bool {
    match x {
        Some(s) => vars.contains_key(name) && vars[name] == s && s.len() > 0,
        None => vars.contains_key(name) ==> vars[name].len() == 0,
    }
}

/// Whether a setting is what a variable holds without the white space around it, if it
/// holds anything else.
pub open spec fn set_to_word(
    vars: Map<Seq<char>, Seq<char>>,
    name: Seq<char>,
    x: Option<Seq<char>>,
) -> bool {
    match x {
        Some(s) => vars.contains_key(name) && words::stripped(vars[name], s) && s.len() > 0,
        None => vars.contains_key(name) ==> words::stripped(vars[name], Seq::empty()),
    }
}

/// The configuration is what the variables of the environment hold, each under its
/// name.
pub proof fn law_environment_is_the_configuration(vars: Map<Seq<char>, Seq<char>>)
    ensures
        ({
            let c = config::config_in(vars);
            &&& c.bind == if vars.contains_key("UNIDPP_ARCHIVE_BIND"@) {
                vars["UNIDPP_ARCHIVE_BIND"@]
            } else {
                "127.0.0.1:8095"@
            }
            &&& set_to(vars, "UNIDPP_ARCHIVE_ADMIN_TOKEN"@, c.admin_token)
            &&& set_to(vars, "UNIDPP_ARCHIVE_STATE_FILE"@, c.state_file)
            &&& set_to(vars, "UNIDPP_ARCHIVE_SNAPSHOT_DIR"@, c.snapshot_dir)
            &&& set_to(vars, "UNIDPP_ARCHIVE_DEV_SEED"@, c.dev_seed)
            &&& set_to_word(vars, "UNIDPP_LOG_URL"@, c.log.base_url)
            &&& set_to_word(vars, "UNIDPP_ARCHIVE_LOG_TOKEN"@, c.log.bearer)
        }),
{
    lemma_setting(vars, "UNIDPP_LOG_URL"@);
    lemma_setting(vars, "UNIDPP_ARCHIVE_LOG_TOKEN"@);
}

proof fn lemma_setting(vars: Map<Seq<char>, Seq<char>>, name: Seq<char>)
    ensures
        set_to_word(vars, name, log_anchor::setting(vars, name)),
{
    if vars.contains_key(name) {
        let s = text::trimmed(vars[name]);
        texts::law_trimming_takes_white_space_only(vars[name], s);
        if s.len() == 0 {
            assert(s =~= Seq::empty());
        }
    }
}

/// The configuration depends on the variables that are named as consumed and on no
/// others.
pub proof fn law_only_the_named_variables_are_consumed(
    vars: Map<Seq<char>, Seq<char>>,
    other: Map<Seq<char>, Seq<char>>,
)
    requires
        forall|i: int|
            0 <= i < config::env_key_names().len() ==> (vars.contains_key(
                #[trigger] config::env_key_names()[i],
            ) <==> other.contains_key(config::env_key_names()[i])) && (vars.contains_key(
                config::env_key_names()[i],
            ) ==> vars[config::env_key_names()[i]] == other[config::env_key_names()[i]]),
    ensures
        config::config_in(vars) == config::config_in(other),
{
    let names = config::env_key_names();
    assert(names[0] == "UNIDPP_ARCHIVE_BIND"@);
    assert(names[1] == "UNIDPP_ARCHIVE_ADMIN_TOKEN"@);
    assert(names[2] == "UNIDPP_ARCHIVE_STATE_FILE"@);
    assert(names[3] == "UNIDPP_ARCHIVE_SNAPSHOT_DIR"@);
    assert(names[4] == "UNIDPP_ARCHIVE_DEV_SEED"@);
    assert(names[6] == "UNIDPP_LOG_URL"@);
    assert(names[7] == "UNIDPP_ARCHIVE_LOG_TOKEN"@);
    assert(names[8] == "UNIDPP_ARCHIVE_LOG_TIMEOUT_MS"@);
}

/// The timeout is the number of milliseconds that the environment sets, if it is
/// above zero, and three seconds otherwise.
pub proof fn law_timeout_is_as_set(vars: Map<Seq<char>, Seq<char>>, t: Seq<char>, n: u64)
    ensures
        ({
            let name = "UNIDPP_ARCHIVE_LOG_TIMEOUT_MS"@;
            let timeout = log_anchor::config_in(vars).timeout;
            &&& vars.contains_key(name) && words::stripped(vars[name], t)
                && words::reads_as_number(t, n as int) && n > 0 ==> timeout == log_anchor::millis(
                n,
            )
            &&& !vars.contains_key(name) || (words::stripped(vars[name], t) && forall|k: u64|
                k > 0 ==> !#[trigger] words::reads_as_number(t, k as int)) ==> timeout
                == log_anchor::millis(3000)
        }),
{
    let name = "UNIDPP_ARCHIVE_LOG_TIMEOUT_MS"@;
    if vars.contains_key(name) {
        let s = text::trimmed(vars[name]);
        texts::law_trimming_takes_white_space_only(vars[name], t);
        texts::law_numbers_are_read_whole(s, u64::MAX as nat, n as nat);
        if text::number_of(s, u64::MAX as nat) is Some {
            let k = text::number_of(s, u64::MAX as nat)->0;
            texts::law_numbers_are_read_whole(s, u64::MAX as nat, k);
            assert(words::reads_as_number(s, (k as u64) as int));
        }
    }
}

// ---------------------------------------------------------------------------
// The transparency log
// ---------------------------------------------------------------------------

/// Anchoring is attempted exactly if a base URL is configured that is not blank.
pub proof fn law_anchoring_is_attempted_where_configured(
    c: LogAnchorView,
    subject: Seq<char>,
    commitment: Seq<u8>,
)
    ensures
        log_anchor::configured(c) <==> (c.base_url matches Some(s) && !words::all_white(s)),
        log_anchor::request_for(c, subject, commitment) is Ok <==> log_anchor::configured(c),
{
    if c.base_url is Some {
        let s = c.base_url->0;
        let q = map![""@ => s];
        law_parameter_is_asked_whole(q, ""@, text::trimmed(s));
    }
}

/// What is sent to a log names the subject and the commitment, both whole, goes to
/// `/commitments` below the configured base, and carries the configured token and
/// timeout.
pub proof fn law_log_is_asked_for_the_commitment(
    c: LogAnchorView,
    subject: Seq<char>,
    commitment: Seq<u8>,
)
    requires
        log_anchor::request_for(c, subject, commitment) is Ok,
    ensures
        ({
            let q = log_anchor::request_for(c, subject, commitment)->Ok_0;
            let base = text::trimmed(c.base_url->0);
            let k = q.url.len() - 12;
            &&& c.base_url is Some
            &&& words::stripped(c.base_url->0, base)
            &&& 0 <= k <= base.len()
            &&& q.url.skip(k) == "/commitments"@
            &&& q.url.take(k) == base.take(k)
            &&& forall|i: int| k <= i < base.len() ==> #[trigger] base[i] == '/'
            &&& k > 0 ==> base[k - 1] != '/'
            &&& q.bearer == c.bearer
            &&& q.timeout == c.timeout
            &&& exists|j: JsonView| #[trigger]
                json::compact_text(j) == q.body && words::says(j, "subject"@, subject)
                    && words::spelled(j, "commitment"@, commitment) && words::fields_are(
                    j,
                    set!["subject"@, "commitment"@],
                )
        }),
{
    let q = log_anchor::request_for(c, subject, commitment)->Ok_0;
    let base = text::trimmed(c.base_url->0);
    let u = text::without_trailing(base, '/');
    texts::law_trimming_takes_white_space_only(c.base_url->0, base);
    texts::law_trailing_characters_are_cut(base, '/');
    reveal_strlit("/commitments");
    assert(q.url =~= u + "/commitments"@);
    assert(q.url.skip(u.len() as int) =~= "/commitments"@);
    assert(q.url.take(u.len() as int) =~= u);
    let j = log_anchor::commitment_body(subject, commitment);
    keys::lemma_commitment_keys();
    assert(j->Obj_0.dom() =~= set!["subject"@, "commitment"@]);
    texts::law_bytes_are_spelled(commitment);
    assert(words::says(j, "commitment"@, crate::hex::hex_text(commitment)));
}

/// A log has given a receipt exactly if it answered with a success status and JSON,
/// and the receipt is that JSON.
pub proof fn law_receipt_is_what_the_log_answered(
    reply: Result<ReplyView, Seq<char>>,
    j: JsonView,
)
    ensures
        log_anchor::receipt_of(reply) == Ok::<JsonView, Seq<char>>(j) <==> (reply matches Ok(x)
            && 200 <= x.status <= 299 && json::json_parsed(x.body) == Ok::<JsonView, Seq<char>>(j)),
{
}

/// Why there is no receipt is told: that the log could not be reached and why, that it
/// refused with which status and what it said, of which the first 200 characters are
/// told, or that it gave no JSON.
pub proof fn law_missing_receipt_is_explained(reply: Result<ReplyView, Seq<char>>)
    ensures
        reply matches Err(e) ==> log_anchor::receipt_of(reply) == Err::<JsonView, Seq<char>>(
            "log unreachable: "@ + e,
        ),
        reply matches Ok(x) ==> !(200 <= x.status <= 299) ==> {
            let d = text::decimal(x.status as nat);
            let n = if x.body.len() < 200 {
                x.body.len() as int
            } else {
                200
            };
            &&& words::writes(d, x.status as int)
            &&& log_anchor::receipt_of(reply) == Err::<JsonView, Seq<char>>(
                if n == 0 {
                    "log refused the commitment: "@ + d
                } else {
                    "log refused the commitment: "@ + d + ": "@ + x.body.take(n)
                },
            )
        },
        reply matches Ok(x) ==> 200 <= x.status <= 299 ==> (json::json_parsed(x.body) matches Err(
            e,
        ) ==> log_anchor::receipt_of(reply) == Err::<JsonView, Seq<char>>(
            "log returned a non-JSON receipt: "@ + e,
        )),
{
    if reply is Ok {
        let x = reply->Ok_0;
        let d = text::decimal(x.status as nat);
        texts::law_decimal_writes_its_number(x.status as nat);
        assert(text::prefix(x.body, 200) =~= x.body.take(
            if x.body.len() < 200 {
                x.body.len() as int
            } else {
                200
            },
        ));
        assert("log refused the commitment: "@ + d + Seq::empty() =~= "log refused the commitment: "@
            + d);
        assert("log refused the commitment: "@ + d + (": "@ + text::prefix(x.body, 200))
            =~= "log refused the commitment: "@ + d + ": "@ + text::prefix(x.body, 200));
    }
}

} // verus!
