//! Reading request bodies and query parameters.

use serde_json::Value;
use vstd::prelude::*;
use vstd::string::*;
use crate::fields;
use crate::hash;
use crate::json;
use crate::json::JsonView;
use crate::params;
use crate::params::Params;
use crate::text;
use crate::time;
use crate::time::Timestamp;

verus! {

/// The number of bytes of a text.
pub open spec fn byte_len(s: Seq<char>) -> nat {
    vstd::utf8::encode_utf8(s).len()
}

/// Read a request body as JSON.
pub fn parse_body(body: &str) -> (r: Result<Value, String>)
    ensures
        match json::json_parsed(body@) {
            Ok(j) => r is Ok && json::json_of(r->Ok_0) == j,
            Err(e) => r is Err && r->Err_0@ == "invalid JSON body: "@ + e,
        },
{
    match json::parse(body) {
        Ok(v) => Ok(v),
        Err(e) => Err(text::cat2("invalid JSON body: ", &e)),
    }
}

/// A text that must be there and not blank, without the white space around it.
pub open spec fn demanded_text(v: JsonView, key: Seq<char>) -> Result<Seq<char>, Seq<char>> {
    match json::text_in(json::field(v, key)) {
        Some(s) => if text::trimmed(s).len() > 0 {
            Ok(text::trimmed(s))
        } else {
            Err(fields::told(key, "` is required"@))
        },
        None => Err(fields::told(key, "` is required"@)),
    }
}

/// A text that may be missing or null, but not blank or longer than 512 bytes.
pub open spec fn allowed_text(v: JsonView, key: Seq<char>) -> Result<Option<Seq<char>>, Seq<char>> {
    let j = json::field(v, key);
    if json::absent(j) {
        Ok(None)
    } else {
        match json::text_in(j) {
            Some(s) => if text::trimmed(s).len() == 0 {
                Err(fields::told(key, "` must not be blank"@))
            } else if byte_len(text::trimmed(s)) > 512 {
                Err(fields::told(key, "` must be at most 512 characters"@))
            } else {
                Ok(Some(text::trimmed(s)))
            },
            None => Err(fields::told(key, "` must be a string"@)),
        }
    }
}

/// An unsigned integer that may be missing or null.
pub open spec fn allowed_number(v: JsonView, key: Seq<char>) -> Result<Option<u64>, Seq<char>> {
    let j = json::field(v, key);
    if json::absent(j) {
        Ok(None)
    } else {
        match json::number_in(j) {
            Some(n) => Ok(Some(n)),
            None => Err(fields::told(key, "` must be an unsigned integer"@)),
        }
    }
}

/// A digest that must be there.
pub open spec fn demanded_digest(v: JsonView, key: Seq<char>) -> Result<Seq<u8>, Seq<char>> {
    match demanded_text(v, key) {
        Ok(s) => match hash::hash_of_hex(s) {
            Some(h) => Ok(h),
            None => Err(fields::told(key, "` must be a 64-character hex SHA-256 value"@)),
        },
        Err(e) => Err(e),
    }
}

/// What is wrong with a passport id, if anything is.
pub open spec fn passport_id_flaw(id: Seq<char>) -> Option<Seq<char>> {
    if id.len() == 0 || byte_len(id) > 512 {
        Some("`passport_id` must be 1-512 characters"@)
    } else if exists|i: int| 0 <= i < id.len() && text::is_control(#[trigger] id[i]) {
        Some("`passport_id` must not contain control characters"@)
    } else {
        None
    }
}

pub fn req_str(v: &Value, key: &str) -> (r: Result<String, String>)
    ensures
        text::outcome(r) == demanded_text(json::json_of(*v), key@),
{
    match json::get_text(v, key) {
        Some(s) => {
            let t = text::trim(s);
            if text::chars_of(&t).len() > 0 {
                Ok(t)
            } else {
                Err(fields::tell(key, "` is required"))
            }
        },
        None => Err(fields::tell(key, "` is required")),
    }
}

pub fn opt_str(v: &Value, key: &str) -> (r: Result<Option<String>, String>)
    ensures
        text::outcome(r) == allowed_text(json::json_of(*v), key@),
{
    match json::get(v, key) {
        None => Ok(None),
        Some(x) => {
            if x.is_null() {
                return Ok(None);
            }
            match x.as_str() {
                Some(s) => {
                    let t = text::trim(s);
                    if text::chars_of(&t).len() == 0 {
                        return Err(fields::tell(key, "` must not be blank"));
                    }
                    if t.as_str().as_bytes().len() > 512 {
                        return Err(fields::tell(key, "` must be at most 512 characters"));
                    }
                    Ok(Some(t))
                },
                None => Err(fields::tell(key, "` must be a string")),
            }
        },
    }
}

pub fn opt_u64(v: &Value, key: &str) -> (r: Result<Option<u64>, String>)
    ensures
        text::outcome(r) == allowed_number(json::json_of(*v), key@),
{
    match json::get(v, key) {
        None => Ok(None),
        Some(x) => {
            if x.is_null() {
                return Ok(None);
            }
            match x.as_u64() {
                Some(n) => Ok(Some(n)),
                None => Err(fields::tell(key, "` must be an unsigned integer")),
            }
        },
    }
}

pub fn req_hash(v: &Value, key: &str) -> (r: Result<crate::hash::Hash, String>)
    ensures
        text::outcome(r) == demanded_digest(json::json_of(*v), key@),
{
    match req_str(v, key) {
        Ok(s) => match crate::hash::Hash::from_hex(&s) {
            Some(h) => Ok(h),
            None => Err(fields::tell(key, "` must be a 64-character hex SHA-256 value")),
        },
        Err(e) => Err(e),
    }
}

pub fn validate_passport_id(id: &str) -> (r: Result<(), String>)
    ensures
        match passport_id_flaw(id@) {
            Some(e) => r is Err && r->Err_0@ == e,
            None => r is Ok,
        },
{
    let v = text::chars_of(id);
    if v.len() == 0 || id.as_bytes().len() > 512 {
        return Err("`passport_id` must be 1-512 characters".to_owned());
    }
    let mut i: usize = 0;
    while i < v.len()
        invariant
            i <= v@.len(),
            v@ == id@,
            id@.len() > 0,
            byte_len(id@) <= 512,
            forall|j: int| 0 <= j < i ==> !text::is_control(#[trigger] id@[j]),
        decreases v@.len() - i,
    {
        if text::char_is_control(v[i]) {
            proof {
                assert(text::is_control(id@[i as int]));
            }
            return Err("`passport_id` must not contain control characters".to_owned());
        }
        i = i + 1;
    }
    Ok(())
}

/// The instant that a query asks for: `at`, or else `asof`, unless it is empty.
pub open spec fn instant_asked(q: Map<Seq<char>, Seq<char>>) -> Result<
    Option<Timestamp>,
    Seq<char>,
> {
    let raw = match params::value_of(q, "at"@) {
        Some(s) => Some(s),
        None => params::value_of(q, "asof"@),
    };
    match raw {
        Some(s) => if s.len() == 0 {
            Ok(None)
        } else {
            match time::stamp_parsed(s) {
                Ok(t) => Ok(Some(t)),
                Err(e) => Err("invalid `at` parameter: "@ + e),
            }
        },
        None => Ok(None),
    }
}

pub fn parse_at(params: &Params) -> (r: Result<Option<Timestamp>, String>)
    ensures
        text::outcome(r) == instant_asked(params@),
{
    let raw = match params.get("at") {
        Some(s) => Some(s),
        None => params.get("asof"),
    };
    match raw {
        Some(s) => {
            if text::chars_of(s).len() == 0 {
                return Ok(None);
            }
            match Timestamp::parse(s) {
                Ok(t) => Ok(Some(t)),
                Err(e) => Err(text::cat2("invalid `at` parameter: ", &e)),
            }
        },
        None => Ok(None),
    }
}

/// A parameter without the white space around it, unless nothing is left.
pub open spec fn asked(q: Map<Seq<char>, Seq<char>>, key: Seq<char>) -> Option<Seq<char>> {
    match params::value_of(q, key) {
        Some(s) => if text::trimmed(s).len() > 0 {
            Some(text::trimmed(s))
        } else {
            None
        },
        None => None,
    }
}

pub fn opt_query(params: &Params, key: &str) -> (r: Option<String>)
    ensures
        r.deep_view() == asked(params@, key@),
{
    match params.get(key) {
        Some(s) => {
            let t = text::trim(s);
            if text::chars_of(&t).len() > 0 {
                Some(t)
            } else {
                None
            }
        },
        None => None,
    }
}

/// The number that a parameter writes, up to a largest one; nothing where it
/// writes none.
pub open spec fn number_asked(q: Map<Seq<char>, Seq<char>>, key: Seq<char>, max: nat) -> Option<
    nat,
> {
    match params::value_of(q, key) {
        Some(s) => text::number_of(s, max),
        None => None,
    }
}

pub(crate) fn number_param(params: &Params, key: &str) -> (r: Option<usize>)
    ensures
        match number_asked(params@, key@, usize::MAX as nat) {
            Some(n) => r is Some && r->0 == n,
            None => r is None,
        },
{
    match params.get(key) {
        Some(s) => match text::parse_number(s, usize::MAX as u64) {
            Some(n) => Some(n as usize),
            None => None,
        },
        None => None,
    }
}

/// A parsed ingest request (the submission).
#[derive(Debug)]
pub struct CreateRequest {
    pub passport_id: String,
    pub state_hash: crate::hash::Hash,
    pub log_head: crate::hash::Hash,
    pub submitter: Option<String>,
    pub state_size: Option<u64>,
}

/// The content of an ingest request.
#[verifier::ext_equal]
pub struct CreateView {
    pub passport_id: Seq<char>,
    pub state_hash: Seq<u8>,
    pub log_head: Seq<u8>,
    pub submitter: Option<Seq<char>>,
    pub state_size: Option<u64>,
}

impl View for CreateRequest {
    type V = CreateView;

    open spec fn view(&self) -> CreateView {
        CreateView {
            passport_id: self.passport_id@,
            state_hash: self.state_hash@,
            log_head: self.log_head@,
            submitter: self.submitter.deep_view(),
            state_size: self.state_size,
        }
    }
}

impl DeepView for CreateRequest {
    type V = CreateView;

    open spec fn deep_view(&self) -> CreateView {
        self@
    }
}

/// The ingest request that a body holds, or the first thing that is wrong with
/// it.
pub open spec fn create_request_in(v: JsonView) -> Result<CreateView, Seq<char>> {
    let passport_id = demanded_text(v, "passport_id"@);
    let flaw = passport_id_flaw(passport_id->Ok_0);
    let state_hash = demanded_digest(v, "state_hash"@);
    let log_head = demanded_digest(v, "log_head"@);
    let submitter = allowed_text(v, "submitter"@);
    let state_size = allowed_number(v, "state_size"@);
    if passport_id is Err {
        Err(passport_id->Err_0)
    } else if flaw is Some {
        Err(flaw->0)
    } else if state_hash is Err {
        Err(state_hash->Err_0)
    } else if log_head is Err {
        Err(log_head->Err_0)
    } else if submitter is Err {
        Err(submitter->Err_0)
    } else if state_size is Err {
        Err(state_size->Err_0)
    } else {
        Ok(
            CreateView {
                passport_id: passport_id->Ok_0,
                state_hash: state_hash->Ok_0,
                log_head: log_head->Ok_0,
                submitter: submitter->Ok_0,
                state_size: state_size->Ok_0,
            },
        )
    }
}

/// Read an ingest request.
pub fn parse_create_request(v: &Value) -> (r: Result<CreateRequest, String>)
    ensures
        text::outcome(r) == create_request_in(json::json_of(*v)),
{
    let passport_id = match req_str(v, "passport_id") {
        Ok(x) => x,
        Err(e) => {
            return Err(e);
        },
    };
    match validate_passport_id(&passport_id) {
        Ok(_) => {},
        Err(e) => {
            return Err(e);
        },
    }
    let state_hash = match req_hash(v, "state_hash") {
        Ok(x) => x,
        Err(e) => {
            return Err(e);
        },
    };
    let log_head = match req_hash(v, "log_head") {
        Ok(x) => x,
        Err(e) => {
            return Err(e);
        },
    };
    let submitter = match opt_str(v, "submitter") {
        Ok(x) => x,
        Err(e) => {
            return Err(e);
        },
    };
    let state_size = match opt_u64(v, "state_size") {
        Ok(x) => x,
        Err(e) => {
            return Err(e);
        },
    };
    Ok(CreateRequest { passport_id, state_hash, log_head, submitter, state_size })
}

} // verus!
