//! Readers of the fields of a JSON object, with the words in which they refuse
//! what they cannot read.

use serde_json::Value;
use vstd::prelude::*;
use vstd::string::*;
use crate::hash;
use crate::json;
use crate::json::JsonView;
use crate::text;
use crate::time;
use crate::time::Timestamp;

verus! {

/// A remark on a field: its label between back quotes, up to the closing one
/// that `tail` starts with.
pub open spec fn told(label: Seq<char>, tail: Seq<char>) -> Seq<char> {
    "`"@ + label + tail
}

pub(crate) fn tell(label: &str, tail: &str) -> (r: String)
    ensures
        r@ == told(label@, tail@),
{
    text::cat3("`", label, tail)
}

/// A string that may be missing or null.
pub open spec fn optional_text(j: Option<JsonView>, label: Seq<char>) -> Result<
    Option<Seq<char>>,
    Seq<char>,
> {
    if json::absent(j) {
        Ok(None)
    } else {
        match json::text_in(j) {
            Some(s) => Ok(Some(s)),
            None => Err(told(label, "` must be a string or null"@)),
        }
    }
}

/// An unsigned integer that may be missing or null.
pub open spec fn optional_number(j: Option<JsonView>, label: Seq<char>) -> Result<
    Option<u64>,
    Seq<char>,
> {
    match j {
        None | Some(JsonView::Null) => Ok(None),
        Some(JsonView::UInt(n)) => Ok(Some(n)),
        Some(JsonView::NegInt(_)) | Some(JsonView::Float(_)) => Err(
            told(label, "` must be an unsigned integer"@),
        ),
        _ => Err(told(label, "` must be an unsigned integer or null"@)),
    }
}

/// A digest in hexadecimal text that may be missing or null.
pub open spec fn optional_digest(j: Option<JsonView>, label: Seq<char>) -> Result<
    Option<Seq<u8>>,
    Seq<char>,
> {
    if json::absent(j) {
        Ok(None)
    } else {
        match json::text_in(j) {
            Some(s) => match hash::hash_of_hex(s) {
                Some(h) => Ok(Some(h)),
                None => Err(told(label, "` must be 64-char hex"@)),
            },
            None => Err(told(label, "` must be a hex string or null"@)),
        }
    }
}

/// An instant in RFC 3339 text that may be missing or null.
pub open spec fn optional_instant(j: Option<JsonView>, label: Seq<char>) -> Result<
    Option<Timestamp>,
    Seq<char>,
> {
    if json::absent(j) {
        Ok(None)
    } else {
        match json::text_in(j) {
            Some(s) => match time::stamp_parsed(s) {
                Ok(t) => Ok(Some(t)),
                Err(e) => Err(told(label, "`: "@ + e)),
            },
            None => Err(told(label, "` must be an RFC 3339 string or null"@)),
        }
    }
}

/// A string that must be there.
pub open spec fn required_text(j: Option<JsonView>, key: Seq<char>) -> Result<Seq<char>, Seq<char>> {
    match json::text_in(j) {
        Some(s) => Ok(s),
        None => Err("missing `"@ + key + "`"@),
    }
}

/// An unsigned integer that must be there.
pub open spec fn required_number(j: Option<JsonView>, key: Seq<char>) -> Result<u64, Seq<char>> {
    match json::number_in(j) {
        Some(n) => Ok(n),
        None => Err("missing/invalid `"@ + key + "`"@),
    }
}

/// The digest that a string value denotes.
pub open spec fn digest_in(j: Option<JsonView>) -> Option<Seq<u8>> {
    match json::text_in(j) {
        Some(s) => hash::hash_of_hex(s),
        None => None,
    }
}

/// The 64-bit number that a string value writes in decimal.
pub open spec fn numeral_in(j: Option<JsonView>) -> Option<u64> {
    match json::text_in(j) {
        Some(s) => match text::number_of(s, u64::MAX as nat) {
            Some(n) => Some(n as u64),
            None => None,
        },
        None => None,
    }
}

/// A digest that must be there.
pub open spec fn required_digest(j: Option<JsonView>, key: Seq<char>) -> Result<Seq<u8>, Seq<char>> {
    match digest_in(j) {
        Some(h) => Ok(h),
        None => Err("missing/invalid `"@ + key + "` (64-char hex)"@),
    }
}

/// An instant that must be there.
pub open spec fn required_instant(j: Option<JsonView>, key: Seq<char>) -> Result<
    Timestamp,
    Seq<char>,
> {
    match required_text(j, key) {
        Ok(s) => match time::stamp_parsed(s) {
            Ok(t) => Ok(t),
            Err(e) => Err(told(key, "`: "@ + e)),
        },
        Err(e) => Err(e),
    }
}

pub(crate) fn read_optional_text(v: &Value, key: &str, label: &str) -> (r: Result<
    Option<String>,
    String,
>)
    ensures
        text::outcome(r) == optional_text(json::field(json::json_of(*v), key@), label@),
{
    match json::get(v, key) {
        None => Ok(None),
        Some(x) => {
            if x.is_null() {
                return Ok(None);
            }
            match x.as_str() {
                Some(s) => Ok(Some(s.to_owned())),
                None => Err(tell(label, "` must be a string or null")),
            }
        },
    }
}

pub(crate) fn read_optional_number(v: &Value, key: &str, label: &str) -> (r: Result<
    Option<u64>,
    String,
>)
    ensures
        text::outcome(r) == optional_number(json::field(json::json_of(*v), key@), label@),
{
    match json::get(v, key) {
        None => Ok(None),
        Some(x) => {
            if x.is_null() {
                return Ok(None);
            }
            if !x.is_number() {
                return Err(tell(label, "` must be an unsigned integer or null"));
            }
            match x.as_u64() {
                Some(n) => Ok(Some(n)),
                None => Err(tell(label, "` must be an unsigned integer")),
            }
        },
    }
}

pub(crate) fn read_optional_digest(v: &Value, key: &str, label: &str) -> (r: Result<
    Option<crate::hash::Hash>,
    String,
>)
    ensures
        text::outcome(r) == optional_digest(json::field(json::json_of(*v), key@), label@),
{
    match json::get(v, key) {
        None => Ok(None),
        Some(x) => {
            if x.is_null() {
                return Ok(None);
            }
            match x.as_str() {
                Some(s) => match crate::hash::Hash::from_hex(s) {
                    Some(h) => Ok(Some(h)),
                    None => Err(tell(label, "` must be 64-char hex")),
                },
                None => Err(tell(label, "` must be a hex string or null")),
            }
        },
    }
}

pub(crate) fn read_optional_instant(v: &Value, key: &str, label: &str) -> (r: Result<
    Option<Timestamp>,
    String,
>)
    ensures
        text::outcome(r) == optional_instant(json::field(json::json_of(*v), key@), label@),
{
    match json::get(v, key) {
        None => Ok(None),
        Some(x) => {
            if x.is_null() {
                return Ok(None);
            }
            match x.as_str() {
                Some(s) => match Timestamp::parse(s) {
                    Ok(t) => Ok(Some(t)),
                    Err(e) => Err(tell(label, &text::cat2("`: ", &e))),
                },
                None => Err(tell(label, "` must be an RFC 3339 string or null")),
            }
        },
    }
}

pub(crate) fn read_required_text(v: &Value, key: &str) -> (r: Result<String, String>)
    ensures
        text::outcome(r) == required_text(json::field(json::json_of(*v), key@), key@),
{
    match json::get_text(v, key) {
        Some(s) => Ok(s.to_owned()),
        None => Err(text::cat3("missing `", key, "`")),
    }
}

pub(crate) fn read_required_number(v: &Value, key: &str) -> (r: Result<u64, String>)
    ensures
        text::outcome(r) == required_number(json::field(json::json_of(*v), key@), key@),
{
    match json::get_uint(v, key) {
        Some(n) => Ok(n),
        None => Err(text::cat3("missing/invalid `", key, "`")),
    }
}

/// The digest that a string field of an object denotes.
pub(crate) fn get_digest(v: &Value, key: &str) -> (r: Option<crate::hash::Hash>)
    ensures
        r.deep_view() == digest_in(json::field(json::json_of(*v), key@)),
{
    match json::get_text(v, key) {
        Some(s) => crate::hash::Hash::from_hex(s),
        None => None,
    }
}

/// The 64-bit number that a string field of an object writes in decimal.
pub(crate) fn get_numeral(v: &Value, key: &str) -> (r: Option<u64>)
    ensures
        r == numeral_in(json::field(json::json_of(*v), key@)),
{
    match json::get_text(v, key) {
        Some(s) => text::parse_number(s, u64::MAX),
        None => None,
    }
}

pub(crate) fn read_required_digest(v: &Value, key: &str) -> (r: Result<crate::hash::Hash, String>)
    ensures
        text::outcome(r) == required_digest(json::field(json::json_of(*v), key@), key@),
{
    match get_digest(v, key) {
        Some(h) => Ok(h),
        None => Err(text::cat3("missing/invalid `", key, "` (64-char hex)")),
    }
}

pub(crate) fn read_required_instant(v: &Value, key: &str) -> (r: Result<Timestamp, String>)
    ensures
        text::outcome(r) == required_instant(json::field(json::json_of(*v), key@), key@),
{
    match read_required_text(v, key) {
        Ok(s) => match Timestamp::parse(&s) {
            Ok(t) => Ok(t),
            Err(e) => Err(tell(key, &text::cat2("`: ", &e))),
        },
        Err(e) => Err(e),
    }
}

} // verus!
