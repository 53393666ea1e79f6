//! Rebuilding the canonical statement from a served document, as a verifier
//! does.

use serde_json::Value;
use vstd::prelude::*;
use vstd::string::*;
use crate::canonical;
use crate::canonical::CanonicalField;
use crate::canonical::FieldView;
use crate::fields;
use crate::hash;
use crate::json;
use crate::json::JsonView;
use crate::model::anchoring::Anchoring;
use crate::model::anchoring::AnchoringStatus;
use crate::model::anchoring::AnchoringView;
use crate::model::record;
use crate::model::record::SERVICE_ID;
use crate::text;
use crate::time;
use crate::time::Timestamp;

verus! {

/// The contents of a list of keys.
pub open spec fn keys_of(path: Seq<&str>) -> Seq<Seq<char>> {
    path.map_values(|k: &str| k@)
}

/// What a path of keys leads to.
pub open spec fn at_path(doc: JsonView, path: Seq<Seq<char>>) -> Option<JsonView>
    decreases path.len(),
{
    if path.len() == 0 {
        Some(doc)
    } else {
        match at_path(doc, path.drop_last()) {
            Some(j) => json::field(j, path.last()),
            None => None,
        }
    }
}

/// The keys of a path, with dots between them.
pub open spec fn dotted(path: Seq<Seq<char>>) -> Seq<char>
    decreases path.len(),
{
    if path.len() == 0 {
        Seq::empty()
    } else if path.len() == 1 {
        path[0]
    } else {
        dotted(path.drop_last()) + "."@ + path.last()
    }
}

/// What a path leads to, or that the document lacks it.
pub open spec fn doc_value(doc: JsonView, path: Seq<Seq<char>>) -> Result<JsonView, Seq<char>> {
    match at_path(doc, path) {
        Some(j) => Ok(j),
        None => Err("document missing `"@ + dotted(path) + "`"@),
    }
}

/// A document that ends before a path does not have the path.
proof fn lemma_path_ends(doc: JsonView, path: Seq<Seq<char>>, i: int)
    requires
        0 <= i <= path.len(),
        at_path(doc, path.take(i)) is None,
    ensures
        at_path(doc, path) is None,
    decreases path.len() - i,
{
    if i < path.len() {
        assert(path.take(i + 1).drop_last() =~= path.take(i));
        lemma_path_ends(doc, path, i + 1);
    } else {
        assert(path.take(i) =~= path);
    }
}

fn join_path(path: &[&str]) -> (r: String)
    ensures
        r@ == dotted(keys_of(path@)),
{
    let mut r = String::new();
    let mut i: usize = 0;
    while i < path.len()
        invariant
            i <= path@.len(),
            r@ == dotted(keys_of(path@).take(i as int)),
        decreases path@.len() - i,
    {
        if i > 0 {
            r.append(".");
        }
        r.append(path[i]);
        proof {
            let t = keys_of(path@).take(i + 1);
            assert(t.drop_last() =~= keys_of(path@).take(i as int));
            assert(t.last() == path@[i as int]@);
            if i == 0 {
                assert(r@ =~= t[0]);
            }
        }
        i = i + 1;
    }
    proof {
        assert(keys_of(path@).take(i as int) =~= keys_of(path@));
    }
    r
}

/// Follow a path of keys in a document.
pub fn doc_field<'a>(doc: &'a Value, path: &[&str]) -> (r: Result<&'a Value, String>)
    ensures
        match doc_value(json::json_of(*doc), keys_of(path@)) {
            Ok(j) => r is Ok && json::json_of(*r->Ok_0) == j,
            Err(e) => r is Err && r->Err_0@ == e,
        },
{
    let mut v = doc;
    let mut i: usize = 0;
    while i < path.len()
        invariant
            i <= path@.len(),
            at_path(json::json_of(*doc), keys_of(path@).take(i as int)) == Some(json::json_of(*v)),
        decreases path@.len() - i,
    {
        proof {
            let t = keys_of(path@).take(i + 1);
            assert(t.drop_last() =~= keys_of(path@).take(i as int));
            assert(t.last() == path@[i as int]@);
        }
        match json::get(v, path[i]) {
            Some(x) => {
                v = x;
            },
            None => {
                proof {
                    lemma_path_ends(json::json_of(*doc), keys_of(path@), i + 1);
                }
                return Err(text::cat3("document missing `", &join_path(path), "`"));
            },
        }
        i = i + 1;
    }
    proof {
        assert(keys_of(path@).take(i as int) =~= keys_of(path@));
    }
    Ok(v)
}

/// The path of a field of the information package.
pub open spec fn package_path(key: Seq<char>) -> Seq<Seq<char>> {
    seq!["oais"@, "information_package"@, key]
}

/// The path of the anchoring outcome.
pub open spec fn anchoring_path() -> Seq<Seq<char>> {
    seq!["oais"@, "provenance"@, "anchoring"@]
}

/// A string of the document.
pub open spec fn doc_text(
    doc: JsonView,
    path: Seq<Seq<char>>,
    refusal: Seq<char>,
) -> Result<Seq<char>, Seq<char>> {
    match doc_value(doc, path) {
        Ok(j) => match json::text_in(Some(j)) {
            Some(s) => Ok(s),
            None => Err(refusal),
        },
        Err(e) => Err(e),
    }
}

/// A string of the information package.
pub open spec fn package_text(doc: JsonView, key: Seq<char>) -> Result<Seq<char>, Seq<char>> {
    doc_text(
        doc,
        package_path(key),
        "`oais.information_package."@ + key + "` must be a string"@,
    )
}

/// A digest of the information package.
pub open spec fn package_digest(doc: JsonView, key: Seq<char>) -> Result<Seq<u8>, Seq<char>> {
    match package_text(doc, key) {
        Ok(s) => match hash::hash_of_hex(s) {
            Some(h) => Ok(h),
            None => Err("`oais.information_package."@ + key + "` must be 64-char hex"@),
        },
        Err(e) => Err(e),
    }
}

/// The as-of instant of the information package.
pub open spec fn package_as_of(doc: JsonView) -> Result<Timestamp, Seq<char>> {
    match package_text(doc, "as_of"@) {
        Ok(s) => match time::stamp_parsed(s) {
            Ok(t) => Ok(t),
            Err(e) => Err("`as_of`: "@ + e),
        },
        Err(e) => Err(e),
    }
}

/// The sequence number of a document.
pub open spec fn doc_seq(doc: JsonView) -> Result<u64, Seq<char>> {
    match doc_value(doc, seq!["seq"@]) {
        Ok(j) => match json::number_in(Some(j)) {
            Some(n) => Ok(n),
            None => Err("`seq` must be an unsigned integer"@),
        },
        Err(e) => Err(e),
    }
}

/// The fields of the core statement that a document describes, or the first
/// thing that keeps it from describing one.
pub open spec fn core_fields_in(doc: JsonView) -> Result<Seq<FieldView>, Seq<char>> {
    let service = doc_value(doc, seq!["service"@]);
    let snapshot_id = doc_text(doc, seq!["snapshot_id"@], "`snapshot_id` must be a string"@);
    let seq = doc_seq(doc);
    let state_hash = package_digest(doc, "state_hash"@);
    let log_head = package_digest(doc, "log_head"@);
    let as_of = package_as_of(doc);
    let passport_id = package_text(doc, "passport_id"@);
    if service is Err {
        Err(service->Err_0)
    } else if json::text_in(Some(service->Ok_0)) != Some(SERVICE_ID@) {
        Err("document `service` must be `"@ + SERVICE_ID@ + "`"@)
    } else if snapshot_id is Err {
        Err(snapshot_id->Err_0)
    } else if seq is Err {
        Err(seq->Err_0)
    } else if state_hash is Err {
        Err(state_hash->Err_0)
    } else if log_head is Err {
        Err(log_head->Err_0)
    } else if as_of is Err {
        Err(as_of->Err_0)
    } else if passport_id is Err {
        Err(passport_id->Err_0)
    } else {
        Ok(
            record::core_fields(
                snapshot_id->Ok_0,
                seq->Ok_0,
                passport_id->Ok_0,
                state_hash->Ok_0,
                log_head->Ok_0,
                as_of->Ok_0,
            ),
        )
    }
}

/// The core statement bytes that a document describes.
pub open spec fn core_rebuilt<W: Fn(&Vec<CanonicalField>) -> Vec<u8>>(w: W, doc: JsonView) -> Result<
    Seq<u8>,
    Seq<char>,
> {
    match core_fields_in(doc) {
        Ok(f) => Ok(canonical::canonical(w, f)),
        Err(e) => Err(e),
    }
}

/// The anchoring outcome that a document states, as far as the statement
/// commits to it.
pub open spec fn anchoring_in(doc: JsonView) -> Result<AnchoringView, Seq<char>> {
    let place = doc_value(doc, anchoring_path());
    let status = json::text_in(json::field(place->Ok_0, "status"@));
    let log_id = json::text_in(json::field(place->Ok_0, "log_id"@));
    let receipt_seq = fields::numeral_in(json::field(place->Ok_0, "receipt_id"@));
    let tree_size = json::number_in(json::field(place->Ok_0, "tree_size"@));
    let root = fields::digest_in(json::field(place->Ok_0, "root"@));
    if place is Err {
        Err(place->Err_0)
    } else if status is None {
        Err("`oais.provenance.anchoring.status` missing"@)
    } else if status->0 == "unanchored"@ {
        Ok(AnchoringView::bare(AnchoringStatus::Unanchored, None))
    } else if status->0 != "anchored"@ {
        Err("`anchoring.status` must be `anchored`/`unanchored`, got `"@ + status->0 + "`"@)
    } else if log_id is None {
        Err("`anchoring.log_id` missing"@)
    } else if receipt_seq is None {
        Err("`anchoring.receipt_id` must be a numeric string"@)
    } else if tree_size is None {
        Err("`anchoring.tree_size` missing"@)
    } else if root is None {
        Err("`anchoring.root` must be 64-char hex"@)
    } else {
        Ok(
            AnchoringView {
                log_id,
                receipt_seq,
                tree_size,
                root,
                ..AnchoringView::bare(AnchoringStatus::Anchored, None)
            },
        )
    }
}

/// The full statement bytes that a document describes.
pub open spec fn statement_rebuilt<W: Fn(&Vec<CanonicalField>) -> Vec<u8>>(
    w: W,
    doc: JsonView,
) -> Result<Seq<u8>, Seq<char>> {
    match core_rebuilt(w, doc) {
        Ok(core) => match anchoring_in(doc) {
            Ok(a) => Ok(canonical::canonical(w, record::statement_fields(core, a))),
            Err(e) => Err(e),
        },
        Err(e) => Err(e),
    }
}

fn read_package_text(doc: &Value, key: &str) -> (r: Result<String, String>)
    ensures
        text::outcome(r) == package_text(json::json_of(*doc), key@),
{
    let path = ["oais", "information_package", key];
    proof {
        assert(keys_of(path@) =~= package_path(key@));
    }
    match doc_field(doc, &path) {
        Ok(v) => match v.as_str() {
            Some(s) => Ok(s.to_owned()),
            None => Err(text::cat3("`oais.information_package.", key, "` must be a string")),
        },
        Err(e) => Err(e),
    }
}

fn read_package_digest(doc: &Value, key: &str) -> (r: Result<crate::hash::Hash, String>)
    ensures
        text::outcome(r) == package_digest(json::json_of(*doc), key@),
{
    match read_package_text(doc, key) {
        Ok(s) => match crate::hash::Hash::from_hex(&s) {
            Some(h) => Ok(h),
            None => Err(text::cat3("`oais.information_package.", key, "` must be 64-char hex")),
        },
        Err(e) => Err(e),
    }
}

fn read_as_of(doc: &Value) -> (r: Result<Timestamp, String>)
    ensures
        text::outcome(r) == package_as_of(json::json_of(*doc)),
{
    match read_package_text(doc, "as_of") {
        Ok(s) => match Timestamp::parse(&s) {
            Ok(t) => Ok(t),
            Err(e) => Err(text::cat2("`as_of`: ", &e)),
        },
        Err(e) => Err(e),
    }
}

fn read_service(doc: &Value) -> (r: Result<(), String>)
    ensures
        match doc_value(json::json_of(*doc), seq!["service"@]) {
            Err(e) => r is Err && r->Err_0@ == e,
            Ok(j) => if json::text_in(Some(j)) == Some(SERVICE_ID@) {
                r is Ok
            } else {
                r is Err && r->Err_0@ == "document `service` must be `"@ + SERVICE_ID@ + "`"@
            },
        },
{
    let path = ["service"];
    proof {
        assert(keys_of(path@) =~= seq!["service"@]);
    }
    match doc_field(doc, &path) {
        Ok(v) => match v.as_str() {
            Some(s) => {
                if text::same_text(s, SERVICE_ID) {
                    return Ok(());
                }
            },
            None => {},
        },
        Err(e) => {
            return Err(e);
        },
    }
    Err(text::cat3("document `service` must be `", SERVICE_ID, "`"))
}

fn read_snapshot_id(doc: &Value) -> (r: Result<String, String>)
    ensures
        text::outcome(r) == doc_text(
            json::json_of(*doc),
            seq!["snapshot_id"@],
            "`snapshot_id` must be a string"@,
        ),
{
    let path = ["snapshot_id"];
    proof {
        assert(keys_of(path@) =~= seq!["snapshot_id"@]);
    }
    match doc_field(doc, &path) {
        Ok(v) => match v.as_str() {
            Some(s) => Ok(s.to_owned()),
            None => Err("`snapshot_id` must be a string".to_owned()),
        },
        Err(e) => Err(e),
    }
}

fn read_seq(doc: &Value) -> (r: Result<u64, String>)
    ensures
        text::outcome(r) == doc_seq(json::json_of(*doc)),
{
    let path = ["seq"];
    proof {
        assert(keys_of(path@) =~= seq!["seq"@]);
    }
    match doc_field(doc, &path) {
        Ok(v) => match v.as_u64() {
            Some(n) => Ok(n),
            None => Err("`seq` must be an unsigned integer".to_owned()),
        },
        Err(e) => Err(e),
    }
}

/// Rebuild the canonical core statement bytes from a served document.
pub fn core_bytes_from_document<W: Fn(&Vec<CanonicalField>) -> Vec<u8>>(
    writer: &W,
    doc: &Value,
) -> (r: Result<Vec<u8>, String>)
    requires
        canonical::is_writer(*writer),
    ensures
        match core_rebuilt(*writer, json::json_of(*doc)) {
            Ok(b) => r is Ok && r->Ok_0@ == b,
            Err(e) => r is Err && r->Err_0@ == e,
        },
{
    match read_service(doc) {
        Ok(_) => {},
        Err(e) => {
            return Err(e);
        },
    }
    let snapshot_id = match read_snapshot_id(doc) {
        Ok(x) => x,
        Err(e) => {
            return Err(e);
        },
    };
    let seq: u64 = match read_seq(doc) {
        Ok(x) => x,
        Err(e) => {
            return Err(e);
        },
    };
    let state_hash = match read_package_digest(doc, "state_hash") {
        Ok(x) => x,
        Err(e) => {
            return Err(e);
        },
    };
    let log_head = match read_package_digest(doc, "log_head") {
        Ok(x) => x,
        Err(e) => {
            return Err(e);
        },
    };
    let as_of = match read_as_of(doc) {
        Ok(x) => x,
        Err(e) => {
            return Err(e);
        },
    };
    let passport_id = match read_package_text(doc, "passport_id") {
        Ok(x) => x,
        Err(e) => {
            return Err(e);
        },
    };
    Ok(
        record::canonical_core(
            writer,
            &snapshot_id,
            seq,
            &passport_id,
            &state_hash,
            &log_head,
            as_of,
        ),
    )
}

fn read_anchoring(doc: &Value) -> (r: Result<Anchoring, String>)
    ensures
        text::outcome(r) == anchoring_in(json::json_of(*doc)),
{
    let path = ["oais", "provenance", "anchoring"];
    proof {
        assert(keys_of(path@) =~= anchoring_path());
    }
    let place = match doc_field(doc, &path) {
        Ok(v) => v,
        Err(e) => {
            return Err(e);
        },
    };
    let status = match json::get_text(place, "status") {
        Some(s) => s,
        None => {
            return Err("`oais.provenance.anchoring.status` missing".to_owned());
        },
    };
    if text::same_text(status, "unanchored") {
        return Ok(Anchoring::unanchored_default());
    }
    if !text::same_text(status, "anchored") {
        return Err(
            text::cat3("`anchoring.status` must be `anchored`/`unanchored`, got `", status, "`"),
        );
    }
    let log_id = match json::get_text(place, "log_id") {
        Some(s) => s.to_owned(),
        None => {
            return Err("`anchoring.log_id` missing".to_owned());
        },
    };
    let receipt_seq: u64 = match fields::get_numeral(place, "receipt_id") {
        Some(n) => n,
        None => {
            return Err("`anchoring.receipt_id` must be a numeric string".to_owned());
        },
    };
    let tree_size: u64 = match json::get_uint(place, "tree_size") {
        Some(n) => n,
        None => {
            return Err("`anchoring.tree_size` missing".to_owned());
        },
    };
    let root = match fields::get_digest(place, "root") {
        Some(h) => h,
        None => {
            return Err("`anchoring.root` must be 64-char hex".to_owned());
        },
    };
    Ok(
        Anchoring {
            status: AnchoringStatus::Anchored,
            reason: None,
            log_id: Some(log_id),
            receipt_seq: Some(receipt_seq),
            tree_size: Some(tree_size),
            root: Some(root),
            logged_at: None,
            commitment: None,
            receipt: None,
        },
    )
}

/// Rebuild the canonical full statement bytes (core + anchoring outcome) from a
/// served document: the bytes the embedded signature covers.
pub fn statement_bytes_from_document<W: Fn(&Vec<CanonicalField>) -> Vec<u8>>(
    writer: &W,
    doc: &Value,
) -> (r: Result<Vec<u8>, String>)
    requires
        canonical::is_writer(*writer),
    ensures
        match statement_rebuilt(*writer, json::json_of(*doc)) {
            Ok(b) => r is Ok && r->Ok_0@ == b,
            Err(e) => r is Err && r->Err_0@ == e,
        },
{
    let core = match core_bytes_from_document(writer, doc) {
        Ok(x) => x,
        Err(e) => {
            return Err(e);
        },
    };
    match read_anchoring(doc) {
        Ok(a) => Ok(record::canonical_statement(writer, core, &a)),
        Err(e) => Err(e),
    }
}

} // verus!
