//! Access, the as-of catalogue and the audit log.

use serde_json::Value;
use vstd::prelude::*;
use vstd::string::*;
use crate::api::ingest;
use crate::api::request;
use crate::api::response;
use crate::api::response::ApiResponse;
use crate::api::response::CachePolicy;
use crate::api::response::ResponseView;
use crate::canonical;
use crate::canonical::CanonicalField;
use crate::hex;
use crate::json;
use crate::json::JsonView;
use crate::model::anchoring;
use crate::model::anchoring::AnchoringStatus;
use crate::model::record;
use crate::model::record::RecordView;
use crate::model::record::SnapshotRecord;
use crate::params::Params;
use crate::store;
use crate::store::SnapshotStore;
use crate::text;
use crate::time;
use crate::time::Timestamp;

verus! {

// ---------------------------------------------------------------------------
// Access
// ---------------------------------------------------------------------------

/// The answer that serves a record: its text, forever the same.
pub open spec fn served<W: Fn(&Vec<CanonicalField>) -> Vec<u8>>(w: W, r: RecordView) -> ResponseView {
    response::answer(
        200,
        seq![
            ("content-type"@, "application/json"@),
            ("x-as-of"@, time::stamp_text(r.notarized_at)),
            ("etag"@, ingest::entity_tag(r.body_digest)),
        ],
        record::body_text(w, r),
        CachePolicy::PointInTime,
    )
}

/// The answer to a request for a snapshot.
pub open spec fn access_answer<W: Fn(&Vec<CanonicalField>) -> Vec<u8>>(
    w: W,
    records: Seq<RecordView>,
    id: Seq<char>,
    now: Timestamp,
) -> ResponseView {
    match store::found(records, text::trimmed(id)) {
        Some(r) => served(w, r),
        None => response::error_answer(404, "no snapshot `"@ + text::trimmed(id) + "`"@, now),
    }
}

/// Re-serve a stored snapshot byte-identically.
pub fn get_snapshot<W: Fn(&Vec<CanonicalField>) -> Vec<u8>>(
    store: &SnapshotStore,
    writer: &W,
    id: &str,
    now: Timestamp,
) -> (r: ApiResponse)
    requires
        canonical::is_writer(*writer),
    ensures
        r@ == access_answer(*writer, store@, id@, now),
{
    let id = text::trim(id);
    match store.get(&id) {
        Some(x) => {
            let mut headers: Vec<(String, String)> = Vec::new();
            response::set_header(&mut headers, "content-type", "application/json".to_owned());
            response::set_header(&mut headers, "x-as-of", x.notarized_at.to_string());
            response::set_header(&mut headers, "etag", ingest::etag_of(&x.body_digest));
            proof {
                assert(headers.deep_view() =~= seq![
                    ("content-type"@, "application/json"@),
                    ("x-as-of"@, time::stamp_text(x@.notarized_at)),
                    ("etag"@, ingest::entity_tag(x@.body_digest)),
                ]);
            }
            response::build_response(
                200,
                headers,
                x.render_body(writer),
                CachePolicy::PointInTime,
            )
        },
        None => response::not_found(&text::cat3("no snapshot `", &id, "`"), now),
    }
}

// ---------------------------------------------------------------------------
// The as-of catalogue
// ---------------------------------------------------------------------------

/// A record in the catalogue.
pub open spec fn catalogue_row(r: RecordView) -> JsonView {
    JsonView::Obj(
        map![
            "snapshot_id"@ => JsonView::Str(r.snapshot_id),
            "seq"@ => JsonView::UInt(r.seq),
            "passport_id"@ => JsonView::Str(r.passport_id),
            "state_hash"@ => JsonView::Str(hex::hex_text(r.state_hash)),
            "log_head"@ => JsonView::Str(hex::hex_text(r.log_head)),
            "notarized_at"@ => JsonView::Str(time::stamp_text(r.notarized_at)),
            "anchored"@ => JsonView::Bool(r.anchoring.status == AnchoringStatus::Anchored),
            "log_id"@ => json::text_or_null(r.anchoring.log_id),
            "receipt_id"@ => anchoring::numeral_or_null(r.anchoring.receipt_seq),
            "tree_size"@ => json::number_or_null(r.anchoring.tree_size),
            "root"@ => anchoring::digest_or_null(r.anchoring.root),
            "body_sha256"@ => JsonView::Str(hex::hex_text(r.body_digest)),
            "href"@ => JsonView::Str("/snapshots/"@ + r.snapshot_id),
        ],
    )
}

/// What a catalogue was asked for.
pub open spec fn query_echo(at: Option<Timestamp>, passport_id: Option<Seq<char>>) -> JsonView {
    JsonView::Obj(
        map![
            "at"@ => anchoring::instant_or_null(at),
            "passport_id"@ => json::text_or_null(passport_id),
        ],
    )
}

/// The catalogue of some records.
pub open spec fn catalogue(
    rows: Seq<RecordView>,
    as_of: Timestamp,
    at: Option<Timestamp>,
    passport_id: Option<Seq<char>>,
) -> JsonView {
    JsonView::Obj(
        map![
            "as_of"@ => JsonView::Str(time::stamp_text(as_of)),
            "query"@ => query_echo(at, passport_id),
            "count"@ => JsonView::UInt(rows.len() as u64),
            "snapshots"@ => JsonView::Arr(rows.map_values(|r: RecordView| catalogue_row(r))),
        ],
    )
}

/// The instant that an answer is as of: the one asked for, or now.
pub open spec fn effective(at: Option<Timestamp>, now: Timestamp) -> Timestamp {
    match at {
        Some(t) => t,
        None => now,
    }
}

/// The answer to a request for the catalogue: every snapshot notarized at or
/// before the instant that the answer is as of.
pub open spec fn catalogue_answer(
    records: Seq<RecordView>,
    q: Map<Seq<char>, Seq<char>>,
    now: Timestamp,
) -> ResponseView {
    match request::instant_asked(q) {
        Err(e) => response::error_answer(400, e, now),
        Ok(at) => {
            let passport_id = request::asked(q, "passport_id"@);
            response::json_answer(
                200,
                catalogue(
                    store::listed(records, passport_id, Some(effective(at, now))),
                    effective(at, now),
                    at,
                    passport_id,
                ),
                effective(at, now),
                response::policy_at(at),
            )
        },
    }
}

fn row_value(r: &SnapshotRecord) -> (v: Value)
    ensures
        json::json_of(v) == catalogue_row(r@),
{
    let mut e = json::entries();
    json::put(&mut e, "snapshot_id", json::text(&r.snapshot_id));
    json::put(&mut e, "seq", json::uint(r.seq));
    json::put(&mut e, "passport_id", json::text(&r.passport_id));
    json::put(&mut e, "state_hash", json::string(r.state_hash.hex()));
    json::put(&mut e, "log_head", json::string(r.log_head.hex()));
    json::put(&mut e, "notarized_at", json::string(r.notarized_at.to_string()));
    json::put(
        &mut e,
        "anchored",
        json::boolean(r.anchoring.status == AnchoringStatus::Anchored),
    );
    json::put(&mut e, "log_id", json::opt_text(&r.anchoring.log_id));
    json::put(&mut e, "receipt_id", anchoring::numeral_value(r.anchoring.receipt_seq));
    json::put(&mut e, "tree_size", json::opt_uint(r.anchoring.tree_size));
    json::put(&mut e, "root", anchoring::digest_value(&r.anchoring.root));
    json::put(&mut e, "body_sha256", json::string(r.body_digest.hex()));
    json::put(&mut e, "href", json::string(text::cat2("/snapshots/", &r.snapshot_id)));
    json::object(e)
}

/// List the snapshots in the as-of catalogue.
pub fn list_snapshots(store: &SnapshotStore, params: &Params, now: Timestamp) -> (r: ApiResponse)
    ensures
        r@ == catalogue_answer(store@, params@, now),
{
    let at = match request::parse_at(params) {
        Ok(v) => v,
        Err(e) => {
            return response::bad_request(&e, now);
        },
    };
    let as_of = match at {
        Some(t) => t,
        None => now,
    };
    let passport_id = request::opt_query(params, "passport_id");
    let asked: Option<&str> = match &passport_id {
        Some(s) => Some(s.as_str()),
        None => None,
    };
    let found = store.list(asked, Some(as_of));
    let ghost listing = found.deep_view();
    let mut rows: Vec<Value> = Vec::new();
    let mut i: usize = 0;
    while i < found.len()
        invariant
            i <= found@.len(),
            listing == found.deep_view(),
            json::contents(rows@) == listing.take(i as int).map_values(
                |r: RecordView| catalogue_row(r),
            ),
        decreases found@.len() - i,
    {
        let ghost before = json::contents(rows@);
        let v = row_value(found[i]);
        let ghost row = json::json_of(v);
        rows.push(v);
        proof {
            assert(json::contents(rows@) =~= before.push(row));
            assert(listing.take(i + 1) =~= listing.take(i as int).push(listing[i as int]));
            assert(listing.take(i + 1).map_values(|r: RecordView| catalogue_row(r))
                =~= listing.take(i as int).map_values(|r: RecordView| catalogue_row(r)).push(
                catalogue_row(listing[i as int]),
            ));
        }
        i = i + 1;
    }
    proof {
        assert(listing.take(i as int) =~= listing);
    }
    let mut query = json::entries();
    json::put(&mut query, "at", anchoring::instant_value(at));
    json::put(&mut query, "passport_id", json::opt_text(&passport_id));
    let mut e = json::entries();
    json::put(&mut e, "as_of", json::string(as_of.to_string()));
    json::put(&mut e, "query", json::object(query));
    json::put(&mut e, "count", json::uint(found.len() as u64));
    json::put(&mut e, "snapshots", json::array(rows));
    response::json_response(200, &json::object(e), as_of, response::cache_for(at))
}

// ---------------------------------------------------------------------------
// The audit log
// ---------------------------------------------------------------------------

/// The number of records that an audit page may hold: what is asked for, or 100,
/// but at most 10 000.
pub open spec fn page_limit(q: Map<Seq<char>, Seq<char>>) -> nat {
    match request::number_asked(q, "limit"@, usize::MAX as nat) {
        Some(n) => if n < 10_000 {
            n
        } else {
            10_000
        },
        None => 100,
    }
}

/// The number of records before an audit page.
pub open spec fn page_offset(q: Map<Seq<char>, Seq<char>>) -> nat {
    match request::number_asked(q, "offset"@, usize::MAX as nat) {
        Some(n) => n,
        None => 0,
    }
}

/// The document of an audit page: the audit view, stamped.
pub open spec fn audit_document(
    records: Seq<RecordView>,
    q: Map<Seq<char>, Seq<char>>,
    now: Timestamp,
) -> JsonView {
    json::with_field(
        store::audit_view(records, page_limit(q), page_offset(q)),
        "as_of"@,
        JsonView::Str(time::stamp_text(now)),
    )
}

/// The answer to a request for the audit log.
pub open spec fn audit_answer(
    records: Seq<RecordView>,
    token: Option<Seq<char>>,
    authorization: Option<Seq<char>>,
    q: Map<Seq<char>, Seq<char>>,
    now: Timestamp,
) -> ResponseView {
    if !response::authorized(token, authorization) {
        response::unauthorized_answer(now)
    } else {
        response::json_answer(
            200,
            audit_document(records, q, now),
            now,
            CachePolicy::Current,
        )
    }
}

/// Read the append-only audit journal.
pub fn admin_log(
    store: &SnapshotStore,
    token: &Option<String>,
    authorization: Option<&str>,
    params: &Params,
    now: Timestamp,
) -> (r: ApiResponse)
    ensures
        r@ == audit_answer(
            store@,
            token.deep_view(),
            authorization.deep_view(),
            params@,
            now,
        ),
{
    match response::require_admin(token, authorization, now) {
        Some(deny) => {
            return deny;
        },
        None => {},
    }
    let limit: usize = match request::number_param(params, "limit") {
        Some(n) => {
            if n < 10_000 {
                n
            } else {
                10_000
            }
        },
        None => 100,
    };
    let offset: usize = match request::number_param(params, "offset") {
        Some(n) => n,
        None => 0,
    };
    let mut view = store.audit_json(limit, offset);
    json::insert(&mut view, "as_of", json::string(now.to_string()));
    response::json_response(200, &view, now, CachePolicy::Current)
}

} // verus!
