//! Ingest: the steps of a `POST /snapshots`.
//!
//! A request is admitted (`begin_create`), the snapshot is opened under the next
//! sequence number (`open_create`), its commitment is sent to the transparency
//! log if one is configured, and with what came back the snapshot is sealed,
//! written and answered (`complete_create`). The whole flow is to be serialized,
//! so that sequence numbers and journal order cannot interleave.

use serde_json::Value;
use vstd::prelude::*;
use vstd::string::*;
use crate::api::request;
use crate::api::request::CreateRequest;
use crate::api::request::CreateView;
use crate::api::response;
use crate::api::response::ApiResponse;
use crate::api::response::CachePolicy;
use crate::api::response::ResponseView;
use crate::canonical;
use crate::canonical::CanonicalField;
use crate::hex;
use crate::json;
use crate::json::JsonView;
use crate::model::anchoring;
use crate::model::anchoring::Anchoring;
use crate::model::anchoring::AnchoringStatus;
use crate::model::anchoring::AnchoringView;
use crate::model::record;
use crate::model::record::Notarization;
use crate::model::record::NotarizationView;
use crate::model::record::RecordView;
use crate::model::record::SnapshotRecord;
use crate::store;
use crate::store::SnapshotFile;
use crate::store::SnapshotStore;
use crate::store::StoreErrorView;
use crate::text;
use crate::time;
use crate::time::Timestamp;

verus! {

/// The request that is admitted, or the answer that refuses it: first for want
/// of authorization, then for a body that is no JSON, then for what the body
/// says.
pub open spec fn admitted(
    token: Option<Seq<char>>,
    authorization: Option<Seq<char>>,
    body: Seq<char>,
    now: Timestamp,
) -> Result<CreateView, ResponseView> {
    if !response::authorized(token, authorization) {
        Err(response::unauthorized_answer(now))
    } else {
        match json::json_parsed(body) {
            Err(e) => Err(response::error_answer(400, "invalid JSON body: "@ + e, now)),
            Ok(v) => match request::create_request_in(v) {
                Err(e) => Err(response::error_answer(400, e, now)),
                Ok(req) => Ok(req),
            },
        }
    }
}

/// Admit a request, or give the answer that refuses it.
pub fn begin_create(
    token: &Option<String>,
    authorization: Option<&str>,
    body: &str,
    now: Timestamp,
) -> (r: Result<CreateRequest, ApiResponse>)
    ensures
        match admitted(token.deep_view(), authorization.deep_view(), body@, now) {
            Ok(req) => r is Ok && r->Ok_0@ == req,
            Err(a) => r is Err && r->Err_0@ == a,
        },
{
    match response::require_admin(token, authorization, now) {
        Some(deny) => {
            return Err(deny);
        },
        None => {},
    }
    let v = match request::parse_body(body) {
        Ok(v) => v,
        Err(e) => {
            return Err(response::bad_request(&e, now));
        },
    };
    match request::parse_create_request(&v) {
        Ok(req) => Ok(req),
        Err(e) => Err(response::bad_request(&e, now)),
    }
}

/// A snapshot that awaits its anchoring outcome.
#[derive(Debug)]
pub struct PendingSnapshot {
    pub record: SnapshotRecord,
    /// The commitment to be anchored.
    pub commitment: crate::hash::Hash,
    /// The subject to anchor it under.
    pub subject: String,
}

/// The subject of a snapshot in the transparency log.
pub open spec fn subject_of(snapshot_id: Seq<char>) -> Seq<char> {
    "urn:unidpp:archive:snapshot:"@ + snapshot_id
}

/// The record of an admitted request.
pub open spec fn record_for(next: nat, req: CreateView, now: Timestamp) -> RecordView {
    record::fresh(
        next as u64,
        now,
        req.passport_id,
        req.state_hash,
        req.log_head,
        req.submitter,
        req.state_size,
    )
}

/// Open a snapshot for an admitted request, under the next sequence number.
pub fn open_create<W: Fn(&Vec<CanonicalField>) -> Vec<u8>>(
    store: &SnapshotStore,
    writer: &W,
    req: CreateRequest,
    now: Timestamp,
) -> (r: PendingSnapshot)
    requires
        canonical::is_writer(*writer),
    ensures
        r.record@ == record_for(store@.len(), req@, now),
        r.commitment@ == record::commitment_of(*writer, r.record@),
        r.subject@ == subject_of(r.record@.snapshot_id),
{
    let (seq, notarized_at) = store.reserve(now);
    let record = SnapshotRecord::new(
        seq,
        notarized_at,
        req.passport_id,
        req.state_hash,
        req.log_head,
        req.submitter,
        req.state_size,
    );
    let commitment = record.commitment(writer);
    let subject = text::cat2("urn:unidpp:archive:snapshot:", &record.snapshot_id);
    PendingSnapshot { record, commitment, subject }
}

/// Whether a receipt names a commitment.
pub open spec fn names_commitment(receipt: JsonView, commitment: Seq<u8>) -> bool {
    json::text_in(json::field(receipt, "commitment"@)) == Some(hex::hex_text(commitment))
}

/// The anchoring outcome that is unanchored because of its receipt.
pub open spec fn receipt_rejected(why: Seq<char>) -> AnchoringView {
    AnchoringView::bare(AnchoringStatus::Unanchored, Some("log receipt rejected: "@ + why))
}

/// The anchoring outcome for what came of the attempt: anchored if there is a
/// receipt for the commitment with all that the statement commits to, which reads
/// back from the journal, and otherwise unanchored with the reason.
pub open spec fn anchoring_for(
    receipt: Result<JsonView, Seq<char>>,
    commitment: Seq<u8>,
) -> AnchoringView {
    match receipt {
        Ok(j) => match anchoring::summary_of(j) {
            Ok(summary) => if !names_commitment(j, commitment) {
                receipt_rejected("receipt `commitment` is not the one that was sent"@)
            } else if !json::portable(j, record::JOURNAL_RECEIPT_DEPTH as nat) {
                receipt_rejected("receipt does not read back from a journal line"@)
            } else {
                AnchoringView::anchored(summary, j, commitment)
            },
            Err(e) => receipt_rejected(e),
        },
        Err(e) => AnchoringView::bare(AnchoringStatus::Unanchored, Some(e)),
    }
}

/// The content of what came of an anchoring attempt.
pub open spec fn attempt(receipt: Result<Value, String>) -> Result<JsonView, Seq<char>> {
    match receipt {
        Ok(v) => Ok(json::json_of(v)),
        Err(e) => Err(e@),
    }
}

fn reject_receipt(why: &str) -> (r: Anchoring)
    ensures
        r@ == receipt_rejected(why@),
{
    Anchoring::unanchored(text::cat2("log receipt rejected: ", why))
}

/// Settle the anchoring outcome.
pub fn settle_anchoring(receipt: Result<Value, String>, commitment: crate::hash::Hash) -> (r:
    Anchoring)
    ensures
        r@ == anchoring_for(attempt(receipt), commitment@),
{
    match receipt {
        Ok(v) => match anchoring::anchor_summary_from_receipt(&v) {
            Ok(summary) => {
                let named = match json::get_text(&v, "commitment") {
                    Some(s) => text::same_text(s, &commitment.hex()),
                    None => false,
                };
                if !named {
                    reject_receipt("receipt `commitment` is not the one that was sent")
                } else if !json::reads_back(&v, record::JOURNAL_RECEIPT_DEPTH) {
                    reject_receipt("receipt does not read back from a journal line")
                } else {
                    Anchoring::anchored(summary, v, commitment)
                }
            },
            Err(e) => reject_receipt(&e),
        },
        Err(e) => Anchoring::unanchored(e),
    }
}

/// The strong entity tag of a body digest.
pub open spec fn entity_tag(body_digest: Seq<u8>) -> Seq<char> {
    "\"sha-"@ + text::prefix(hex::hex_text(body_digest), 32) + "\""@
}

/// The strong entity tag of a body digest.
pub fn etag_of(body_digest: &crate::hash::Hash) -> (r: String)
    ensures
        r@ == entity_tag(body_digest@),
{
    text::cat3("\"sha-", &text::take_prefix(&body_digest.hex(), 32), "\"")
}

/// The headers of the answer to a successful ingest, without the receipt.
pub open spec fn created_headers(r: RecordView) -> Seq<(Seq<char>, Seq<char>)> {
    seq![
        ("content-type"@, "application/json"@),
        ("location"@, "/snapshots/"@ + r.snapshot_id),
        ("x-snapshot-id"@, r.snapshot_id),
        ("x-as-of"@, time::stamp_text(r.notarized_at)),
        ("etag"@, entity_tag(r.body_digest)),
    ]
}

/// The receipt header of an anchored snapshot.
pub open spec fn receipt_header(r: RecordView) -> (Seq<char>, Seq<char>) {
    (
        "x-anchored-receipt"@,
        match r.anchoring.receipt_seq {
            Some(n) => text::decimal(n as nat),
            None => ""@,
        },
    )
}

/// The answer to a successful ingest, which as an answer to a mutation is never
/// stored.
pub open spec fn created<W: Fn(&Vec<CanonicalField>) -> Vec<u8>>(w: W, r: RecordView) -> ResponseView {
    response::answer(
        201,
        if r.anchoring.status == AnchoringStatus::Anchored {
            created_headers(r).push(receipt_header(r))
        } else {
            created_headers(r)
        },
        record::body_text(w, r),
        CachePolicy::NoStore,
    )
}

fn created_response(r: &SnapshotRecord, body: String) -> (a: ApiResponse)
    ensures
        a@ == response::answer(
            201,
            if r@.anchoring.status == AnchoringStatus::Anchored {
                created_headers(r@).push(receipt_header(r@))
            } else {
                created_headers(r@)
            },
            body@,
            CachePolicy::NoStore,
        ),
{
    let mut headers: Vec<(String, String)> = Vec::new();
    response::set_header(&mut headers, "content-type", "application/json".to_owned());
    response::set_header(&mut headers, "location", text::cat2("/snapshots/", &r.snapshot_id));
    response::set_header(&mut headers, "x-snapshot-id", r.snapshot_id.clone());
    response::set_header(&mut headers, "x-as-of", r.notarized_at.to_string());
    response::set_header(&mut headers, "etag", etag_of(&r.body_digest));
    proof {
        assert(headers.deep_view() =~= created_headers(r@));
    }
    if r.anchoring.status == AnchoringStatus::Anchored {
        let receipt = match r.anchoring.receipt_seq {
            Some(n) => text::decimal_u64(n),
            None => "".to_owned(),
        };
        response::set_header(&mut headers, "x-anchored-receipt", receipt);
    }
    response::build_response(201, headers, body, CachePolicy::NoStore)
}

/// The record of a pending snapshot with its anchoring outcome.
pub open spec fn settled(
    pending: RecordView,
    receipt: Result<JsonView, Seq<char>>,
    commitment: Seq<u8>,
) -> RecordView {
    RecordView { anchoring: anchoring_for(receipt, commitment), ..pending }
}

/// The record of a pending snapshot, for what came of the anchoring attempt.
pub open spec fn settled_from(
    pending: PendingSnapshot,
    receipt: Result<Value, String>,
) -> RecordView {
    settled(pending.record@, attempt(receipt), pending.commitment@)
}

/// The answer to an ingest whose record could be sealed, for what came of the
/// append.
pub open spec fn ingest_answer<W: Fn(&Vec<CanonicalField>) -> Vec<u8>>(
    w: W,
    r: RecordView,
    end: Result<(), StoreErrorView>,
    now: Timestamp,
) -> ResponseView {
    match end {
        Ok(_) => created(w, r),
        Err(e) => response::store_error_answer(e, now),
    }
}

/// What may become of the store and what may be answered, for an answer of the
/// notary: a failed notarization, a record that the store refuses and one that
/// could not be written leave the store as it is. The line of a record that is
/// written is one line, and it reads back.
pub open spec fn ingest_outcome<
    W: Fn(&Vec<CanonicalField>) -> Vec<u8>,
    F: FnOnce(&SnapshotFile) -> Result<(), String>,
    L: FnOnce(&String) -> Result<(), String>,
>(
    w: W,
    write_file: F,
    write_line: L,
    records: Seq<RecordView>,
    r: RecordView,
    notarized: Result<NotarizationView, Seq<char>>,
    now: Timestamp,
    after: Seq<RecordView>,
    answer: ResponseView,
) -> bool {
    match notarized {
        Err(e) => after == records && answer == response::error_answer(
            500,
            "notarization failed: "@ + ("notarization sign: "@ + e),
            now,
        ),
        Ok(n) => {
            let s = record::sealed(w, r, n);
            match store::append_plan(w, records.len(), s) {
                Err(e) => after == records && answer == response::store_error_answer(e, now),
                Ok(plan) => {
                    &&& exists|end: Result<(), StoreErrorView>| #[trigger]
                        store::append_concluded(
                            write_file,
                            write_line,
                            plan,
                            records,
                            s,
                            after,
                            end,
                        ) && answer == ingest_answer(w, s, end, now)
                    &&& store::line_reads_back(s)
                },
            }
        },
    }
}

/// Complete an ingest with what came of the anchoring attempt: settle the
/// outcome, have the statement notarized, seal the record, have it written,
/// enter it into the store, and answer. The notary is handed the statement of the
/// record and nothing else, and only the record that it notarized is written.
pub fn complete_create<
    W: Fn(&Vec<CanonicalField>) -> Vec<u8>,
    N: FnOnce(&Vec<u8>) -> Result<Notarization, String>,
    F: FnOnce(&SnapshotFile) -> Result<(), String>,
    L: FnOnce(&String) -> Result<(), String>,
>(
    store: &mut SnapshotStore,
    writer: &W,
    notary: N,
    write_file: F,
    write_line: L,
    pending: PendingSnapshot,
    receipt: Result<Value, String>,
    now: Timestamp,
) -> (r: ApiResponse)
    requires
        canonical::is_writer(*writer),
        forall|b: Vec<u8>|
            b@ == record::statement_bytes(*writer, settled_from(pending, receipt))
                ==> #[trigger] notary.requires((&b,)),
        forall|b: Vec<u8>, n: Notarization, f: SnapshotFile|
            #![trigger notary.ensures((&b,), Ok::<Notarization, String>(n)), write_file.requires((&f,))]
            b@ == record::statement_bytes(*writer, settled_from(pending, receipt))
                && notary.ensures((&b,), Ok::<Notarization, String>(n)) && store::planned_file(
                *writer,
                old(store)@.len(),
                record::sealed(*writer, settled_from(pending, receipt), n.deep_view()),
                f.deep_view(),
            ) ==> write_file.requires((&f,)),
        forall|b: Vec<u8>, n: Notarization, f: SnapshotFile, l: String|
            #![trigger notary.ensures((&b,), Ok::<Notarization, String>(n)), write_file.ensures((&f,), Ok::<(), String>(())), write_line.requires((&l,))]
            b@ == record::statement_bytes(*writer, settled_from(pending, receipt))
                && notary.ensures((&b,), Ok::<Notarization, String>(n)) && store::planned_file(
                *writer,
                old(store)@.len(),
                record::sealed(*writer, settled_from(pending, receipt), n.deep_view()),
                f.deep_view(),
            ) && write_file.ensures((&f,), Ok::<(), String>(())) && l@ == store::line_text(
                record::sealed(*writer, settled_from(pending, receipt), n.deep_view()),
            ) ==> write_line.requires((&l,)),
    ensures
        exists|b: Vec<u8>, answer: Result<Notarization, String>| #[trigger]
            notary.ensures((&b,), answer) && b@ == record::statement_bytes(
                *writer,
                settled_from(pending, receipt),
            ) && ingest_outcome(
                *writer,
                write_file,
                write_line,
                old(store)@,
                settled_from(pending, receipt),
                text::outcome(answer),
                now,
                final(store)@,
                r@,
            ),
{
    let ghost s = settled_from(pending, receipt);
    let mut record = pending.record;
    record.set_anchoring(settle_anchoring(receipt, pending.commitment));
    proof {
        assert(record@ == s);
    }
    let statement = record.statement_bytes(writer);
    let answer = notary(&statement);
    let ghost given = answer;
    proof {
        assert(notary.ensures((&statement,), given));
    }
    match record.apply_notarization(writer, answer) {
        Ok(_) => {},
        Err(e) => {
            return response::error_response(500, &text::cat2("notarization failed: ", &e), now);
        },
    }
    proof {
        assert(given == Ok::<Notarization, String>(given->Ok_0));
        assert(record@ == record::sealed(*writer, s, given->Ok_0.deep_view()));
    }
    let body = record.render_body(writer);
    match store.append_snapshot(writer, &record, write_file, write_line) {
        Ok(_) => created_response(&record, body),
        Err(e) => response::store_error(e, now),
    }
}

} // verus!
