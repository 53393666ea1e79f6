//! What the operations return, said of their arguments and results.

use serde_json::Value;
use vstd::prelude::*;
use crate::api::access;
use crate::api::config::Config;
use crate::api::discovery;
use crate::api::ingest;
use crate::api::ingest::PendingSnapshot;
use crate::api::request;
use crate::api::request::CreateRequest;
use crate::api::request::CreateView;
use crate::api::response;
use crate::api::response::ApiResponse;
use crate::canonical;
use crate::canonical::CanonicalField;
use crate::canonical::FieldView;
use crate::hash;
use crate::hex;
use crate::json;
use crate::json::JsonView;
use crate::keys;
use crate::laws::answers;
use crate::laws::documents;
use crate::laws::instants;
use crate::laws::requests;
use crate::laws::storage;
use crate::laws::texts;
use crate::laws::words;
use crate::log_anchor;
use crate::log_anchor::AnchorReply;
use crate::log_anchor::AnchorRequest;
use crate::log_anchor::LogAnchorConfig;
use crate::model::anchoring;
use crate::model::anchoring::AnchorSummary;
use crate::model::anchoring::Anchoring;
use crate::model::anchoring::AnchoringStatus;
use crate::model::anchoring::AnchoringView;
use crate::model::anchoring::SummaryView;
use crate::model::rebuild;
use crate::model::record;
use crate::model::record::NotarizationView;
use crate::model::record::RecordView;
use crate::model::record::SnapshotRecord;
use crate::params::Params;
use crate::store;
use crate::store::AppendPlan;
use crate::store::FileCheck;
use crate::store::FileRead;
use crate::store::JournalRead;
use crate::store::OpenedStore;
use crate::store::SnapshotStore;
use crate::store::StoreError;
use crate::text;
use crate::time;
use crate::time::Timestamp;

verus! {

// ---------------------------------------------------------------------------
// Rebuilding
// ---------------------------------------------------------------------------

/// Whether a document states what the core of a record is made of.
pub open spec fn states_core_of(doc: JsonView, x: RecordView) -> bool {
    documents::core_said(
        doc,
        x.snapshot_id,
        x.seq,
        x.passport_id,
        x.state_hash,
        x.log_head,
        x.notarized_at,
    )
}

/// The bytes that a writer gives for the core of a record.
pub open spec fn core_written<W: Fn(&Vec<CanonicalField>) -> Vec<u8>>(w: W, x: RecordView) -> Seq<
    u8,
> {
    canonical::canonical(
        w,
        documents::core_stating(
            x.snapshot_id,
            x.seq,
            x.passport_id,
            x.state_hash,
            x.log_head,
            x.notarized_at,
        ),
    )
}

/// The bytes that a writer gives for a core and an anchoring outcome.
pub open spec fn statement_written<W: Fn(&Vec<CanonicalField>) -> Vec<u8>>(
    w: W,
    x: RecordView,
) -> Seq<u8> {
    let core = core_written(w, x);
    let a = x.anchoring;
    canonical::canonical(
        w,
        if a.status == AnchoringStatus::Anchored {
            seq![
                FieldView::Raw(core),
                FieldView::U32(1),
                FieldView::Str(
                    if a.log_id is Some {
                        a.log_id->0
                    } else {
                        ""@
                    },
                ),
                FieldView::U64(
                    if a.receipt_seq is Some {
                        a.receipt_seq->0
                    } else {
                        0
                    },
                ),
                FieldView::U64(
                    if a.tree_size is Some {
                        a.tree_size->0
                    } else {
                        0
                    },
                ),
                FieldView::Digest(
                    if a.root is Some {
                        a.root->0
                    } else {
                        Seq::new(32, |i: int| 0u8)
                    },
                ),
            ]
        } else {
            seq![FieldView::Raw(core), FieldView::U32(0)]
        },
    )
}

proof fn lemma_written<W: Fn(&Vec<CanonicalField>) -> Vec<u8>>(w: W, x: RecordView)
    ensures
        record::core_bytes(w, x) == core_written(w, x),
        record::statement_bytes(w, x) == statement_written(w, x),
{
    documents::law_statement_states_its_record(x, record::core_bytes(w, x));
}

/// The core bytes are rebuilt exactly where a document states a snapshot, and they are
/// those of the service, the id, the sequence number and the passport id, state hash,
/// log head and instant of the information package.
pub proof fn law_core_bytes_from_document<W: Fn(&Vec<CanonicalField>) -> Vec<u8>>(
    w: &W,
    doc: &Value,
    r: Result<Vec<u8>, String>,
    x: RecordView,
)
    requires
        call_ensures(rebuild::core_bytes_from_document::<W>, (w, doc), r),
    ensures
        states_core_of(json::json_of(*doc), x) ==> r is Ok && r->Ok_0@ == core_written(*w, x),
        r is Ok ==> exists|y: RecordView| #[trigger] states_core_of(json::json_of(*doc), y),
{
    let j = json::json_of(*doc);
    documents::law_core_is_rebuilt_from_the_package(
        j,
        x.snapshot_id,
        x.seq,
        x.passport_id,
        x.state_hash,
        x.log_head,
        x.notarized_at,
    );
    if r is Ok {
        let y = choose|y: RecordView| #[trigger]
            documents::core_said(
                j,
                y.snapshot_id,
                y.seq,
                y.passport_id,
                y.state_hash,
                y.log_head,
                y.notarized_at,
            );
        assert(states_core_of(j, y));
    }
}

/// The statement bytes are rebuilt exactly where a document states a snapshot and an
/// anchoring outcome, and they are those of the two.
pub proof fn law_statement_bytes_from_document<W: Fn(&Vec<CanonicalField>) -> Vec<u8>>(
    w: &W,
    doc: &Value,
    r: Result<Vec<u8>, String>,
    x: RecordView,
)
    requires
        call_ensures(rebuild::statement_bytes_from_document::<W>, (w, doc), r),
    ensures
        states_core_of(json::json_of(*doc), x) && documents::anchor_said(
            json::json_of(*doc),
            x.anchoring,
        ) ==> r is Ok && r->Ok_0@ == statement_written(*w, x),
        r is Ok ==> exists|y: RecordView| #[trigger] states_core_of(json::json_of(*doc), y),
        r is Ok ==> exists|a: AnchoringView| #[trigger]
            documents::anchor_said(json::json_of(*doc), a),
{
    let j = json::json_of(*doc);
    if states_core_of(j, x) && documents::anchor_said(j, x.anchoring) {
        documents::law_statement_is_rebuilt_from_the_document(*w, j, x);
        lemma_written(*w, x);
    }
    if r is Ok {
        documents::law_core_is_rebuilt_from_the_package(
            j,
            x.snapshot_id,
            x.seq,
            x.passport_id,
            x.state_hash,
            x.log_head,
            x.notarized_at,
        );
        let y = choose|y: RecordView| #[trigger]
            documents::core_said(
                j,
                y.snapshot_id,
                y.seq,
                y.passport_id,
                y.state_hash,
                y.log_head,
                y.notarized_at,
            );
        assert(states_core_of(j, y));
        let a = rebuild::anchoring_in(j)->Ok_0;
        documents::law_outcome_is_rebuilt_from_the_provenance(j, a);
        assert(documents::anchor_said(j, a));
    }
}

// ---------------------------------------------------------------------------
// Records
// ---------------------------------------------------------------------------

/// A new record holds what it is made of.
pub proof fn law_new_record(
    seq: u64,
    at: Timestamp,
    passport_id: String,
    state_hash: crate::hash::Hash,
    log_head: crate::hash::Hash,
    submitter: Option<String>,
    state_size: Option<u64>,
    r: SnapshotRecord,
)
    requires
        call_ensures(
            SnapshotRecord::new,
            (seq, at, passport_id, state_hash, log_head, submitter, state_size),
            r,
        ),
    ensures
        r.seq == seq,
        r.snapshot_id@ == record::id_of(seq),
        r.notarized_at == at,
        r.passport_id@ == passport_id@,
        r.state_hash@ == state_hash@,
        r.log_head@ == log_head@,
        match submitter {
            Some(s) => r.submitter is Some && r.submitter->0@ == s@,
            None => r.submitter is None,
        },
        r.state_size == state_size,
        r.anchoring.status == AnchoringStatus::Unanchored,
        r.anchoring.reason is None,
{
    assert(r@.submitter == submitter.deep_view());
    assert(r@.anchoring.reason is None);
}

/// The statements of a record are written from its fields, and its commitment is the
/// digest of the core.
pub proof fn law_statements_of_a_record<W: Fn(&Vec<CanonicalField>) -> Vec<u8>>(
    x: &SnapshotRecord,
    w: &W,
    core: Vec<u8>,
    statement: Vec<u8>,
    commitment: crate::hash::Hash,
)
    requires
        call_ensures(SnapshotRecord::core_statement_bytes::<W>, (x, w), core),
        call_ensures(SnapshotRecord::statement_bytes::<W>, (x, w), statement),
        call_ensures(SnapshotRecord::commitment::<W>, (x, w), commitment),
    ensures
        core@ == core_written(*w, x@),
        statement@ == statement_written(*w, x@),
        commitment@ == hash::sha256_of(core@),
{
    lemma_written(*w, x@);
}

/// The document of a record states it, and the body is the indented text of the
/// document.
pub proof fn law_document_of_a_record<W: Fn(&Vec<CanonicalField>) -> Vec<u8>>(
    x: &SnapshotRecord,
    w: &W,
    doc: Value,
    body: String,
)
    requires
        call_ensures(SnapshotRecord::to_document::<W>, (x, w), doc),
        call_ensures(SnapshotRecord::render_body::<W>, (x, w), body),
    ensures
        documents::document_said(json::json_of(doc), x@, statement_written(*w, x@)),
        body@ == json::pretty_text(json::json_of(doc)),
{
    documents::law_document_states_its_record(*w, x@);
    lemma_written(*w, x@);
}

/// The journal line of a record states it, and a record is read from a line as the line
/// holds it.
pub proof fn law_journal_of_a_record(
    x: &SnapshotRecord,
    line: Value,
    v: &Value,
    r: Result<SnapshotRecord, String>,
    y: RecordView,
)
    requires
        call_ensures(SnapshotRecord::to_journal_json, (x,), line),
        call_ensures(SnapshotRecord::from_journal_json, (v,), r),
    ensures
        documents::line_said(json::json_of(line), x@),
        r matches Ok(z) ==> documents::record_held(json::json_of(*v), z@),
        documents::record_held(json::json_of(*v), y) ==> r is Ok && r->Ok_0@ == y,
{
    documents::law_journal_line_states_its_record(x@);
    documents::law_record_is_read_as_held(json::json_of(*v), y);
    if r is Ok {
        documents::law_record_is_read_as_held(json::json_of(*v), r->Ok_0@);
    }
}

/// What sealing makes of a record: what the notary gave is entered, or nothing where
/// it gave nothing.
pub proof fn law_sealing_enters_what_the_notary_gave<W: Fn(&Vec<CanonicalField>) -> Vec<u8>>(
    w: W,
    r: RecordView,
    answer: Result<NotarizationView, Seq<char>>,
)
    ensures
        ({
            let (s, end) = record::seal_outcome(w, r, answer);
            &&& answer matches Ok(n) ==> end is Ok && s.key_id == n.key_id && s.signature
                == n.signature && s.passport_id == r.passport_id && s.state_hash == r.state_hash
                && s.log_head == r.log_head && s.seq == r.seq && s.anchoring.commitment == Some(
                hash::sha256_of(core_written(w, r)),
            ) && storage::fixity_holds(w, s)
            &&& answer matches Err(e) ==> s == r && end == Err::<(), Seq<char>>(
                "notarization sign: "@ + e,
            )
        }),
{
    if answer is Ok {
        documents::law_sealing_leaves_the_rest(w, r, answer->Ok_0);
        documents::law_sealed_document_carries_its_notarization(w, r, answer->Ok_0);
        lemma_written(w, r);
    }
}

// ---------------------------------------------------------------------------
// Anchoring
// ---------------------------------------------------------------------------

/// A receipt is read as it says.
pub proof fn law_anchor_summary_from_receipt(
    v: &Value,
    r: Result<AnchorSummary, String>,
    s: SummaryView,
)
    requires
        call_ensures(anchoring::anchor_summary_from_receipt, (v,), r),
    ensures
        r matches Ok(x) ==> documents::receipt_said(json::json_of(*v), x@),
        documents::receipt_said(json::json_of(*v), s) ==> r is Ok && r->Ok_0@ == s,
{
    documents::law_receipt_is_read_as_it_says(json::json_of(*v), s);
    if r is Ok {
        documents::law_receipt_is_read_as_it_says(json::json_of(*v), r->Ok_0@);
    }
}

/// An outcome is written as it is and read as it is held.
pub proof fn law_outcome_is_written_and_read(
    a: &Anchoring,
    doc: Value,
    line: Value,
    v: &Value,
    r: Result<Anchoring, String>,
    b: AnchoringView,
)
    requires
        call_ensures(Anchoring::to_document_json, (a,), doc),
        call_ensures(Anchoring::to_journal_json, (a,), line),
        call_ensures(Anchoring::from_json, (v,), r),
    ensures
        documents::outcome_said(json::json_of(doc), a@),
        documents::outcome_said(json::json_of(line), a@),
        words::spelled_or_null(json::json_of(line), "commitment"@, a@.commitment),
        r matches Ok(x) ==> documents::outcome_held(json::json_of(*v), x@),
        documents::outcome_held(json::json_of(*v), b) ==> r is Ok && r->Ok_0@ == b,
{
    documents::law_outcome_is_stated(a@);
    documents::law_outcome_is_journaled(a@);
    documents::law_outcome_is_read_as_held(json::json_of(*v), b);
    if r is Ok {
        documents::law_outcome_is_read_as_held(json::json_of(*v), r->Ok_0@);
    }
}

/// The outcome of an attempt is anchored exactly if the log gave a receipt for the
/// commitment that says all of an anchor and reads back from a journal line, and then
/// holds the number that the receipt says; otherwise it has the reason.
pub proof fn law_settle_anchoring(
    receipt: Result<Value, String>,
    commitment: crate::hash::Hash,
    a: Anchoring,
    s: SummaryView,
)
    requires
        call_ensures(ingest::settle_anchoring, (receipt, commitment), a),
    ensures
        a.status == AnchoringStatus::Anchored ==> receipt is Ok && words::spelled(
            json::json_of(receipt->Ok_0),
            "commitment"@,
            commitment@,
        ),
        receipt matches Ok(v) ==> documents::receipt_said(json::json_of(v), s) && words::spelled(
            json::json_of(v),
            "commitment"@,
            commitment@,
        ) && json::portable(json::json_of(v), 125) ==> a.status == AnchoringStatus::Anchored
            && a.receipt_seq == Some(s.receipt_seq) && a.tree_size == Some(s.tree_size)
            && a.logged_at == Some(s.logged_at) && a@.log_id == Some(s.log_id) && a@.root == Some(
            s.root,
        ) && a@.receipt == Some(json::json_of(v)) && a@.commitment == Some(commitment@),
        a.status == AnchoringStatus::Unanchored ==> a.reason is Some && a.receipt_seq is None,
        receipt matches Err(e) ==> a@.reason == Some(e@),
{
    answers::law_anchored_as_the_receipt_says(ingest::attempt(receipt), commitment@, s);
    assert(a@.reason is Some <==> a.reason is Some);
}

/// A log is asked where one is configured, under the subject and for the commitment.
pub proof fn law_anchor_request(
    c: &LogAnchorConfig,
    subject: &str,
    commitment: &crate::hash::Hash,
    r: Result<AnchorRequest, String>,
    enabled: bool,
)
    requires
        call_ensures(log_anchor::anchor_request, (c, subject, commitment), r),
        call_ensures(LogAnchorConfig::is_enabled, (c,), enabled),
    ensures
        enabled <==> (c.base_url matches Some(s) && !words::all_white(s@)),
        r is Ok <==> enabled,
        r matches Ok(q) ==> q.deep_view().bearer == c@.bearer && q.timeout == c.timeout && exists|j: JsonView|
            #[trigger]
            json::compact_text(j) == q.body@ && words::says(j, "subject"@, subject@)
                && words::spelled(j, "commitment"@, commitment@),
{
    requests::law_anchoring_is_attempted_where_configured(c@, subject@, commitment@);
    if r is Ok {
        requests::law_log_is_asked_for_the_commitment(c@, subject@, commitment@);
    }
}

/// Anchoring is disabled without a log, and enabled to the one that is named, without a
/// token and with three seconds to answer.
pub proof fn law_anchoring_can_be_set(base: &str, off: LogAnchorConfig, on: LogAnchorConfig)
    requires
        call_ensures(LogAnchorConfig::disabled, (), off),
        call_ensures(LogAnchorConfig::enabled, (base,), on),
    ensures
        off.base_url is None && off.bearer is None && off.timeout == log_anchor::millis(3000),
        on.base_url is Some && on.base_url->0@ == base@,
        on.bearer is None && on.timeout == log_anchor::millis(3000),
{
    assert(off@.base_url is None && off@.bearer is None && on@.bearer is None);
    assert(on@.base_url == Some(base@));
}

/// A receipt is what the log answered with a status of success.
pub proof fn law_anchor_outcome(reply: Result<AnchorReply, String>, r: Result<Value, String>)
    requires
        call_ensures(log_anchor::anchor_outcome, (reply,), r),
    ensures
        r matches Ok(v) ==> (reply matches Ok(x) && 200 <= x.status <= 299 && json::json_parsed(
            x.body@,
        ) == Ok::<JsonView, Seq<char>>(json::json_of(v))),
        reply matches Ok(x) ==> 200 <= x.status <= 299 && json::json_parsed(x.body@) is Ok ==> r is Ok,
        reply matches Err(e) ==> r is Err && r->Err_0@ == "log unreachable: "@ + e@,
{
    if r is Ok {
        requests::law_receipt_is_what_the_log_answered(
            text::outcome(reply),
            json::json_of(r->Ok_0),
        );
    }
    if reply is Ok && json::json_parsed(reply->Ok_0.body@) is Ok {
        requests::law_receipt_is_what_the_log_answered(
            text::outcome(reply),
            json::json_parsed(reply->Ok_0.body@)->Ok_0,
        );
    }
    requests::law_missing_receipt_is_explained(text::outcome(reply));
}

// ---------------------------------------------------------------------------
// Requests
// ---------------------------------------------------------------------------

/// Reading an ingest request gives what the body submits, and fails where it submits
/// nothing.
pub proof fn law_parse_create_request(v: &Value, r: Result<CreateRequest, String>, x: CreateView)
    requires
        call_ensures(request::parse_create_request, (v,), r),
    ensures
        r matches Ok(req) ==> requests::submits(json::json_of(*v), req@),
        requests::submits(json::json_of(*v), x) ==> r is Ok && r->Ok_0@ == x,
{
    requests::law_request_is_taken_as_submitted(json::json_of(*v), x);
    if r is Ok {
        requests::law_request_is_taken_as_submitted(json::json_of(*v), r->Ok_0@);
    }
}

/// An ingest is admitted exactly if it may pass the guard and its body submits one.
pub proof fn law_begin_create(
    token: &Option<String>,
    authorization: Option<&str>,
    body: &str,
    now: Timestamp,
    r: Result<CreateRequest, ApiResponse>,
    x: CreateView,
)
    requires
        call_ensures(ingest::begin_create, (token, authorization, body, now), r),
    ensures
        r matches Ok(req) ==> (json::json_parsed(body@) matches Ok(v) && requests::submits(
            v,
            req@,
        )) && (token matches Some(t) ==> authorization is Some && authorization->0@ == "Bearer "@
            + t@),
        (json::json_parsed(body@) matches Ok(v) && requests::submits(v, x)) && (token matches Some(
            t,
        ) ==> authorization is Some && authorization->0@ == "Bearer "@ + t@) ==> r is Ok
            && r->Ok_0@ == x,
        r matches Err(a) ==> a.status == 400 || a.status == 401,
{
    let (t, h) = (token.deep_view(), authorization.deep_view());
    requests::law_ingest_is_admitted_as_submitted(t, h, body@, now, x);
    if r is Ok {
        requests::law_ingest_is_admitted_as_submitted(t, h, body@, now, r->Ok_0@);
    } else {
        assert(r->Err_0.status == r->Err_0@.status);
    }
}

/// A snapshot is opened for what was submitted, under the next sequence number and as of
/// now, with the commitment of its core and a subject that names it.
pub proof fn law_open_create<W: Fn(&Vec<CanonicalField>) -> Vec<u8>>(
    s: &SnapshotStore,
    w: &W,
    req: CreateRequest,
    now: Timestamp,
    p: PendingSnapshot,
)
    requires
        call_ensures(ingest::open_create::<W>, (s, w, req, now), p),
        s@.len() <= u64::MAX,
    ensures
        p.record.seq == s@.len(),
        p.record.snapshot_id@ == record::id_of(s@.len() as u64),
        p.record.notarized_at == now,
        p.record.passport_id@ == req.passport_id@,
        p.record.state_hash@ == req.state_hash@,
        p.record.log_head@ == req.log_head@,
        p.record@.submitter == req@.submitter,
        p.record.state_size == req.state_size,
        p.commitment@ == hash::sha256_of(core_written(*w, p.record@)),
        p.subject@ == "urn:unidpp:archive:snapshot:"@ + p.record.snapshot_id@,
{
    lemma_written(*w, p.record@);
    assert(p.record@.seq == s@.len());
}

/// An instant is asked for as it is named, and read as it is written.
pub proof fn law_parse_at(q: &Params, r: Result<Option<Timestamp>, String>)
    requires
        call_ensures(request::parse_at, (q,), r),
    ensures
        r matches Ok(Some(t)) ==> exists|s: Seq<char>| #[trigger]
            requests::instant_named(q@, s) && instants::denotes(s, t.secs as int),
        r matches Ok(None) ==> requests::instant_named(q@, Seq::empty()) || (!q@.contains_key(
            "at"@,
        ) && !q@.contains_key("asof"@)),
{
    if r is Ok {
        let t = r->Ok_0;
        if t is Some {
            requests::law_instant_is_asked_as_named(q@, t->0);
            let s = choose|s: Seq<char>| #[trigger]
                requests::instant_named(q@, s) && s.len() > 0 && time::stamp_parsed(s) == Ok::<
                    Timestamp,
                    Seq<char>,
                >(t->0);
            instants::law_instant_is_read_as_written(s, t->0);
            assert(requests::instant_named(q@, s) && instants::denotes(s, t->0.secs as int));
        } else {
            requests::law_instant_is_asked_as_named(q@, Timestamp { secs: 0 });
        }
    }
}

/// The guard lets a request pass exactly if there is no token or the request carries it,
/// and answers 401 otherwise.
pub proof fn law_require_admin(
    token: &Option<String>,
    authorization: Option<&str>,
    now: Timestamp,
    r: Option<ApiResponse>,
)
    requires
        call_ensures(response::require_admin, (token, authorization, now), r),
    ensures
        r is None <==> (token matches Some(t) ==> authorization is Some && authorization->0@
            == "Bearer "@ + t@),
        r matches Some(a) ==> a.status == 401,
{
    if r is Some {
        assert(r->0.status == r->0@.status);
    }
}

/// The configuration is what the environment sets.
pub proof fn law_config_from_env(vars: &Params, c: Config)
    requires
        call_ensures(Config::from_env_map, (vars,), c),
    ensures
        c.bind@ == if vars@.contains_key("UNIDPP_ARCHIVE_BIND"@) {
            vars@["UNIDPP_ARCHIVE_BIND"@]
        } else {
            "127.0.0.1:8095"@
        },
        requests::set_to(vars@, "UNIDPP_ARCHIVE_ADMIN_TOKEN"@, c@.admin_token),
        requests::set_to(vars@, "UNIDPP_ARCHIVE_STATE_FILE"@, c@.state_file),
        requests::set_to(vars@, "UNIDPP_ARCHIVE_SNAPSHOT_DIR"@, c@.snapshot_dir),
        requests::set_to(vars@, "UNIDPP_ARCHIVE_DEV_SEED"@, c@.dev_seed),
        requests::set_to_word(vars@, "UNIDPP_LOG_URL"@, c@.log.base_url),
        requests::set_to_word(vars@, "UNIDPP_ARCHIVE_LOG_TOKEN"@, c@.log.bearer),
{
    requests::law_environment_is_the_configuration(vars@);
    assert(c.bind@ == c@.bind);
}

// ---------------------------------------------------------------------------
// The store
// ---------------------------------------------------------------------------

/// A listing has the records of the archive that have the passport id that is asked
/// for, if one is, and were notarized at or before the instant, if one is given, and no
/// others.
pub proof fn law_list(
    s: &SnapshotStore,
    p: Option<&str>,
    t: Option<Timestamp>,
    r: Vec<&SnapshotRecord>,
    x: RecordView,
)
    requires
        call_ensures(SnapshotStore::list, (s, p, t), r),
    ensures
        r.deep_view().contains(x) <==> s@.contains(x) && (p matches Some(p) ==> x.passport_id == p@)
            && (t matches Some(t) ==> x.notarized_at.secs <= t.secs),
        forall|i: int, j: int|
            0 <= i < j < r.deep_view().len() ==> (#[trigger] r.deep_view()[i]).seq < (
            #[trigger] r.deep_view()[j]).seq,
{
}

/// The record of an id is one that has exactly this id, and there is none only if no
/// record has it.
pub proof fn law_get(s: &SnapshotStore, id: &str, r: Option<&SnapshotRecord>)
    requires
        call_ensures(SnapshotStore::get, (s, id), r),
    ensures
        r matches Some(x) ==> x.snapshot_id@ == id@ && s@.contains(x@),
        r is None ==> forall|i: int| 0 <= i < s@.len() ==> (#[trigger] s@[i]).snapshot_id != id@,
{
    answers::law_record_is_found_by_its_id(s@, id@);
    if r is Some {
        let x = store::found(s@, id@)->0;
        assert(r.deep_view() == Some(x));
        let i = choose|i: int|
            0 <= i < s@.len() && #[trigger] s@[i] == x && x.snapshot_id == id@ && forall|j: int|
                0 <= j < i ==> (#[trigger] s@[j]).snapshot_id != id@;
        assert(s@.contains(s@[i]));
    }
}

/// The next sequence number is the number of records.
pub proof fn law_size(s: &SnapshotStore, n: u64, now: Timestamp, next: (u64, Timestamp))
    requires
        call_ensures(SnapshotStore::size, (s,), n),
        call_ensures(SnapshotStore::reserve, (s, now), next),
    ensures
        n == s@.len(),
        next == (n, now),
        forall|i: int| 0 <= i < s@.len() ==> (#[trigger] s@[i]).seq == i,
{
}

/// An audit view has the records from its offset on, as many as it may and there are.
pub proof fn law_audit_json(s: &SnapshotStore, limit: usize, offset: usize, v: Value)
    requires
        call_ensures(SnapshotStore::audit_json, (s, limit, offset), v),
    ensures
        ({
            let j = json::json_of(v);
            let rows = documents::part(j, "records"@)->Arr_0;
            &&& words::has(j, "total"@, JsonView::UInt(s@.len() as u64))
            &&& words::has(j, "count"@, JsonView::UInt(rows.len() as u64))
            &&& words::has(j, "limit"@, JsonView::UInt(limit as u64))
            &&& words::has(j, "offset"@, JsonView::UInt(offset as u64))
            &&& words::has(j, "records"@, JsonView::Arr(rows))
            &&& rows.len() == if offset >= s@.len() {
                0
            } else if s@.len() - offset < limit {
                s@.len() - offset
            } else {
                limit as int
            }
            &&& forall|i: int|
                0 <= i < rows.len() ==> documents::line_said(#[trigger] rows[i], s@[offset + i])
        }),
{
    let j = json::json_of(v);
    let page = store::page(s@, limit as nat, offset as nat);
    let rows = page.map_values(|r: RecordView| store::audit_row(r));
    keys::lemma_audit_keys();
    answers::law_page_holds_its_records(s@, limit as nat, offset as nat);
    assert(words::has(j, "records"@, JsonView::Arr(rows)));
    assert forall|i: int| 0 <= i < rows.len() implies documents::line_said(
        #[trigger] rows[i],
        s@[offset + i],
    ) by {
        answers::lemma_audit_row_said(page[i]);
    }
}

/// A record is appended exactly if it has the next sequence number and the digest of its
/// document, which is then written to a file named by its id.
pub proof fn law_prepare_append<W: Fn(&Vec<CanonicalField>) -> Vec<u8>>(
    s: &SnapshotStore,
    w: &W,
    x: &SnapshotRecord,
    r: Result<AppendPlan, StoreError>,
)
    requires
        call_ensures(SnapshotStore::prepare_append::<W>, (s, w, x), r),
    ensures
        r is Ok <==> x.seq == s@.len() && storage::fixity_holds(*w, x@),
        r matches Ok(plan) ==> {
            &&& plan.file.name@ == x.snapshot_id@ + ".json"@
            &&& plan.file.body@ == json::pretty_text(record::document(*w, x@))
            &&& exists|j: JsonView| #[trigger]
                json::compact_text(j) == plan.line@ && documents::line_said(j, x@)
        },
        r matches Err(e) ==> (e is Conflict <==> x.seq != s@.len()),
{
    storage::law_append_writes_the_record(*w, s@.len(), x@);
    if r is Ok {
        let plan = r->Ok_0;
        assert(plan.deep_view() == store::append_plan(*w, s@.len(), x@)->Ok_0);
        assert(plan.deep_view().file == plan.file.deep_view());
    } else {
        assert(r->Err_0.deep_view() == store::append_plan(*w, s@.len(), x@)->Err_0);
    }
}

/// A file is intact exactly if it holds the document that is served, byte for byte, and
/// only a missing one is written again, with that document.
pub proof fn law_check_snapshot_file<W: Fn(&Vec<CanonicalField>) -> Vec<u8>>(
    w: &W,
    x: &SnapshotRecord,
    found: &FileRead,
    path: &str,
    r: Result<FileCheck, StoreError>,
)
    requires
        call_ensures(store::check_snapshot_file::<W>, (w, x, found, path), r),
    ensures
        ({
            let body = json::pretty_text(record::document(*w, x@));
            &&& (r matches Ok(FileCheck::Intact)) <==> (found matches FileRead::Found(b) && b@
                == vstd::utf8::encode_utf8(body))
            &&& r matches Ok(FileCheck::Rematerialize(b)) ==> found is Missing && b@ == body
            &&& found is Missing ==> r is Ok
        }),
{
    storage::law_only_the_served_document_is_intact(*w, x@, found.deep_view(), path@);
    if r is Ok {
        assert(r->Ok_0.deep_view() == store::file_check(
            *w,
            x@,
            found.deep_view(),
            path@,
        )->Ok_0);
    }
}

/// An opened store holds what the lines of its journal hold.
pub proof fn law_open<W: Fn(&Vec<CanonicalField>) -> Vec<u8>>(
    w: &W,
    journal: &JournalRead,
    r: Result<OpenedStore, StoreError>,
)
    requires
        call_ensures(SnapshotStore::open::<W>, (w, Some(journal)), r),
    ensures
        ({
            let lines = crate::journal::lines_in(journal.bytes@);
            r matches Ok(o) ==> {
                &&& journal.failure is None
                &&& o.store@.len() == if o.end.torn is Some {
                    lines.len() - 1
                } else {
                    lines.len() as int
                }
                &&& forall|i: int|
                    0 <= i < o.store@.len() ==> (lines[i] matches Some(l) && storage::text_holds(
                        l,
                        #[trigger] o.store@[i],
                    )) && o.store@[i].seq == i && storage::fixity_holds(*w, o.store@[i])
            }
        }),
{
    storage::law_store_holds_what_the_journal_holds(
        *w,
        journal.bytes@,
        journal.failure.deep_view(),
    );
    if r is Ok {
        let o = r->Ok_0;
        assert(o.deep_view() == store::opened(
            *w,
            journal.bytes@,
            journal.failure.deep_view(),
        )->Ok_0);
        assert(o.end.deep_view().torn is Some <==> o.end.torn is Some);
        assert(journal.failure.deep_view() is None <==> journal.failure is None);
    }
}

// ---------------------------------------------------------------------------
// Answers
// ---------------------------------------------------------------------------

/// Access answers with the document of the record that has the id, without the white
/// space around it, and with 404 where none has it.
pub proof fn law_get_snapshot<W: Fn(&Vec<CanonicalField>) -> Vec<u8>>(
    s: &SnapshotStore,
    w: &W,
    asked: &str,
    now: Timestamp,
    a: ApiResponse,
    id: Seq<char>,
)
    requires
        call_ensures(access::get_snapshot::<W>, (s, w, asked, now), a),
        words::stripped(asked@, id),
    ensures
        (exists|i: int| 0 <= i < s@.len() && (#[trigger] s@[i]).snapshot_id == id) ==> {
            &&& a.status == 200
            &&& exists|i: int|
                0 <= i < s@.len() && (#[trigger] s@[i]).snapshot_id == id && a.body@
                    == json::pretty_text(record::document(*w, s@[i])) && answers::header_is(
                    a@,
                    "etag"@,
                    ingest::entity_tag(s@[i].body_digest),
                ) && answers::header_is(a@, "x-as-of"@, time::stamp_text(s@[i].notarized_at))
        },
        (forall|i: int| 0 <= i < s@.len() ==> (#[trigger] s@[i]).snapshot_id != id) ==> a.status
            == 404,
{
    answers::law_access_serves_what_is_asked(*w, s@, asked@, id, now);
    answers::law_record_is_found_by_its_id(s@, id);
    if store::found(s@, id) is Some {
        let r = store::found(s@, id)->0;
        answers::law_served_answer_repeats_the_document(*w, r);
        let i = choose|i: int|
            0 <= i < s@.len() && #[trigger] s@[i] == r && r.snapshot_id == id && forall|j: int|
                0 <= j < i ==> (#[trigger] s@[j]).snapshot_id != id;
        assert(s@[i].snapshot_id == id);
    }
    assert(a.status == a@.status);
}

/// Whether a text is a catalogue of the records of the archive that have a passport id,
/// if one is asked for, and were notarized at or before an instant.
pub open spec fn catalogue_answers(
    body: Seq<char>,
    rs: Seq<RecordView>,
    t: Timestamp,
    at: Option<Timestamp>,
    p: Option<Seq<char>>,
) -> bool {
    exists|doc: JsonView, found: Seq<RecordView>| #[trigger]
        answers::catalogue_said(doc, found, t, at, p) && json::pretty_text(doc) == body
            && forall|x: RecordView| #[trigger]
            found.contains(x) <==> rs.contains(x) && (p matches Some(p) ==> x.passport_id == p)
                && x.notarized_at.secs <= t.secs
}

/// The catalogue answers with the listing that is asked for, as of the instant that is
/// asked for or of now.
pub proof fn law_list_snapshots(s: &SnapshotStore, q: &Params, now: Timestamp, a: ApiResponse)
    requires
        call_ensures(access::list_snapshots, (s, q, now), a),
        s@.len() <= u64::MAX,
    ensures
        request::instant_asked(q@) is Err <==> a.status == 400,
        request::instant_asked(q@) matches Ok(at) ==> {
            let t = match at {
                Some(t) => t,
                None => now,
            };
            let p = request::asked(q@, "passport_id"@);
            &&& a.status == 200
            &&& answers::header_is(a@, "x-as-of"@, time::stamp_text(t))
            &&& catalogue_answers(a.body@, s@, t, at, p)
        },
{
    if request::instant_asked(q@) is Ok {
        answers::law_catalogue_answers_what_is_asked(s@, q@, now);
        let at = request::instant_asked(q@)->Ok_0;
        let t = match at {
            Some(t) => t,
            None => now,
        };
        let p = request::asked(q@, "passport_id"@);
        let found = store::listed(s@, p, Some(t));
        let doc = choose|doc: JsonView| #[trigger]
            json::pretty_text(doc) == a.body@ && answers::catalogue_said(doc, found, t, at, p);
        assert forall|x: RecordView| #[trigger] found.contains(x) <==> s@.contains(x) && (
        p matches Some(p) ==> x.passport_id == p) && x.notarized_at.secs <= t.secs by {
            answers::law_listing_has_what_is_asked_for(
                s@,
                if p is Some {
                    p->0
                } else {
                    Seq::empty()
                },
                t,
                x,
            );
        }
        assert(answers::catalogue_said(doc, found, t, at, p));
    }
    assert(a.status == a@.status);
}

/// The audit log answers those who may see it with the page that is asked for, and
/// others with 401.
pub proof fn law_admin_log(
    s: &SnapshotStore,
    token: &Option<String>,
    authorization: Option<&str>,
    q: &Params,
    now: Timestamp,
    a: ApiResponse,
)
    requires
        call_ensures(access::admin_log, (s, token, authorization, q, now), a),
    ensures
        ({
            let passes = token matches Some(t) ==> authorization is Some && authorization->0@
                == "Bearer "@ + t@;
            &&& a.status == if passes {
                200int
            } else {
                401int
            }
            &&& passes ==> exists|doc: JsonView| #[trigger]
                json::pretty_text(doc) == a.body@ && answers::page_said(
                    doc,
                    s@,
                    access::page_limit(q@),
                    access::page_offset(q@),
                    now,
                )
        }),
{
    let (t, h) = (token.deep_view(), authorization.deep_view());
    answers::law_audit_log_answers_what_is_asked(s@, t, h, q@, now);
    assert(a.status == a@.status);
}

/// Liveness answers with the number of snapshots and whether anchoring is enabled,
/// written at one instant and sent at another.
pub proof fn law_healthz(
    snapshots: u64,
    enabled: bool,
    as_of: Timestamp,
    now: Timestamp,
    a: ApiResponse,
)
    requires
        call_ensures(discovery::healthz, (snapshots, enabled, as_of, now), a),
    ensures
        a.status == 200,
        answers::header_is(a@, "x-as-of"@, time::stamp_text(now)),
        answers::header_is(a@, "cache-control"@, "public, max-age=30, must-revalidate"@),
        exists|doc: JsonView| #[trigger]
            json::pretty_text(doc) == a.body@ && words::says(doc, "status"@, "ok"@) && words::has(
                doc,
                "snapshots"@,
                JsonView::UInt(snapshots),
            ) && words::has(doc, "anchoring_enabled"@, JsonView::Bool(enabled)) && words::says(
                doc,
                "as_of"@,
                time::stamp_text(as_of),
            ),
{
    answers::law_health_counts_the_snapshots(snapshots, enabled, as_of);
    let doc = discovery::health_document(snapshots, enabled, as_of);
    assert(json::pretty_text(doc) == a@.body);
    lemma_json_answer_headers(a, now);
}

proof fn lemma_json_answer_headers(a: ApiResponse, now: Timestamp)
    requires
        a@.headers == seq![
            ("content-type"@, "application/json"@),
            ("x-as-of"@, time::stamp_text(now)),
        ].push(("cache-control"@, "public, max-age=30, must-revalidate"@)),
    ensures
        answers::header_is(a@, "x-as-of"@, time::stamp_text(now)),
        answers::header_is(a@, "cache-control"@, "public, max-age=30, must-revalidate"@),
{
    keys::lemma_header_names();
    assert(a@.headers[1] == ("x-as-of"@, time::stamp_text(now)));
    assert(a@.headers[2] == ("cache-control"@, "public, max-age=30, must-revalidate"@));
}

/// The keyring answers with the keyring document and an instant, and changes nothing
/// else of the document.
pub proof fn law_keyring(
    document: Value,
    as_of: Timestamp,
    now: Timestamp,
    a: ApiResponse,
    name: Seq<char>,
    x: JsonView,
)
    requires
        call_ensures(discovery::keyring, (document, as_of, now), a),
        json::json_of(document) is Obj,
    ensures
        a.status == 200,
        answers::header_is(a@, "x-as-of"@, time::stamp_text(now)),
        exists|doc: JsonView| #[trigger]
            json::pretty_text(doc) == a.body@ && words::says(doc, "as_of"@, time::stamp_text(as_of))
                && (name != "as_of"@ ==> (words::has(doc, name, x) <==> words::has(
                json::json_of(document),
                name,
                x,
            ))),
{
    let j = json::json_of(document);
    answers::law_stamp_leaves_the_rest(j, as_of, name, x);
    let doc = json::with_field(j, "as_of"@, JsonView::Str(time::stamp_text(as_of)));
    assert(json::pretty_text(doc) == a@.body);
    lemma_json_answer_headers(a, now);
}

/// Discovery answers with the description of the service.
pub proof fn law_discovery(
    version: &str,
    build_id: &str,
    enabled: bool,
    now: Timestamp,
    a: ApiResponse,
)
    requires
        call_ensures(discovery::discovery, (version, build_id, enabled, now), a),
    ensures
        a.status == 200,
        answers::header_is(a@, "x-as-of"@, time::stamp_text(now)),
        exists|doc: JsonView| #[trigger]
            json::pretty_text(doc) == a.body@ && words::says(doc, "version"@, version@)
                && words::says(doc, "build_id"@, build_id@) && words::says(
                doc,
                "service"@,
                "unidpp-archive"@,
            ) && words::has(doc, "anchoring_enabled"@, JsonView::Bool(enabled)),
{
    answers::law_discovery_describes_the_service(version@, build_id@, enabled, now);
    let doc = discovery::discovery_document(version@, build_id@, enabled, now);
    assert(json::pretty_text(doc) == a@.body);
    lemma_json_answer_headers(a, now);
}

/// A refusal has its status and says why.
pub proof fn law_refusals(
    msg: &str,
    e: StoreError,
    now: Timestamp,
    bad: ApiResponse,
    missing: ApiResponse,
    broken: ApiResponse,
)
    requires
        call_ensures(response::bad_request, (msg, now), bad),
        call_ensures(response::not_found, (msg, now), missing),
        call_ensures(response::store_error, (e, now), broken),
    ensures
        bad.status == 400,
        missing.status == 404,
        e is Conflict ==> broken.status == 409,
        e is Journal ==> broken.status == 500,
        exists|doc: JsonView| #[trigger]
            json::pretty_text(doc) == bad.body@ && words::says(doc, "error"@, msg@),
        exists|doc: JsonView| #[trigger]
            json::pretty_text(doc) == missing.body@ && words::says(doc, "error"@, msg@),
        e matches StoreError::Conflict(m) ==> exists|doc: JsonView| #[trigger]
            json::pretty_text(doc) == broken.body@ && words::says(doc, "error"@, m@),
        e matches StoreError::Journal(m) ==> exists|doc: JsonView| #[trigger]
            json::pretty_text(doc) == broken.body@ && words::says(
                doc,
                "error"@,
                "storage integrity failure: "@ + m@,
            ),
{
    answers::law_error_answer_says_what_is_wrong(400, msg@, now);
    answers::law_error_answer_says_what_is_wrong(404, msg@, now);
    match e {
        StoreError::Conflict(m) => {
            answers::law_store_failures_have_their_status(m@, now);
            answers::law_error_answer_says_what_is_wrong(409, m@, now);
        },
        StoreError::Journal(m) => {
            answers::law_store_failures_have_their_status(m@, now);
            answers::law_error_answer_says_what_is_wrong(
                500,
                "storage integrity failure: "@ + m@,
                now,
            );
        },
    }
    assert(bad.status == bad@.status && missing.status == missing@.status && broken.status
        == broken@.status);
}

/// A failure of the store is told in words.
pub proof fn law_store_error_in_words(e: &StoreError, r: String)
    requires
        call_ensures(StoreError::to_string, (e,), r),
    ensures
        *e matches StoreError::Journal(m) ==> r@ == "journal integrity failure: "@ + m@,
        *e matches StoreError::Conflict(m) ==> r@ == "conflict: "@ + m@,
{
}

// ---------------------------------------------------------------------------
// Texts
// ---------------------------------------------------------------------------

/// The text of an instant is read as the instant that it denotes, and an instant is
/// written in UTC.
pub proof fn law_instant_texts(s: &str, r: Result<Timestamp, String>, t: &Timestamp, x: String)
    requires
        call_ensures(Timestamp::parse, (s,), r),
        call_ensures(Timestamp::to_string, (t,), x),
    ensures
        r matches Ok(y) ==> instants::denotes(s@, y.secs as int),
        instants::denotes(s@, t.secs as int) && -62_167_219_200 <= t.secs <= 253_402_300_799
            ==> r is Ok && r->Ok_0 == *t,
        -62_167_219_200 <= t.secs <= 253_402_300_799 ==> instants::denotes(x@, t.secs as int),
{
    instants::law_instant_is_read_as_written(s@, *t);
    if r is Ok {
        instants::law_instant_is_read_as_written(s@, r->Ok_0);
    }
    if -62_167_219_200 <= t.secs <= 253_402_300_799 {
        instants::law_written_instant_denotes_itself(*t, t.secs as int);
    }
}

/// A digest is written in lower-case hexadecimal digits and read from hexadecimal digits
/// of either case, and bytes likewise.
pub proof fn law_hexadecimal_texts(
    h: &crate::hash::Hash,
    x: String,
    s: &str,
    r: Option<crate::hash::Hash>,
    d: Result<Vec<u8>, String>,
    b: Seq<u8>,
)
    requires
        call_ensures(crate::hash::Hash::hex, (h,), x),
        call_ensures(crate::hash::Hash::from_hex, (s,), r),
        call_ensures(hex::hex_decode, (s,), d),
    ensures
        words::spells(x@, h@) && words::lower(x@),
        r matches Some(y) ==> words::spells(s@, y@),
        words::spells(s@, b) && b.len() == 32 ==> r is Some && r->0@ == b,
        d matches Ok(y) ==> words::spells(s@, y@),
        words::spells(s@, b) ==> d is Ok && d->Ok_0@ == b,
{
    texts::law_bytes_are_spelled(h@);
    texts::law_digest_is_read_as_spelled(s@, b);
    texts::law_hex_is_read_as_spelled(s@, b);
    if r is Some {
        texts::law_digest_is_read_as_spelled(s@, r->0@);
    }
    if d is Ok {
        texts::law_hex_is_read_as_spelled(s@, d->Ok_0@);
    }
}

/// An entity tag is made of the first half of the digest.
pub proof fn law_etag_of(h: &crate::hash::Hash, t: String)
    requires
        call_ensures(ingest::etag_of, (h,), t),
    ensures
        answers::tags(t@, h@),
{
    hash::lemma_digest_len(*h);
    answers::law_entity_tag_is_of_the_digest(h@);
}

} // verus!
