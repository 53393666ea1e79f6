//! How failures are told: what is wrong, and where.

use vstd::prelude::*;
use crate::api::ingest;
use crate::api::request;
use crate::api::response;
use crate::api::response::ResponseView;
use crate::canonical::CanonicalField;
use crate::fields;
use crate::json;
use crate::json::JsonView;
use crate::laws::answers;
use crate::laws::documents;
use crate::laws::storage;
use crate::laws::texts;
use crate::laws::words;
use crate::model::anchoring;
use crate::model::anchoring::AnchoringStatus;
use crate::model::anchoring::AnchoringView;
use crate::model::anchoring::SummaryView;
use crate::model::rebuild;
use crate::model::record;
use crate::model::record::NotarizationView;
use crate::model::record::RecordView;
use crate::store;
use crate::store::FileCheckView;
use crate::store::FileReadView;
use crate::store::LineView;
use crate::store::PlanView;
use crate::store::SnapshotFile;
use crate::store::StoreErrorView;
use crate::text;
use crate::time;
use crate::time::Timestamp;

verus! {

// ---------------------------------------------------------------------------
// Documents
// ---------------------------------------------------------------------------

/// A path leads from field to field, and is told with dots between its keys.
pub proof fn law_path_leads_from_field_to_field(
    doc: JsonView,
    path: Seq<Seq<char>>,
    k: Seq<char>,
    x: JsonView,
)
    ensures
        rebuild::at_path(doc, Seq::empty()) == Some(doc),
        rebuild::at_path(doc, path.push(k)) == Some(x) <==> (rebuild::at_path(doc, path) matches Some(
            y,
        ) && words::has(y, k, x)),
        rebuild::dotted(seq![k]) == k,
        path.len() > 0 ==> rebuild::dotted(path.push(k)) == rebuild::dotted(path) + "."@ + k,
        rebuild::doc_value(doc, path) == match rebuild::at_path(doc, path) {
            Some(y) => Ok::<JsonView, Seq<char>>(y),
            None => Err("document missing `"@ + rebuild::dotted(path) + "`"@),
        },
{
    assert(path.push(k).drop_last() =~= path);
}

/// A document from which no core is rebuilt is refused for the first thing that it
/// lacks: the service, the id, the sequence number.
pub proof fn law_rebuild_refusal_names_the_place(doc: JsonView, s: Seq<char>, id: Seq<char>)
    ensures
        ({
            let refused = |why: Seq<char>|
                rebuild::core_fields_in(doc) == Err::<Seq<crate::canonical::FieldView>, Seq<char>>(
                    why,
                );
            let served = words::says(doc, "service"@, "unidpp-archive"@);
            let named = served && words::says(doc, "snapshot_id"@, id);
            &&& words::lacks(doc, "service"@) ==> refused("document missing `"@ + "service"@ + "`"@)
            &&& words::says(doc, "service"@, s) && s != "unidpp-archive"@ ==> refused(
                "document `service` must be `"@ + "unidpp-archive"@ + "`"@,
            )
            &&& served && words::lacks(doc, "snapshot_id"@) ==> refused(
                "document missing `"@ + "snapshot_id"@ + "`"@,
            )
            &&& named && words::lacks(doc, "seq"@) ==> refused(
                "document missing `"@ + "seq"@ + "`"@,
            )
        }),
{
    documents::lemma_path_of_one(doc, "service"@);
    documents::lemma_path_of_one(doc, "snapshot_id"@);
    documents::lemma_path_of_one(doc, "seq"@);
    law_path_leads_from_field_to_field(doc, Seq::empty(), "service"@, JsonView::Null);
    law_path_leads_from_field_to_field(doc, Seq::empty(), "snapshot_id"@, JsonView::Null);
    law_path_leads_from_field_to_field(doc, Seq::empty(), "seq"@, JsonView::Null);
}

/// An outcome that is not rebuilt from a document is refused for the first thing that
/// its provenance lacks.
pub proof fn law_outcome_refusal_names_the_place(doc: JsonView, s: Seq<char>)
    requires
        documents::has_section(doc, "provenance"@),
        words::has(
            documents::section(doc, "provenance"@),
            "anchoring"@,
            documents::part(documents::section(doc, "provenance"@), "anchoring"@),
        ),
    ensures
        ({
            let x = documents::part(documents::section(doc, "provenance"@), "anchoring"@);
            let refused = |why: Seq<char>|
                rebuild::anchoring_in(doc) == Err::<AnchoringView, Seq<char>>(why);
            &&& words::lacks(x, "status"@) ==> refused(
                "`oais.provenance.anchoring.status` missing"@,
            )
            &&& words::says(x, "status"@, s) && s != "anchored"@ && s != "unanchored"@ ==> refused(
                "`anchoring.status` must be `anchored`/`unanchored`, got `"@ + s + "`"@,
            )
            &&& words::says(x, "status"@, "anchored"@) && words::lacks(x, "log_id"@) ==> refused(
                "`anchoring.log_id` missing"@,
            )
        }),
{
    documents::lemma_path_of_three(doc, "oais"@, "provenance"@, "anchoring"@);
    reveal_strlit("anchored");
    reveal_strlit("unanchored");
    assert("anchored"@.len() != "unanchored"@.len());
}

/// A receipt that says no anchor is refused for the first thing that it lacks.
pub proof fn law_receipt_refusal_names_what_is_missing(receipt: JsonView, id: Seq<char>, n: u64)
    ensures
        ({
            let refused = |why: Seq<char>|
                anchoring::summary_of(receipt) == Err::<SummaryView, Seq<char>>(why);
            let head = documents::part(receipt, "tree_head"@);
            let logged = words::says(receipt, "log_id"@, id) && id.len() > 0;
            let numbered = logged && words::has(receipt, "seq"@, JsonView::UInt(n));
            let headed = numbered && words::has(receipt, "tree_head"@, head) && head is Obj;
            &&& !(receipt is Obj) ==> refused("receipt must be an object"@)
            &&& receipt is Obj && (words::lacks(receipt, "log_id"@) || words::says(
                receipt,
                "log_id"@,
                Seq::empty(),
            )) ==> refused("receipt missing `log_id`"@)
            &&& logged && words::lacks(receipt, "seq"@) && words::lacks(receipt, "receipt_id"@)
                ==> refused("receipt missing `seq`/`receipt_id`"@)
            &&& numbered && words::lacks(receipt, "tree_head"@) ==> refused(
                "receipt missing `tree_head`"@,
            )
            &&& numbered && words::has(receipt, "tree_head"@, head) && !(head is Obj) ==> refused(
                "`tree_head` must be an object"@,
            )
            &&& headed && words::lacks(head, "tree_size"@) ==> refused(
                "receipt missing `tree_head.tree_size`"@,
            )
        }),
{
}

// ---------------------------------------------------------------------------
// Fields
// ---------------------------------------------------------------------------

/// A field that is not there, or not what it should be, is named.
pub proof fn law_field_refusal_names_the_field(j: JsonView, k: Seq<char>, b: bool)
    ensures
        words::lacks(j, k) ==> {
            let none = json::field(j, k);
            &&& fields::required_text(none, k) == Err::<Seq<char>, Seq<char>>(
                "missing `"@ + k + "`"@,
            )
            &&& fields::required_number(none, k) == Err::<u64, Seq<char>>(
                "missing/invalid `"@ + k + "`"@,
            )
            &&& fields::required_digest(none, k) == Err::<Seq<u8>, Seq<char>>(
                "missing/invalid `"@ + k + "` (64-char hex)"@,
            )
            &&& fields::required_instant(none, k) == Err::<Timestamp, Seq<char>>(
                "missing `"@ + k + "`"@,
            )
        },
        words::has(j, k, JsonView::Bool(b)) ==> {
            let odd = json::field(j, k);
            &&& fields::optional_text(odd, k) == Err::<Option<Seq<char>>, Seq<char>>(
                "`"@ + k + "` must be a string or null"@,
            )
            &&& fields::optional_number(odd, k) == Err::<Option<u64>, Seq<char>>(
                "`"@ + k + "` must be an unsigned integer or null"@,
            )
            &&& fields::optional_digest(odd, k) == Err::<Option<Seq<u8>>, Seq<char>>(
                "`"@ + k + "` must be a hex string or null"@,
            )
            &&& fields::optional_instant(odd, k) == Err::<Option<Timestamp>, Seq<char>>(
                "`"@ + k + "` must be an RFC 3339 string or null"@,
            )
        },
{
}

/// A text that denotes no instant is repeated where it is refused.
pub proof fn law_bad_instant_is_repeated(s: Seq<char>, q: Map<Seq<char>, Seq<char>>)
    ensures
        time::stamp_parsed(s) is Err ==> time::stamp_parsed(s) == Err::<Timestamp, Seq<char>>(
            "`"@ + s + "` is not an RFC 3339 instant"@,
        ),
        q.contains_key("at"@) && q["at"@] == s && s.len() > 0 && time::stamp_parsed(s) is Err
            ==> request::instant_asked(q) == Err::<Option<Timestamp>, Seq<char>>(
            "invalid `at` parameter: "@ + ("`"@ + s + "` is not an RFC 3339 instant"@),
        ),
{
}

// ---------------------------------------------------------------------------
// Ingest
// ---------------------------------------------------------------------------

/// A snapshot whose receipt is rejected is not anchored, for the reason why the receipt
/// was rejected: what it lacks, that it is for another commitment, or that it does not
/// read back.
pub proof fn law_rejected_receipt_is_told(
    j: JsonView,
    commitment: Seq<u8>,
    s: SummaryView,
    other: Seq<char>,
)
    ensures
        ({
            let a = ingest::anchoring_for(Ok(j), commitment);
            let why = |w: Seq<char>|
                a.status == AnchoringStatus::Unanchored && a.reason == Some(
                    "log receipt rejected: "@ + w,
                );
            let whole = documents::receipt_said(j, s);
            let named = words::spelled(j, "commitment"@, commitment);
            &&& anchoring::summary_of(j) matches Err(e) ==> why(e)
            &&& whole && words::says(j, "commitment"@, other) && !words::spells(other, commitment)
                ==> why("receipt `commitment` is not the one that was sent"@)
            &&& whole && named && !json::portable(j, 125) ==> why(
                "receipt does not read back from a journal line"@,
            )
        }),
{
    documents::law_receipt_is_read_as_it_says(j, s);
    answers::law_anchored_as_the_receipt_says(Ok(j), commitment, s);
    texts::law_bytes_are_spelled(commitment);
    if words::spelled(j, "commitment"@, commitment) {
        let t = choose|t: Seq<char>| #[trigger]
            words::says(j, "commitment"@, t) && words::spells(t, commitment) && words::lower(t);
        answers::lemma_spelling_is_unique(t, commitment);
    }
}

/// An ingest whose statement was not notarized changes nothing and is answered 500 with
/// the reason, and one that the store refuses changes nothing and is answered with the
/// refusal.
pub proof fn law_failed_ingest_is_told<
    W: Fn(&Vec<CanonicalField>) -> Vec<u8>,
    F: FnOnce(&SnapshotFile) -> Result<(), String>,
    L: FnOnce(&String) -> Result<(), String>,
>(
    w: W,
    write_file: F,
    write_line: L,
    rs: Seq<RecordView>,
    r: RecordView,
    notarized: Result<NotarizationView, Seq<char>>,
    now: Timestamp,
    after: Seq<RecordView>,
    a: ResponseView,
)
    requires
        ingest::ingest_outcome(w, write_file, write_line, rs, r, notarized, now, after, a),
    ensures
        notarized matches Err(e) ==> after == rs && a == response::error_answer(
            500,
            "notarization failed: "@ + ("notarization sign: "@ + e),
            now,
        ),
        notarized is Ok && r.seq != rs.len() ==> after == rs && a.status == 409,
{
    if notarized is Ok {
        documents::law_sealing_leaves_the_rest(w, r, notarized->Ok_0);
    }
}

// ---------------------------------------------------------------------------
// The store
// ---------------------------------------------------------------------------

/// A line that is refused or torn is told with its number and with what is wrong with
/// it.
pub proof fn law_bad_line_is_told<W: Fn(&Vec<CanonicalField>) -> Vec<u8>>(
    w: W,
    kept: nat,
    line: Seq<char>,
    no: nat,
    last: bool,
    r: RecordView,
)
    ensures
        ({
            let place = "line "@ + text::decimal(no) + ": "@;
            let refused = |why: Seq<char>|
                store::line_outcome(w, kept, Some(line), no, last) == LineView::Refuse(
                    StoreErrorView::Journal(place + why),
                );
            &&& storage::text_holds(line, r) && r.seq != kept ==> refused(
                "seq "@ + text::decimal(r.seq as nat) + " is out of sequence (expected "@
                    + text::decimal(kept) + ")"@,
            )
            &&& storage::text_holds(line, r) && r.seq == kept && !storage::fixity_holds(w, r)
                ==> refused(
                "rendered body digest does not match the journaled digest (renderer drift or a tampered record)"@,
            )
            &&& json::json_parsed(line) matches Err(e) ==> if last && !words::all_white(line) {
                store::line_outcome(w, kept, Some(line), no, last) == LineView::Torn(
                    "journal ends with a torn line (kept "@ + text::decimal(kept)
                        + " snapshots): "@ + e,
                )
            } else {
                refused(e)
            }
        }),
{
    storage::lemma_line_record(line, r);
    storage::lemma_blank(line);
}

/// A journal that could not be read to its end is refused with the failure.
pub proof fn law_unreadable_journal_is_told(e: Seq<char>)
    ensures
        store::read_error(e) == StoreErrorView::Journal("journal read error: "@ + e),
{
}

/// A record that cannot be appended is refused with the sequence number that is due, or
/// for its digest.
pub proof fn law_refused_append_is_told<W: Fn(&Vec<CanonicalField>) -> Vec<u8>>(
    w: W,
    next: nat,
    r: RecordView,
)
    ensures
        r.seq != next ==> store::append_plan(w, next, r) == Err::<PlanView, StoreErrorView>(
            StoreErrorView::Conflict(
                "snapshot seq "@ + text::decimal(r.seq as nat)
                    + " is not the next sequence number ("@ + text::decimal(next) + ")"@,
            ),
        ),
        r.seq == next && !storage::fixity_holds(w, r) ==> store::append_plan(w, next, r) == Err::<
            PlanView,
            StoreErrorView,
        >(StoreErrorView::Journal("record body digest does not match its rendered bytes"@)),
{
}

/// A file that is not as it should be is named.
pub proof fn law_bad_file_is_named<W: Fn(&Vec<CanonicalField>) -> Vec<u8>>(
    w: W,
    r: RecordView,
    found: FileReadView,
    path: Seq<char>,
)
    ensures
        found matches FileReadView::Failed(e) ==> store::file_check(w, r, found, path) == Err::<
            FileCheckView,
            StoreErrorView,
        >(StoreErrorView::Journal("cannot read snapshot file "@ + path + ": "@ + e)),
        found matches FileReadView::Found(b) ==> b != vstd::utf8::encode_utf8(
            json::pretty_text(record::document(w, r)),
        ) ==> store::file_check(w, r, found, path) == Err::<FileCheckView, StoreErrorView>(
            StoreErrorView::Journal(
                "snapshot file "@ + path
                    + " does not match the journaled record (tampered or stale)"@,
            ),
        ),
        store::written_end(Err::<(), Seq<char>>(path)) == Err::<(), StoreErrorView>(
            StoreErrorView::Journal(path),
        ),
{
}

} // verus!
