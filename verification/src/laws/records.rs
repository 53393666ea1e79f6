//! What holds of snapshot records, their statements, documents and journal
//! lines.

use vstd::prelude::*;
use crate::canonical::CanonicalField;
use crate::canonical::FieldView;
use crate::hash;
use crate::hex;
use crate::json;
use crate::json::JsonView;
use crate::keys;
use crate::model::anchoring;
use crate::model::anchoring::AnchoringStatus;
use crate::model::anchoring::AnchoringView;
use crate::model::rebuild;
use crate::model::record;
use crate::model::record::NotarizationView;
use crate::model::record::RecordView;
use crate::text;
use crate::time;

verus! {

/// Whether a journal line can hold an outcome: its instant can be written, its
/// receipt is an object, and it is complete if it is anchored.
pub open spec fn journalable_anchoring(a: AnchoringView) -> bool {
    &&& a.sized()
    &&& (a.logged_at matches Some(t) ==> time::in_range(t))
    &&& (a.receipt matches Some(j) ==> j is Obj)
    &&& (a.status == AnchoringStatus::Anchored ==> a.complete())
}

/// The journal rendering of an outcome reads back as that outcome.
pub proof fn law_anchoring_round_trip(a: AnchoringView)
    requires
        journalable_anchoring(a),
    ensures
        anchoring::anchoring_of(anchoring::anchoring_journal(a)) == Ok::<AnchoringView, Seq<char>>(
            a,
        ),
{
    keys::lemma_anchoring_keys();
    let j = anchoring::anchoring_journal(a);
    if a.root is Some {
        hash::lemma_hash_round_trip(a.root->0);
    }
    if a.commitment is Some {
        hash::lemma_hash_round_trip(a.commitment->0);
    }
    if a.logged_at is Some {
        time::law_stamp_round_trip(a.logged_at->0);
    }
    if a.receipt_seq is Some {
        text::lemma_number_of_decimal(a.receipt_seq->0 as nat, u64::MAX as nat);
    }
    assert(json::field(j, "status"@) == Some(JsonView::Str(anchoring::status_text(a.status))));
    assert(json::field(j, "reason"@) == Some(json::text_or_null(a.reason)));
    assert(json::field(j, "log_id"@) == Some(json::text_or_null(a.log_id)));
    assert(json::field(j, "receipt_id"@) == Some(anchoring::numeral_or_null(a.receipt_seq)));
    assert(json::field(j, "tree_size"@) == Some(json::number_or_null(a.tree_size)));
    assert(json::field(j, "root"@) == Some(anchoring::digest_or_null(a.root)));
    assert(json::field(j, "logged_at"@) == Some(anchoring::instant_or_null(a.logged_at)));
    assert(json::field(j, "commitment"@) == Some(anchoring::digest_or_null(a.commitment)));
    assert(json::field(j, "receipt"@) == Some(anchoring::value_or_null(a.receipt)));
}

/// Whether a journal line can hold a record.
pub open spec fn journalable(r: RecordView) -> bool {
    &&& r.sized()
    &&& time::in_range(r.notarized_at)
    &&& journalable_anchoring(r.anchoring)
}

/// The fields of a journal line.
proof fn lemma_journal_fields(r: RecordView)
    ensures
        ({
            let j = record::journal_line(r);
            &&& json::field(j, "seq"@) == Some(JsonView::UInt(r.seq))
            &&& json::field(j, "snapshot_id"@) == Some(JsonView::Str(r.snapshot_id))
            &&& json::field(j, "notarized_at"@) == Some(
                JsonView::Str(time::stamp_text(r.notarized_at)),
            )
            &&& json::field(j, "passport_id"@) == Some(JsonView::Str(r.passport_id))
            &&& json::field(j, "state_hash"@) == Some(JsonView::Str(hex::hex_text(r.state_hash)))
            &&& json::field(j, "log_head"@) == Some(JsonView::Str(hex::hex_text(r.log_head)))
            &&& json::field(j, "submitter"@) == Some(json::text_or_null(r.submitter))
            &&& json::field(j, "state_size"@) == Some(json::number_or_null(r.state_size))
            &&& json::field(j, "anchoring"@) == Some(anchoring::anchoring_journal(r.anchoring))
            &&& json::field(j, "signature"@) == Some(JsonView::Str(hex::hex_text(r.signature)))
            &&& json::field(j, "key_id"@) == Some(JsonView::Str(r.key_id))
            &&& json::field(j, "body_digest"@) == Some(
                JsonView::Str(hex::hex_text(r.body_digest)),
            )
        }),
{
    keys::lemma_journal_keys();
}

/// The journal line of a record reads back as that record.
pub proof fn law_journal_round_trip(r: RecordView)
    requires
        journalable(r),
    ensures
        record::record_of(record::journal_line(r)) == Ok::<RecordView, Seq<char>>(r),
{
    lemma_journal_fields(r);
    hash::lemma_hash_round_trip(r.state_hash);
    hash::lemma_hash_round_trip(r.log_head);
    hash::lemma_hash_round_trip(r.body_digest);
    hex::lemma_hex_round_trip(r.signature);
    time::law_stamp_round_trip(r.notarized_at);
    law_anchoring_round_trip(r.anchoring);
}

/// Whether a document can say all that the core statement commits to: digests
/// of the length of a digest, and an instant that can be written.
pub open spec fn core_stated(r: RecordView) -> bool {
    r.state_hash.len() == 32 && r.log_head.len() == 32 && time::in_range(r.notarized_at)
}

/// Whether a document can say all that the statement commits to of an outcome.
pub open spec fn anchor_stated(a: AnchoringView) -> bool {
    a.status == AnchoringStatus::Anchored ==> a.log_id is Some && a.receipt_seq is Some
        && a.tree_size is Some && a.root is Some && a.root->0.len() == 32
}

/// What a path of one key leads to.
proof fn lemma_path_of_one(doc: JsonView, a: Seq<char>)
    ensures
        rebuild::at_path(doc, seq![a]) == json::field(doc, a),
{
    assert(seq![a].drop_last() =~= Seq::empty());
    reveal_with_fuel(rebuild::at_path, 2);
}

/// What a path of three keys leads to.
proof fn lemma_path_of_three(
    doc: JsonView,
    a: Seq<char>,
    x: JsonView,
    b: Seq<char>,
    y: JsonView,
    c: Seq<char>,
)
    requires
        json::field(doc, a) == Some(x),
        json::field(x, b) == Some(y),
    ensures
        rebuild::at_path(doc, seq![a, b, c]) == json::field(y, c),
{
    assert(seq![a, b, c].drop_last() =~= seq![a, b]);
    assert(seq![a, b].drop_last() =~= seq![a]);
    lemma_path_of_one(doc, a);
    reveal_with_fuel(rebuild::at_path, 3);
}

/// Where the parts of a document stand.
proof fn lemma_document_parts(r: RecordView, statement: Seq<u8>)
    ensures
        ({
            let doc = record::document_with(r, statement);
            let ip = record::information_package(r, statement);
            &&& rebuild::at_path(doc, seq!["service"@]) == Some(JsonView::Str(record::SERVICE_ID@))
            &&& rebuild::at_path(doc, seq!["snapshot_id"@]) == Some(JsonView::Str(r.snapshot_id))
            &&& rebuild::at_path(doc, seq!["seq"@]) == Some(JsonView::UInt(r.seq))
            &&& forall|k: Seq<char>| #[trigger]
                rebuild::at_path(doc, rebuild::package_path(k)) == json::field(ip, k)
            &&& rebuild::at_path(doc, rebuild::anchoring_path()) == Some(
                anchoring::anchoring_document(r.anchoring),
            )
        }),
{
    let doc = record::document_with(r, statement);
    let o = record::oais(r, statement);
    let ip = record::information_package(r, statement);
    let pv = record::provenance(r);
    keys::lemma_document_keys();
    keys::lemma_oais_keys();
    keys::lemma_provenance_keys();
    lemma_path_of_one(doc, "service"@);
    lemma_path_of_one(doc, "snapshot_id"@);
    lemma_path_of_one(doc, "seq"@);
    assert(json::field(doc, "oais"@) == Some(o));
    assert(json::field(o, "information_package"@) == Some(ip));
    assert(json::field(o, "provenance"@) == Some(pv));
    assert forall|k: Seq<char>| #[trigger]
        rebuild::at_path(doc, rebuild::package_path(k)) == json::field(ip, k) by {
        lemma_path_of_three(doc, "oais"@, o, "information_package"@, ip, k);
    }
    lemma_path_of_three(doc, "oais"@, o, "provenance"@, pv, "anchoring"@);
    assert(json::field(pv, "anchoring"@) == Some(anchoring::anchoring_document(r.anchoring)));
}

/// The fields of the information package.
proof fn lemma_package_fields(r: RecordView, statement: Seq<u8>)
    ensures
        ({
            let ip = record::information_package(r, statement);
            &&& json::field(ip, "passport_id"@) == Some(JsonView::Str(r.passport_id))
            &&& json::field(ip, "state_hash"@) == Some(JsonView::Str(hex::hex_text(r.state_hash)))
            &&& json::field(ip, "log_head"@) == Some(JsonView::Str(hex::hex_text(r.log_head)))
            &&& json::field(ip, "as_of"@) == Some(JsonView::Str(time::stamp_text(r.notarized_at)))
            &&& json::field(ip, "commitment"@) == Some(
                anchoring::digest_or_null(r.anchoring.commitment),
            )
            &&& json::field(ip, "statement_digest"@) == Some(
                JsonView::Str(hex::hex_text(hash::sha256_of(statement))),
            )
        }),
{
    keys::lemma_package_keys();
}

/// A document holds the commitment of its record in the information package, and
/// the verbatim receipt in the provenance.
pub proof fn law_document_holds_commitment_and_receipt<W: Fn(&Vec<CanonicalField>) -> Vec<u8>>(
    w: W,
    r: RecordView,
)
    ensures
        rebuild::at_path(record::document(w, r), rebuild::package_path("commitment"@)) == Some(
            anchoring::digest_or_null(r.anchoring.commitment),
        ),
        rebuild::at_path(record::document(w, r), seq!["oais"@, "provenance"@, "receipt"@])
            == Some(anchoring::value_or_null(r.anchoring.receipt)),
{
    let statement = record::statement_bytes(w, r);
    let doc = record::document_with(r, statement);
    let o = record::oais(r, statement);
    let pv = record::provenance(r);
    lemma_document_parts(r, statement);
    lemma_package_fields(r, statement);
    keys::lemma_document_keys();
    keys::lemma_oais_keys();
    keys::lemma_provenance_keys();
    assert(json::field(doc, "oais"@) == Some(o));
    assert(json::field(o, "provenance"@) == Some(pv));
    assert(json::field(pv, "receipt"@) == Some(anchoring::value_or_null(r.anchoring.receipt)));
    lemma_path_of_three(doc, "oais"@, o, "provenance"@, pv, "receipt"@);
}

/// The core statement rebuilt from the document of a record is the record's own.
pub proof fn law_core_rebuild<W: Fn(&Vec<CanonicalField>) -> Vec<u8>>(w: W, r: RecordView)
    requires
        core_stated(r),
    ensures
        rebuild::core_rebuilt(w, record::document(w, r)) == Ok::<Seq<u8>, Seq<char>>(
            record::core_bytes(w, r),
        ),
{
    let statement = record::statement_bytes(w, r);
    lemma_document_parts(r, statement);
    lemma_package_fields(r, statement);
    hash::lemma_hash_round_trip(r.state_hash);
    hash::lemma_hash_round_trip(r.log_head);
    time::law_stamp_round_trip(r.notarized_at);
}

/// The full statement rebuilt from the document of a record is the record's own:
/// a verifier that has the document alone checks the bytes that were signed.
pub proof fn law_statement_rebuild<W: Fn(&Vec<CanonicalField>) -> Vec<u8>>(w: W, r: RecordView)
    requires
        core_stated(r),
        anchor_stated(r.anchoring),
    ensures
        rebuild::statement_rebuilt(w, record::document(w, r)) == Ok::<Seq<u8>, Seq<char>>(
            record::statement_bytes(w, r),
        ),
{
    let statement = record::statement_bytes(w, r);
    let a = r.anchoring;
    law_core_rebuild(w, r);
    lemma_document_parts(r, statement);
    keys::lemma_anchoring_keys();
    let j = anchoring::anchoring_document(a);
    assert(json::field(j, "status"@) == Some(JsonView::Str(anchoring::status_text(a.status))));
    assert(json::field(j, "log_id"@) == Some(json::text_or_null(a.log_id)));
    assert(json::field(j, "receipt_id"@) == Some(anchoring::numeral_or_null(a.receipt_seq)));
    assert(json::field(j, "tree_size"@) == Some(json::number_or_null(a.tree_size)));
    assert(json::field(j, "root"@) == Some(anchoring::digest_or_null(a.root)));
    if a.status == AnchoringStatus::Anchored {
        hash::lemma_hash_round_trip(a.root->0);
        text::lemma_number_of_decimal(a.receipt_seq->0 as nat, u64::MAX as nat);
    }
}

// ---------------------------------------------------------------------------
// Notarization
// ---------------------------------------------------------------------------

/// Sealing changes neither the statement nor its core, so the bytes that the
/// notary signed are those that the sealed record states.
pub proof fn law_sealing_keeps_the_statement<W: Fn(&Vec<CanonicalField>) -> Vec<u8>>(
    w: W,
    r: RecordView,
    n: NotarizationView,
)
    ensures
        record::core_bytes(w, record::sealed(w, r, n)) == record::core_bytes(w, r),
        record::statement_bytes(w, record::sealed(w, r, n)) == record::statement_bytes(w, r),
{
}

/// A sealed record carries the commitment to its core statement, and the digest
/// of the text that is served for it.
pub proof fn law_sealed_record_is_fixed<W: Fn(&Vec<CanonicalField>) -> Vec<u8>>(
    w: W,
    r: RecordView,
    n: NotarizationView,
)
    ensures
        record::sealed(w, r, n).anchoring.commitment == Some(
            record::commitment_of(w, record::sealed(w, r, n)),
        ),
        record::digest_matches(w, record::sealed(w, r, n)),
{
    let s = record::sealed(w, r, n);
    let t = RecordView { body_digest: r.body_digest, ..s };
    assert(record::document(w, s) == record::document(w, t));
}

/// Sealing again recomputes everything: nothing of the first seal is left.
pub proof fn law_resealing_recomputes<W: Fn(&Vec<CanonicalField>) -> Vec<u8>>(
    w: W,
    r: RecordView,
    n: NotarizationView,
    m: NotarizationView,
)
    ensures
        record::sealed(w, record::sealed(w, r, n), m) == record::sealed(w, r, m),
{
    let a = record::sealed(w, r, n);
    assert(record::commitment_of(w, a) == record::commitment_of(w, r));
    let s = RecordView {
        signature: m.signature,
        key_id: m.key_id,
        anchoring: AnchoringView {
            commitment: Some(record::commitment_of(w, r)),
            ..r.anchoring
        },
        ..r
    };
    let t = RecordView { body_digest: a.body_digest, ..s };
    assert(record::document(w, s) == record::document(w, t));
}

/// The document of a sealed record lets a verifier rebuild the very bytes that
/// the notary signed, and states the digest of the core statement as its
/// commitment.
pub proof fn law_sealed_document_verifies<W: Fn(&Vec<CanonicalField>) -> Vec<u8>>(
    w: W,
    r: RecordView,
    n: NotarizationView,
)
    requires
        core_stated(r),
        anchor_stated(r.anchoring),
    ensures
        ({
            let doc = record::document(w, record::sealed(w, r, n));
            &&& rebuild::statement_rebuilt(w, doc) == Ok::<Seq<u8>, Seq<char>>(
                record::statement_bytes(w, r),
            )
            &&& rebuild::at_path(doc, rebuild::package_path("commitment"@)) == Some(
                JsonView::Str(
                    hex::hex_text(hash::sha256_of(rebuild::core_rebuilt(w, doc)->Ok_0)),
                ),
            )
            &&& rebuild::at_path(doc, rebuild::package_path("statement_digest"@)) == Some(
                JsonView::Str(
                    hex::hex_text(hash::sha256_of(rebuild::statement_rebuilt(w, doc)->Ok_0)),
                ),
            )
        }),
{
    let s = record::sealed(w, r, n);
    law_sealing_keeps_the_statement(w, r, n);
    law_statement_rebuild(w, s);
    law_core_rebuild(w, s);
    lemma_document_parts(s, record::statement_bytes(w, s));
    lemma_package_fields(s, record::statement_bytes(w, s));
}

/// The core statement, and with it the commitment, does not depend on the
/// anchoring outcome.
pub proof fn law_anchoring_keeps_the_core<W: Fn(&Vec<CanonicalField>) -> Vec<u8>>(
    w: W,
    r: RecordView,
    a: AnchoringView,
)
    ensures
        record::core_bytes(w, RecordView { anchoring: a, ..r }) == record::core_bytes(w, r),
        record::commitment_of(w, RecordView { anchoring: a, ..r }) == record::commitment_of(w, r),
{
}

/// The full statement does depend on it: two outcomes have the same statement
/// fields only if their status agrees and, where they are anchored, the log,
/// the receipt number, the tree size and the root.
pub proof fn law_statement_commits_to_the_anchor(core: Seq<u8>, a: AnchoringView, b: AnchoringView)
    requires
        anchor_stated(a),
        anchor_stated(b),
        record::statement_fields(core, a) == record::statement_fields(core, b),
    ensures
        a.status == b.status,
        a.status == AnchoringStatus::Anchored ==> a.log_id == b.log_id && a.receipt_seq
            == b.receipt_seq && a.tree_size == b.tree_size && a.root == b.root,
{
    let f = record::statement_fields(core, a);
    let g = record::statement_fields(core, b);
    assert(f[1] == g[1]);
    if a.status == AnchoringStatus::Anchored && b.status == AnchoringStatus::Anchored {
        assert(f[2] == g[2]);
        assert(f[3] == g[3]);
        assert(f[4] == g[4]);
        assert(f[5] == g[5]);
    }
}

/// The core statement commits to the snapshot: two records have the same core
/// fields only if they agree in id, sequence, passport, state, log head and
/// instant.
pub proof fn law_core_commits_to_the_snapshot(a: RecordView, b: RecordView)
    requires
        record::core_fields_of(a) == record::core_fields_of(b),
    ensures
        a.snapshot_id == b.snapshot_id,
        a.seq == b.seq,
        a.passport_id == b.passport_id,
        a.state_hash == b.state_hash,
        a.log_head == b.log_head,
        a.notarized_at == b.notarized_at,
{
    let f = record::core_fields_of(a);
    let g = record::core_fields_of(b);
    assert(f[1] == g[1]);
    assert(f[2] == g[2]);
    assert(f[3] == g[3]);
    assert(f[4] == g[4]);
    assert(f[5] == g[5]);
    assert(f[6] == g[6]);
}

// ---------------------------------------------------------------------------
// Statements in bytes
// ---------------------------------------------------------------------------

/// Whether two records agree in all that is signed: in what the core states and,
/// where they are anchored, in the log, the receipt number, the tree size and the
/// root.
pub open spec fn signed_alike(a: RecordView, b: RecordView) -> bool {
    &&& a.snapshot_id == b.snapshot_id
    &&& a.seq == b.seq
    &&& a.passport_id == b.passport_id
    &&& a.state_hash == b.state_hash
    &&& a.log_head == b.log_head
    &&& a.notarized_at == b.notarized_at
    &&& a.anchoring.status == b.anchoring.status
    &&& a.anchoring.status == AnchoringStatus::Anchored ==> {
        &&& a.anchoring.log_id == b.anchoring.log_id
        &&& a.anchoring.receipt_seq == b.anchoring.receipt_seq
        &&& a.anchoring.tree_size == b.anchoring.tree_size
        &&& a.anchoring.root == b.anchoring.root
    }
}

/// Nothing else is signed: records that differ only in the reason, the instant of
/// logging, the commitment, the receipt, the submitter, the state size, the
/// signature, the key id or the body digest have equal statements.
pub proof fn law_only_signed_fields_are_stated<W: Fn(&Vec<CanonicalField>) -> Vec<u8>>(
    w: W,
    a: RecordView,
    b: RecordView,
)
    requires
        signed_alike(a, b),
    ensures
        record::core_bytes(w, a) == record::core_bytes(w, b),
        record::statement_bytes(w, a) == record::statement_bytes(w, b),
{
    let core = record::core_bytes(w, a);
    assert(record::statement_fields(core, a.anchoring) =~= record::statement_fields(
        core,
        b.anchoring,
    ));
}

/// The bytes of the fields from `i` on, one after the other, for an encoding of
/// single fields.
pub open spec fn joined(enc: spec_fn(FieldView) -> Seq<u8>, fs: Seq<FieldView>, i: int) -> Seq<u8>
    decreases fs.len() - i,
{
    if i >= fs.len() {
        Seq::empty()
    } else {
        enc(fs[i]) + joined(enc, fs, i + 1)
    }
}

/// Whether two fields are of one kind whose bytes say where they end. A digest has
/// 32 bytes.
pub open spec fn delimited_alike(f: FieldView, g: FieldView) -> bool {
    match (f, g) {
        (FieldView::Str(_), FieldView::Str(_)) => true,
        (FieldView::U32(_), FieldView::U32(_)) => true,
        (FieldView::U64(_), FieldView::U64(_)) => true,
        (FieldView::I64(_), FieldView::I64(_)) => true,
        (FieldView::Digest(a), FieldView::Digest(b)) => a.len() == 32 && b.len() == 32,
        _ => false,
    }
}

/// Whether a writer writes one field after the other in an encoding that takes raw
/// bytes over as they are, and in which the bytes of a text, a number or a digest
/// say what it is and where they end.
pub open spec fn writes_as<W: Fn(&Vec<CanonicalField>) -> Vec<u8>>(
    w: W,
    enc: spec_fn(FieldView) -> Seq<u8>,
) -> bool {
    &&& forall|v: Vec<CanonicalField>, b: Vec<u8>| #[trigger]
        w.ensures((&v,), b) ==> b@ == joined(enc, v.deep_view(), 0)
    &&& forall|b: Seq<u8>| #[trigger] enc(FieldView::Raw(b)) == b
    &&& forall|f: FieldView, g: FieldView, x: Seq<u8>, y: Seq<u8>|
        #![trigger enc(f) + x, enc(g) + y]
        delimited_alike(f, g) && enc(f) + x == enc(g) + y ==> f == g && x == y
}

/// The fields of a statement that follow the core.
pub open spec fn outcome_fields(a: AnchoringView) -> Seq<FieldView> {
    record::statement_fields(Seq::empty(), a).skip(1)
}

/// The statement is the core, followed by the number 0 if the record is
/// unanchored, and otherwise by the number 1, the log, the receipt number, the
/// tree size and the root.
pub proof fn law_statement_is_core_and_outcome<W: Fn(&Vec<CanonicalField>) -> Vec<u8>>(
    w: W,
    enc: spec_fn(FieldView) -> Seq<u8>,
    r: RecordView,
)
    requires
        writes_as(w, enc),
        record::stated(w, r),
        anchor_stated(r.anchoring),
    ensures
        record::statement_bytes(w, r) == record::core_bytes(w, r) + joined(
            enc,
            outcome_fields(r.anchoring),
            0,
        ),
        outcome_fields(r.anchoring) == match r.anchoring.status {
            AnchoringStatus::Unanchored => seq![FieldView::U32(0)],
            AnchoringStatus::Anchored => seq![
                FieldView::U32(1),
                FieldView::Str(r.anchoring.log_id->0),
                FieldView::U64(r.anchoring.receipt_seq->0),
                FieldView::U64(r.anchoring.tree_size->0),
                FieldView::Digest(r.anchoring.root->0),
            ],
        },
{
    let core = record::core_bytes(w, r);
    let fs = record::statement_fields(core, r.anchoring);
    let out = outcome_fields(r.anchoring);
    assert(record::statement_bytes(w, r) == joined(enc, fs, 0));
    assert(enc(FieldView::Raw(core)) == core);
    assert(fs.skip(1) =~= out);
    lemma_joined_skip(enc, fs, out, 0);
}

/// Joining from the second field on is joining what follows the first.
proof fn lemma_joined_skip(
    enc: spec_fn(FieldView) -> Seq<u8>,
    fs: Seq<FieldView>,
    rest: Seq<FieldView>,
    i: int,
)
    requires
        fs.len() > 0,
        rest == fs.skip(1),
        0 <= i <= rest.len(),
    ensures
        joined(enc, fs, i + 1) == joined(enc, rest, i),
    decreases rest.len() - i,
{
    if i < rest.len() {
        assert(rest[i] == fs[i + 1]);
        lemma_joined_skip(enc, fs, rest, i + 1);
    }
}

/// Field lists of the same kinds whose bytes begin alike agree field by field, and
/// what follows their bytes is the same.
proof fn lemma_joined_agree<W: Fn(&Vec<CanonicalField>) -> Vec<u8>>(
    w: W,
    enc: spec_fn(FieldView) -> Seq<u8>,
    f: Seq<FieldView>,
    g: Seq<FieldView>,
    i: int,
    x: Seq<u8>,
    y: Seq<u8>,
)
    requires
        writes_as(w, enc),
        0 <= i <= f.len(),
        f.len() == g.len(),
        forall|k: int| i <= k < f.len() ==> delimited_alike(#[trigger] f[k], g[k]),
        joined(enc, f, i) + x == joined(enc, g, i) + y,
    ensures
        forall|k: int| i <= k < f.len() ==> #[trigger] f[k] == g[k],
        x == y,
    decreases f.len() - i,
{
    if i < f.len() {
        let fx = joined(enc, f, i + 1) + x;
        let gy = joined(enc, g, i + 1) + y;
        assert(joined(enc, f, i) + x =~= enc(f[i]) + fx);
        assert(joined(enc, g, i) + y =~= enc(g[i]) + gy);
        assert(delimited_alike(f[i], g[i]));
        assert(f[i] == g[i] && fx == gy);
        lemma_joined_agree(w, enc, f, g, i + 1, x, y);
    } else {
        assert(joined(enc, f, i) + x =~= x);
        assert(joined(enc, g, i) + y =~= y);
    }
}

/// The statement says all that is signed: two records have equal statement bytes
/// only if they agree in it. In particular an anchored and an unanchored record
/// have different statements.
pub proof fn law_statement_bytes_tell_records_apart<W: Fn(&Vec<CanonicalField>) -> Vec<u8>>(
    w: W,
    enc: spec_fn(FieldView) -> Seq<u8>,
    a: RecordView,
    b: RecordView,
)
    requires
        writes_as(w, enc),
        record::stated(w, a),
        record::stated(w, b),
        a.sized(),
        b.sized(),
        anchor_stated(a.anchoring),
        anchor_stated(b.anchoring),
        record::statement_bytes(w, a) == record::statement_bytes(w, b),
    ensures
        signed_alike(a, b),
{
    let f = record::core_fields_of(a);
    let g = record::core_fields_of(b);
    let (p, q) = (a.anchoring, b.anchoring);
    let (s, t) = (outcome_fields(p), outcome_fields(q));
    law_statement_is_core_and_outcome(w, enc, a);
    law_statement_is_core_and_outcome(w, enc, b);
    assert(record::core_bytes(w, a) == joined(enc, f, 0));
    assert(record::core_bytes(w, b) == joined(enc, g, 0));
    lemma_joined_agree(w, enc, f, g, 0, joined(enc, s, 0), joined(enc, t, 0));
    assert(f =~= g);
    law_core_commits_to_the_snapshot(a, b);
    let x = joined(enc, s, 1);
    let y = joined(enc, t, 1);
    assert(enc(s[0]) + x == enc(t[0]) + y);
    assert(delimited_alike(s[0], t[0]));
    assert(p.status == q.status);
    if p.status == AnchoringStatus::Anchored {
        assert(joined(enc, s, 0) + Seq::<u8>::empty() =~= joined(enc, t, 0) + Seq::<u8>::empty());
        lemma_joined_agree(w, enc, s, t, 0, Seq::empty(), Seq::empty());
        assert(s[1] == t[1] && s[2] == t[2] && s[3] == t[3] && s[4] == t[4]);
    }
}

// ---------------------------------------------------------------------------
// Reading back what is written
// ---------------------------------------------------------------------------

/// Whether a value holds no inner values and is no floating-point number.
pub open spec fn flat(j: JsonView) -> bool {
    j is Null || j is Bool || j is UInt || j is NegInt || j is Str
}

/// An object of flat values is portable.
proof fn lemma_flat_object(m: Map<Seq<char>, JsonView>, n: nat)
    requires
        n > 0,
        !m.contains_key(json::RAW_KEY@),
        forall|k: Seq<char>| #[trigger] m.contains_key(k) ==> flat(m[k]),
    ensures
        json::portable(JsonView::Obj(m), n),
{
    assert forall|k: Seq<char>| #[trigger] m.contains_key(k) implies json::portable(
        m[k],
        (n - 1) as nat,
    ) by {
        assert(flat(m[k]));
    }
    json::lemma_portable_object(m, n);
}

proof fn lemma_provenance_portable(r: RecordView)
    requires
        record::plain_receipt(r, record::DOCUMENT_RECEIPT_DEPTH as nat),
    ensures
        json::portable(record::provenance(r), 125),
{
    keys::lemma_keys_are_plain();
    lemma_flat_object(record::signing(r)->Obj_0, 124);
    lemma_flat_object(anchoring::document_fields(r.anchoring), 124);
    json::lemma_portable_object(record::provenance(r)->Obj_0, 125);
}

/// A served document is portable, so that its text reads back.
pub proof fn lemma_document_portable<W: Fn(&Vec<CanonicalField>) -> Vec<u8>>(w: W, r: RecordView)
    requires
        record::plain_receipt(r, record::DOCUMENT_RECEIPT_DEPTH as nat),
    ensures
        json::portable(record::document(w, r), 127),
{
    let statement = record::statement_bytes(w, r);
    lemma_provenance_portable(r);
    keys::lemma_keys_are_plain();
    lemma_flat_object(record::submission(r)->Obj_0, 125);
    lemma_flat_object(record::information_package(r, statement)->Obj_0, 125);
    json::lemma_portable_object(record::oais(r, statement)->Obj_0, 126);
    json::lemma_portable_object(record::document(w, r)->Obj_0, 127);
}

/// A journal line is portable, so that its text reads back.
pub proof fn lemma_journal_line_portable(r: RecordView)
    requires
        record::plain_receipt(r, record::JOURNAL_RECEIPT_DEPTH as nat),
    ensures
        json::portable(record::journal_line(r), 127),
{
    let a = r.anchoring;
    keys::lemma_keys_are_plain();
    json::lemma_portable_object(anchoring::anchoring_journal(a)->Obj_0, 126);
    json::lemma_portable_object(record::journal_line(r)->Obj_0, 127);
}

// ---------------------------------------------------------------------------
// Snapshot ids
// ---------------------------------------------------------------------------

/// Two strings of digits of one length that denote one number are the same.
proof fn lemma_same_digits(a: Seq<char>, b: Seq<char>)
    requires
        a.len() == b.len(),
        text::all_digits(a),
        text::all_digits(b),
        text::digits_value(a) == text::digits_value(b),
    ensures
        a == b,
    decreases a.len(),
{
    if a.len() > 0 {
        let (x, y) = (a.drop_last(), b.drop_last());
        assert(text::is_digit(a.last()) && text::is_digit(b.last()));
        assert forall|i: int| 0 <= i < x.len() implies text::is_digit(#[trigger] x[i]) by {
            assert(x[i] == a[i]);
        }
        assert forall|i: int| 0 <= i < y.len() implies text::is_digit(#[trigger] y[i]) by {
            assert(y[i] == b[i]);
        }
        lemma_same_digits(x, y);
        assert(a =~= x.push(a.last()));
        assert(b =~= y.push(b.last()));
    } else {
        assert(a =~= b);
    }
}

/// Of two strings of digits of one length, the one with the smaller value comes
/// first.
proof fn lemma_digits_ordered(a: Seq<char>, b: Seq<char>)
    requires
        a.len() == b.len(),
        text::all_digits(a),
        text::all_digits(b),
        text::digits_value(a) < text::digits_value(b),
    ensures
        exists|i: int|
            0 <= i < a.len() && i < b.len() && a.take(i) == b.take(i) && #[trigger] a[i]
                < #[trigger] b[i],
    decreases a.len(),
{
    let n = a.len() - 1;
    let (x, y) = (a.drop_last(), b.drop_last());
    assert(text::is_digit(a.last()) && text::is_digit(b.last()));
    assert forall|i: int| 0 <= i < x.len() implies text::is_digit(#[trigger] x[i]) by {
        assert(x[i] == a[i]);
    }
    assert forall|i: int| 0 <= i < y.len() implies text::is_digit(#[trigger] y[i]) by {
        assert(y[i] == b[i]);
    }
    if text::digits_value(x) < text::digits_value(y) {
        lemma_digits_ordered(x, y);
        let i = choose|i: int|
            0 <= i < x.len() && i < y.len() && x.take(i) == y.take(i) && #[trigger] x[i]
                < #[trigger] y[i];
        assert(a.take(i) =~= x.take(i));
        assert(b.take(i) =~= y.take(i));
        assert(a[i] < b[i]);
    } else {
        lemma_same_digits(x, y);
        assert(a.take(n) =~= x);
        assert(b.take(n) =~= y);
        assert(a[n] < b[n]);
    }
}

/// The value of a padded numeral is its number.
proof fn lemma_padded_value(n: nat, width: nat)
    ensures
        text::digits_value(text::padded(n, width)) == n,
{
    text::lemma_decimal(n);
    if text::decimal(n).len() < width {
        text::lemma_leading_zeros((width - text::decimal(n).len()) as nat, text::decimal(n));
    }
}

/// Different sequence numbers have different snapshot ids.
pub proof fn law_snapshot_ids_differ(a: u64, b: u64)
    requires
        record::id_of(a) == record::id_of(b),
    ensures
        a == b,
{
    let (x, y) = (text::padded(a as nat, 12), text::padded(b as nat, 12));
    reveal_strlit("s-");
    assert(record::id_of(a).skip(2) =~= x);
    assert(record::id_of(b).skip(2) =~= y);
    lemma_padded_value(a as nat, 12);
    lemma_padded_value(b as nat, 12);
}

/// The lexical order of snapshot ids is the sequencing order, as long as twelve
/// digits hold the sequence number.
pub proof fn law_snapshot_ids_ordered(a: u64, b: u64)
    requires
        a < b < 1_000_000_000_000,
    ensures
        json::precedes(record::id_of(a), record::id_of(b)),
{
    let (x, y) = (text::padded(a as nat, 12), text::padded(b as nat, 12));
    reveal_strlit("s-");
    assert(vstd::arithmetic::power::pow(10, 12) == 1_000_000_000_000) by {
        reveal_with_fuel(vstd::arithmetic::power::pow, 13);
    }
    text::lemma_padded(a as nat, 12);
    text::lemma_padded(b as nat, 12);
    lemma_digits_ordered(x, y);
    let i = choose|i: int|
        0 <= i < x.len() && i < y.len() && x.take(i) == y.take(i) && #[trigger] x[i]
            < #[trigger] y[i];
    let (p, q) = (record::id_of(a), record::id_of(b));
    assert(p.take(i + 2) =~= "s-"@ + x.take(i));
    assert(q.take(i + 2) =~= "s-"@ + y.take(i));
    assert(p[i + 2] < q[i + 2]);
}

} // verus!
