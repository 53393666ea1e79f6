//! What the documents of a snapshot say, and what is read from them.

use vstd::prelude::*;
use crate::canonical::CanonicalField;
use crate::canonical::FieldView;
use crate::fields;
use crate::hash;
use crate::hex;
use crate::json;
use crate::json::JsonView;
use crate::keys;
use crate::laws::texts;
use crate::laws::words;
use crate::model::anchoring;
use crate::model::anchoring::AnchoringStatus;
use crate::model::anchoring::AnchoringView;
use crate::model::anchoring::SummaryView;
use crate::model::rebuild;
use crate::model::record;
use crate::model::record::NotarizationView;
use crate::model::record::RecordView;
use crate::text;
use crate::time;
use crate::time::Timestamp;

verus! {

// ---------------------------------------------------------------------------
// What a document says
// ---------------------------------------------------------------------------

/// The content of a field.
pub open spec fn part(j: JsonView, name: Seq<char>) -> JsonView {
    j->Obj_0[name]
}

/// Whether an object states an anchoring outcome: its status in words, and every
/// value that it has.
pub open spec fn outcome_said(j: JsonView, a: AnchoringView) -> bool {
    &&& words::says(
        j,
        "status"@,
        if a.status == AnchoringStatus::Anchored {
            "anchored"@
        } else {
            "unanchored"@
        },
    )
    &&& words::says_or_null(j, "reason"@, a.reason)
    &&& words::says_or_null(j, "log_id"@, a.log_id)
    &&& words::writes_or_null(j, "receipt_id"@, a.receipt_seq)
    &&& words::counts_or_null(j, "tree_size"@, a.tree_size)
    &&& words::spelled_or_null(j, "root"@, a.root)
    &&& (match a.logged_at {
        Some(t) => words::says(j, "logged_at"@, time::stamp_text(t)),
        None => words::has(j, "logged_at"@, JsonView::Null),
    })
}

/// The names of the fields of an anchoring outcome in a document.
pub open spec fn outcome_names() -> Set<Seq<char>> {
    set![
        "status"@,
        "reason"@,
        "log_id"@,
        "receipt_id"@,
        "tree_size"@,
        "root"@,
        "logged_at"@,
    ]
}

/// A text under a name spells bytes where its content is their hexadecimal text.
pub proof fn lemma_spelled(j: JsonView, name: Seq<char>, b: Seq<u8>)
    requires
        words::says(j, name, hex::hex_text(b)),
    ensures
        words::spelled(j, name, b),
{
    texts::law_bytes_are_spelled(b);
}

pub proof fn lemma_spelled_or_null(j: JsonView, name: Seq<char>, b: Option<Seq<u8>>)
    requires
        words::has(j, name, anchoring::digest_or_null(b)),
    ensures
        words::spelled_or_null(j, name, b),
{
    if b is Some {
        lemma_spelled(j, name, b->0);
    }
}

pub proof fn lemma_written_or_null(j: JsonView, name: Seq<char>, n: Option<u64>)
    requires
        words::has(j, name, anchoring::numeral_or_null(n)),
    ensures
        words::writes_or_null(j, name, n),
{
    if n is Some {
        texts::law_decimal_writes_its_number(n->0 as nat);
        assert(words::says(j, name, text::decimal(n->0 as nat)));
    }
}

proof fn lemma_outcome_said(j: JsonView, a: AnchoringView)
    requires
        j is Obj,
        forall|k: Seq<char>| #[trigger]
            outcome_names().contains(k) ==> j->Obj_0.contains_key(k) && j->Obj_0[k]
                == anchoring::document_fields(a)[k],
    ensures
        outcome_said(j, a),
{
    let m = j->Obj_0;
    let f = anchoring::document_fields(a);
    keys::lemma_anchoring_keys();
    assert(outcome_names().contains("status"@));
    assert(outcome_names().contains("reason"@));
    assert(outcome_names().contains("log_id"@));
    assert(outcome_names().contains("receipt_id"@));
    assert(outcome_names().contains("tree_size"@));
    assert(outcome_names().contains("root"@));
    assert(outcome_names().contains("logged_at"@));
    assert(f["status"@] == JsonView::Str(anchoring::status_text(a.status)));
    assert(f["receipt_id"@] == anchoring::numeral_or_null(a.receipt_seq));
    assert(f["root"@] == anchoring::digest_or_null(a.root));
    lemma_written_or_null(j, "receipt_id"@, a.receipt_seq);
    lemma_spelled_or_null(j, "root"@, a.root);
}

/// A document states the anchoring outcome of its record, and nothing else of it.
pub proof fn law_outcome_is_stated(a: AnchoringView)
    ensures
        outcome_said(anchoring::anchoring_document(a), a),
        words::fields_are(anchoring::anchoring_document(a), outcome_names()),
{
    keys::lemma_anchoring_keys();
    let j = anchoring::anchoring_document(a);
    assert(j->Obj_0.dom() =~= outcome_names());
    lemma_outcome_said(j, a);
}

/// The journal holds the anchoring outcome with its commitment and its receipt.
pub proof fn law_outcome_is_journaled(a: AnchoringView)
    ensures
        ({
            let j = anchoring::anchoring_journal(a);
            &&& outcome_said(j, a)
            &&& words::spelled_or_null(j, "commitment"@, a.commitment)
            &&& words::has(
                j,
                "receipt"@,
                match a.receipt {
                    Some(x) => x,
                    None => JsonView::Null,
                },
            )
            &&& words::fields_are(
                j,
                outcome_names().insert("commitment"@).insert("receipt"@),
            )
        }),
{
    keys::lemma_anchoring_keys();
    let j = anchoring::anchoring_journal(a);
    assert(j->Obj_0.dom() =~= outcome_names().insert("commitment"@).insert("receipt"@));
    assert forall|k: Seq<char>| #[trigger] outcome_names().contains(k) implies j->Obj_0.contains_key(
        k,
    ) && j->Obj_0[k] == anchoring::document_fields(a)[k] by {
        assert(k != "commitment"@ && k != "receipt"@);
    }
    lemma_outcome_said(j, a);
    lemma_spelled_or_null(j, "commitment"@, a.commitment);
}

/// Whether an object states the submission of a record: who submitted what, when.
pub open spec fn submission_said(j: JsonView, r: RecordView) -> bool {
    &&& words::fields_are(
        j,
        set![
            "submitter"@,
            "submitted_at"@,
            "passport_id"@,
            "state_hash"@,
            "log_head"@,
            "state_size"@,
        ],
    )
    &&& words::says_or_null(j, "submitter"@, r.submitter)
    &&& words::says(j, "submitted_at"@, time::stamp_text(r.notarized_at))
    &&& words::says(j, "passport_id"@, r.passport_id)
    &&& words::spelled(j, "state_hash"@, r.state_hash)
    &&& words::spelled(j, "log_head"@, r.log_head)
    &&& words::counts_or_null(j, "state_size"@, r.state_size)
}

/// Whether an object states the information package of a record: what is preserved,
/// and the digests of its statement.
pub open spec fn package_said(j: JsonView, r: RecordView, statement: Seq<u8>) -> bool {
    &&& words::fields_are(
        j,
        set![
            "passport_id"@,
            "state_hash"@,
            "log_head"@,
            "as_of"@,
            "commitment"@,
            "statement_digest"@,
        ],
    )
    &&& words::says(j, "passport_id"@, r.passport_id)
    &&& words::spelled(j, "state_hash"@, r.state_hash)
    &&& words::spelled(j, "log_head"@, r.log_head)
    &&& words::says(j, "as_of"@, time::stamp_text(r.notarized_at))
    &&& words::spelled_or_null(j, "commitment"@, r.anchoring.commitment)
    &&& words::spelled(j, "statement_digest"@, hash::sha256_of(statement))
}

/// Whether an object says how a record was signed: with which key, suite and domain.
pub open spec fn signing_said(j: JsonView, r: RecordView) -> bool {
    &&& words::fields_are(j, set!["suite"@, "key_id"@, "domain"@, "adapter_note"@])
    &&& words::says(j, "suite"@, "ed25519"@)
    &&& words::says(j, "key_id"@, r.key_id)
    &&& words::says(j, "domain"@, "tree-head"@)
}

/// Whether an object states the provenance of a record: when and how it was
/// notarized, the anchoring outcome, the verbatim receipt and the signature.
pub open spec fn provenance_said(j: JsonView, r: RecordView) -> bool {
    &&& words::fields_are(
        j,
        set![
            "service"@,
            "notarized_at"@,
            "signing"@,
            "anchoring"@,
            "receipt"@,
            "signature"@,
            "verification"@,
        ],
    )
    &&& words::says(j, "service"@, "unidpp-archive"@)
    &&& words::says(j, "notarized_at"@, time::stamp_text(r.notarized_at))
    &&& signing_said(part(j, "signing"@), r)
    &&& outcome_said(part(j, "anchoring"@), r.anchoring)
    &&& words::fields_are(part(j, "anchoring"@), outcome_names())
    &&& words::has(
        j,
        "receipt"@,
        match r.anchoring.receipt {
            Some(x) => x,
            None => JsonView::Null,
        },
    )
    &&& words::spelled(j, "signature"@, r.signature)
}

/// Whether a document states a record whose statement has these bytes.
pub open spec fn document_said(doc: JsonView, r: RecordView, statement: Seq<u8>) -> bool {
    let o = part(doc, "oais"@);
    &&& words::fields_are(
        doc,
        set!["schema"@, "service"@, "snapshot_id"@, "seq"@, "as_of"@, "oais"@],
    )
    &&& words::says(doc, "schema"@, "unidpp-archive/snapshot/1"@)
    &&& words::says(doc, "service"@, "unidpp-archive"@)
    &&& words::says(doc, "snapshot_id"@, r.snapshot_id)
    &&& words::has(doc, "seq"@, JsonView::UInt(r.seq))
    &&& words::says(doc, "as_of"@, time::stamp_text(r.notarized_at))
    &&& words::fields_are(
        o,
        set!["profile"@, "submission"@, "information_package"@, "provenance"@],
    )
    &&& submission_said(part(o, "submission"@), r)
    &&& package_said(part(o, "information_package"@), r, statement)
    &&& provenance_said(part(o, "provenance"@), r)
}

proof fn lemma_submission_said(r: RecordView)
    ensures
        submission_said(record::submission(r), r),
{
    let j = record::submission(r);
    keys::lemma_submission_keys();
    assert(j->Obj_0.dom() =~= set![
        "submitter"@,
        "submitted_at"@,
        "passport_id"@,
        "state_hash"@,
        "log_head"@,
        "state_size"@,
    ]);
    lemma_spelled(j, "state_hash"@, r.state_hash);
    lemma_spelled(j, "log_head"@, r.log_head);
}

proof fn lemma_package_said(r: RecordView, statement: Seq<u8>)
    ensures
        package_said(record::information_package(r, statement), r, statement),
{
    let j = record::information_package(r, statement);
    keys::lemma_package_keys();
    assert(j->Obj_0.dom() =~= set![
        "passport_id"@,
        "state_hash"@,
        "log_head"@,
        "as_of"@,
        "commitment"@,
        "statement_digest"@,
    ]);
    lemma_spelled(j, "state_hash"@, r.state_hash);
    lemma_spelled(j, "log_head"@, r.log_head);
    lemma_spelled(j, "statement_digest"@, hash::sha256_of(statement));
    lemma_spelled_or_null(j, "commitment"@, r.anchoring.commitment);
}

proof fn lemma_signing_said(r: RecordView)
    ensures
        signing_said(record::signing(r), r),
{
    keys::lemma_signing_keys();
    assert(record::signing(r)->Obj_0.dom() =~= set!["suite"@, "key_id"@, "domain"@, "adapter_note"@]);
}

proof fn lemma_provenance_said(r: RecordView)
    ensures
        provenance_said(record::provenance(r), r),
{
    let j = record::provenance(r);
    keys::lemma_provenance_keys();
    assert(j->Obj_0.dom() =~= set![
        "service"@,
        "notarized_at"@,
        "signing"@,
        "anchoring"@,
        "receipt"@,
        "signature"@,
        "verification"@,
    ]);
    assert(part(j, "signing"@) == record::signing(r));
    assert(part(j, "anchoring"@) == anchoring::anchoring_document(r.anchoring));
    lemma_signing_said(r);
    law_outcome_is_stated(r.anchoring);
    lemma_spelled(j, "signature"@, r.signature);
}

/// A document states its record, whole and unchanged: every part of it stands under
/// its name, and nothing else stands there.
pub proof fn law_document_states_its_record<W: Fn(&Vec<CanonicalField>) -> Vec<u8>>(
    w: W,
    r: RecordView,
)
    ensures
        document_said(record::document(w, r), r, record::statement_bytes(w, r)),
{
    let statement = record::statement_bytes(w, r);
    let doc = record::document(w, r);
    let o = record::oais(r, statement);
    keys::lemma_document_keys();
    keys::lemma_oais_keys();
    assert(doc->Obj_0.dom() =~= set![
        "schema"@,
        "service"@,
        "snapshot_id"@,
        "seq"@,
        "as_of"@,
        "oais"@,
    ]);
    assert(part(doc, "oais"@) == o);
    assert(o->Obj_0.dom() =~= set![
        "profile"@,
        "submission"@,
        "information_package"@,
        "provenance"@,
    ]);
    assert(part(o, "submission"@) == record::submission(r));
    assert(part(o, "information_package"@) == record::information_package(r, statement));
    assert(part(o, "provenance"@) == record::provenance(r));
    lemma_submission_said(r);
    lemma_package_said(r, statement);
    lemma_provenance_said(r);
}

/// A sealed document names its notary and carries what it gave: the whole key id and
/// the whole signature. It carries the digests of its own core and of its own
/// statement, and its record that of the text that is served.
pub proof fn law_sealed_document_carries_its_notarization<W: Fn(&Vec<CanonicalField>) -> Vec<u8>>(
    w: W,
    r: RecordView,
    n: NotarizationView,
)
    ensures
        ({
            let s = record::sealed(w, r, n);
            let doc = record::document(w, s);
            let o = part(doc, "oais"@);
            let pv = part(o, "provenance"@);
            let ip = part(o, "information_package"@);
            &&& words::says(part(pv, "signing"@), "key_id"@, n.key_id)
            &&& words::spelled(pv, "signature"@, n.signature)
            &&& words::spelled(ip, "commitment"@, hash::sha256_of(record::core_bytes(w, s)))
            &&& words::spelled(
                ip,
                "statement_digest"@,
                hash::sha256_of(record::statement_bytes(w, s)),
            )
            &&& s.body_digest == hash::sha256_of(
                vstd::utf8::encode_utf8(json::pretty_text(doc)),
            )
        }),
{
    let s = record::sealed(w, r, n);
    law_document_states_its_record(w, s);
    assert(record::core_fields_of(s) == record::core_fields_of(r));
    let u = RecordView { body_digest: r.body_digest, ..s };
    assert(record::document(w, u) == record::document(w, s));
}

/// Sealing enters the notarization and the digests, and leaves the rest of a record
/// as it was.
pub proof fn law_sealing_leaves_the_rest<W: Fn(&Vec<CanonicalField>) -> Vec<u8>>(
    w: W,
    r: RecordView,
    n: NotarizationView,
)
    ensures
        ({
            let s = record::sealed(w, r, n);
            &&& s.seq == r.seq
            &&& s.snapshot_id == r.snapshot_id
            &&& s.notarized_at == r.notarized_at
            &&& s.passport_id == r.passport_id
            &&& s.state_hash == r.state_hash
            &&& s.log_head == r.log_head
            &&& s.submitter == r.submitter
            &&& s.state_size == r.state_size
            &&& s.anchoring.status == r.anchoring.status
            &&& s.anchoring.reason == r.anchoring.reason
            &&& s.anchoring.log_id == r.anchoring.log_id
            &&& s.anchoring.receipt_seq == r.anchoring.receipt_seq
            &&& s.anchoring.tree_size == r.anchoring.tree_size
            &&& s.anchoring.root == r.anchoring.root
            &&& s.anchoring.logged_at == r.anchoring.logged_at
            &&& s.anchoring.receipt == r.anchoring.receipt
            &&& s.anchoring.commitment == Some(hash::sha256_of(record::core_bytes(w, r)))
            &&& s.signature == n.signature
            &&& s.key_id == n.key_id
        }),
{
}

/// What is signed of a record: the service, the id, the sequence number, the
/// passport, its state and log head and the instant, whole and in this order, and
/// after them the anchoring outcome.
pub proof fn law_statement_states_its_record(r: RecordView, core: Seq<u8>)
    ensures
        record::core_fields_of(r) == seq![
            FieldView::Str("unidpp-archive"@),
            FieldView::Str(r.snapshot_id),
            FieldView::U64(r.seq),
            FieldView::Str(r.passport_id),
            FieldView::Digest(r.state_hash),
            FieldView::Digest(r.log_head),
            FieldView::I64(r.notarized_at.secs),
        ],
        r.anchoring.status == AnchoringStatus::Unanchored ==> record::statement_fields(
            core,
            r.anchoring,
        ) == seq![FieldView::Raw(core), FieldView::U32(0)],
        r.anchoring.status == AnchoringStatus::Anchored ==> record::statement_fields(
            core,
            r.anchoring,
        ) == seq![
            FieldView::Raw(core),
            FieldView::U32(1),
            FieldView::Str(
                if r.anchoring.log_id is Some {
                    r.anchoring.log_id->0
                } else {
                    ""@
                },
            ),
            FieldView::U64(
                if r.anchoring.receipt_seq is Some {
                    r.anchoring.receipt_seq->0
                } else {
                    0
                },
            ),
            FieldView::U64(
                if r.anchoring.tree_size is Some {
                    r.anchoring.tree_size->0
                } else {
                    0
                },
            ),
            FieldView::Digest(
                if r.anchoring.root is Some {
                    r.anchoring.root->0
                } else {
                    Seq::new(32, |i: int| 0u8)
                },
            ),
        ],
{
}

/// A fresh record holds what it is made of, and has the id of its sequence number:
/// `s-` and the digits of the number, behind zeros up to twelve.
pub proof fn law_fresh_record_holds_what_it_is_made_of(
    seq: u64,
    at: Timestamp,
    passport_id: Seq<char>,
    state_hash: Seq<u8>,
    log_head: Seq<u8>,
    submitter: Option<Seq<char>>,
    state_size: Option<u64>,
)
    ensures
        ({
            let r = record::fresh(
                seq,
                at,
                passport_id,
                state_hash,
                log_head,
                submitter,
                state_size,
            );
            let digits = r.snapshot_id.skip(2);
            let zeros = digits.len() - text::decimal(seq as nat).len();
            &&& r.seq == seq
            &&& r.notarized_at == at
            &&& r.passport_id == passport_id
            &&& r.state_hash == state_hash
            &&& r.log_head == log_head
            &&& r.submitter == submitter
            &&& r.state_size == state_size
            &&& r.anchoring.status == AnchoringStatus::Unanchored
            &&& r.anchoring.reason is None
            &&& r.anchoring.receipt is None
            &&& r.snapshot_id.take(2) == seq!['s', '-']
            &&& digits.len() >= 12
            &&& digits.len() > 12 ==> zeros == 0
            &&& words::writes(digits.skip(zeros), seq as int)
            &&& forall|i: int| 0 <= i < zeros ==> #[trigger] digits[i] == '0'
        }),
{
    let p = text::padded(seq as nat, 12);
    let id = record::id_of(seq);
    reveal_strlit("s-");
    texts::law_padding_is_zeros_in_front(seq as nat, 12);
    assert(id.skip(2) =~= p);
    assert(id.take(2) =~= seq!['s', '-']);
}

// ---------------------------------------------------------------------------
// What is read from a document
// ---------------------------------------------------------------------------

/// Whether a field holds a digest, in hexadecimal text of either case.
pub open spec fn digest_read(j: JsonView, name: Seq<char>, b: Seq<u8>) -> bool {
    b.len() == 32 && exists|s: Seq<char>| #[trigger] words::says(j, name, s) && words::spells(s, b)
}

/// Whether a field holds the text of an instant.
pub open spec fn instant_read(j: JsonView, name: Seq<char>, t: Timestamp) -> bool {
    exists|s: Seq<char>| #[trigger]
        words::says(j, name, s) && time::stamp_parsed(s) == Ok::<Timestamp, Seq<char>>(t)
}

/// Whether a field holds a number in decimal text.
pub open spec fn numeral_read(j: JsonView, name: Seq<char>, n: u64) -> bool {
    exists|s: Seq<char>| #[trigger] words::says(j, name, s) && words::reads_as_number(s, n as int)
}

proof fn lemma_digest_read(j: JsonView, name: Seq<char>, b: Seq<u8>)
    ensures
        digest_read(j, name, b) <==> fields::digest_in(json::field(j, name)) == Some(b),
{
    match json::field(j, name) {
        Some(JsonView::Str(s)) => {
            texts::law_digest_is_read_as_spelled(s, b);
            assert(words::says(j, name, s));
            if digest_read(j, name, b) {
                let t = choose|t: Seq<char>| #[trigger]
                    words::says(j, name, t) && words::spells(t, b);
                assert(t == s);
            }
        },
        _ => {},
    }
}

proof fn lemma_instant_read(j: JsonView, name: Seq<char>, t: Timestamp)
    ensures
        instant_read(j, name, t) <==> anchoring::instant_in(json::field(j, name)) == Some(t),
{
    match json::field(j, name) {
        Some(JsonView::Str(s)) => {
            assert(words::says(j, name, s));
            if instant_read(j, name, t) {
                let x = choose|x: Seq<char>| #[trigger]
                    words::says(j, name, x) && time::stamp_parsed(x) == Ok::<Timestamp, Seq<char>>(
                        t,
                    );
                assert(x == s);
            }
        },
        _ => {},
    }
}

proof fn lemma_numeral_read(j: JsonView, name: Seq<char>, n: u64)
    ensures
        numeral_read(j, name, n) <==> fields::numeral_in(json::field(j, name)) == Some(n),
{
    match json::field(j, name) {
        Some(JsonView::Str(s)) => {
            texts::law_numbers_are_read_whole(s, u64::MAX as nat, n as nat);
            assert(words::says(j, name, s));
            if numeral_read(j, name, n) {
                let x = choose|x: Seq<char>| #[trigger]
                    words::says(j, name, x) && words::reads_as_number(x, n as int);
                assert(x == s);
            }
            if text::number_of(s, u64::MAX as nat) is Some {
                let m = text::number_of(s, u64::MAX as nat)->0;
                assert(m <= u64::MAX);
            }
        },
        _ => {},
    }
}

pub proof fn lemma_path_of_one(doc: JsonView, a: Seq<char>)
    ensures
        rebuild::at_path(doc, seq![a]) == json::field(doc, a),
{
    assert(seq![a].drop_last() =~= Seq::empty());
    reveal_with_fuel(rebuild::at_path, 2);
}

pub proof fn lemma_path_of_three(doc: JsonView, a: Seq<char>, b: Seq<char>, c: Seq<char>)
    ensures
        rebuild::at_path(doc, seq![a, b, c]) == match json::field(doc, a) {
            Some(x) => match json::field(x, b) {
                Some(y) => json::field(y, c),
                None => None,
            },
            None => None,
        },
{
    assert(seq![a, b, c].drop_last() =~= seq![a, b]);
    assert(seq![a, b].drop_last() =~= seq![a]);
    lemma_path_of_one(doc, a);
    reveal_with_fuel(rebuild::at_path, 3);
}

/// Whether a document has an object under `oais` with an object under this name.
pub open spec fn has_section(doc: JsonView, name: Seq<char>) -> bool {
    let o = part(doc, "oais"@);
    &&& words::has(doc, "oais"@, o)
    &&& words::has(o, name, part(o, name))
}

/// The section of a document under `oais`.
pub open spec fn section(doc: JsonView, name: Seq<char>) -> JsonView {
    part(part(doc, "oais"@), name)
}

/// Whether a document states a snapshot: the service and the id and sequence number
/// at its top, and the passport, its state and log head and the instant in its
/// information package.
pub open spec fn core_said(
    doc: JsonView,
    id: Seq<char>,
    n: u64,
    passport_id: Seq<char>,
    state_hash: Seq<u8>,
    log_head: Seq<u8>,
    at: Timestamp,
) -> bool {
    let p = section(doc, "information_package"@);
    &&& words::says(doc, "service"@, "unidpp-archive"@)
    &&& words::says(doc, "snapshot_id"@, id)
    &&& words::has(doc, "seq"@, JsonView::UInt(n))
    &&& has_section(doc, "information_package"@)
    &&& words::says(p, "passport_id"@, passport_id)
    &&& digest_read(p, "state_hash"@, state_hash)
    &&& digest_read(p, "log_head"@, log_head)
    &&& instant_read(p, "as_of"@, at)
}

/// The fields that state a snapshot.
pub open spec fn core_stating(
    id: Seq<char>,
    n: u64,
    passport_id: Seq<char>,
    state_hash: Seq<u8>,
    log_head: Seq<u8>,
    at: Timestamp,
) -> Seq<FieldView> {
    seq![
        FieldView::Str("unidpp-archive"@),
        FieldView::Str(id),
        FieldView::U64(n),
        FieldView::Str(passport_id),
        FieldView::Digest(state_hash),
        FieldView::Digest(log_head),
        FieldView::I64(at.secs),
    ]
}

proof fn lemma_core_places(doc: JsonView)
    ensures
        rebuild::at_path(doc, seq!["service"@]) == json::field(doc, "service"@),
        rebuild::at_path(doc, seq!["snapshot_id"@]) == json::field(doc, "snapshot_id"@),
        rebuild::at_path(doc, seq!["seq"@]) == json::field(doc, "seq"@),
        forall|k: Seq<char>| #[trigger]
            rebuild::at_path(doc, rebuild::package_path(k)) == if has_section(
                doc,
                "information_package"@,
            ) {
                json::field(section(doc, "information_package"@), k)
            } else {
                None
            },
{
    lemma_path_of_one(doc, "service"@);
    lemma_path_of_one(doc, "snapshot_id"@);
    lemma_path_of_one(doc, "seq"@);
    assert forall|k: Seq<char>| #[trigger]
        rebuild::at_path(doc, rebuild::package_path(k)) == if has_section(
        doc,
        "information_package"@,
    ) {
        json::field(section(doc, "information_package"@), k)
    } else {
        None
    } by {
        lemma_path_of_three(doc, "oais"@, "information_package"@, k);
    }
}

proof fn lemma_core_read(
    doc: JsonView,
    id: Seq<char>,
    n: u64,
    passport_id: Seq<char>,
    state_hash: Seq<u8>,
    log_head: Seq<u8>,
    at: Timestamp,
)
    requires
        core_said(doc, id, n, passport_id, state_hash, log_head, at),
    ensures
        rebuild::core_fields_in(doc) == Ok::<Seq<FieldView>, Seq<char>>(
            core_stating(id, n, passport_id, state_hash, log_head, at),
        ),
{
    let p = section(doc, "information_package"@);
    lemma_core_places(doc);
    lemma_digest_read(p, "state_hash"@, state_hash);
    lemma_digest_read(p, "log_head"@, log_head);
    lemma_instant_read(p, "as_of"@, at);
    assert(rebuild::package_digest(doc, "state_hash"@) == Ok::<Seq<u8>, Seq<char>>(state_hash));
    assert(rebuild::package_digest(doc, "log_head"@) == Ok::<Seq<u8>, Seq<char>>(log_head));
    assert(rebuild::package_as_of(doc) == Ok::<Timestamp, Seq<char>>(at));
    assert(rebuild::package_text(doc, "passport_id"@) == Ok::<Seq<char>, Seq<char>>(passport_id));
}

/// Every document from which a core is rebuilt states a snapshot.
proof fn lemma_core_was_said(doc: JsonView) -> (r: RecordView)
    requires
        rebuild::core_fields_in(doc) is Ok,
    ensures
        core_said(
            doc,
            r.snapshot_id,
            r.seq,
            r.passport_id,
            r.state_hash,
            r.log_head,
            r.notarized_at,
        ),
{
    let p = section(doc, "information_package"@);
    lemma_core_places(doc);
    let id = json::field(doc, "snapshot_id"@)->0->Str_0;
    let n = json::field(doc, "seq"@)->0->UInt_0;
    let sh = rebuild::package_digest(doc, "state_hash"@)->Ok_0;
    let lh = rebuild::package_digest(doc, "log_head"@)->Ok_0;
    let t = rebuild::package_as_of(doc)->Ok_0;
    let pp = rebuild::package_text(doc, "passport_id"@)->Ok_0;
    assert(rebuild::package_digest(doc, "state_hash"@) is Ok);
    assert(rebuild::package_digest(doc, "log_head"@) is Ok);
    assert(rebuild::package_as_of(doc) is Ok);
    assert(rebuild::package_text(doc, "passport_id"@) is Ok);
    assert(has_section(doc, "information_package"@)) by {
        assert(rebuild::at_path(doc, rebuild::package_path("passport_id"@)) is Some);
    }
    lemma_digest_read(p, "state_hash"@, sh);
    lemma_digest_read(p, "log_head"@, lh);
    lemma_instant_read(p, "as_of"@, t);
    RecordView {
        snapshot_id: id,
        seq: n,
        passport_id: pp,
        state_hash: sh,
        log_head: lh,
        notarized_at: t,
        ..arbitrary()
    }
}

/// The core is rebuilt from what a document states and from nothing else: whatever
/// the document, these are the fields exactly if the document states them at its top
/// and in its information package.
pub proof fn law_core_is_rebuilt_from_the_package(
    doc: JsonView,
    id: Seq<char>,
    n: u64,
    passport_id: Seq<char>,
    state_hash: Seq<u8>,
    log_head: Seq<u8>,
    at: Timestamp,
)
    ensures
        rebuild::core_fields_in(doc) == Ok::<Seq<FieldView>, Seq<char>>(
            core_stating(id, n, passport_id, state_hash, log_head, at),
        ) <==> core_said(doc, id, n, passport_id, state_hash, log_head, at),
        rebuild::core_fields_in(doc) is Ok ==> exists|r: RecordView| #[trigger]
            core_said(
                doc,
                r.snapshot_id,
                r.seq,
                r.passport_id,
                r.state_hash,
                r.log_head,
                r.notarized_at,
            ),
{
    if core_said(doc, id, n, passport_id, state_hash, log_head, at) {
        lemma_core_read(doc, id, n, passport_id, state_hash, log_head, at);
    }
    if rebuild::core_fields_in(doc) is Ok {
        let r = lemma_core_was_said(doc);
        lemma_core_read(
            doc,
            r.snapshot_id,
            r.seq,
            r.passport_id,
            r.state_hash,
            r.log_head,
            r.notarized_at,
        );
        let f = core_stating(
            r.snapshot_id,
            r.seq,
            r.passport_id,
            r.state_hash,
            r.log_head,
            r.notarized_at,
        );
        let g = core_stating(id, n, passport_id, state_hash, log_head, at);
        if f == g {
            assert(f[1] == g[1] && f[2] == g[2] && f[3] == g[3] && f[4] == g[4] && f[5] == g[5]
                && f[6] == g[6]);
        }
    }
}

/// A change of a document that is signed is noticed: documents from which the same
/// core is rebuilt state the same snapshot, so that one with another id, sequence
/// number, passport, state, log head or instant has another core.
pub proof fn law_tampering_changes_the_core(a: JsonView, b: JsonView, r: RecordView, s: RecordView)
    requires
        rebuild::core_fields_in(a) is Ok,
        rebuild::core_fields_in(a) == rebuild::core_fields_in(b),
        core_said(
            a,
            r.snapshot_id,
            r.seq,
            r.passport_id,
            r.state_hash,
            r.log_head,
            r.notarized_at,
        ),
        core_said(
            b,
            s.snapshot_id,
            s.seq,
            s.passport_id,
            s.state_hash,
            s.log_head,
            s.notarized_at,
        ),
    ensures
        r.snapshot_id == s.snapshot_id,
        r.seq == s.seq,
        r.passport_id == s.passport_id,
        r.state_hash == s.state_hash,
        r.log_head == s.log_head,
        r.notarized_at == s.notarized_at,
{
    law_core_is_rebuilt_from_the_package(
        a,
        r.snapshot_id,
        r.seq,
        r.passport_id,
        r.state_hash,
        r.log_head,
        r.notarized_at,
    );
    law_core_is_rebuilt_from_the_package(
        b,
        s.snapshot_id,
        s.seq,
        s.passport_id,
        s.state_hash,
        s.log_head,
        s.notarized_at,
    );
    let f = core_stating(
        r.snapshot_id,
        r.seq,
        r.passport_id,
        r.state_hash,
        r.log_head,
        r.notarized_at,
    );
    let g = core_stating(
        s.snapshot_id,
        s.seq,
        s.passport_id,
        s.state_hash,
        s.log_head,
        s.notarized_at,
    );
    assert(f[1] == g[1] && f[2] == g[2] && f[3] == g[3] && f[4] == g[4] && f[5] == g[5] && f[6]
        == g[6]);
}

/// Whether a document states an anchoring outcome in its provenance: that it is
/// unanchored, or that it is anchored, with the log, the receipt number, the tree
/// size and the root.
pub open spec fn anchor_said(doc: JsonView, a: AnchoringView) -> bool {
    let pv = section(doc, "provenance"@);
    let x = part(pv, "anchoring"@);
    &&& has_section(doc, "provenance"@)
    &&& words::has(pv, "anchoring"@, x)
    &&& a.reason is None && a.logged_at is None && a.commitment is None && a.receipt is None
    &&& match a.status {
        AnchoringStatus::Unanchored => words::says(x, "status"@, "unanchored"@) && a.log_id is None
            && a.receipt_seq is None && a.tree_size is None && a.root is None,
        AnchoringStatus::Anchored => {
            &&& words::says(x, "status"@, "anchored"@)
            &&& a.log_id is Some && words::says(x, "log_id"@, a.log_id->0)
            &&& a.receipt_seq is Some && numeral_read(x, "receipt_id"@, a.receipt_seq->0)
            &&& a.tree_size is Some && words::has(x, "tree_size"@, JsonView::UInt(a.tree_size->0))
            &&& a.root is Some && digest_read(x, "root"@, a.root->0)
        },
    }
}

/// The anchoring outcome is rebuilt from what the provenance of a document states and
/// from nothing else.
pub proof fn law_outcome_is_rebuilt_from_the_provenance(doc: JsonView, a: AnchoringView)
    ensures
        rebuild::anchoring_in(doc) == Ok::<AnchoringView, Seq<char>>(a) <==> anchor_said(doc, a),
{
    let pv = section(doc, "provenance"@);
    let x = part(pv, "anchoring"@);
    keys::lemma_anchoring_keys();
    lemma_path_of_three(doc, "oais"@, "provenance"@, "anchoring"@);
    if a.receipt_seq is Some {
        lemma_numeral_read(x, "receipt_id"@, a.receipt_seq->0);
    }
    if a.root is Some {
        lemma_digest_read(x, "root"@, a.root->0);
    }
}

/// The full statement is rebuilt from the core and the outcome that a document
/// states.
pub proof fn law_statement_is_rebuilt_from_the_document<
    W: Fn(&Vec<CanonicalField>) -> Vec<u8>,
>(w: W, doc: JsonView, r: RecordView)
    requires
        core_said(
            doc,
            r.snapshot_id,
            r.seq,
            r.passport_id,
            r.state_hash,
            r.log_head,
            r.notarized_at,
        ),
        anchor_said(doc, r.anchoring),
    ensures
        rebuild::core_rebuilt(w, doc) == Ok::<Seq<u8>, Seq<char>>(record::core_bytes(w, r)),
        rebuild::statement_rebuilt(w, doc) == Ok::<Seq<u8>, Seq<char>>(
            record::statement_bytes(w, r),
        ),
{
    law_core_is_rebuilt_from_the_package(
        doc,
        r.snapshot_id,
        r.seq,
        r.passport_id,
        r.state_hash,
        r.log_head,
        r.notarized_at,
    );
    law_outcome_is_rebuilt_from_the_provenance(doc, r.anchoring);
    law_statement_states_its_record(r, record::core_bytes(w, r));
}

// ---------------------------------------------------------------------------
// Receipts
// ---------------------------------------------------------------------------

/// Whether a receipt says all of an anchor: the log, its number for the entry (as
/// `seq`, or else as `receipt_id` in digits), the size and root of its tree, and when
/// it logged the entry.
pub open spec fn receipt_said(receipt: JsonView, s: SummaryView) -> bool {
    let head = part(receipt, "tree_head"@);
    &&& words::says(receipt, "log_id"@, s.log_id)
    &&& s.log_id.len() > 0
    &&& {
        ||| words::has(receipt, "seq"@, JsonView::UInt(s.receipt_seq))
        ||| (forall|n: u64| !#[trigger] words::has(receipt, "seq"@, JsonView::UInt(n)))
            && numeral_read(receipt, "receipt_id"@, s.receipt_seq)
    }
    &&& words::has(receipt, "tree_head"@, head)
    &&& words::has(head, "tree_size"@, JsonView::UInt(s.tree_size))
    &&& digest_read(head, "root"@, s.root)
    &&& instant_read(receipt, "logged_at"@, s.logged_at)
}

/// What is taken from a receipt is what it says, whole, and a receipt that lacks any
/// of it is refused.
pub proof fn law_receipt_is_read_as_it_says(receipt: JsonView, s: SummaryView)
    ensures
        anchoring::summary_of(receipt) == Ok::<SummaryView, Seq<char>>(s) <==> receipt_said(
            receipt,
            s,
        ),
{
    let head = part(receipt, "tree_head"@);
    lemma_numeral_read(receipt, "receipt_id"@, s.receipt_seq);
    lemma_digest_read(head, "root"@, s.root);
    lemma_instant_read(receipt, "logged_at"@, s.logged_at);
    match json::field(receipt, "seq"@) {
        Some(JsonView::UInt(n)) => {
            assert(words::has(receipt, "seq"@, JsonView::UInt(n)));
        },
        _ => {},
    }
}

/// An anchored outcome holds what its receipt says, the receipt as it came, and the
/// commitment.
pub proof fn law_anchored_outcome_holds_its_receipt(
    s: SummaryView,
    receipt: JsonView,
    commitment: Seq<u8>,
)
    ensures
        ({
            let a = AnchoringView::anchored(s, receipt, commitment);
            &&& a.status == AnchoringStatus::Anchored
            &&& a.reason is None
            &&& a.log_id == Some(s.log_id)
            &&& a.receipt_seq == Some(s.receipt_seq)
            &&& a.tree_size == Some(s.tree_size)
            &&& a.root == Some(s.root)
            &&& a.logged_at == Some(s.logged_at)
            &&& a.receipt == Some(receipt)
            &&& a.commitment == Some(commitment)
        }),
{
}

// ---------------------------------------------------------------------------
// The journal line
// ---------------------------------------------------------------------------

/// The names of the fields of a journal line.
pub open spec fn line_names() -> Set<Seq<char>> {
    set![
        "seq"@,
        "snapshot_id"@,
        "notarized_at"@,
        "passport_id"@,
        "state_hash"@,
        "log_head"@,
        "submitter"@,
        "state_size"@,
        "anchoring"@,
        "signature"@,
        "key_id"@,
        "body_digest"@,
    ]
}

/// Whether an object states a record as a journal line does.
pub open spec fn line_said(j: JsonView, r: RecordView) -> bool {
    let a = part(j, "anchoring"@);
    &&& words::has(j, "seq"@, JsonView::UInt(r.seq))
    &&& words::says(j, "snapshot_id"@, r.snapshot_id)
    &&& words::says(j, "notarized_at"@, time::stamp_text(r.notarized_at))
    &&& words::says(j, "passport_id"@, r.passport_id)
    &&& words::spelled(j, "state_hash"@, r.state_hash)
    &&& words::spelled(j, "log_head"@, r.log_head)
    &&& words::says_or_null(j, "submitter"@, r.submitter)
    &&& words::counts_or_null(j, "state_size"@, r.state_size)
    &&& words::has(j, "anchoring"@, a)
    &&& outcome_said(a, r.anchoring)
    &&& words::spelled_or_null(a, "commitment"@, r.anchoring.commitment)
    &&& words::has(
        a,
        "receipt"@,
        match r.anchoring.receipt {
            Some(x) => x,
            None => JsonView::Null,
        },
    )
    &&& words::spelled(j, "signature"@, r.signature)
    &&& words::says(j, "key_id"@, r.key_id)
    &&& words::spelled(j, "body_digest"@, r.body_digest)
}

/// A journal line states its record, whole and unchanged, and nothing else.
pub proof fn law_journal_line_states_its_record(r: RecordView)
    ensures
        line_said(record::journal_line(r), r),
        words::fields_are(record::journal_line(r), line_names()),
{
    let j = record::journal_line(r);
    keys::lemma_journal_keys();
    assert(j->Obj_0.dom() =~= line_names());
    assert(part(j, "anchoring"@) == anchoring::anchoring_journal(r.anchoring));
    law_outcome_is_journaled(r.anchoring);
    lemma_spelled(j, "state_hash"@, r.state_hash);
    lemma_spelled(j, "log_head"@, r.log_head);
    lemma_spelled(j, "signature"@, r.signature);
    lemma_spelled(j, "body_digest"@, r.body_digest);
}

/// Whether a field holds a text, or is left out where there is none.
pub open spec fn text_or_nothing(j: JsonView, name: Seq<char>, s: Option<Seq<char>>) -> bool {
    match s {
        Some(s) => words::says(j, name, s),
        None => words::leaves_out(j, name),
    }
}

/// Whether a field holds a number, or is left out where there is none.
pub open spec fn number_or_nothing(j: JsonView, name: Seq<char>, n: Option<u64>) -> bool {
    match n {
        Some(n) => words::has(j, name, JsonView::UInt(n)),
        None => words::leaves_out(j, name),
    }
}

/// Whether a field holds a digest, or is left out where there is none.
pub open spec fn digest_or_nothing(j: JsonView, name: Seq<char>, b: Option<Seq<u8>>) -> bool {
    match b {
        Some(b) => digest_read(j, name, b),
        None => words::leaves_out(j, name),
    }
}

/// Whether an object holds an anchoring outcome as a journal line does. An anchored
/// one must be complete.
pub open spec fn outcome_held(j: JsonView, a: AnchoringView) -> bool {
    &&& words::says(
        j,
        "status"@,
        if a.status == AnchoringStatus::Anchored {
            "anchored"@
        } else {
            "unanchored"@
        },
    )
    &&& text_or_nothing(j, "reason"@, a.reason)
    &&& text_or_nothing(j, "log_id"@, a.log_id)
    &&& (match a.receipt_seq {
        Some(n) => numeral_read(j, "receipt_id"@, n),
        None => words::leaves_out(j, "receipt_id"@),
    })
    &&& number_or_nothing(j, "tree_size"@, a.tree_size)
    &&& digest_or_nothing(j, "root"@, a.root)
    &&& (match a.logged_at {
        Some(t) => instant_read(j, "logged_at"@, t),
        None => words::leaves_out(j, "logged_at"@),
    })
    &&& digest_or_nothing(j, "commitment"@, a.commitment)
    &&& (match a.receipt {
        Some(x) => x is Obj && words::has(j, "receipt"@, x),
        None => words::leaves_out(j, "receipt"@),
    })
    &&& a.status == AnchoringStatus::Anchored ==> a.log_id is Some && a.receipt_seq is Some
        && a.tree_size is Some && a.root is Some && a.logged_at is Some && a.commitment is Some
        && a.receipt is Some
}

proof fn lemma_digest_or_nothing(
    j: JsonView,
    name: Seq<char>,
    b: Option<Seq<u8>>,
    label: Seq<char>,
)
    ensures
        digest_or_nothing(j, name, b) <==> fields::optional_digest(json::field(j, name), label)
            == Ok::<Option<Seq<u8>>, Seq<char>>(b),
{
    if b is Some {
        lemma_digest_read(j, name, b->0);
    }
}

/// An anchoring outcome is read from a journal line as the line holds it, and from
/// no line that holds none.
pub proof fn law_outcome_is_read_as_held(j: JsonView, a: AnchoringView)
    ensures
        anchoring::anchoring_of(j) == Ok::<AnchoringView, Seq<char>>(a) <==> outcome_held(j, a),
{
    keys::lemma_anchoring_keys();
    lemma_digest_or_nothing(j, "root"@, a.root, "anchoring.root"@);
    lemma_digest_or_nothing(j, "commitment"@, a.commitment, "anchoring.commitment"@);
    if a.receipt_seq is Some {
        lemma_numeral_read(j, "receipt_id"@, a.receipt_seq->0);
    }
    if a.logged_at is Some {
        lemma_instant_read(j, "logged_at"@, a.logged_at->0);
    }
    assert(text_or_nothing(j, "reason"@, a.reason) <==> fields::optional_text(
        json::field(j, "reason"@),
        "anchoring.reason"@,
    ) == Ok::<Option<Seq<char>>, Seq<char>>(a.reason));
    assert(text_or_nothing(j, "log_id"@, a.log_id) <==> fields::optional_text(
        json::field(j, "log_id"@),
        "anchoring.log_id"@,
    ) == Ok::<Option<Seq<char>>, Seq<char>>(a.log_id));
    assert(number_or_nothing(j, "tree_size"@, a.tree_size) <==> fields::optional_number(
        json::field(j, "tree_size"@),
        "anchoring.tree_size"@,
    ) == Ok::<Option<u64>, Seq<char>>(a.tree_size));
    assert((match a.receipt_seq {
        Some(n) => numeral_read(j, "receipt_id"@, n),
        None => words::leaves_out(j, "receipt_id"@),
    }) <==> anchoring::receipt_id_in(json::field(j, "receipt_id"@)) == Ok::<
        Option<u64>,
        Seq<char>,
    >(a.receipt_seq));
    assert((match a.logged_at {
        Some(t) => instant_read(j, "logged_at"@, t),
        None => words::leaves_out(j, "logged_at"@),
    }) <==> fields::optional_instant(json::field(j, "logged_at"@), "anchoring.logged_at"@) == Ok::<
        Option<Timestamp>,
        Seq<char>,
    >(a.logged_at));
    assert((match a.receipt {
        Some(x) => x is Obj && words::has(j, "receipt"@, x),
        None => words::leaves_out(j, "receipt"@),
    }) <==> anchoring::receipt_in(json::field(j, "receipt"@)) == Ok::<
        Option<JsonView>,
        Seq<char>,
    >(a.receipt));
    assert(words::says(
        j,
        "status"@,
        if a.status == AnchoringStatus::Anchored {
            "anchored"@
        } else {
            "unanchored"@
        },
    ) <==> anchoring::status_in(json::field(j, "status"@)) == Some(a.status));
}

/// Whether an object holds a record as a journal line does.
pub open spec fn record_held(j: JsonView, r: RecordView) -> bool {
    &&& words::has(j, "seq"@, JsonView::UInt(r.seq))
    &&& words::says(j, "snapshot_id"@, r.snapshot_id)
    &&& instant_read(j, "notarized_at"@, r.notarized_at)
    &&& words::says(j, "passport_id"@, r.passport_id)
    &&& digest_read(j, "state_hash"@, r.state_hash)
    &&& digest_read(j, "log_head"@, r.log_head)
    &&& text_or_nothing(j, "submitter"@, r.submitter)
    &&& number_or_nothing(j, "state_size"@, r.state_size)
    &&& words::has(j, "anchoring"@, part(j, "anchoring"@))
    &&& outcome_held(part(j, "anchoring"@), r.anchoring)
    &&& exists|s: Seq<char>| #[trigger]
        words::says(j, "signature"@, s) && words::spells(s, r.signature)
    &&& words::says(j, "key_id"@, r.key_id)
    &&& digest_read(j, "body_digest"@, r.body_digest)
}

proof fn lemma_signature_read(j: JsonView, b: Seq<u8>)
    ensures
        (exists|s: Seq<char>| #[trigger] words::says(j, "signature"@, s) && words::spells(s, b))
            <==> record::signature_in(json::field(j, "signature"@)) == Ok::<Seq<u8>, Seq<char>>(b),
{
    match json::field(j, "signature"@) {
        Some(JsonView::Str(s)) => {
            texts::law_hex_is_read_as_spelled(s, b);
            assert(words::says(j, "signature"@, s));
        },
        _ => {},
    }
}

/// A record is read from a journal line as the line holds it, whole and unchanged,
/// and from no line that holds none.
pub proof fn law_record_is_read_as_held(j: JsonView, r: RecordView)
    ensures
        record::record_of(j) == Ok::<RecordView, Seq<char>>(r) <==> record_held(j, r),
{
    law_outcome_is_read_as_held(part(j, "anchoring"@), r.anchoring);
    lemma_signature_read(j, r.signature);
    lemma_digest_read(j, "state_hash"@, r.state_hash);
    lemma_digest_read(j, "log_head"@, r.log_head);
    lemma_digest_read(j, "body_digest"@, r.body_digest);
    lemma_instant_read(j, "notarized_at"@, r.notarized_at);
    assert(instant_read(j, "notarized_at"@, r.notarized_at) <==> fields::required_instant(
        json::field(j, "notarized_at"@),
        "notarized_at"@,
    ) == Ok::<Timestamp, Seq<char>>(r.notarized_at));
    assert(text_or_nothing(j, "submitter"@, r.submitter) <==> fields::optional_text(
        json::field(j, "submitter"@),
        "submitter"@,
    ) == Ok::<Option<Seq<char>>, Seq<char>>(r.submitter));
    assert(number_or_nothing(j, "state_size"@, r.state_size) <==> fields::optional_number(
        json::field(j, "state_size"@),
        "state_size"@,
    ) == Ok::<Option<u64>, Seq<char>>(r.state_size));
}

} // verus!
