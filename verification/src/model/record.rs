//! The snapshot record: its canonical statement, its notarization, the document
//! that is served for it, and its journal line.

use serde_json::Value;
use vstd::prelude::*;
use vstd::string::*;
use crate::canonical;
use crate::canonical::CanonicalField;
use crate::canonical::FieldView;
use crate::fields;
use crate::hash;
use crate::hex;
use crate::json;
use crate::json::JsonView;
use crate::laws::records as record_laws;
use crate::model::anchoring;
use crate::model::anchoring::Anchoring;
use crate::model::anchoring::AnchoringStatus;
use crate::model::anchoring::AnchoringView;
use crate::text;
use crate::time;
use crate::time::Timestamp;

verus! {

/// Service identity (appears in every canonical statement).
pub const SERVICE_ID: &'static str = "unidpp-archive";

/// The served document's schema tag.
pub const SCHEMA: &'static str = "unidpp-archive/snapshot/1";

/// The OAIS profile label carried in every document.
pub const OAIS_PROFILE: &'static str = "ISO 14721 (OAIS) simplified for digital product passports";

/// The signing-domain adapter note (the same note as `unidpp-trust`).
pub const ADAPTER_NOTE: &'static str = "SIGNATIF has no archival-notarization domain; tree-head (the operator's signed statement of state, used for transparency-log signed tree heads) is the closest documented adaptation — the same adapter note as unidpp-trust. signatif's HistoricalStamp domain ('a notarized historical verification stamp') is the semantically exact slot; adoption is deferred to the 19-signatif-spec-sync divergence register. The signature covers the canonical statement bytes and is embedded in the document so the AIP is self-verifying.";

/// The signature suite of the notary.
pub const SUITE: &'static str = "ed25519";

/// The name of the domain that every notarization signature uses.
pub const DOMAIN: &'static str = "tree-head";

/// How a reader of a document checks its signature.
pub const VERIFICATION: &'static str = "Rebuild the canonical statement bytes (discovery document, notarization.statement_recipe) and verify with unidpp_signatif SignatureSlot::verify(SigningDomain::TreeHead, bytes, public) against the /keyring anchor.";

// ---------------------------------------------------------------------------
// The record
// ---------------------------------------------------------------------------

/// One notarized snapshot: the journal's storage unit, the replay input, and the
/// sole source of the served document.
#[derive(Debug, PartialEq, Eq)]
pub struct SnapshotRecord {
    /// Strictly monotonic sequence (the journal's spine).
    pub seq: u64,
    /// Content-free public id (`s-` + zero-padded seq).
    pub snapshot_id: String,
    /// The as-of instant: when the service notarized this state.
    pub notarized_at: Timestamp,
    /// The passport the snapshot preserves (producer's identity).
    pub passport_id: String,
    /// The passport state hash at the snapshot moment.
    pub state_hash: crate::hash::Hash,
    /// The passport event-log head at the snapshot moment.
    pub log_head: crate::hash::Hash,
    /// Who submitted the snapshot (OAIS submission), if declared.
    pub submitter: Option<String>,
    /// Size of the state the hash commits to, if declared.
    pub state_size: Option<u64>,
    /// The anchoring outcome.
    pub anchoring: Anchoring,
    /// The notarization signature (over the statement bytes).
    pub signature: Vec<u8>,
    /// Key id of the notary key that produced the signature.
    pub key_id: String,
    /// SHA-256 of the rendered document bytes (journal-side fixity: detects
    /// renderer drift and snapshot-file tampering).
    pub body_digest: crate::hash::Hash,
}

/// The content of a snapshot record.
#[verifier::ext_equal]
pub struct RecordView {
    pub seq: u64,
    pub snapshot_id: Seq<char>,
    pub notarized_at: Timestamp,
    pub passport_id: Seq<char>,
    pub state_hash: Seq<u8>,
    pub log_head: Seq<u8>,
    pub submitter: Option<Seq<char>>,
    pub state_size: Option<u64>,
    pub anchoring: AnchoringView,
    pub signature: Seq<u8>,
    pub key_id: Seq<char>,
    pub body_digest: Seq<u8>,
}

impl View for SnapshotRecord {
    type V = RecordView;

    open spec fn view(&self) -> RecordView {
        RecordView {
            seq: self.seq,
            snapshot_id: self.snapshot_id@,
            notarized_at: self.notarized_at,
            passport_id: self.passport_id@,
            state_hash: self.state_hash@,
            log_head: self.log_head@,
            submitter: self.submitter.deep_view(),
            state_size: self.state_size,
            anchoring: self.anchoring@,
            signature: self.signature@,
            key_id: self.key_id@,
            body_digest: self.body_digest@,
        }
    }
}

impl DeepView for SnapshotRecord {
    type V = RecordView;

    open spec fn deep_view(&self) -> RecordView {
        self@
    }
}

impl RecordView {
    /// Whether the digests have the length of a digest. Every record has this.
    pub open spec fn sized(self) -> bool {
        &&& self.state_hash.len() == 32
        &&& self.log_head.len() == 32
        &&& self.body_digest.len() == 32
        &&& self.anchoring.sized()
    }
}

/// The digests of a record have the length of a digest.
pub proof fn law_record_is_sized(r: SnapshotRecord)
    ensures
        r@.sized(),
{
    hash::lemma_digest_len(r.state_hash);
    hash::lemma_digest_len(r.log_head);
    hash::lemma_digest_len(r.body_digest);
    if r.anchoring.root is Some {
        hash::lemma_digest_len(r.anchoring.root->0);
    }
    if r.anchoring.commitment is Some {
        hash::lemma_digest_len(r.anchoring.commitment->0);
    }
}

impl Clone for SnapshotRecord {
    fn clone(&self) -> (r: SnapshotRecord)
        ensures
            r@ == self@,
    {
        SnapshotRecord {
            seq: self.seq,
            snapshot_id: self.snapshot_id.clone(),
            notarized_at: self.notarized_at,
            passport_id: self.passport_id.clone(),
            state_hash: self.state_hash,
            log_head: self.log_head,
            submitter: text::clone_option(&self.submitter),
            state_size: self.state_size,
            anchoring: self.anchoring.clone(),
            signature: copy_bytes(&self.signature),
            key_id: self.key_id.clone(),
            body_digest: self.body_digest,
        }
    }
}

/// A copy of a byte string.
pub(crate) fn copy_bytes(b: &Vec<u8>) -> (r: Vec<u8>)
    ensures
        r@ == b@,
{
    let mut r: Vec<u8> = Vec::new();
    let mut i: usize = 0;
    while i < b.len()
        invariant
            i <= b@.len(),
            r@ == b@.take(i as int),
        decreases b@.len() - i,
    {
        r.push(b[i]);
        i = i + 1;
        proof {
            assert(b@.take(i as int) =~= b@.take(i - 1).push(b@[i - 1]));
        }
    }
    proof {
        assert(b@.take(i as int) =~= b@);
    }
    r
}

/// The public snapshot id for a sequence number (`s-` + 12 digits, zero-padded
/// so that lexical order matches sequencing order).
pub open spec fn id_of(seq: u64) -> Seq<char> {
    "s-"@ + text::padded(seq as nat, 12)
}

/// The public snapshot id for a sequence number.
pub fn snapshot_id_of(seq: u64) -> (r: String)
    ensures
        r@ == id_of(seq),
{
    text::cat2("s-", &text::padded_u64(seq, 12))
}

// ---------------------------------------------------------------------------
// Canonical statements
// ---------------------------------------------------------------------------

/// The fields of the core statement: service, id, sequence, passport, state, log
/// head, as-of.
pub open spec fn core_fields(
    snapshot_id: Seq<char>,
    seq: u64,
    passport_id: Seq<char>,
    state_hash: Seq<u8>,
    log_head: Seq<u8>,
    notarized_at: Timestamp,
) -> Seq<FieldView> {
    seq![
        FieldView::Str(SERVICE_ID@),
        FieldView::Str(snapshot_id),
        FieldView::U64(seq),
        FieldView::Str(passport_id),
        FieldView::Digest(state_hash),
        FieldView::Digest(log_head),
        FieldView::I64(notarized_at.secs),
    ]
}

/// The digest of zeros, which stands for a root that is missing.
pub open spec fn zero_digest() -> Seq<u8> {
    Seq::new(32, |i: int| 0u8)
}

/// The fields of the full statement: the core bytes, then the anchoring
/// outcome.
pub open spec fn statement_fields(core: Seq<u8>, a: AnchoringView) -> Seq<FieldView> {
    match a.status {
        AnchoringStatus::Unanchored => seq![FieldView::Raw(core), FieldView::U32(0)],
        AnchoringStatus::Anchored => seq![
            FieldView::Raw(core),
            FieldView::U32(1),
            FieldView::Str(
                match a.log_id {
                    Some(s) => s,
                    None => ""@,
                },
            ),
            FieldView::U64(
                match a.receipt_seq {
                    Some(n) => n,
                    None => 0,
                },
            ),
            FieldView::U64(
                match a.tree_size {
                    Some(n) => n,
                    None => 0,
                },
            ),
            FieldView::Digest(
                match a.root {
                    Some(h) => h,
                    None => zero_digest(),
                },
            ),
        ],
    }
}

/// The fields of the core statement of a record.
pub open spec fn core_fields_of(r: RecordView) -> Seq<FieldView> {
    core_fields(
        r.snapshot_id,
        r.seq,
        r.passport_id,
        r.state_hash,
        r.log_head,
        r.notarized_at,
    )
}

/// The core statement bytes of a record.
pub open spec fn core_bytes<W: Fn(&Vec<CanonicalField>) -> Vec<u8>>(w: W, r: RecordView) -> Seq<u8> {
    canonical::canonical(w, core_fields_of(r))
}

/// The full statement bytes of a record.
pub open spec fn statement_bytes<W: Fn(&Vec<CanonicalField>) -> Vec<u8>>(w: W, r: RecordView) -> Seq<
    u8,
> {
    canonical::canonical(w, statement_fields(core_bytes(w, r), r.anchoring))
}

/// Whether the core and the full statement of a record are bytes that the writer
/// gives for their fields.
pub open spec fn stated<W: Fn(&Vec<CanonicalField>) -> Vec<u8>>(w: W, r: RecordView) -> bool {
    &&& canonical::encodes(w, core_fields_of(r), core_bytes(w, r))
    &&& canonical::encodes(
        w,
        statement_fields(core_bytes(w, r), r.anchoring),
        statement_bytes(w, r),
    )
}

/// The commitment of a record: the digest of its core statement.
pub open spec fn commitment_of<W: Fn(&Vec<CanonicalField>) -> Vec<u8>>(w: W, r: RecordView) -> Seq<
    u8,
> {
    hash::sha256_of(core_bytes(w, r))
}

/// Write the core statement. This is what the anchored commitment digests.
pub(crate) fn canonical_core<W: Fn(&Vec<CanonicalField>) -> Vec<u8>>(
    writer: &W,
    snapshot_id: &str,
    seq: u64,
    passport_id: &str,
    state_hash: &crate::hash::Hash,
    log_head: &crate::hash::Hash,
    notarized_at: Timestamp,
) -> (r: Vec<u8>)
    requires
        canonical::is_writer(*writer),
    ensures
        r@ == canonical::canonical(
            *writer,
            core_fields(snapshot_id@, seq, passport_id@, state_hash@, log_head@, notarized_at),
        ),
        canonical::encodes(
            *writer,
            core_fields(snapshot_id@, seq, passport_id@, state_hash@, log_head@, notarized_at),
            r@,
        ),
{
    let mut f: Vec<CanonicalField> = Vec::new();
    f.push(CanonicalField::Str(SERVICE_ID.to_owned()));
    f.push(CanonicalField::Str(snapshot_id.to_owned()));
    f.push(CanonicalField::U64(seq));
    f.push(CanonicalField::Str(passport_id.to_owned()));
    f.push(CanonicalField::Digest(*state_hash));
    f.push(CanonicalField::Digest(*log_head));
    f.push(CanonicalField::I64(notarized_at.secs));
    proof {
        assert(f.deep_view() =~= core_fields(
            snapshot_id@,
            seq,
            passport_id@,
            state_hash@,
            log_head@,
            notarized_at,
        ));
    }
    canonical::write_canonical(writer, &f)
}

/// Write the full statement that the notary signs: the core bytes, then the
/// anchoring outcome.
pub(crate) fn canonical_statement<W: Fn(&Vec<CanonicalField>) -> Vec<u8>>(
    writer: &W,
    core: Vec<u8>,
    a: &Anchoring,
) -> (r: Vec<u8>)
    requires
        canonical::is_writer(*writer),
    ensures
        r@ == canonical::canonical(*writer, statement_fields(core@, a@)),
        canonical::encodes(*writer, statement_fields(core@, a@), r@),
{
    let ghost c = core@;
    let mut f: Vec<CanonicalField> = Vec::new();
    f.push(CanonicalField::Raw(core));
    match a.status {
        AnchoringStatus::Unanchored => {
            f.push(CanonicalField::U32(0));
        },
        AnchoringStatus::Anchored => {
            f.push(CanonicalField::U32(1));
            let log_id = match &a.log_id {
                Some(s) => s.clone(),
                None => "".to_owned(),
            };
            f.push(CanonicalField::Str(log_id));
            let receipt_seq: u64 = match a.receipt_seq {
                Some(n) => n,
                None => 0,
            };
            f.push(CanonicalField::U64(receipt_seq));
            let tree_size: u64 = match a.tree_size {
                Some(n) => n,
                None => 0,
            };
            f.push(CanonicalField::U64(tree_size));
            let root = match a.root {
                Some(h) => h,
                None => zero_hash(),
            };
            f.push(CanonicalField::Digest(root));
        },
    }
    proof {
        assert(f.deep_view() =~= statement_fields(c, a@));
    }
    canonical::write_canonical(writer, &f)
}

fn zero_hash() -> (h: crate::hash::Hash)
    ensures
        h@ == zero_digest(),
{
    let h = crate::hash::Hash([0u8;32]);
    proof {
        assert(h@ =~= zero_digest());
    }
    h
}

// ---------------------------------------------------------------------------
// The document
// ---------------------------------------------------------------------------

/// `oais.submission`: who submitted what, when.
pub open spec fn submission(r: RecordView) -> JsonView {
    JsonView::Obj(
        map![
            "submitter"@ => json::text_or_null(r.submitter),
            "submitted_at"@ => JsonView::Str(time::stamp_text(r.notarized_at)),
            "passport_id"@ => JsonView::Str(r.passport_id),
            "state_hash"@ => JsonView::Str(hex::hex_text(r.state_hash)),
            "log_head"@ => JsonView::Str(hex::hex_text(r.log_head)),
            "state_size"@ => json::number_or_null(r.state_size),
        ],
    )
}

/// `oais.information_package`: the preserved content and its fixity digests.
pub open spec fn information_package(r: RecordView, statement: Seq<u8>) -> JsonView {
    JsonView::Obj(
        map![
            "passport_id"@ => JsonView::Str(r.passport_id),
            "state_hash"@ => JsonView::Str(hex::hex_text(r.state_hash)),
            "log_head"@ => JsonView::Str(hex::hex_text(r.log_head)),
            "as_of"@ => JsonView::Str(time::stamp_text(r.notarized_at)),
            "commitment"@ => anchoring::digest_or_null(r.anchoring.commitment),
            "statement_digest"@ => JsonView::Str(hex::hex_text(hash::sha256_of(statement))),
        ],
    )
}

/// `oais.provenance.signing`: how the notarization was signed.
pub open spec fn signing(r: RecordView) -> JsonView {
    JsonView::Obj(
        map![
            "suite"@ => JsonView::Str(SUITE@),
            "key_id"@ => JsonView::Str(r.key_id),
            "domain"@ => JsonView::Str(DOMAIN@),
            "adapter_note"@ => JsonView::Str(ADAPTER_NOTE@),
        ],
    )
}

/// `oais.provenance`: the notarization trail.
pub open spec fn provenance(r: RecordView) -> JsonView {
    JsonView::Obj(
        map![
            "service"@ => JsonView::Str(SERVICE_ID@),
            "notarized_at"@ => JsonView::Str(time::stamp_text(r.notarized_at)),
            "signing"@ => signing(r),
            "anchoring"@ => anchoring::anchoring_document(r.anchoring),
            "receipt"@ => anchoring::value_or_null(r.anchoring.receipt),
            "signature"@ => JsonView::Str(hex::hex_text(r.signature)),
            "verification"@ => JsonView::Str(VERIFICATION@),
        ],
    )
}

/// `oais`: the three metadata sections.
pub open spec fn oais(r: RecordView, statement: Seq<u8>) -> JsonView {
    JsonView::Obj(
        map![
            "profile"@ => JsonView::Str(OAIS_PROFILE@),
            "submission"@ => submission(r),
            "information_package"@ => information_package(r, statement),
            "provenance"@ => provenance(r),
        ],
    )
}

/// The document of a record with the given statement bytes.
pub open spec fn document_with(r: RecordView, statement: Seq<u8>) -> JsonView {
    JsonView::Obj(
        map![
            "schema"@ => JsonView::Str(SCHEMA@),
            "service"@ => JsonView::Str(SERVICE_ID@),
            "snapshot_id"@ => JsonView::Str(r.snapshot_id),
            "seq"@ => JsonView::UInt(r.seq),
            "as_of"@ => JsonView::Str(time::stamp_text(r.notarized_at)),
            "oais"@ => oais(r, statement),
        ],
    )
}

/// The served document of a record.
pub open spec fn document<W: Fn(&Vec<CanonicalField>) -> Vec<u8>>(w: W, r: RecordView) -> JsonView {
    document_with(r, statement_bytes(w, r))
}

/// The served text of a record.
pub open spec fn body_text<W: Fn(&Vec<CanonicalField>) -> Vec<u8>>(w: W, r: RecordView) -> Seq<
    char,
> {
    json::pretty_text(document(w, r))
}

/// Whether the receipt of a record, if it has one, reads back from its text and is
/// nested at most `n` deep.
pub open spec fn plain_receipt(r: RecordView, n: nat) -> bool {
    r.anchoring.receipt matches Some(j) ==> json::portable(j, n)
}

/// How deep a receipt may be nested for the text of the document that holds it to
/// read back.
pub const DOCUMENT_RECEIPT_DEPTH: u64 = 124;

/// How deep a receipt may be nested for the journal line that holds it to read
/// back.
pub const JOURNAL_RECEIPT_DEPTH: u64 = 125;

/// Whether the body digest of a record is the digest of its served text.
pub open spec fn digest_matches<W: Fn(&Vec<CanonicalField>) -> Vec<u8>>(
    w: W,
    r: RecordView,
) -> bool {
    r.body_digest == hash::text_digest(body_text(w, r))
}

// ---------------------------------------------------------------------------
// Notarization
// ---------------------------------------------------------------------------

/// What a notary gives for a statement: a signature, and the id of its key.
#[derive(Debug)]
pub struct Notarization {
    pub signature: Option<Vec<u8>>,
    pub key_id: String,
}

/// The content of a notarization: the signature (empty where there is none) and
/// the key id.
pub struct NotarizationView {
    pub signature: Seq<u8>,
    pub key_id: Seq<char>,
}

impl DeepView for Notarization {
    type V = NotarizationView;

    open spec fn deep_view(&self) -> NotarizationView {
        NotarizationView {
            signature: match self.signature {
                Some(b) => b@,
                None => Seq::empty(),
            },
            key_id: self.key_id@,
        }
    }
}

/// A record with a notarization entered: signature and key id, the commitment,
/// and the digest of the text that is then served.
pub open spec fn sealed<W: Fn(&Vec<CanonicalField>) -> Vec<u8>>(
    w: W,
    r: RecordView,
    n: NotarizationView,
) -> RecordView {
    let s = RecordView {
        signature: n.signature,
        key_id: n.key_id,
        anchoring: AnchoringView { commitment: Some(commitment_of(w, r)), ..r.anchoring },
        ..r
    };
    RecordView { body_digest: hash::text_digest(body_text(w, s)), ..s }
}

/// What sealing makes of a record, for each answer of the notary: the sealed
/// record, or the record as it was and the reason.
pub open spec fn seal_outcome<W: Fn(&Vec<CanonicalField>) -> Vec<u8>>(
    w: W,
    r: RecordView,
    answer: Result<NotarizationView, Seq<char>>,
) -> (RecordView, Result<(), Seq<char>>) {
    match answer {
        Ok(n) => (sealed(w, r, n), Ok(())),
        Err(e) => (r, Err("notarization sign: "@ + e)),
    }
}

// ---------------------------------------------------------------------------
// The journal line
// ---------------------------------------------------------------------------

/// The journal line of a record.
pub open spec fn journal_line(r: RecordView) -> JsonView {
    JsonView::Obj(
        map![
            "seq"@ => JsonView::UInt(r.seq),
            "snapshot_id"@ => JsonView::Str(r.snapshot_id),
            "notarized_at"@ => JsonView::Str(time::stamp_text(r.notarized_at)),
            "passport_id"@ => JsonView::Str(r.passport_id),
            "state_hash"@ => JsonView::Str(hex::hex_text(r.state_hash)),
            "log_head"@ => JsonView::Str(hex::hex_text(r.log_head)),
            "submitter"@ => json::text_or_null(r.submitter),
            "state_size"@ => json::number_or_null(r.state_size),
            "anchoring"@ => anchoring::anchoring_journal(r.anchoring),
            "signature"@ => JsonView::Str(hex::hex_text(r.signature)),
            "key_id"@ => JsonView::Str(r.key_id),
            "body_digest"@ => JsonView::Str(hex::hex_text(r.body_digest)),
        ],
    )
}

/// The signature in a journal line.
pub open spec fn signature_in(j: Option<JsonView>) -> Result<Seq<u8>, Seq<char>> {
    match fields::required_text(j, "signature"@) {
        Ok(s) => match hex::hex_decoded(s) {
            Ok(b) => Ok(b),
            Err(e) => Err("`signature`: "@ + e),
        },
        Err(e) => Err(e),
    }
}

/// The record that a journal line holds, or the first thing that is wrong with
/// it.
pub open spec fn record_of(j: JsonView) -> Result<RecordView, Seq<char>> {
    let anchoring = anchoring::anchoring_of(json::field(j, "anchoring"@)->0);
    let signature = signature_in(json::field(j, "signature"@));
    let seq = fields::required_number(json::field(j, "seq"@), "seq"@);
    let snapshot_id = fields::required_text(json::field(j, "snapshot_id"@), "snapshot_id"@);
    let notarized_at = fields::required_instant(json::field(j, "notarized_at"@), "notarized_at"@);
    let passport_id = fields::required_text(json::field(j, "passport_id"@), "passport_id"@);
    let state_hash = fields::required_digest(json::field(j, "state_hash"@), "state_hash"@);
    let log_head = fields::required_digest(json::field(j, "log_head"@), "log_head"@);
    let submitter = fields::optional_text(json::field(j, "submitter"@), "submitter"@);
    let state_size = fields::optional_number(json::field(j, "state_size"@), "state_size"@);
    let key_id = fields::required_text(json::field(j, "key_id"@), "key_id"@);
    let body_digest = fields::required_digest(json::field(j, "body_digest"@), "body_digest"@);
    if !(j is Obj) {
        Err("snapshot record must be an object"@)
    } else if json::field(j, "anchoring"@) is None {
        Err("missing `anchoring`"@)
    } else if anchoring is Err {
        Err(anchoring->Err_0)
    } else if signature is Err {
        Err(signature->Err_0)
    } else if seq is Err {
        Err(seq->Err_0)
    } else if snapshot_id is Err {
        Err(snapshot_id->Err_0)
    } else if notarized_at is Err {
        Err(notarized_at->Err_0)
    } else if passport_id is Err {
        Err(passport_id->Err_0)
    } else if state_hash is Err {
        Err(state_hash->Err_0)
    } else if log_head is Err {
        Err(log_head->Err_0)
    } else if submitter is Err {
        Err(submitter->Err_0)
    } else if state_size is Err {
        Err(state_size->Err_0)
    } else if key_id is Err {
        Err(key_id->Err_0)
    } else if body_digest is Err {
        Err(body_digest->Err_0)
    } else {
        Ok(
            RecordView {
                seq: seq->Ok_0,
                snapshot_id: snapshot_id->Ok_0,
                notarized_at: notarized_at->Ok_0,
                passport_id: passport_id->Ok_0,
                state_hash: state_hash->Ok_0,
                log_head: log_head->Ok_0,
                submitter: submitter->Ok_0,
                state_size: state_size->Ok_0,
                anchoring: anchoring->Ok_0,
                signature: signature->Ok_0,
                key_id: key_id->Ok_0,
                body_digest: body_digest->Ok_0,
            },
        )
    }
}

/// A record that is not sealed yet.
pub open spec fn fresh(
    seq: u64,
    notarized_at: Timestamp,
    passport_id: Seq<char>,
    state_hash: Seq<u8>,
    log_head: Seq<u8>,
    submitter: Option<Seq<char>>,
    state_size: Option<u64>,
) -> RecordView {
    RecordView {
        seq,
        snapshot_id: id_of(seq),
        notarized_at,
        passport_id,
        state_hash,
        log_head,
        submitter,
        state_size,
        anchoring: AnchoringView::bare(AnchoringStatus::Unanchored, None),
        signature: Seq::empty(),
        key_id: ""@,
        body_digest: zero_digest(),
    }
}

fn read_signature(v: &Value) -> (r: Result<Vec<u8>, String>)
    ensures
        match signature_in(json::field(json::json_of(*v), "signature"@)) {
            Ok(b) => r is Ok && r->Ok_0@ == b,
            Err(e) => r is Err && r->Err_0@ == e,
        },
{
    match fields::read_required_text(v, "signature") {
        Ok(s) => match hex::hex_decode(&s) {
            Ok(b) => Ok(b),
            Err(e) => Err(text::cat2("`signature`: ", &e)),
        },
        Err(e) => Err(e),
    }
}

impl SnapshotRecord {
    /// A fresh, unsigned record (anchoring defaults to unanchored with no
    /// reason; the real outcome is set before sealing).
    pub fn new(
        seq: u64,
        notarized_at: Timestamp,
        passport_id: String,
        state_hash: crate::hash::Hash,
        log_head: crate::hash::Hash,
        submitter: Option<String>,
        state_size: Option<u64>,
    ) -> (r: SnapshotRecord)
        ensures
            r@ == fresh(
                seq,
                notarized_at,
                passport_id@,
                state_hash@,
                log_head@,
                submitter.deep_view(),
                state_size,
            ),
    {
        let r = SnapshotRecord {
            seq,
            snapshot_id: snapshot_id_of(seq),
            notarized_at,
            passport_id,
            state_hash,
            log_head,
            submitter,
            state_size,
            anchoring: Anchoring::unanchored_default(),
            signature: Vec::new(),
            key_id: "".to_owned(),
            body_digest: zero_hash(),
        };
        r
    }

    /// Replace the anchoring outcome (must happen before sealing, because the
    /// signature covers it).
    pub fn set_anchoring(&mut self, anchoring: Anchoring)
        ensures
            final(self)@ == (RecordView { anchoring: anchoring@, ..old(self)@ }),
    {
        self.anchoring = anchoring;
    }

    /// The canonical core statement bytes.
    pub fn core_statement_bytes<W: Fn(&Vec<CanonicalField>) -> Vec<u8>>(&self, writer: &W) -> (r:
        Vec<u8>)
        requires
            canonical::is_writer(*writer),
        ensures
            r@ == core_bytes(*writer, self@),
            canonical::encodes(*writer, core_fields_of(self@), r@),
    {
        canonical_core(
            writer,
            &self.snapshot_id,
            self.seq,
            &self.passport_id,
            &self.state_hash,
            &self.log_head,
            self.notarized_at,
        )
    }

    /// The canonical full statement bytes (core + anchoring).
    pub fn statement_bytes<W: Fn(&Vec<CanonicalField>) -> Vec<u8>>(&self, writer: &W) -> (r: Vec<u8>)
        requires
            canonical::is_writer(*writer),
        ensures
            r@ == statement_bytes(*writer, self@),
            stated(*writer, self@),
    {
        canonical_statement(writer, self.core_statement_bytes(writer), &self.anchoring)
    }

    /// The commitment the transparency log anchors: the SHA-256 of the core
    /// statement bytes.
    pub fn commitment<W: Fn(&Vec<CanonicalField>) -> Vec<u8>>(&self, writer: &W) -> (r:
        crate::hash::Hash)
        requires
            canonical::is_writer(*writer),
        ensures
            r@ == commitment_of(*writer, self@),
    {
        hash::sha256(self.core_statement_bytes(writer).as_slice())
    }

    /// Notarize and seal: have the notary sign the statement bytes, record the
    /// key id, and fix the rendered-body digest. Re-sealing recomputes
    /// everything.
    pub fn seal<
        W: Fn(&Vec<CanonicalField>) -> Vec<u8>,
        N: FnOnce(&Vec<u8>) -> Result<Notarization, String>,
    >(&mut self, writer: &W, notary: N) -> (r: Result<(), String>)
        requires
            canonical::is_writer(*writer),
            forall|b: Vec<u8>|
                b@ == statement_bytes(*writer, old(self)@) ==> #[trigger] notary.requires((&b,)),
        ensures
            exists|b: Vec<u8>, answer: Result<Notarization, String>| #[trigger]
                notary.ensures((&b,), answer) && b@ == statement_bytes(*writer, old(self)@) && (
                final(self)@,
                text::outcome(r),
            ) == seal_outcome(*writer, old(self)@, text::outcome(answer)),
    {
        let b = self.statement_bytes(writer);
        let answer = notary(&b);
        self.apply_notarization(writer, answer)
    }

    /// Seal the record with the answer of a notary to its statement bytes.
    pub fn apply_notarization<W: Fn(&Vec<CanonicalField>) -> Vec<u8>>(
        &mut self,
        writer: &W,
        answer: Result<Notarization, String>,
    ) -> (r: Result<(), String>)
        requires
            canonical::is_writer(*writer),
        ensures
            (final(self)@, text::outcome(r)) == seal_outcome(
                *writer,
                old(self)@,
                text::outcome(answer),
            ),
    {
        match answer {
            Ok(n) => {
                self.signature = match n.signature {
                    Some(b) => b,
                    None => Vec::new(),
                };
                self.key_id = n.key_id;
                let commitment = self.commitment(writer);
                self.anchoring.commitment = Some(commitment);
                let body = self.render_body(writer);
                self.body_digest = hash::sha256_text(&body);
                Ok(())
            },
            Err(e) => Err(text::cat2("notarization sign: ", &e)),
        }
    }

    fn submission_value(&self) -> (v: Value)
        ensures
            json::json_of(v) == submission(self@),
    {
        let mut e = json::entries();
        json::put(&mut e, "submitter", json::opt_text(&self.submitter));
        json::put(&mut e, "submitted_at", json::string(self.notarized_at.to_string()));
        json::put(&mut e, "passport_id", json::text(&self.passport_id));
        json::put(&mut e, "state_hash", json::string(self.state_hash.hex()));
        json::put(&mut e, "log_head", json::string(self.log_head.hex()));
        json::put(&mut e, "state_size", json::opt_uint(self.state_size));
        json::object(e)
    }

    fn information_package_value(&self, statement: &Vec<u8>) -> (v: Value)
        ensures
            json::json_of(v) == information_package(self@, statement@),
    {
        let mut e = json::entries();
        json::put(&mut e, "passport_id", json::text(&self.passport_id));
        json::put(&mut e, "state_hash", json::string(self.state_hash.hex()));
        json::put(&mut e, "log_head", json::string(self.log_head.hex()));
        json::put(&mut e, "as_of", json::string(self.notarized_at.to_string()));
        json::put(&mut e, "commitment", anchoring::digest_value(&self.anchoring.commitment));
        json::put(
            &mut e,
            "statement_digest",
            json::string(hash::sha256(statement.as_slice()).hex()),
        );
        json::object(e)
    }

    fn signing_value(&self) -> (v: Value)
        ensures
            json::json_of(v) == signing(self@),
    {
        let mut e = json::entries();
        json::put(&mut e, "suite", json::text(SUITE));
        json::put(&mut e, "key_id", json::text(&self.key_id));
        json::put(&mut e, "domain", json::text(DOMAIN));
        json::put(&mut e, "adapter_note", json::text(ADAPTER_NOTE));
        json::object(e)
    }

    fn provenance_value(&self) -> (v: Value)
        ensures
            json::json_of(v) == provenance(self@),
    {
        let mut e = json::entries();
        json::put(&mut e, "service", json::text(SERVICE_ID));
        json::put(&mut e, "notarized_at", json::string(self.notarized_at.to_string()));
        json::put(&mut e, "signing", self.signing_value());
        json::put(&mut e, "anchoring", self.anchoring.to_document_json());
        json::put(&mut e, "receipt", anchoring::receipt_value(&self.anchoring.receipt));
        json::put(&mut e, "signature", json::string(hex::hex_encode(self.signature.as_slice())));
        json::put(&mut e, "verification", json::text(VERIFICATION));
        json::object(e)
    }

    /// The served document (the wire view of the archival package).
    pub fn to_document<W: Fn(&Vec<CanonicalField>) -> Vec<u8>>(&self, writer: &W) -> (v: Value)
        requires
            canonical::is_writer(*writer),
        ensures
            json::json_of(v) == document(*writer, self@),
    {
        let statement = self.statement_bytes(writer);
        let mut oais = json::entries();
        let mut e = json::entries();
        json::put(&mut oais, "profile", json::text(OAIS_PROFILE));
        json::put(&mut oais, "submission", self.submission_value());
        json::put(
            &mut oais,
            "information_package",
            self.information_package_value(&statement),
        );
        json::put(&mut oais, "provenance", self.provenance_value());
        json::put(&mut e, "schema", json::text(SCHEMA));
        json::put(&mut e, "service", json::text(SERVICE_ID));
        json::put(&mut e, "snapshot_id", json::text(&self.snapshot_id));
        json::put(&mut e, "seq", json::uint(self.seq));
        json::put(&mut e, "as_of", json::string(self.notarized_at.to_string()));
        json::put(&mut e, "oais", json::object(oais));
        json::object(e)
    }

    /// The exact served text (pretty-printed; sorted keys make it a pure
    /// function of the record).
    pub fn render_body<W: Fn(&Vec<CanonicalField>) -> Vec<u8>>(&self, writer: &W) -> (r: String)
        requires
            canonical::is_writer(*writer),
        ensures
            r@ == body_text(*writer, self@),
            plain_receipt(self@, DOCUMENT_RECEIPT_DEPTH as nat) ==> json::json_parsed(r@) == json::reads_as(
                document(*writer, self@),
            ),
    {
        proof {
            if plain_receipt(self@, DOCUMENT_RECEIPT_DEPTH as nat) {
                record_laws::lemma_document_portable(*writer, self@);
            }
        }
        json::pretty(&self.to_document(writer))
    }

    /// The journal line (the storage unit, which reads back).
    pub fn to_journal_json(&self) -> (v: Value)
        ensures
            json::json_of(v) == journal_line(self@),
    {
        let mut e = json::entries();
        json::put(&mut e, "seq", json::uint(self.seq));
        json::put(&mut e, "snapshot_id", json::text(&self.snapshot_id));
        json::put(&mut e, "notarized_at", json::string(self.notarized_at.to_string()));
        json::put(&mut e, "passport_id", json::text(&self.passport_id));
        json::put(&mut e, "state_hash", json::string(self.state_hash.hex()));
        json::put(&mut e, "log_head", json::string(self.log_head.hex()));
        json::put(&mut e, "submitter", json::opt_text(&self.submitter));
        json::put(&mut e, "state_size", json::opt_uint(self.state_size));
        json::put(&mut e, "anchoring", self.anchoring.to_journal_json());
        json::put(&mut e, "signature", json::string(hex::hex_encode(self.signature.as_slice())));
        json::put(&mut e, "key_id", json::text(&self.key_id));
        json::put(&mut e, "body_digest", json::string(self.body_digest.hex()));
        json::object(e)
    }

    /// Rebuild a record from its journal line.
    pub fn from_journal_json(v: &Value) -> (r: Result<SnapshotRecord, String>)
        ensures
            text::outcome(r) == record_of(json::json_of(*v)),
    {
        if !v.is_object() {
            return Err("snapshot record must be an object".to_owned());
        }
        let anchoring = match json::get(v, "anchoring") {
            Some(a) => match Anchoring::from_json(a) {
                Ok(x) => x,
                Err(e) => {
                    return Err(e);
                },
            },
            None => {
                return Err("missing `anchoring`".to_owned());
            },
        };
        let signature = match read_signature(v) {
            Ok(x) => x,
            Err(e) => {
                return Err(e);
            },
        };
        let seq: u64 = match fields::read_required_number(v, "seq") {
            Ok(x) => x,
            Err(e) => {
                return Err(e);
            },
        };
        let snapshot_id = match fields::read_required_text(v, "snapshot_id") {
            Ok(x) => x,
            Err(e) => {
                return Err(e);
            },
        };
        let notarized_at = match fields::read_required_instant(v, "notarized_at") {
            Ok(x) => x,
            Err(e) => {
                return Err(e);
            },
        };
        let passport_id = match fields::read_required_text(v, "passport_id") {
            Ok(x) => x,
            Err(e) => {
                return Err(e);
            },
        };
        let state_hash = match fields::read_required_digest(v, "state_hash") {
            Ok(x) => x,
            Err(e) => {
                return Err(e);
            },
        };
        let log_head = match fields::read_required_digest(v, "log_head") {
            Ok(x) => x,
            Err(e) => {
                return Err(e);
            },
        };
        let submitter = match fields::read_optional_text(v, "submitter", "submitter") {
            Ok(x) => x,
            Err(e) => {
                return Err(e);
            },
        };
        let state_size = match fields::read_optional_number(v, "state_size", "state_size") {
            Ok(x) => x,
            Err(e) => {
                return Err(e);
            },
        };
        let key_id = match fields::read_required_text(v, "key_id") {
            Ok(x) => x,
            Err(e) => {
                return Err(e);
            },
        };
        let body_digest = match fields::read_required_digest(v, "body_digest") {
            Ok(x) => x,
            Err(e) => {
                return Err(e);
            },
        };
        Ok(
            SnapshotRecord {
                seq,
                snapshot_id,
                notarized_at,
                passport_id,
                state_hash,
                log_head,
                submitter,
                state_size,
                anchoring,
                signature,
                key_id,
                body_digest,
            },
        )
    }
}

} // verus!
