//! What the answers of the service say.

use vstd::prelude::*;
use crate::api::access;
use crate::api::discovery;
use crate::api::ingest;
use crate::api::paths;
use crate::api::request;
use crate::api::request::CreateView;
use crate::api::response;
use crate::api::response::ResponseView;
use crate::canonical::CanonicalField;
use crate::hex;
use crate::json;
use crate::json::JsonView;
use crate::keys;
use crate::laws::archive;
use crate::laws::documents;
use crate::laws::service;
use crate::laws::texts;
use crate::laws::words;
use crate::model::anchoring;
use crate::model::anchoring::AnchoringStatus;
use crate::model::anchoring::SummaryView;
use crate::model::record;
use crate::model::record::NotarizationView;
use crate::model::record::RecordView;
use crate::store;
use crate::store::SnapshotFile;
use crate::store::StoreErrorView;
use crate::text;
use crate::time;
use crate::time::Timestamp;

verus! {

/// Whether an answer has one header of this name, and it has this value.
pub open spec fn header_is(a: ResponseView, name: Seq<char>, value: Seq<char>) -> bool {
    exists|i: int|
        0 <= i < a.headers.len() && #[trigger] a.headers[i] == (name, value) && forall|j: int|
            0 <= j < a.headers.len() && (#[trigger] a.headers[j]).0 == name ==> j == i
}

/// Whether an answer has no header of this name.
pub open spec fn header_is_missing(a: ResponseView, name: Seq<char>) -> bool {
    forall|i: int| 0 <= i < a.headers.len() ==> (#[trigger] a.headers[i]).0 != name
}

/// Whether a text is a strong entity tag of a digest: `sha-` and the first 32
/// hexadecimal digits, in quotes.
pub open spec fn tags(t: Seq<char>, digest: Seq<u8>) -> bool {
    &&& t.len() == 38
    &&& t.take(5) == seq!['"', 's', 'h', 'a', '-']
    &&& words::spells(t.subrange(5, 37), digest.take(16))
    &&& words::lower(t.subrange(5, 37))
    &&& t[37] == '"'
}

/// An entity tag is made of the first half of a digest, so that bodies whose digests
/// differ there have different tags.
pub proof fn law_entity_tag_is_of_the_digest(digest: Seq<u8>)
    requires
        digest.len() == 32,
    ensures
        tags(ingest::entity_tag(digest), digest),
{
    let t = ingest::entity_tag(digest);
    let h = hex::hex_text(digest);
    let half = hex::hex_text(digest.take(16));
    reveal_strlit("\"sha-");
    reveal_strlit("\"");
    assert(h.take(32) =~= half) by {
        assert forall|i: int| 0 <= i < 32 implies h[i] == half[i] by {
            assert(digest.take(16)[i / 2] == digest[i / 2]);
        }
    }
    texts::law_bytes_are_spelled(digest.take(16));
    assert(t.subrange(5, 37) =~= half);
    assert(t.take(5) =~= seq!['"', 's', 'h', 'a', '-']);
}

// ---------------------------------------------------------------------------
// Ingest
// ---------------------------------------------------------------------------

/// A created snapshot is answered with its document and with headers that repeat what
/// the document says: where it is served, its id, its instant, its entity tag and,
/// where the document says that it is anchored, the receipt number that stands there.
pub proof fn law_created_answer_repeats_the_document<W: Fn(&Vec<CanonicalField>) -> Vec<u8>>(
    w: W,
    r: RecordView,
)
    requires
        r.anchoring.status == AnchoringStatus::Anchored ==> r.anchoring.receipt_seq is Some,
    ensures
        ({
            let a = ingest::created(w, r);
            let doc = record::document(w, r);
            let x = documents::part(documents::section(doc, "provenance"@), "anchoring"@);
            &&& a.status == 201
            &&& a.body == json::pretty_text(doc)
            &&& header_is(a, "content-type"@, "application/json"@)
            &&& words::says(doc, "snapshot_id"@, r.snapshot_id)
            &&& header_is(a, "location"@, "/snapshots/"@ + r.snapshot_id)
            &&& header_is(a, "x-snapshot-id"@, r.snapshot_id)
            &&& words::says(doc, "as_of"@, time::stamp_text(r.notarized_at))
            &&& header_is(a, "x-as-of"@, time::stamp_text(r.notarized_at))
            &&& header_is(a, "etag"@, ingest::entity_tag(r.body_digest))
            &&& header_is(a, "cache-control"@, "no-store"@)
            &&& words::says(x, "status"@, "anchored"@) ==> exists|t: Seq<char>| #[trigger]
                words::says(x, "receipt_id"@, t) && header_is(a, "x-anchored-receipt"@, t)
                    && words::writes(t, r.anchoring.receipt_seq->0 as int)
            &&& words::says(x, "status"@, "unanchored"@) ==> header_is_missing(
                a,
                "x-anchored-receipt"@,
            )
        }),
{
    let a = ingest::created(w, r);
    let doc = record::document(w, r);
    let x = documents::part(documents::section(doc, "provenance"@), "anchoring"@);
    documents::law_document_states_its_record(w, r);
    keys::lemma_header_names();
    keys::lemma_anchoring_keys();
    let h = a.headers;
    assert(h[0] == ("content-type"@, "application/json"@));
    assert(h[1] == ("location"@, "/snapshots/"@ + r.snapshot_id));
    assert(h[2] == ("x-snapshot-id"@, r.snapshot_id));
    assert(h[3] == ("x-as-of"@, time::stamp_text(r.notarized_at)));
    assert(h[4] == ("etag"@, ingest::entity_tag(r.body_digest)));
    assert(h[h.len() - 1] == ("cache-control"@, "no-store"@));
    if r.anchoring.status == AnchoringStatus::Anchored {
        let n = r.anchoring.receipt_seq->0;
        assert(h.len() == 7);
        assert(h[5] == ("x-anchored-receipt"@, text::decimal(n as nat)));
        texts::law_decimal_writes_its_number(n as nat);
        let t = choose|t: Seq<char>| #[trigger]
            words::says(x, "receipt_id"@, t) && words::writes(t, n as int);
        lemma_numeral_is_unique(t, text::decimal(n as nat), n as int);
    } else {
        assert(h.len() == 6);
    }
}

/// A number has one numeral without leading zeros.
pub proof fn lemma_numeral_is_unique(s: Seq<char>, t: Seq<char>, n: int)
    requires
        words::writes(s, n),
        words::writes(t, n),
    ensures
        s == t,
    decreases s.len(),
{
    lemma_figure_bounds(s);
    lemma_figure_bounds(t);
    if s.len() == 1 && t.len() == 1 {
        reveal_with_fuel(words::figure, 2);
        assert(s =~= t);
    } else if s.len() == 1 || t.len() == 1 {
        reveal_with_fuel(words::figure, 2);
        assert('0' <= s[s.len() - 1] <= '9');
        assert('0' <= t[t.len() - 1] <= '9');
        if s.len() == 1 {
            lemma_long_numeral(t);
        } else {
            lemma_long_numeral(s);
        }
    } else {
        let (u, v) = (s.drop_last(), t.drop_last());
        assert forall|i: int| 0 <= i < u.len() implies '0' <= #[trigger] u[i] <= '9' by {
            assert(u[i] == s[i]);
        }
        assert forall|i: int| 0 <= i < v.len() implies '0' <= #[trigger] v[i] <= '9' by {
            assert(v[i] == t[i]);
        }
        assert('0' <= s[s.len() - 1] <= '9');
        assert('0' <= t[t.len() - 1] <= '9');
        assert(words::figure(u) == words::figure(v) && s.last() == t.last());
        lemma_numeral_is_unique(u, v, words::figure(u));
        assert(s =~= u.push(s.last()));
        assert(t =~= v.push(t.last()));
    }
}

proof fn lemma_figure_bounds(s: Seq<char>)
    requires
        words::figures(s),
    ensures
        words::figure(s) >= 0,
    decreases s.len(),
{
    let u = s.drop_last();
    assert('0' <= s[s.len() - 1] <= '9');
    if u.len() > 0 {
        assert forall|i: int| 0 <= i < u.len() implies '0' <= #[trigger] u[i] <= '9' by {
            assert(u[i] == s[i]);
        }
        lemma_figure_bounds(u);
    }
}

proof fn lemma_long_numeral(s: Seq<char>)
    requires
        words::figures(s),
        s.len() > 1,
        s[0] != '0',
    ensures
        words::figure(s) >= 10,
    decreases s.len(),
{
    let u = s.drop_last();
    assert forall|i: int| 0 <= i < u.len() implies '0' <= #[trigger] u[i] <= '9' by {
        assert(u[i] == s[i]);
    }
    assert('0' <= s[s.len() - 1] <= '9');
    assert(u[0] == s[0]);
    if u.len() > 1 {
        lemma_long_numeral(u);
    } else {
        reveal_with_fuel(words::figure, 3);
    }
}

/// Lower-case hexadecimal text is the one that is written.
pub proof fn lemma_spelling_is_unique(s: Seq<char>, b: Seq<u8>)
    requires
        words::spells(s, b),
        words::lower(s),
    ensures
        s == hex::hex_text(b),
{
    let t = hex::hex_text(b);
    texts::law_bytes_are_spelled(b);
    assert forall|i: int| 0 <= i < s.len() implies s[i] == t[i] by {
        let k = i / 2;
        assert(0 <= b[k]);
        assert(!('A' <= s[i] <= 'F') && !('A' <= t[i] <= 'F'));
        let (p, q) = (words::nibble(s[2 * k]), words::nibble(s[2 * k + 1]));
        let (u, v) = (words::nibble(t[2 * k]), words::nibble(t[2 * k + 1]));
        assert(16 * p + q == b[k] && 16 * u + v == b[k]);
        assert(0 <= p < 16 && 0 <= q < 16 && 0 <= u < 16 && 0 <= v < 16);
        assert(p == u && q == v);
        if i % 2 == 0 {
            assert(i == 2 * k);
        } else {
            assert(i == 2 * k + 1);
        }
        assert(words::nibble(s[i]) == words::nibble(t[i]));
    }
    assert(s =~= t);
}

/// A snapshot is anchored exactly if the log gave a receipt that says all of an
/// anchor, that names the commitment that was sent, and that reads back from a journal
/// line. Then the outcome holds what the receipt says.
pub proof fn law_anchored_as_the_receipt_says(
    receipt: Result<JsonView, Seq<char>>,
    commitment: Seq<u8>,
    s: SummaryView,
)
    ensures
        ({
            let a = ingest::anchoring_for(receipt, commitment);
            &&& a.status == AnchoringStatus::Anchored <==> (receipt matches Ok(j) && (exists|
                x: SummaryView,
            | documents::receipt_said(j, x)) && words::spelled(j, "commitment"@, commitment)
                && json::portable(j, 125))
            &&& a.status == AnchoringStatus::Anchored && documents::receipt_said(receipt->Ok_0, s)
                ==> {
                &&& a.log_id == Some(s.log_id)
                &&& a.receipt_seq == Some(s.receipt_seq)
                &&& a.tree_size == Some(s.tree_size)
                &&& a.root == Some(s.root)
                &&& a.logged_at == Some(s.logged_at)
                &&& a.receipt == Some(receipt->Ok_0)
                &&& a.commitment == Some(commitment)
                &&& a.reason is None
            }
            &&& a.status == AnchoringStatus::Unanchored ==> {
                &&& a.reason is Some
                &&& a.log_id is None && a.receipt_seq is None && a.tree_size is None
                &&& a.root is None && a.logged_at is None && a.receipt is None
            }
            &&& receipt matches Err(e) ==> a.reason == Some(e)
        }),
{
    if receipt is Ok {
        let j = receipt->Ok_0;
        documents::law_receipt_is_read_as_it_says(j, s);
        if anchoring::summary_of(j) is Ok {
            let x = anchoring::summary_of(j)->Ok_0;
            documents::law_receipt_is_read_as_it_says(j, x);
            assert(documents::receipt_said(j, x));
        }
        if exists|x: SummaryView| documents::receipt_said(j, x) {
            let x = choose|x: SummaryView| documents::receipt_said(j, x);
            documents::law_receipt_is_read_as_it_says(j, x);
        }
        texts::law_bytes_are_spelled(commitment);
        if ingest::names_commitment(j, commitment) {
            assert(words::says(j, "commitment"@, hex::hex_text(commitment)));
        }
        if words::spelled(j, "commitment"@, commitment) {
            let t = choose|t: Seq<char>| #[trigger]
                words::says(j, "commitment"@, t) && words::spells(t, commitment) && words::lower(t);
            lemma_spelling_is_unique(t, commitment);
        }
    }
}

/// An ingest makes a record of what was submitted, whole: under the next sequence
/// number and its id, as of now, with what came of the anchoring attempt and what the
/// notary gave, and its document says so.
pub proof fn law_ingest_keeps_what_was_submitted<W: Fn(&Vec<CanonicalField>) -> Vec<u8>>(
    w: W,
    next: u64,
    req: CreateView,
    receipt: Result<JsonView, Seq<char>>,
    commitment: Seq<u8>,
    n: NotarizationView,
    now: Timestamp,
)
    ensures
        ({
            let r = service::ingested(w, next as nat, req, receipt, commitment, n, now);
            let doc = record::document(w, r);
            let sub = documents::section(doc, "submission"@);
            let ip = documents::section(doc, "information_package"@);
            let pv = documents::section(doc, "provenance"@);
            &&& r.seq == next
            &&& words::has(doc, "seq"@, JsonView::UInt(next))
            &&& words::says(doc, "as_of"@, time::stamp_text(now))
            &&& words::says(sub, "passport_id"@, req.passport_id)
            &&& words::says(ip, "passport_id"@, req.passport_id)
            &&& words::spelled(sub, "state_hash"@, req.state_hash)
            &&& words::spelled(ip, "state_hash"@, req.state_hash)
            &&& words::spelled(sub, "log_head"@, req.log_head)
            &&& words::spelled(ip, "log_head"@, req.log_head)
            &&& words::says_or_null(sub, "submitter"@, req.submitter)
            &&& words::counts_or_null(sub, "state_size"@, req.state_size)
            &&& words::says(ip, "as_of"@, time::stamp_text(now))
            &&& words::says(documents::part(pv, "signing"@), "key_id"@, n.key_id)
            &&& words::spelled(pv, "signature"@, n.signature)
            &&& receipt matches Err(e) ==> words::says(
                documents::part(pv, "anchoring"@),
                "status"@,
                "unanchored"@,
            ) && words::says(documents::part(pv, "anchoring"@), "reason"@, e)
        }),
{
    let r = service::ingested(w, next as nat, req, receipt, commitment, n, now);
    documents::law_document_states_its_record(w, r);
}

/// The receipt header of an ingest is the number that the log's receipt says, and only
/// an anchored one has it.
pub proof fn law_receipt_header_is_the_logs_number<W: Fn(&Vec<CanonicalField>) -> Vec<u8>>(
    w: W,
    next: u64,
    req: CreateView,
    receipt: Result<JsonView, Seq<char>>,
    commitment: Seq<u8>,
    n: NotarizationView,
    now: Timestamp,
    s: SummaryView,
)
    ensures
        ({
            let r = service::ingested(w, next as nat, req, receipt, commitment, n, now);
            let a = ingest::created(w, r);
            &&& r.anchoring.status == AnchoringStatus::Anchored && documents::receipt_said(
                receipt->Ok_0,
                s,
            ) ==> exists|t: Seq<char>| #[trigger]
                header_is(a, "x-anchored-receipt"@, t) && words::writes(t, s.receipt_seq as int)
            &&& r.anchoring.status == AnchoringStatus::Unanchored ==> header_is_missing(
                a,
                "x-anchored-receipt"@,
            )
        }),
{
    let r = service::ingested(w, next as nat, req, receipt, commitment, n, now);
    law_anchored_as_the_receipt_says(receipt, commitment, s);
    if r.anchoring.status == AnchoringStatus::Anchored {
        law_created_answer_repeats_the_document(w, r);
        documents::law_document_states_its_record(w, r);
    } else {
        law_created_answer_repeats_the_document(w, r);
        documents::law_document_states_its_record(w, r);
    }
}

/// What an ingest that is answered 201 answers: a document and headers that agree. If the
/// document says that the snapshot is anchored, the receipt header is the receipt id in
/// the document, and it writes the number that the log's receipt says; if it says that
/// the snapshot is not anchored, there is no receipt header.
pub proof fn law_ingest_answer_tells_the_receipt<
    W: Fn(&Vec<CanonicalField>) -> Vec<u8>,
    F: FnOnce(&SnapshotFile) -> Result<(), String>,
    L: FnOnce(&String) -> Result<(), String>,
>(
    w: W,
    write_file: F,
    write_line: L,
    rs: Seq<RecordView>,
    pending: RecordView,
    receipt: Result<JsonView, Seq<char>>,
    commitment: Seq<u8>,
    notarized: Result<NotarizationView, Seq<char>>,
    now: Timestamp,
    after: Seq<RecordView>,
    a: ResponseView,
    s: SummaryView,
)
    requires
        ingest::ingest_outcome(
            w,
            write_file,
            write_line,
            rs,
            ingest::settled(pending, receipt, commitment),
            notarized,
            now,
            after,
            a,
        ),
        a.status == 201,
    ensures
        exists|doc: JsonView| #[trigger] json::pretty_text(doc) == a.body && agrees(doc, a, receipt, s),
{
    let r = ingest::settled(pending, receipt, commitment);
    service::law_answer_tells_the_outcome(
        w,
        write_file,
        write_line,
        rs,
        r,
        notarized,
        now,
        after,
        a,
    );
    let sealed = record::sealed(w, r, notarized->Ok_0);
    let doc = record::document(w, sealed);
    documents::law_sealing_leaves_the_rest(w, r, notarized->Ok_0);
    documents::law_document_states_its_record(w, sealed);
    law_anchored_as_the_receipt_says(receipt, commitment, s);
    if sealed.anchoring.status == AnchoringStatus::Anchored {
        let j = receipt->Ok_0;
        let x = choose|x: SummaryView| documents::receipt_said(j, x);
        law_anchored_as_the_receipt_says(receipt, commitment, x);
    }
    law_created_answer_repeats_the_document(w, sealed);
    assert(json::pretty_text(doc) == a.body);
}

/// Whether a document and the headers of an answer agree on the anchoring outcome, and
/// on the number of the receipt that the log gave.
pub open spec fn agrees(
    doc: JsonView,
    a: ResponseView,
    receipt: Result<JsonView, Seq<char>>,
    s: SummaryView,
) -> bool {
    let x = documents::part(documents::section(doc, "provenance"@), "anchoring"@);
    &&& words::says(x, "status"@, "anchored"@) ==> receipt is Ok && exists|t: Seq<char>| #[trigger]
        words::says(x, "receipt_id"@, t) && header_is(a, "x-anchored-receipt"@, t) && (
        documents::receipt_said(receipt->Ok_0, s) ==> words::writes(t, s.receipt_seq as int))
    &&& words::says(x, "status"@, "unanchored"@) ==> header_is_missing(a, "x-anchored-receipt"@)
    &&& words::says(x, "status"@, "anchored"@) || words::says(x, "status"@, "unanchored"@)
}

/// A commitment is sent to the log under the snapshot's own subject.
pub proof fn law_subject_names_the_snapshot(id: Seq<char>)
    ensures
        ingest::subject_of(id) == "urn:unidpp:archive:snapshot:"@ + id,
{
}

// ---------------------------------------------------------------------------
// Access
// ---------------------------------------------------------------------------

/// A snapshot is served as its document, with its instant and entity tag, to be cached
/// for ever.
pub proof fn law_served_answer_repeats_the_document<W: Fn(&Vec<CanonicalField>) -> Vec<u8>>(
    w: W,
    r: RecordView,
)
    ensures
        ({
            let a = access::served(w, r);
            let doc = record::document(w, r);
            &&& a.status == 200
            &&& a.body == json::pretty_text(doc)
            &&& header_is(a, "content-type"@, "application/json"@)
            &&& words::says(doc, "as_of"@, time::stamp_text(r.notarized_at))
            &&& header_is(a, "x-as-of"@, time::stamp_text(r.notarized_at))
            &&& header_is(a, "etag"@, ingest::entity_tag(r.body_digest))
            &&& header_is(a, "cache-control"@, "public, max-age=86400, immutable"@)
        }),
{
    let a = access::served(w, r);
    documents::law_document_states_its_record(w, r);
    keys::lemma_header_names();
    assert(a.headers.len() == 4);
    assert(a.headers[0] == ("content-type"@, "application/json"@));
    assert(a.headers[1] == ("x-as-of"@, time::stamp_text(r.notarized_at)));
    assert(a.headers[2] == ("etag"@, ingest::entity_tag(r.body_digest)));
    assert(a.headers[3] == ("cache-control"@, "public, max-age=86400, immutable"@));
}

/// The record of an id is the first that has exactly this id, and there is none exactly
/// if none has it.
pub proof fn law_record_is_found_by_its_id(rs: Seq<RecordView>, id: Seq<char>)
    ensures
        match store::found(rs, id) {
            Some(r) => exists|i: int|
                0 <= i < rs.len() && #[trigger] rs[i] == r && r.snapshot_id == id && forall|j: int|
                    0 <= j < i ==> (#[trigger] rs[j]).snapshot_id != id,
            None => forall|i: int| 0 <= i < rs.len() ==> (#[trigger] rs[i]).snapshot_id != id,
        },
{
    if store::found(rs, id) is None {
        assert forall|i: int| 0 <= i < rs.len() implies (#[trigger] rs[i]).snapshot_id != id by {
            if rs[i].snapshot_id == id {
                lemma_first(rs, id, i);
            }
        }
    } else {
        let i = choose|i: int| store::first_with_id(rs, id, i);
        assert(rs[i] == store::found(rs, id)->0);
    }
}

proof fn lemma_first(rs: Seq<RecordView>, id: Seq<char>, i: int)
    requires
        0 <= i < rs.len(),
        rs[i].snapshot_id == id,
    ensures
        exists|k: int| store::first_with_id(rs, id, k),
    decreases i,
{
    if exists|j: int| 0 <= j < i && (#[trigger] rs[j]).snapshot_id == id {
        let j = choose|j: int| 0 <= j < i && (#[trigger] rs[j]).snapshot_id == id;
        lemma_first(rs, id, j);
    } else {
        assert(store::first_with_id(rs, id, i));
    }
}

/// Access serves the record of the id that is asked for, without the white space
/// around it, and answers 404 with the id where there is none.
pub proof fn law_access_serves_what_is_asked<W: Fn(&Vec<CanonicalField>) -> Vec<u8>>(
    w: W,
    rs: Seq<RecordView>,
    asked: Seq<char>,
    id: Seq<char>,
    now: Timestamp,
)
    requires
        words::stripped(asked, id),
    ensures
        access::access_answer(w, rs, asked, now) == match store::found(rs, id) {
            Some(r) => access::served(w, r),
            None => response::error_answer(404, "no snapshot `"@ + id + "`"@, now),
        },
{
    texts::law_trimming_takes_white_space_only(asked, id);
}

/// An error is answered with its words, stamped with the time of the request and never
/// stored.
pub proof fn law_error_answer_says_what_is_wrong(status: u16, msg: Seq<char>, now: Timestamp)
    ensures
        ({
            let a = response::error_answer(status, msg, now);
            &&& a.status == status
            &&& header_is(a, "content-type"@, "application/json"@)
            &&& header_is(a, "x-as-of"@, time::stamp_text(now))
            &&& header_is(a, "cache-control"@, "no-store"@)
            &&& exists|doc: JsonView| #[trigger]
                json::pretty_text(doc) == a.body && words::says(doc, "error"@, msg)
                    && words::fields_are(doc, set!["error"@])
        }),
{
    let a = response::error_answer(status, msg, now);
    let doc = response::error_document(msg);
    keys::lemma_header_names();
    assert(doc->Obj_0.dom() =~= set!["error"@]);
    assert(json::pretty_text(doc) == a.body);
    assert(a.headers.len() == 3);
    assert(a.headers[0] == ("content-type"@, "application/json"@));
    assert(a.headers[1] == ("x-as-of"@, time::stamp_text(now)));
    assert(a.headers[2] == ("cache-control"@, "no-store"@));
}

/// A conflict is answered 409, and a broken archive 500.
pub proof fn law_store_failures_have_their_status(m: Seq<char>, now: Timestamp)
    ensures
        response::store_error_answer(StoreErrorView::Conflict(m), now) == response::error_answer(
            409,
            m,
            now,
        ),
        response::store_error_answer(StoreErrorView::Journal(m), now) == response::error_answer(
            500,
            "storage integrity failure: "@ + m,
            now,
        ),
{
}

// ---------------------------------------------------------------------------
// The catalogue
// ---------------------------------------------------------------------------

/// A record is listed exactly if it is in the archive, has the passport id that is
/// asked for, if one is, and was notarized at or before the instant, if one is given.
pub proof fn law_listing_has_what_is_asked_for(
    rs: Seq<RecordView>,
    p: Seq<char>,
    t: Timestamp,
    r: RecordView,
)
    ensures
        store::listed(rs, Some(p), Some(t)).contains(r) <==> rs.contains(r) && r.passport_id == p
            && r.notarized_at.secs <= t.secs,
        store::listed(rs, None, Some(t)).contains(r) <==> rs.contains(r) && r.notarized_at.secs
            <= t.secs,
        store::listed(rs, Some(p), None).contains(r) <==> rs.contains(r) && r.passport_id == p,
        store::listed(rs, None, None) == rs,
{
    archive::law_listing_is_exact(rs, Some(p), Some(t), r);
    archive::law_listing_is_exact(rs, None, Some(t), r);
    archive::law_listing_is_exact(rs, Some(p), None, r);
    lemma_all_listed(rs);
}

proof fn lemma_all_listed(rs: Seq<RecordView>)
    ensures
        store::listed(rs, None, None) == rs,
    decreases rs.len(),
{
    reveal(Seq::filter);
    if rs.len() > 0 {
        lemma_all_listed(rs.drop_last());
        assert(rs =~= rs.drop_last().push(rs.last()));
    } else {
        assert(store::listed(rs, None, None) =~= rs);
    }
}

/// A listing holds each record as often as the archive does, in its order: what is
/// added to the archive is added at its end or not at all.
pub proof fn law_listing_follows_the_archive(
    rs: Seq<RecordView>,
    p: Option<Seq<char>>,
    t: Option<Timestamp>,
    r: RecordView,
)
    ensures
        store::listed(Seq::empty(), p, t) == Seq::<RecordView>::empty(),
        store::listed(rs.push(r), p, t) == if (p matches Some(p) ==> r.passport_id == p) && (
        t matches Some(t) ==> r.notarized_at.secs <= t.secs) {
            store::listed(rs, p, t).push(r)
        } else {
            store::listed(rs, p, t)
        },
{
    reveal(Seq::filter);
    assert(rs.push(r).drop_last() =~= rs);
}

/// Whether a row of the catalogue says what it should of a record.
pub open spec fn row_said(j: JsonView, r: RecordView) -> bool {
    &&& words::says(j, "snapshot_id"@, r.snapshot_id)
    &&& words::has(j, "seq"@, JsonView::UInt(r.seq))
    &&& words::says(j, "passport_id"@, r.passport_id)
    &&& words::spelled(j, "state_hash"@, r.state_hash)
    &&& words::spelled(j, "log_head"@, r.log_head)
    &&& words::says(j, "notarized_at"@, time::stamp_text(r.notarized_at))
    &&& words::has(
        j,
        "anchored"@,
        JsonView::Bool(r.anchoring.status == AnchoringStatus::Anchored),
    )
    &&& words::says_or_null(j, "log_id"@, r.anchoring.log_id)
    &&& words::writes_or_null(j, "receipt_id"@, r.anchoring.receipt_seq)
    &&& words::counts_or_null(j, "tree_size"@, r.anchoring.tree_size)
    &&& words::spelled_or_null(j, "root"@, r.anchoring.root)
    &&& words::spelled(j, "body_sha256"@, r.body_digest)
    &&& words::says(j, "href"@, "/snapshots/"@ + r.snapshot_id)
}

/// A row of the catalogue states its record.
pub proof fn law_catalogue_row_states_its_record(r: RecordView)
    ensures
        row_said(access::catalogue_row(r), r),
{
    let j = access::catalogue_row(r);
    keys::lemma_row_keys();
    documents::lemma_spelled(j, "state_hash"@, r.state_hash);
    documents::lemma_spelled(j, "log_head"@, r.log_head);
    documents::lemma_spelled(j, "body_sha256"@, r.body_digest);
    documents::lemma_spelled_or_null(j, "root"@, r.anchoring.root);
    documents::lemma_written_or_null(j, "receipt_id"@, r.anchoring.receipt_seq);
}

/// The catalogue is answered with one row for each listed record, in order, their
/// number, the instant that it is as of, and what was asked for.
pub proof fn law_catalogue_answers_what_is_asked(
    rs: Seq<RecordView>,
    q: Map<Seq<char>, Seq<char>>,
    now: Timestamp,
)
    requires
        request::instant_asked(q) is Ok,
        rs.len() <= u64::MAX,
    ensures
        ({
            let at = request::instant_asked(q)->Ok_0;
            let t = match at {
                Some(t) => t,
                None => now,
            };
            let p = request::asked(q, "passport_id"@);
            let found = store::listed(rs, p, Some(t));
            let a = access::catalogue_answer(rs, q, now);
            &&& a.status == 200
            &&& header_is(a, "content-type"@, "application/json"@)
            &&& header_is(a, "x-as-of"@, time::stamp_text(t))
            &&& header_is(
                a,
                "cache-control"@,
                if at is Some {
                    "public, max-age=86400, immutable"@
                } else {
                    "public, max-age=30, must-revalidate"@
                },
            )
            &&& exists|doc: JsonView| #[trigger]
                json::pretty_text(doc) == a.body && catalogue_said(doc, found, t, at, p)
        }),
{
    let at = request::instant_asked(q)->Ok_0;
    let t = access::effective(at, now);
    let p = request::asked(q, "passport_id"@);
    let found = store::listed(rs, p, Some(t));
    let a = access::catalogue_answer(rs, q, now);
    let doc = access::catalogue(found, t, at, p);
    let rows = found.map_values(|r: RecordView| access::catalogue_row(r));
    keys::lemma_catalogue_keys();
    keys::lemma_query_keys();
    keys::lemma_header_names();
    lemma_listing_is_no_longer(rs, p, Some(t));
    assert(json::pretty_text(doc) == a.body);
    assert(documents::part(doc, "query"@) == access::query_echo(at, p));
    assert(words::has(doc, "snapshots"@, JsonView::Arr(rows)));
    assert forall|i: int| 0 <= i < rows.len() implies row_said(#[trigger] rows[i], found[i]) by {
        law_catalogue_row_states_its_record(found[i]);
    }
    assert(catalogue_said(doc, found, t, at, p));
    assert(a.headers.len() == 3);
    assert(a.headers[0] == ("content-type"@, "application/json"@));
    assert(a.headers[1] == ("x-as-of"@, time::stamp_text(t)));
    assert(a.headers[2].0 == "cache-control"@);
}

/// Whether a catalogue says what it should: the records, how many they are, the
/// instant that it is as of, and what was asked for.
pub open spec fn catalogue_said(
    doc: JsonView,
    found: Seq<RecordView>,
    t: Timestamp,
    at: Option<Timestamp>,
    p: Option<Seq<char>>,
) -> bool {
    let query = documents::part(doc, "query"@);
    let rows = documents::part(doc, "snapshots"@)->Arr_0;
    &&& words::says(doc, "as_of"@, time::stamp_text(t))
    &&& words::has(doc, "count"@, JsonView::UInt(found.len() as u64))
    &&& words::has(doc, "query"@, query)
    &&& words::says_or_null(query, "passport_id"@, p)
    &&& (match at {
        Some(x) => words::says(query, "at"@, time::stamp_text(x)),
        None => words::has(query, "at"@, JsonView::Null),
    })
    &&& words::has(doc, "snapshots"@, JsonView::Arr(rows))
    &&& rows.len() == found.len()
    &&& forall|i: int| 0 <= i < rows.len() ==> row_said(#[trigger] rows[i], found[i])
}

proof fn lemma_listing_is_no_longer(
    rs: Seq<RecordView>,
    p: Option<Seq<char>>,
    t: Option<Timestamp>,
)
    ensures
        store::listed(rs, p, t).len() <= rs.len(),
    decreases rs.len(),
{
    reveal(Seq::filter);
    if rs.len() > 0 {
        lemma_listing_is_no_longer(rs.drop_last(), p, t);
    }
}

// ---------------------------------------------------------------------------
// The audit log
// ---------------------------------------------------------------------------

/// A page of the archive holds the records from its offset on, as many as it may and
/// the archive has.
pub proof fn law_page_holds_its_records(rs: Seq<RecordView>, limit: nat, offset: nat)
    ensures
        ({
            let rows = store::page(rs, limit, offset);
            &&& rows.len() == if offset >= rs.len() {
                0
            } else if rs.len() - offset < limit {
                (rs.len() - offset) as nat
            } else {
                limit
            }
            &&& forall|i: int| 0 <= i < rows.len() ==> #[trigger] rows[i] == rs[offset + i]
        }),
{
}

/// Whether an audit page says what it should: the records of the page as their journal
/// lines with their body digests, and how many there are on it and in all.
pub open spec fn page_said(
    doc: JsonView,
    rs: Seq<RecordView>,
    limit: nat,
    offset: nat,
    t: Timestamp,
) -> bool {
    let rows = documents::part(doc, "records"@)->Arr_0;
    let page = store::page(rs, limit, offset);
    &&& words::says(doc, "as_of"@, time::stamp_text(t))
    &&& words::has(doc, "total"@, JsonView::UInt(rs.len() as u64))
    &&& words::has(doc, "count"@, JsonView::UInt(page.len() as u64))
    &&& words::has(doc, "limit"@, JsonView::UInt(limit as u64))
    &&& words::has(doc, "offset"@, JsonView::UInt(offset as u64))
    &&& words::has(doc, "records"@, JsonView::Arr(rows))
    &&& rows.len() == page.len()
    &&& forall|i: int|
        0 <= i < rows.len() ==> documents::line_said(#[trigger] rows[i], page[i])
            && words::spelled(rows[i], "body_sha256"@, page[i].body_digest)
}

/// The audit log is answered with the page that is asked for, to those who may see it.
pub proof fn law_audit_log_answers_what_is_asked(
    rs: Seq<RecordView>,
    token: Option<Seq<char>>,
    authorization: Option<Seq<char>>,
    q: Map<Seq<char>, Seq<char>>,
    now: Timestamp,
)
    ensures
        ({
            let a = access::audit_answer(rs, token, authorization, q, now);
            &&& !(token matches Some(t) ==> authorization == Some("Bearer "@ + t)) ==> a
                == response::error_answer(401, "unauthorized"@, now)
            &&& (token matches Some(t) ==> authorization == Some("Bearer "@ + t)) ==> {
                &&& a.status == 200
                &&& header_is(a, "content-type"@, "application/json"@)
                &&& header_is(a, "x-as-of"@, time::stamp_text(now))
                &&& header_is(a, "cache-control"@, "public, max-age=30, must-revalidate"@)
                &&& exists|doc: JsonView| #[trigger]
                    json::pretty_text(doc) == a.body && page_said(
                        doc,
                        rs,
                        access::page_limit(q),
                        access::page_offset(q),
                        now,
                    )
            }
        }),
{
    let a = access::audit_answer(rs, token, authorization, q, now);
    if token matches Some(t) ==> authorization == Some("Bearer "@ + t) {
        let (limit, offset) = (access::page_limit(q), access::page_offset(q));
        let doc = access::audit_document(rs, q, now);
        let page = store::page(rs, limit, offset);
        let rows = page.map_values(|r: RecordView| store::audit_row(r));
        keys::lemma_audit_keys();
        keys::lemma_header_names();
        assert(words::has(doc, "records"@, JsonView::Arr(rows)));
        assert forall|i: int| 0 <= i < rows.len() implies documents::line_said(
            #[trigger] rows[i],
            page[i],
        ) && words::spelled(rows[i], "body_sha256"@, page[i].body_digest) by {
            lemma_audit_row_said(page[i]);
        }
        assert(page_said(doc, rs, limit, offset, now));
        assert(json::pretty_text(doc) == a.body);
        assert(a.headers.len() == 3);
        assert(a.headers[0] == ("content-type"@, "application/json"@));
        assert(a.headers[1] == ("x-as-of"@, time::stamp_text(now)));
        assert(a.headers[2] == ("cache-control"@, "public, max-age=30, must-revalidate"@));
    }
}

pub proof fn lemma_audit_row_said(r: RecordView)
    ensures
        documents::line_said(store::audit_row(r), r),
        words::spelled(store::audit_row(r), "body_sha256"@, r.body_digest),
{
    let j = record::journal_line(r);
    let row = store::audit_row(r);
    documents::law_journal_line_states_its_record(r);
    keys::lemma_journal_keys();
    assert(!documents::line_names().contains("body_sha256"@)) by {
        keys::lemma_audit_row_keys();
    }
    assert forall|k: Seq<char>, x: JsonView| documents::line_names().contains(k)
        && #[trigger] words::has(j, k, x) implies words::has(row, k, x) by {}
    assert(documents::part(row, "anchoring"@) == documents::part(j, "anchoring"@));
    documents::lemma_spelled(row, "body_sha256"@, r.body_digest);
    documents::lemma_spelled(row, "state_hash"@, r.state_hash);
    documents::lemma_spelled(row, "log_head"@, r.log_head);
    documents::lemma_spelled(row, "signature"@, r.signature);
    documents::lemma_spelled(row, "body_digest"@, r.body_digest);
}

// ---------------------------------------------------------------------------
// Discovery, health and keyring
// ---------------------------------------------------------------------------

/// The discovery document names the service, its version and build, whether anchoring
/// is enabled, the instant that it is as of, the suite and domain of the notary, and
/// the routed paths.
pub proof fn law_discovery_describes_the_service(
    version: Seq<char>,
    build_id: Seq<char>,
    enabled: bool,
    now: Timestamp,
)
    ensures
        ({
            let doc = discovery::discovery_document(version, build_id, enabled, now);
            let e = documents::part(doc, "endpoints"@);
            let n = documents::part(doc, "notarization"@);
            &&& words::says(doc, "service"@, "unidpp-archive"@)
            &&& words::says(doc, "version"@, version)
            &&& words::says(doc, "build_id"@, build_id)
            &&& words::says(doc, "schema"@, "unidpp-archive/snapshot/1"@)
            &&& words::has(doc, "anchoring_enabled"@, JsonView::Bool(enabled))
            &&& words::says(documents::part(doc, "as_of"@), "instant"@, time::stamp_text(now))
            &&& words::says(n, "suite"@, "ed25519"@)
            &&& words::says(n, "domain"@, "tree-head"@)
            &&& words::says(n, "keyring_endpoint"@, paths::KEYRING@)
            &&& words::says(e, "discovery"@, "GET "@ + paths::ROOT@)
            &&& words::says(e, "health"@, "GET "@ + paths::HEALTHZ@)
            &&& words::says(e, "keyring"@, "GET "@ + paths::KEYRING@)
            &&& words::says(e, "ingest"@, "POST "@ + paths::SNAPSHOTS@)
            &&& words::says(e, "snapshot"@, "GET "@ + paths::SNAPSHOT@)
            &&& words::says(e, "listing"@, "GET "@ + paths::SNAPSHOTS@ + "?passport_id=&at="@)
            &&& words::says(e, "admin_log"@, "GET "@ + paths::ADMIN_LOG@ + "?limit=&offset="@)
        }),
{
    let doc = discovery::discovery_document(version, build_id, enabled, now);
    keys::lemma_discovery_keys();
    keys::lemma_notarization_keys();
    keys::lemma_answer_keys();
    assert(documents::part(doc, "endpoints"@) == discovery::endpoints_document());
    assert(documents::part(doc, "notarization"@) == discovery::notarization_document());
    assert(documents::part(doc, "as_of"@) == discovery::as_of_document(now));
    lemma_endpoints();
}

proof fn lemma_endpoints()
    ensures
        ({
            let e = discovery::endpoints_document();
            &&& words::says(e, "discovery"@, "GET "@ + paths::ROOT@)
            &&& words::says(e, "health"@, "GET "@ + paths::HEALTHZ@)
            &&& words::says(e, "keyring"@, "GET "@ + paths::KEYRING@)
            &&& words::says(e, "ingest"@, "POST "@ + paths::SNAPSHOTS@)
            &&& words::says(e, "snapshot"@, "GET "@ + paths::SNAPSHOT@)
            &&& words::says(e, "listing"@, "GET "@ + paths::SNAPSHOTS@ + "?passport_id=&at="@)
            &&& words::says(e, "admin_log"@, "GET "@ + paths::ADMIN_LOG@ + "?limit=&offset="@)
        }),
{
    keys::lemma_endpoint_keys();
    reveal_strlit("GET ");
    reveal_strlit("POST ");
    reveal_strlit("/");
    reveal_strlit("/healthz");
    reveal_strlit("/keyring");
    reveal_strlit("/snapshots");
    reveal_strlit("/snapshots/{id}");
    reveal_strlit("/admin/log");
    reveal_strlit("?passport_id=&at=");
    reveal_strlit("?limit=&offset=");
    reveal_strlit("GET /");
    reveal_strlit("GET /healthz");
    reveal_strlit("GET /keyring");
    reveal_strlit("POST /snapshots");
    reveal_strlit("GET /snapshots/{id}");
    reveal_strlit("GET /snapshots?passport_id=&at=");
    reveal_strlit("GET /admin/log?limit=&offset=");
    assert("GET "@ + paths::ROOT@ =~= "GET /"@);
    assert("GET "@ + paths::HEALTHZ@ =~= "GET /healthz"@);
    assert("GET "@ + paths::KEYRING@ =~= "GET /keyring"@);
    assert("POST "@ + paths::SNAPSHOTS@ =~= "POST /snapshots"@);
    assert("GET "@ + paths::SNAPSHOT@ =~= "GET /snapshots/{id}"@);
    assert("GET "@ + paths::SNAPSHOTS@ + "?passport_id=&at="@
        =~= "GET /snapshots?passport_id=&at="@);
    assert("GET "@ + paths::ADMIN_LOG@ + "?limit=&offset="@ =~= "GET /admin/log?limit=&offset="@);
}

/// The liveness document counts the snapshots and says whether anchoring is enabled.
pub proof fn law_health_counts_the_snapshots(snapshots: u64, enabled: bool, t: Timestamp)
    ensures
        ({
            let doc = discovery::health_document(snapshots, enabled, t);
            &&& words::says(doc, "status"@, "ok"@)
            &&& words::says(doc, "service"@, "unidpp-archive"@)
            &&& words::has(doc, "snapshots"@, JsonView::UInt(snapshots))
            &&& words::has(doc, "anchoring_enabled"@, JsonView::Bool(enabled))
            &&& words::says(doc, "as_of"@, time::stamp_text(t))
        }),
{
    keys::lemma_health_keys();
}

/// A stamp on a document changes none of its other fields.
pub proof fn law_stamp_leaves_the_rest(
    doc: JsonView,
    t: Timestamp,
    name: Seq<char>,
    x: JsonView,
)
    requires
        doc is Obj,
    ensures
        ({
            let d = json::with_field(doc, "as_of"@, JsonView::Str(time::stamp_text(t)));
            &&& words::says(d, "as_of"@, time::stamp_text(t))
            &&& name != "as_of"@ ==> (words::has(d, name, x) <==> words::has(doc, name, x))
        }),
{
}

} // verus!
