//! What holds of the answers of the service.

use vstd::prelude::*;
use crate::api::access;
use crate::api::discovery;
use crate::api::ingest;
use crate::api::request;
use crate::api::request::CreateView;
use crate::api::response;
use crate::api::response::CachePolicy;
use crate::canonical::CanonicalField;
use crate::hex;
use crate::journal;
use crate::json;
use crate::json::JsonView;
use crate::keys;
use crate::laws::archive;
use crate::laws::archive::Attempt;
use crate::laws::records;
use crate::model::anchoring::AnchoringStatus;
use crate::model::record;
use crate::model::record::NotarizationView;
use crate::model::rebuild;
use crate::model::record::RecordView;
use crate::store;
use crate::store::SnapshotFile;
use crate::store::StoreErrorView;
use crate::text;
use crate::time;
use crate::time::Timestamp;

verus! {

// ---------------------------------------------------------------------------
// Byte-identical re-serving
// ---------------------------------------------------------------------------

/// Whether every record has the id of its sequence number.
pub open spec fn named(rs: Seq<RecordView>) -> bool {
    forall|i: int|
        0 <= i < rs.len() ==> (#[trigger] rs[i]).snapshot_id == record::id_of(rs[i].seq)
}

/// There is no white space around a snapshot id.
proof fn lemma_id_is_trimmed(seq: u64)
    ensures
        text::trimmed(record::id_of(seq)) == record::id_of(seq),
{
    let id = record::id_of(seq);
    let d = text::decimal(seq as nat);
    reveal_strlit("s-");
    text::lemma_decimal(seq as nat);
    assert(id[0] == 's');
    assert(id.last() == d.last());
    assert(text::is_digit(d[d.len() - 1]));
    assert(!text::is_space('s'));
    assert(!text::is_space(id.last()));
}

/// What an ingest answered is what access serves: the same body under the same
/// entity tag.
pub proof fn law_created_is_served<W: Fn(&Vec<CanonicalField>) -> Vec<u8>>(
    w: W,
    rs: Seq<RecordView>,
    r: RecordView,
    now: Timestamp,
)
    requires
        store::spine(rs),
        named(rs),
        r.seq == rs.len(),
        r.snapshot_id == record::id_of(r.seq),
    ensures
        ({
            let made = ingest::created(w, r);
            let got = access::access_answer(w, rs.push(r), r.snapshot_id, now);
            &&& made.status == 201
            &&& got.status == 200
            &&& got.body == made.body
            &&& made.headers[4] == ("etag"@, ingest::entity_tag(r.body_digest))
            &&& got.headers[2] == ("etag"@, ingest::entity_tag(r.body_digest))
        }),
{
    let after = rs.push(r);
    assert forall|i: int| 0 <= i < after.len() implies (#[trigger] after[i]).seq == i
        && after[i].snapshot_id == record::id_of(after[i].seq) by {
        if i < rs.len() {
            assert(after[i] == rs[i]);
        }
    }
    archive::law_access_by_sequence(after, r.seq);
    lemma_id_is_trimmed(r.seq);
}

/// A snapshot that is served is served forever: later snapshots do not change
/// the answer, and neither does the time of the request.
pub proof fn law_served_forever<W: Fn(&Vec<CanonicalField>) -> Vec<u8>>(
    w: W,
    rs: Seq<RecordView>,
    more: Seq<RecordView>,
    id: Seq<char>,
    now: Timestamp,
    later: Timestamp,
)
    requires
        store::found(rs, text::trimmed(id)) is Some,
    ensures
        access::access_answer(w, rs + more, id, later) == access::access_answer(w, rs, id, now),
    decreases more.len(),
{
    if more.len() > 0 {
        let front = more.drop_last();
        law_served_forever(w, rs, front, id, now, later);
        assert(rs + more =~= (rs + front).push(more.last()));
        lemma_still_found(rs, front, text::trimmed(id));
        archive::law_append_keeps_access(rs + front, more.last(), text::trimmed(id));
    } else {
        assert(rs + more =~= rs);
    }
}

proof fn lemma_still_found(rs: Seq<RecordView>, more: Seq<RecordView>, id: Seq<char>)
    requires
        store::found(rs, id) is Some,
    ensures
        store::found(rs + more, id) is Some,
    decreases more.len(),
{
    if more.len() > 0 {
        let front = more.drop_last();
        lemma_still_found(rs, front, id);
        assert(rs + more =~= (rs + front).push(more.last()));
        archive::law_append_keeps_access(rs + front, more.last(), id);
    } else {
        assert(rs + more =~= rs);
    }
}

/// An id that no record has is not found.
pub proof fn law_unknown_id_is_not_found<W: Fn(&Vec<CanonicalField>) -> Vec<u8>>(
    w: W,
    rs: Seq<RecordView>,
    id: Seq<char>,
    now: Timestamp,
)
    requires
        forall|i: int| 0 <= i < rs.len() ==> (#[trigger] rs[i]).snapshot_id != text::trimmed(id),
    ensures
        access::access_answer(w, rs, id, now).status == 404,
{
}

/// The answer to an ingest tells what became of it: 201 if the store has the
/// record now, and otherwise an error, with the store as it was.
pub proof fn law_answer_tells_the_outcome<
    W: Fn(&Vec<CanonicalField>) -> Vec<u8>,
    F: FnOnce(&SnapshotFile) -> Result<(), String>,
    L: FnOnce(&String) -> Result<(), String>,
>(
    w: W,
    write_file: F,
    write_line: L,
    rs: Seq<RecordView>,
    r: RecordView,
    notarized: Result<NotarizationView, Seq<char>>,
    now: Timestamp,
    after: Seq<RecordView>,
    answer: response::ResponseView,
)
    requires
        ingest::ingest_outcome(w, write_file, write_line, rs, r, notarized, now, after, answer),
    ensures
        answer.status == 201 ==> {
            let s = record::sealed(w, r, notarized->Ok_0);
            &&& notarized is Ok
            &&& after == rs.push(s)
            &&& answer == ingest::created(w, s)
            &&& store::append_plan(w, rs.len(), s) is Ok
            &&& store::line_reads_back(s)
        },
        answer.status != 201 ==> after == rs && (answer.status == 500 || answer.status == 409),
{
    if notarized is Ok {
        let s = record::sealed(w, r, notarized->Ok_0);
        if store::append_plan(w, rs.len(), s) is Ok {
            let plan = store::append_plan(w, rs.len(), s)->Ok_0;
            let end = choose|end: Result<(), StoreErrorView>| #[trigger]
                store::append_concluded(write_file, write_line, plan, rs, s, after, end)
                    && answer == ingest::ingest_answer(w, s, end, now);
            archive::law_append_is_an_attempt(w, write_file, write_line, rs, s, after, end);
        }
    }
}

/// Appends of records that have the ids of their sequence numbers keep it so.
pub proof fn law_every_history_keeps_the_names<W: Fn(&Vec<CanonicalField>) -> Vec<u8>>(
    w: W,
    bytes: Seq<u8>,
    rs: Seq<RecordView>,
    attempts: Seq<Attempt>,
)
    requires
        named(rs),
        forall|i: int|
            0 <= i < attempts.len() ==> (#[trigger] attempts[i]).record.snapshot_id
                == record::id_of(attempts[i].record.seq),
    ensures
        named(archive::after_all(w, bytes, rs, attempts).1),
    decreases attempts.len(),
{
    if attempts.len() > 0 {
        let front = attempts.drop_last();
        assert forall|i: int| 0 <= i < front.len() implies (
        #[trigger] front[i]).record.snapshot_id == record::id_of(front[i].record.seq) by {
            assert(front[i] == attempts[i]);
        }
        law_every_history_keeps_the_names(w, bytes, rs, front);
        let before = archive::after_all(w, bytes, rs, front).1;
        let after = archive::after_all(w, bytes, rs, attempts).1;
        assert forall|i: int| 0 <= i < after.len() implies (#[trigger] after[i]).snapshot_id
            == record::id_of(after[i].seq) by {
            if i < before.len() {
                assert(after[i] == before[i]);
            } else {
                assert(after[i] == attempts[attempts.len() - 1].record);
            }
        }
    }
}

/// A restart serves the same: a store opened on the journal of some records
/// gives the answers that those records gave.
pub proof fn law_restart_serves_the_same<W: Fn(&Vec<CanonicalField>) -> Vec<u8>>(
    w: W,
    bytes: Seq<u8>,
    rs: Seq<RecordView>,
    id: Seq<char>,
    now: Timestamp,
)
    requires
        archive::in_step(w, bytes, rs),
    ensures
        store::opened(w, bytes, None) matches Ok(o) && access::access_answer(w, o.0, id, now)
            == access::access_answer(w, rs, id, now),
{
}

/// A record is served from any records that begin with those it was added to and
/// itself.
proof fn lemma_served_later<W: Fn(&Vec<CanonicalField>) -> Vec<u8>>(
    w: W,
    rs: Seq<RecordView>,
    r: RecordView,
    records: Seq<RecordView>,
    now: Timestamp,
)
    requires
        store::spine(rs),
        named(rs),
        r.seq == rs.len(),
        r.snapshot_id == record::id_of(r.seq),
        rs.len() < records.len(),
        records.take(rs.len() as int + 1) == rs.push(r),
    ensures
        access::access_answer(w, records, r.snapshot_id, now) == access::served(w, r),
{
    let after = rs.push(r);
    let more = records.skip(after.len() as int);
    assert(records =~= records.take(rs.len() as int + 1) + more);
    assert forall|i: int| 0 <= i < after.len() implies (#[trigger] after[i]).seq == i
        && after[i].snapshot_id == record::id_of(after[i].seq) by {
        if i < rs.len() {
            assert(after[i] == rs[i]);
        }
    }
    archive::law_access_by_sequence(after, r.seq);
    lemma_id_is_trimmed(r.seq);
    law_served_forever(w, after, more, r.snapshot_id, now, now);
}

/// An appended record is served from then on, whatever appends follow, whichever
/// of them fail, and after a restart.
pub proof fn law_appended_record_survives<W: Fn(&Vec<CanonicalField>) -> Vec<u8>>(
    w: W,
    bytes: Seq<u8>,
    rs: Seq<RecordView>,
    r: RecordView,
    attempts: Seq<Attempt>,
    now: Timestamp,
)
    requires
        archive::in_step(w, bytes, rs),
        named(rs),
        store::append_plan(w, rs.len(), r) is Ok,
        archive::survives(r),
        r.snapshot_id == record::id_of(r.seq),
        archive::written_survive(attempts),
    ensures
        ({
            let written = bytes + journal::line_bytes(store::line_text(r));
            let (later, records) = archive::after_all(w, written, rs.push(r), attempts);
            &&& store::opened(w, later, None) matches Ok(o) && o.0 == records
            &&& access::access_answer(w, records, r.snapshot_id, now) == access::served(w, r)
        }),
{
    let written = bytes + journal::line_bytes(store::line_text(r));
    let after = rs.push(r);
    let (later, records) = archive::after_all(w, written, after, attempts);
    archive::law_append_keeps_the_journal_in_step(w, bytes, rs, r);
    archive::law_every_history_keeps_the_journal_in_step(w, written, after, attempts);
    assert(store::spine(rs)) by {
        archive::law_opened_store_is_sound(w, bytes, None);
    }
    lemma_served_later(w, rs, r, records, now);
}

/// The record that an ingest seals, under the next sequence number.
pub open spec fn ingested<W: Fn(&Vec<CanonicalField>) -> Vec<u8>>(
    w: W,
    next: nat,
    req: CreateView,
    receipt: Result<JsonView, Seq<char>>,
    commitment: Seq<u8>,
    n: NotarizationView,
    now: Timestamp,
) -> RecordView {
    record::sealed(
        w,
        ingest::settled(ingest::record_for(next, req, now), receipt, commitment),
        n,
    )
}

/// How a record is served: under its entity tag, stamped with the instant of its
/// notarization, to be cached for ever.
proof fn lemma_served_headers<W: Fn(&Vec<CanonicalField>) -> Vec<u8>>(w: W, r: RecordView)
    ensures
        ({
            let got = access::served(w, r);
            let made = ingest::created(w, r);
            &&& got.status == 200
            &&& got.body == made.body
            &&& made.headers[4] == ("etag"@, ingest::entity_tag(r.body_digest))
            &&& got.headers[2] == ("etag"@, ingest::entity_tag(r.body_digest))
            &&& stamped(got, r.notarized_at)
            &&& cached(got, CachePolicy::PointInTime)
        }),
{
    let got = access::served(w, r);
    assert(got.headers[1] == ("x-as-of"@, time::stamp_text(r.notarized_at)));
    assert(got.headers[3] == (
        "cache-control"@,
        response::cache_control(CachePolicy::PointInTime),
    ));
}

/// What an ingest answered 201 is served from then on, whatever receipt the log
/// gave, whatever appends follow, whichever of them fail, and after a restart: the
/// same body under the same
/// entity tag, stamped with the instant of the notarization, to be cached for
/// ever.
pub proof fn law_ingest_survives<
    W: Fn(&Vec<CanonicalField>) -> Vec<u8>,
    F: FnOnce(&SnapshotFile) -> Result<(), String>,
    L: FnOnce(&String) -> Result<(), String>,
>(
    w: W,
    write_file: F,
    write_line: L,
    bytes: Seq<u8>,
    rs: Seq<RecordView>,
    req: CreateView,
    receipt: Result<JsonView, Seq<char>>,
    commitment: Seq<u8>,
    n: NotarizationView,
    now: Timestamp,
    after: Seq<RecordView>,
    answer: response::ResponseView,
    attempts: Seq<Attempt>,
    later: Timestamp,
)
    requires
        archive::in_step(w, bytes, rs),
        named(rs),
        rs.len() <= u64::MAX,
        time::in_range(now),
        ingest::ingest_outcome(
            w,
            write_file,
            write_line,
            rs,
            ingest::settled(ingest::record_for(rs.len(), req, now), receipt, commitment),
            Ok(n),
            now,
            after,
            answer,
        ),
        answer.status == 201,
        ingested(w, rs.len(), req, receipt, commitment, n, now).sized(),
        archive::written_survive(attempts),
    ensures
        ({
            let s = ingested(w, rs.len(), req, receipt, commitment, n, now);
            let written = bytes + journal::line_bytes(store::line_text(s));
            let (journal, records) = archive::after_all(w, written, after, attempts);
            let got = access::access_answer(w, records, record::id_of(rs.len() as u64), later);
            &&& store::opened(w, journal, None) matches Ok(o) && o.0 == records
            &&& got.status == 200
            &&& got.body == answer.body
            &&& answer.headers[4] == ("etag"@, ingest::entity_tag(s.body_digest))
            &&& got.headers[2] == ("etag"@, ingest::entity_tag(s.body_digest))
            &&& stamped(got, now)
            &&& cached(got, CachePolicy::PointInTime)
        }),
{
    let r = ingest::settled(ingest::record_for(rs.len(), req, now), receipt, commitment);
    let s = record::sealed(w, r, n);
    assert({
        &&& after == rs.push(s)
        &&& answer == ingest::created(w, s)
        &&& store::append_plan(w, rs.len(), s) is Ok
    }) by {
        law_answer_tells_the_outcome(w, write_file, write_line, rs, r, Ok(n), now, after, answer);
    }
    assert(archive::survives(s)) by {
        law_ingested_record_survives(
            w,
            write_file,
            write_line,
            rs,
            req,
            receipt,
            commitment,
            n,
            now,
            after,
            answer,
        );
    }
    assert(s.snapshot_id == record::id_of(s.seq) && s.seq == rs.len() && s.notarized_at == now);
    law_appended_record_survives(w, bytes, rs, s, attempts, later);
    lemma_served_headers(w, s);
}

/// The answer to a point-in-time query stays the same as long as the snapshots
/// that are added are notarized after the instant: neither those, however many,
/// nor the time of the request change it.
pub proof fn law_point_in_time_answers_are_fixed(
    rs: Seq<RecordView>,
    more: Seq<RecordView>,
    q: Map<Seq<char>, Seq<char>>,
    now: Timestamp,
    later: Timestamp,
)
    requires
        request::instant_asked(q) matches Ok(Some(at)) && forall|i: int|
            0 <= i < more.len() ==> at.secs < (#[trigger] more[i]).notarized_at.secs,
    ensures
        access::catalogue_answer(rs + more, q, later) == access::catalogue_answer(rs, q, now),
{
    let at = request::instant_asked(q)->Ok_0->0;
    archive::law_past_listings_are_fixed(rs, more, request::asked(q, "passport_id"@), at);
}

/// A catalogue shows no snapshot notarized after the instant that it is as of,
/// and lists the others in sequencing order.
pub proof fn law_catalogue_is_as_of(
    rs: Seq<RecordView>,
    passport_id: Option<Seq<char>>,
    at: Option<Timestamp>,
    now: Timestamp,
)
    requires
        store::spine(rs),
    ensures
        ({
            let rows = store::listed(rs, passport_id, Some(access::effective(at, now)));
            &&& store::increasing(rows)
            &&& forall|i: int|
                0 <= i < rows.len() ==> (#[trigger] rows[i]).notarized_at.secs
                    <= access::effective(at, now).secs
        }),
{
    let t = Some(access::effective(at, now));
    let rows = store::listed(rs, passport_id, t);
    archive::law_listing_is_ordered(rs, passport_id, t);
    assert forall|i: int| 0 <= i < rows.len() implies (#[trigger] rows[i]).notarized_at.secs
        <= access::effective(at, now).secs by {
        archive::law_listing_is_exact(rs, passport_id, t, rows[i]);
        assert(rows.contains(rows[i]));
    }
}

/// The documents carry the instant that they are as of.
pub proof fn law_documents_are_stamped<W: Fn(&Vec<CanonicalField>) -> Vec<u8>>(
    w: W,
    r: RecordView,
    rs: Seq<RecordView>,
    q: Map<Seq<char>, Seq<char>>,
    at: Option<Timestamp>,
    passport_id: Option<Seq<char>>,
    version: Seq<char>,
    build_id: Seq<char>,
    snapshots: u64,
    enabled: bool,
    t: Timestamp,
)
    ensures
        says_as_of(record::document(w, r), r.notarized_at),
        says_as_of(access::catalogue(rs, t, at, passport_id), t),
        says_as_of(access::audit_document(rs, q, t), t),
        says_as_of(discovery::health_document(snapshots, enabled, t), t),
        json::field(
            discovery::discovery_document(version, build_id, enabled, t),
            "as_of"@,
        ) matches Some(j) && json::field(j, "instant"@) == Some(
            JsonView::Str(time::stamp_text(t)),
        ),
{
    keys::lemma_document_keys();
    keys::lemma_answer_keys();
    assert(json::field(discovery::as_of_document(t), "instant"@) == Some(
        JsonView::Str(time::stamp_text(t)),
    ));
}

/// Whether a document carries an instant in its `as_of` field.
pub open spec fn says_as_of(j: JsonView, t: Timestamp) -> bool {
    json::field(j, "as_of"@) == Some(JsonView::Str(time::stamp_text(t)))
}

/// Every answer is stamped: created and served snapshots with the instant of
/// their notarization, the catalogue with the instant it is as of, and the audit
/// log and errors with the time of the request.
pub proof fn law_answers_are_stamped<W: Fn(&Vec<CanonicalField>) -> Vec<u8>>(
    w: W,
    r: RecordView,
    rs: Seq<RecordView>,
    q: Map<Seq<char>, Seq<char>>,
    token: Option<Seq<char>>,
    authorization: Option<Seq<char>>,
    status: u16,
    msg: Seq<char>,
    now: Timestamp,
)
    ensures
        stamped(ingest::created(w, r), r.notarized_at),
        stamped(access::served(w, r), r.notarized_at),
        stamped(
            access::catalogue_answer(rs, q, now),
            match request::instant_asked(q) {
                Ok(at) => access::effective(at, now),
                Err(_) => now,
            },
        ),
        stamped(access::audit_answer(rs, token, authorization, q, now), now),
        stamped(response::error_answer(status, msg, now), now),
{
    assert(stamped(ingest::created(w, r), r.notarized_at)) by {
        assert(ingest::created(w, r).headers[3] == ("x-as-of"@, time::stamp_text(r.notarized_at)));
    }
    assert(stamped(access::served(w, r), r.notarized_at)) by {
        lemma_served_headers(w, r);
    }
    lemma_catalogue_is_stamped(rs, q, now);
    lemma_audit_is_stamped(rs, token, authorization, q, now);
    lemma_error_is_stamped(status, msg, now);
}

/// The catalogue is stamped with the instant it is as of.
proof fn lemma_catalogue_is_stamped(
    rs: Seq<RecordView>,
    q: Map<Seq<char>, Seq<char>>,
    now: Timestamp,
)
    ensures
        stamped(
            access::catalogue_answer(rs, q, now),
            match request::instant_asked(q) {
                Ok(at) => access::effective(at, now),
                Err(_) => now,
            },
        ),
{
    let c = access::catalogue_answer(rs, q, now);
    let at = match request::instant_asked(q) {
        Ok(at) => access::effective(at, now),
        Err(_) => now,
    };
    assert(c.headers[1] == ("x-as-of"@, time::stamp_text(at)));
}

/// The audit log is stamped with the time of the request.
proof fn lemma_audit_is_stamped(
    rs: Seq<RecordView>,
    token: Option<Seq<char>>,
    authorization: Option<Seq<char>>,
    q: Map<Seq<char>, Seq<char>>,
    now: Timestamp,
)
    ensures
        stamped(access::audit_answer(rs, token, authorization, q, now), now),
{
    let a = access::audit_answer(rs, token, authorization, q, now);
    assert(a.headers[1] == ("x-as-of"@, time::stamp_text(now)));
}

/// An error is stamped with the time of the request.
proof fn lemma_error_is_stamped(status: u16, msg: Seq<char>, now: Timestamp)
    ensures
        stamped(response::error_answer(status, msg, now), now),
{
    let e = response::error_answer(status, msg, now);
    assert(e.headers[1] == ("x-as-of"@, time::stamp_text(now)));
}

/// Whether an answer carries an instant in its `x-as-of` header.
pub open spec fn stamped(a: response::ResponseView, t: Timestamp) -> bool {
    a.headers.contains(("x-as-of"@, time::stamp_text(t)))
}

/// Whether an answer has a cache policy.
pub open spec fn cached(a: response::ResponseView, c: CachePolicy) -> bool {
    a.headers.contains(("cache-control"@, response::cache_control(c)))
}

/// Snapshots that are served and answers to point-in-time queries may be cached
/// forever; answers to mutations, and errors, not at all.
pub proof fn law_cache_policies<W: Fn(&Vec<CanonicalField>) -> Vec<u8>>(
    w: W,
    r: RecordView,
    rs: Seq<RecordView>,
    q: Map<Seq<char>, Seq<char>>,
    status: u16,
    msg: Seq<char>,
    now: Timestamp,
)
    ensures
        cached(ingest::created(w, r), CachePolicy::NoStore),
        cached(access::served(w, r), CachePolicy::PointInTime),
        request::instant_asked(q) matches Ok(Some(_)) ==> cached(
            access::catalogue_answer(rs, q, now),
            CachePolicy::PointInTime,
        ),
        request::instant_asked(q) matches Ok(None) ==> cached(
            access::catalogue_answer(rs, q, now),
            CachePolicy::Current,
        ),
        cached(response::error_answer(status, msg, now), CachePolicy::NoStore),
{
    let pit = ("cache-control"@, response::cache_control(CachePolicy::PointInTime));
    let a = ingest::created(w, r);
    assert(a.headers[a.headers.len() - 1] == (
        "cache-control"@,
        response::cache_control(CachePolicy::NoStore),
    ));
    assert(access::served(w, r).headers[3] == pit);
    let c = access::catalogue_answer(rs, q, now);
    assert(c.headers[2].0 == "cache-control"@);
    let e = response::error_answer(status, msg, now);
    assert(e.headers[2].0 == "cache-control"@);
}

// ---------------------------------------------------------------------------
// The guard
// ---------------------------------------------------------------------------

/// A request without the configured token is answered 401, at ingest whatever
/// its body and in the audit log whatever it asks for.
pub proof fn law_unauthorized_requests_are_refused(
    token: Seq<char>,
    authorization: Option<Seq<char>>,
    body: Seq<char>,
    rs: Seq<RecordView>,
    q: Map<Seq<char>, Seq<char>>,
    now: Timestamp,
)
    requires
        authorization != Some("Bearer "@ + token),
    ensures
        ingest::admitted(Some(token), authorization, body, now) == Err::<
            CreateView,
            response::ResponseView,
        >(response::unauthorized_answer(now)),
        access::audit_answer(rs, Some(token), authorization, q, now)
            == response::unauthorized_answer(now),
        response::unauthorized_answer(now).status == 401,
{
}

/// A request that is not admitted is answered 401 or 400.
pub proof fn law_refusals_have_a_status(
    token: Option<Seq<char>>,
    authorization: Option<Seq<char>>,
    body: Seq<char>,
    now: Timestamp,
)
    ensures
        ingest::admitted(token, authorization, body, now) matches Err(a) ==> a.status == 401
            || a.status == 400,
{
}

// ---------------------------------------------------------------------------
// Anchoring
// ---------------------------------------------------------------------------

/// A failed anchoring attempt degrades explicitly: the snapshot is unanchored
/// and the reason is recorded.
pub proof fn law_failed_anchoring_is_recorded(e: Seq<char>, commitment: Seq<u8>)
    ensures
        ({
            let a = ingest::anchoring_for(Err::<JsonView, Seq<char>>(e), commitment);
            &&& a.status == AnchoringStatus::Unanchored
            &&& a.reason == Some(e)
            &&& a.receipt is None
        }),
{
}

/// Every outcome is accounted for: an anchored one has every field that the
/// statement commits to and the verbatim receipt, an unanchored one has a
/// reason.
pub proof fn law_outcomes_are_accounted_for(
    receipt: Result<JsonView, Seq<char>>,
    commitment: Seq<u8>,
)
    ensures
        ({
            let a = ingest::anchoring_for(receipt, commitment);
            &&& a.status == AnchoringStatus::Anchored ==> a.complete() && a.receipt == Some(
                receipt->Ok_0,
            ) && a.commitment == Some(commitment) && receipt is Ok
            &&& a.status == AnchoringStatus::Unanchored ==> a.reason is Some && a.receipt is None
        }),
{
}

/// The commitment that was sent to the log is the one that the sealed record
/// carries.
pub proof fn law_anchored_commitment_is_kept<W: Fn(&Vec<CanonicalField>) -> Vec<u8>>(
    w: W,
    r: RecordView,
    receipt: Result<JsonView, Seq<char>>,
    n: NotarizationView,
)
    ensures
        record::sealed(w, ingest::settled(r, receipt, record::commitment_of(w, r)), n)
            .anchoring.commitment == Some(record::commitment_of(w, r)),
{
}

/// A document that says `anchored` holds a receipt for its own commitment: the
/// receipt names the commitment of the information package.
pub proof fn law_anchored_receipt_names_the_commitment<
    W: Fn(&Vec<CanonicalField>) -> Vec<u8>,
>(w: W, r: RecordView, receipt: Result<JsonView, Seq<char>>, n: NotarizationView)
    ensures
        ({
            let s = record::sealed(w, ingest::settled(r, receipt, record::commitment_of(w, r)), n);
            let doc = record::document(w, s);
            s.anchoring.status == AnchoringStatus::Anchored ==> {
                &&& rebuild::at_path(doc, seq!["oais"@, "provenance"@, "receipt"@]) == Some(
                    receipt->Ok_0,
                )
                &&& json::text_in(json::field(receipt->Ok_0, "commitment"@)) == json::text_in(
                    rebuild::at_path(doc, rebuild::package_path("commitment"@)),
                )
                &&& rebuild::at_path(doc, rebuild::package_path("commitment"@)) == Some(
                    JsonView::Str(hex::hex_text(record::commitment_of(w, s))),
                )
            }
        }),
{
    let s = record::sealed(w, ingest::settled(r, receipt, record::commitment_of(w, r)), n);
    if s.anchoring.status == AnchoringStatus::Anchored {
        records::law_document_holds_commitment_and_receipt(w, s);
        assert(record::commitment_of(w, s) == record::commitment_of(w, r));
    }
}

/// What an ingest seals can be journaled and replayed, if the time of the
/// request can be written.
pub proof fn law_ingested_record_is_journalable<W: Fn(&Vec<CanonicalField>) -> Vec<u8>>(
    w: W,
    next: nat,
    req: CreateView,
    now: Timestamp,
    receipt: Result<JsonView, Seq<char>>,
    commitment: Seq<u8>,
    n: NotarizationView,
)
    requires
        time::in_range(now),
        record::sealed(
            w,
            ingest::settled(ingest::record_for(next, req, now), receipt, commitment),
            n,
        ).sized(),
    ensures
        records::journalable(
            record::sealed(
                w,
                ingest::settled(ingest::record_for(next, req, now), receipt, commitment),
                n,
            ),
        ),
{
    if receipt is Ok {
        match json::field(receipt->Ok_0, "logged_at"@) {
            Some(JsonView::Str(s)) => time::law_parsed_stamp_is_writable(s),
            _ => {},
        }
    }
}

/// What an ingest seals has the id of its sequence number, the next one.
pub proof fn law_ingested_record_is_named<W: Fn(&Vec<CanonicalField>) -> Vec<u8>>(
    w: W,
    next: u64,
    req: CreateView,
    now: Timestamp,
    receipt: Result<JsonView, Seq<char>>,
    commitment: Seq<u8>,
    n: NotarizationView,
)
    ensures
        ({
            let r = ingest::settled(ingest::record_for(next as nat, req, now), receipt, commitment);
            let s = record::sealed(w, r, n);
            s.seq == next && s.snapshot_id == record::id_of(next)
        }),
{
}

/// What an ingest appended can be read back from what is written for it, whatever
/// receipt the log gave.
pub proof fn law_ingested_record_survives<
    W: Fn(&Vec<CanonicalField>) -> Vec<u8>,
    F: FnOnce(&SnapshotFile) -> Result<(), String>,
    L: FnOnce(&String) -> Result<(), String>,
>(
    w: W,
    write_file: F,
    write_line: L,
    rs: Seq<RecordView>,
    req: CreateView,
    receipt: Result<JsonView, Seq<char>>,
    commitment: Seq<u8>,
    n: NotarizationView,
    now: Timestamp,
    after: Seq<RecordView>,
    answer: response::ResponseView,
)
    requires
        time::in_range(now),
        ingest::ingest_outcome(
            w,
            write_file,
            write_line,
            rs,
            ingest::settled(ingest::record_for(rs.len(), req, now), receipt, commitment),
            Ok(n),
            now,
            after,
            answer,
        ),
        answer.status == 201,
        ingested(w, rs.len(), req, receipt, commitment, n, now).sized(),
    ensures
        archive::survives(ingested(w, rs.len(), req, receipt, commitment, n, now)),
{
    let r = ingest::settled(ingest::record_for(rs.len(), req, now), receipt, commitment);
    assert(store::line_reads_back(record::sealed(w, r, n))) by {
        law_answer_tells_the_outcome(w, write_file, write_line, rs, r, Ok(n), now, after, answer);
    }
    law_ingested_record_is_journalable(w, rs.len(), req, now, receipt, commitment, n);
}

/// The digests of an admitted request have the length of a digest.
pub proof fn law_admitted_digests_have_32_bytes(
    token: Option<Seq<char>>,
    authorization: Option<Seq<char>>,
    body: Seq<char>,
    now: Timestamp,
)
    ensures
        ingest::admitted(token, authorization, body, now) matches Ok(req) ==> req.state_hash.len()
            == 32 && req.log_head.len() == 32,
{
}

} // verus!
