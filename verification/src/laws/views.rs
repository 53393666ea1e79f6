//! What the values of the library hold: their views leave nothing out and add nothing.

use vstd::prelude::*;
use crate::api::config::Config;
use crate::api::request::CreateRequest;
use crate::api::response::ApiResponse;
use crate::canonical::CanonicalField;
use crate::canonical::FieldView;
use crate::json;
use crate::log_anchor::AnchorReply;
use crate::log_anchor::AnchorRequest;
use crate::log_anchor::LogAnchorConfig;
use crate::model::anchoring::AnchorSummary;
use crate::model::anchoring::Anchoring;
use crate::model::record::Notarization;
use crate::model::record::SnapshotRecord;
use crate::store::AppendPlan;
use crate::store::FileCheck;
use crate::store::FileCheckView;
use crate::store::FileRead;
use crate::store::FileReadView;
use crate::store::JournalEnd;
use crate::store::LineOutcome;
use crate::store::LineView;
use crate::store::OpenedStore;
use crate::store::SnapshotFile;
use crate::store::StoreError;
use crate::store::StoreErrorView;

verus! {

/// Whether a text that may be missing is this one.
pub open spec fn same_or_missing(t: Option<String>, s: Option<Seq<char>>) -> bool {
    match t {
        Some(t) => s == Some(t@),
        None => s is None,
    }
}

/// Whether a digest that may be missing is this one.
pub open spec fn digest_or_missing(h: Option<crate::hash::Hash>, b: Option<Seq<u8>>) -> bool {
    match h {
        Some(h) => b == Some(h.0@),
        None => b is None,
    }
}

/// The view of a record has its fields.
pub proof fn law_record_view_is_faithful(r: SnapshotRecord)
    ensures
        r@.seq == r.seq,
        r@.snapshot_id == r.snapshot_id@,
        r@.notarized_at.secs == r.notarized_at.secs,
        r@.passport_id == r.passport_id@,
        r@.state_hash == r.state_hash.0@,
        r@.log_head == r.log_head.0@,
        same_or_missing(r.submitter, r@.submitter),
        r@.state_size == r.state_size,
        r@.anchoring == r.anchoring@,
        r@.signature == r.signature@,
        r@.key_id == r.key_id@,
        r@.body_digest == r.body_digest.0@,
        r.deep_view() == r@,
{
}

/// The view of an anchoring outcome has its fields.
pub proof fn law_outcome_view_is_faithful(a: Anchoring)
    ensures
        a@.status == a.status,
        same_or_missing(a.reason, a@.reason),
        same_or_missing(a.log_id, a@.log_id),
        a@.receipt_seq == a.receipt_seq,
        a@.tree_size == a.tree_size,
        digest_or_missing(a.root, a@.root),
        a@.logged_at == a.logged_at,
        digest_or_missing(a.commitment, a@.commitment),
        match a.receipt {
            Some(v) => a@.receipt == Some(json::json_of(v)),
            None => a@.receipt is None,
        },
        a.deep_view() == a@,
{
}

/// The view of a receipt summary has its fields.
pub proof fn law_summary_view_is_faithful(s: AnchorSummary)
    ensures
        s@.log_id == s.log_id@,
        s@.receipt_seq == s.receipt_seq,
        s@.tree_size == s.tree_size,
        s@.root == s.root.0@,
        s@.logged_at == s.logged_at,
        s.deep_view() == s@,
{
}

/// The view of an ingest request has its fields.
pub proof fn law_request_view_is_faithful(req: CreateRequest)
    ensures
        req@.passport_id == req.passport_id@,
        req@.state_hash == req.state_hash.0@,
        req@.log_head == req.log_head.0@,
        same_or_missing(req.submitter, req@.submitter),
        req@.state_size == req.state_size,
        req.deep_view() == req@,
{
}

/// The view of an answer has its status, its body and its headers in order.
pub proof fn law_answer_view_is_faithful(a: ApiResponse)
    ensures
        a@.status == a.status,
        a@.body == a.body@,
        a@.headers.len() == a.headers@.len(),
        forall|i: int|
            0 <= i < a.headers@.len() ==> (#[trigger] a@.headers[i]).0 == a.headers@[i].0@
                && a@.headers[i].1 == a.headers@[i].1@,
        a.deep_view() == a@,
{
    assert forall|i: int| 0 <= i < a.headers@.len() implies (#[trigger] a@.headers[i]).0
        == a.headers@[i].0@ && a@.headers[i].1 == a.headers@[i].1@ by {
        assert(a.headers.deep_view()[i] == a.headers@[i].deep_view());
    }
}

/// The view of a notarization has its key id and its signature, which is empty where
/// there is none.
pub proof fn law_notarization_view_is_faithful(n: Notarization)
    ensures
        n.deep_view().key_id == n.key_id@,
        match n.signature {
            Some(b) => n.deep_view().signature == b@,
            None => n.deep_view().signature == Seq::<u8>::empty(),
        },
{
}

/// The view of a configuration has its settings.
pub proof fn law_configuration_view_is_faithful(c: Config, l: LogAnchorConfig)
    ensures
        c@.bind == c.bind@,
        same_or_missing(c.admin_token, c@.admin_token),
        same_or_missing(c.state_file, c@.state_file),
        same_or_missing(c.snapshot_dir, c@.snapshot_dir),
        same_or_missing(c.dev_seed, c@.dev_seed),
        c@.log == c.log@,
        same_or_missing(l.base_url, l@.base_url),
        same_or_missing(l.bearer, l@.bearer),
        l@.timeout == l.timeout,
{
}

/// The views of what is sent to a log and of what comes back have their fields.
pub proof fn law_log_exchange_view_is_faithful(q: AnchorRequest, a: AnchorReply)
    ensures
        q.deep_view().url == q.url@,
        q.deep_view().body == q.body@,
        same_or_missing(q.bearer, q.deep_view().bearer),
        q.deep_view().timeout == q.timeout,
        a.deep_view().status == a.status,
        a.deep_view().body == a.body@,
{
}

/// The views of what is written for a record have the name, the body and the line.
pub proof fn law_append_view_is_faithful(f: SnapshotFile, p: AppendPlan)
    ensures
        f.deep_view().name == f.name@,
        f.deep_view().body == f.body@,
        p.deep_view().file == p.file.deep_view(),
        p.deep_view().line == p.line@,
{
}

/// The views of what is found of a journal and of a file have what was found.
pub proof fn law_read_view_is_faithful(
    o: OpenedStore,
    end: JournalEnd,
    line: LineOutcome,
    found: FileRead,
    check: FileCheck,
    e: StoreError,
)
    ensures
        o.deep_view().0 == o.store@,
        o.deep_view().1 == o.end.deep_view(),
        same_or_missing(end.torn, end.deep_view().torn),
        end.deep_view().keep == end.keep,
        end.deep_view().line_feed_due == end.line_feed_due,
        line matches LineOutcome::Keep(r) ==> line.deep_view() == LineView::Keep(r@),
        line matches LineOutcome::Torn(m) ==> line.deep_view() == LineView::Torn(m@),
        line matches LineOutcome::Refuse(x) ==> line.deep_view() == LineView::Refuse(x.deep_view()),
        found matches FileRead::Found(b) ==> found.deep_view() == FileReadView::Found(b@),
        found is Missing <==> found.deep_view() == FileReadView::Missing,
        found matches FileRead::Failed(m) ==> found.deep_view() == FileReadView::Failed(m@),
        check is Intact <==> check.deep_view() == FileCheckView::Intact,
        check matches FileCheck::Rematerialize(b) ==> check.deep_view()
            == FileCheckView::Rematerialize(b@),
        e matches StoreError::Journal(m) ==> e.deep_view() == StoreErrorView::Journal(m@),
        e matches StoreError::Conflict(m) ==> e.deep_view() == StoreErrorView::Conflict(m@),
{
}

/// The view of a field of a statement has its kind and its value.
pub proof fn law_field_view_is_faithful(f: CanonicalField)
    ensures
        f matches CanonicalField::Str(s) ==> f.deep_view() == FieldView::Str(s@),
        f matches CanonicalField::U32(n) ==> f.deep_view() == FieldView::U32(n),
        f matches CanonicalField::U64(n) ==> f.deep_view() == FieldView::U64(n),
        f matches CanonicalField::I64(n) ==> f.deep_view() == FieldView::I64(n),
        f matches CanonicalField::Digest(h) ==> f.deep_view() == FieldView::Digest(h.0@),
        f matches CanonicalField::Raw(b) ==> f.deep_view() == FieldView::Raw(b@),
{
}

} // verus!
