//! The anchoring outcome of a snapshot: whether and where its commitment was
//! sequenced by a transparency log.

use serde_json::Value;
use vstd::prelude::*;
use vstd::string::*;
use crate::fields;
use crate::hex;
use crate::json;
use crate::json::JsonView;
use crate::text;
use crate::time;
use crate::time::Timestamp;

verus! {

/// Whether a snapshot's commitment reached a transparency log.
#[derive(Debug, Clone, Copy, PartialEq, Eq, Structural)]
pub enum AnchoringStatus {
    /// The commitment was sequenced by a log; the receipt is embedded.
    Anchored,
    /// The log was unreachable or refused; the snapshot is still notarized and
    /// stored, with the reason recorded.
    Unanchored,
}

impl DeepView for AnchoringStatus {
    type V = AnchoringStatus;

    open spec fn deep_view(&self) -> AnchoringStatus {
        *self
    }
}

/// The word for a status.
pub open spec fn status_text(s: AnchoringStatus) -> Seq<char> {
    match s {
        AnchoringStatus::Anchored => "anchored"@,
        AnchoringStatus::Unanchored => "unanchored"@,
    }
}

/// The status that a word stands for.
pub open spec fn status_in(j: Option<JsonView>) -> Option<AnchoringStatus> {
    if json::text_in(j) == Some("anchored"@) {
        Some(AnchoringStatus::Anchored)
    } else if json::text_in(j) == Some("unanchored"@) {
        Some(AnchoringStatus::Unanchored)
    } else {
        None
    }
}

impl AnchoringStatus {
    pub fn as_str(self) -> (r: &'static str)
        ensures
            r@ == status_text(self),
    {
        match self {
            AnchoringStatus::Anchored => "anchored",
            AnchoringStatus::Unanchored => "unanchored",
        }
    }
}

fn get_status(v: &Value, key: &str) -> (r: Option<AnchoringStatus>)
    ensures
        r == status_in(json::field(json::json_of(*v), key@)),
{
    match json::get_text(v, key) {
        Some(s) => {
            if text::same_text(s, "anchored") {
                Some(AnchoringStatus::Anchored)
            } else if text::same_text(s, "unanchored") {
                Some(AnchoringStatus::Unanchored)
            } else {
                None
            }
        },
        None => None,
    }
}

// ---------------------------------------------------------------------------
// Receipts
// ---------------------------------------------------------------------------

/// The anchoring fields extracted from a log receipt (the summary the canonical
/// statement commits to; the full receipt is preserved verbatim beside it).
#[derive(Debug, PartialEq, Eq)]
pub struct AnchorSummary {
    pub log_id: String,
    /// The log's sequence number for the anchored commitment (the "receipt id"
    /// that is journaled).
    pub receipt_seq: u64,
    pub tree_size: u64,
    pub root: crate::hash::Hash,
    pub logged_at: Timestamp,
}

/// The content of an anchoring summary.
#[verifier::ext_equal]
pub struct SummaryView {
    pub log_id: Seq<char>,
    pub receipt_seq: u64,
    pub tree_size: u64,
    pub root: Seq<u8>,
    pub logged_at: Timestamp,
}

impl View for AnchorSummary {
    type V = SummaryView;

    open spec fn view(&self) -> SummaryView {
        SummaryView {
            log_id: self.log_id@,
            receipt_seq: self.receipt_seq,
            tree_size: self.tree_size,
            root: self.root@,
            logged_at: self.logged_at,
        }
    }
}

impl DeepView for AnchorSummary {
    type V = SummaryView;

    open spec fn deep_view(&self) -> SummaryView {
        self@
    }
}

impl Clone for AnchorSummary {
    fn clone(&self) -> (r: AnchorSummary)
        ensures
            r@ == self@,
    {
        AnchorSummary {
            log_id: self.log_id.clone(),
            receipt_seq: self.receipt_seq,
            tree_size: self.tree_size,
            root: self.root,
            logged_at: self.logged_at,
        }
    }
}

/// The sequence number in a receipt: its `seq`, or else its `receipt_id` read as
/// a number.
pub open spec fn receipt_number(receipt: JsonView) -> Option<u64> {
    match json::number_in(json::field(receipt, "seq"@)) {
        Some(n) => Some(n),
        None => fields::numeral_in(json::field(receipt, "receipt_id"@)),
    }
}

/// The instant that a string value denotes.
pub open spec fn instant_in(j: Option<JsonView>) -> Option<Timestamp> {
    match json::text_in(j) {
        Some(s) => match time::stamp_parsed(s) {
            Ok(t) => Some(t),
            Err(_) => None,
        },
        None => None,
    }
}

/// The log id in a receipt, which must not be empty.
pub open spec fn receipt_log_id(receipt: JsonView) -> Option<Seq<char>> {
    match json::text_in(json::field(receipt, "log_id"@)) {
        Some(s) => if s.len() > 0 {
            Some(s)
        } else {
            None
        },
        None => None,
    }
}

/// What a receipt says of the anchor, or the first thing that it lacks.
pub open spec fn summary_of(receipt: JsonView) -> Result<SummaryView, Seq<char>> {
    let log_id = receipt_log_id(receipt);
    let receipt_seq = receipt_number(receipt);
    let head = json::field(receipt, "tree_head"@);
    let tree_size = json::number_in(json::field(head->0, "tree_size"@));
    let root = fields::digest_in(json::field(head->0, "root"@));
    let logged_at = instant_in(json::field(receipt, "logged_at"@));
    if !(receipt is Obj) {
        Err("receipt must be an object"@)
    } else if log_id is None {
        Err("receipt missing `log_id`"@)
    } else if receipt_seq is None {
        Err("receipt missing `seq`/`receipt_id`"@)
    } else if head is None {
        Err("receipt missing `tree_head`"@)
    } else if !(head->0 is Obj) {
        Err("`tree_head` must be an object"@)
    } else if tree_size is None {
        Err("receipt missing `tree_head.tree_size`"@)
    } else if root is None {
        Err("receipt missing/invalid `tree_head.root`"@)
    } else if logged_at is None {
        Err("receipt missing/invalid `logged_at`"@)
    } else {
        Ok(
            SummaryView {
                log_id: log_id->0,
                receipt_seq: receipt_seq->0,
                tree_size: tree_size->0,
                root: root->0,
                logged_at: logged_at->0,
            },
        )
    }
}

/// Parse the anchoring summary out of a log's inclusion receipt. Strict: a
/// receipt missing any anchored field is rejected, because the canonical
/// statement commits to all of them.
pub fn anchor_summary_from_receipt(v: &Value) -> (r: Result<AnchorSummary, String>)
    ensures
        text::outcome(r) == summary_of(json::json_of(*v)),
{
    if !v.is_object() {
        return Err("receipt must be an object".to_owned());
    }
    let log_id = match json::get_text(v, "log_id") {
        Some(s) => {
            if text::chars_of(s).len() == 0 {
                return Err("receipt missing `log_id`".to_owned());
            }
            s.to_owned()
        },
        None => {
            return Err("receipt missing `log_id`".to_owned());
        },
    };
    let receipt_seq: u64 = match json::get_uint(v, "seq") {
        Some(n) => n,
        None => match fields::get_numeral(v, "receipt_id") {
            Some(n) => n,
            None => {
                return Err("receipt missing `seq`/`receipt_id`".to_owned());
            },
        },
    };
    let head = match json::get(v, "tree_head") {
        Some(h) => h,
        None => {
            return Err("receipt missing `tree_head`".to_owned());
        },
    };
    if !head.is_object() {
        return Err("`tree_head` must be an object".to_owned());
    }
    let tree_size: u64 = match json::get_uint(head, "tree_size") {
        Some(n) => n,
        None => {
            return Err("receipt missing `tree_head.tree_size`".to_owned());
        },
    };
    let root = match fields::get_digest(head, "root") {
        Some(h) => h,
        None => {
            return Err("receipt missing/invalid `tree_head.root`".to_owned());
        },
    };
    let logged_at = match json::get_text(v, "logged_at") {
        Some(s) => match Timestamp::parse(s) {
            Ok(t) => t,
            Err(_) => {
                return Err("receipt missing/invalid `logged_at`".to_owned());
            },
        },
        None => {
            return Err("receipt missing/invalid `logged_at`".to_owned());
        },
    };
    Ok(AnchorSummary { log_id, receipt_seq, tree_size, root, logged_at })
}

// ---------------------------------------------------------------------------
// Outcomes
// ---------------------------------------------------------------------------

/// The anchoring outcome recorded with a snapshot.
#[derive(Debug, PartialEq, Eq)]
pub struct Anchoring {
    pub status: AnchoringStatus,
    /// Why anchoring did not happen (unanchored only).
    pub reason: Option<String>,
    pub log_id: Option<String>,
    pub receipt_seq: Option<u64>,
    pub tree_size: Option<u64>,
    pub root: Option<crate::hash::Hash>,
    pub logged_at: Option<Timestamp>,
    /// The commitment that was (or would be) anchored: the SHA-256 of the core
    /// statement bytes. Always set on a sealed record.
    pub commitment: Option<crate::hash::Hash>,
    /// The verbatim inclusion receipt from the log (anchored only), preserved
    /// so that the package is self-contained for offline verification of the
    /// anchor chain.
    pub receipt: Option<Value>,
}

/// The content of an anchoring outcome.
#[verifier::ext_equal]
pub struct AnchoringView {
    pub status: AnchoringStatus,
    pub reason: Option<Seq<char>>,
    pub log_id: Option<Seq<char>>,
    pub receipt_seq: Option<u64>,
    pub tree_size: Option<u64>,
    pub root: Option<Seq<u8>>,
    pub logged_at: Option<Timestamp>,
    pub commitment: Option<Seq<u8>>,
    pub receipt: Option<JsonView>,
}

/// The content of a value that may be missing.
pub open spec fn receipt_view(v: Option<Value>) -> Option<JsonView> {
    match v {
        Some(v) => Some(json::json_of(v)),
        None => None,
    }
}

impl View for Anchoring {
    type V = AnchoringView;

    open spec fn view(&self) -> AnchoringView {
        AnchoringView {
            status: self.status,
            reason: self.reason.deep_view(),
            log_id: self.log_id.deep_view(),
            receipt_seq: self.receipt_seq,
            tree_size: self.tree_size,
            root: self.root.deep_view(),
            logged_at: self.logged_at,
            commitment: self.commitment.deep_view(),
            receipt: receipt_view(self.receipt),
        }
    }
}

impl DeepView for Anchoring {
    type V = AnchoringView;

    open spec fn deep_view(&self) -> AnchoringView {
        self@
    }
}

impl AnchoringView {
    /// An outcome of which nothing is known but its status and reason.
    pub open spec fn bare(status: AnchoringStatus, reason: Option<Seq<char>>) -> AnchoringView {
        AnchoringView {
            status,
            reason,
            log_id: None,
            receipt_seq: None,
            tree_size: None,
            root: None,
            logged_at: None,
            commitment: None,
            receipt: None,
        }
    }

    /// The outcome of a successful anchor.
    pub open spec fn anchored(
        summary: SummaryView,
        receipt: JsonView,
        commitment: Seq<u8>,
    ) -> AnchoringView {
        AnchoringView {
            status: AnchoringStatus::Anchored,
            reason: None,
            log_id: Some(summary.log_id),
            receipt_seq: Some(summary.receipt_seq),
            tree_size: Some(summary.tree_size),
            root: Some(summary.root),
            logged_at: Some(summary.logged_at),
            commitment: Some(commitment),
            receipt: Some(receipt),
        }
    }

    /// Whether every field that an anchor fills is there.
    pub open spec fn complete(self) -> bool {
        &&& self.log_id is Some
        &&& self.receipt_seq is Some
        &&& self.tree_size is Some
        &&& self.root is Some
        &&& self.logged_at is Some
        &&& self.commitment is Some
        &&& self.receipt is Some
    }

    /// Whether the digests have the length of a digest.
    pub open spec fn sized(self) -> bool {
        &&& (self.root matches Some(h) ==> h.len() == 32)
        &&& (self.commitment matches Some(h) ==> h.len() == 32)
    }
}

/// A digest in hexadecimal text, or null.
pub open spec fn digest_or_null(h: Option<Seq<u8>>) -> JsonView {
    match h {
        Some(h) => JsonView::Str(hex::hex_text(h)),
        None => JsonView::Null,
    }
}

/// A number in decimal text, or null.
pub open spec fn numeral_or_null(n: Option<u64>) -> JsonView {
    match n {
        Some(n) => JsonView::Str(text::decimal(n as nat)),
        None => JsonView::Null,
    }
}

/// An instant in RFC 3339 text, or null.
pub open spec fn instant_or_null(t: Option<Timestamp>) -> JsonView {
    match t {
        Some(t) => JsonView::Str(time::stamp_text(t)),
        None => JsonView::Null,
    }
}

/// A value, or null.
pub open spec fn value_or_null(v: Option<JsonView>) -> JsonView {
    match v {
        Some(v) => v,
        None => JsonView::Null,
    }
}

/// The document rendering of an outcome: the summary fields without the
/// receipt.
pub open spec fn anchoring_document(a: AnchoringView) -> JsonView {
    JsonView::Obj(document_fields(a))
}

/// The summary fields of an outcome.
pub open spec fn document_fields(a: AnchoringView) -> Map<Seq<char>, JsonView> {
    map![
        "status"@ => JsonView::Str(status_text(a.status)),
        "reason"@ => json::text_or_null(a.reason),
        "log_id"@ => json::text_or_null(a.log_id),
        "receipt_id"@ => numeral_or_null(a.receipt_seq),
        "tree_size"@ => json::number_or_null(a.tree_size),
        "root"@ => digest_or_null(a.root),
        "logged_at"@ => instant_or_null(a.logged_at),
    ]
}

/// The journal rendering of an outcome: all summary fields, the commitment and
/// the verbatim receipt.
pub open spec fn anchoring_journal(a: AnchoringView) -> JsonView {
    JsonView::Obj(
        document_fields(a).insert("commitment"@, digest_or_null(a.commitment)).insert(
            "receipt"@,
            value_or_null(a.receipt),
        ),
    )
}

pub(crate) fn digest_value(h: &Option<crate::hash::Hash>) -> (v: Value)
    ensures
        json::json_of(v) == digest_or_null(h.deep_view()),
{
    match h {
        Some(h) => json::string(h.hex()),
        None => json::null(),
    }
}

pub(crate) fn numeral_value(n: Option<u64>) -> (v: Value)
    ensures
        json::json_of(v) == numeral_or_null(n),
{
    match n {
        Some(n) => json::string(text::decimal_u64(n)),
        None => json::null(),
    }
}

pub(crate) fn instant_value(t: Option<Timestamp>) -> (v: Value)
    ensures
        json::json_of(v) == instant_or_null(t),
{
    match t {
        Some(t) => json::string(t.to_string()),
        None => json::null(),
    }
}

pub(crate) fn receipt_value(r: &Option<Value>) -> (v: Value)
    ensures
        json::json_of(v) == value_or_null(receipt_view(*r)),
{
    match r {
        Some(x) => x.clone(),
        None => json::null(),
    }
}

/// The receipt in a journal line: an object, or nothing.
pub open spec fn receipt_in(j: Option<JsonView>) -> Result<Option<JsonView>, Seq<char>> {
    match j {
        None | Some(JsonView::Null) => Ok(None),
        Some(JsonView::Obj(m)) => Ok(Some(JsonView::Obj(m))),
        _ => Err("`anchoring.receipt` must be an object or null"@),
    }
}

/// The receipt number in a journal line: a numeric string, or nothing.
pub open spec fn receipt_id_in(j: Option<JsonView>) -> Result<Option<u64>, Seq<char>> {
    if json::absent(j) {
        Ok(None)
    } else if json::text_in(j) is None {
        Err("`anchoring.receipt_id` must be a numeric string or null"@)
    } else {
        match fields::numeral_in(j) {
            Some(n) => Ok(Some(n)),
            None => Err("`anchoring.receipt_id` must be a numeric string"@),
        }
    }
}

/// The outcome that a journal value holds, or the first thing that is wrong
/// with it. An anchored outcome must be complete.
pub open spec fn anchoring_of(j: JsonView) -> Result<AnchoringView, Seq<char>> {
    let status = status_in(json::field(j, "status"@));
    let receipt = receipt_in(json::field(j, "receipt"@));
    let receipt_seq = receipt_id_in(json::field(j, "receipt_id"@));
    let reason = fields::optional_text(json::field(j, "reason"@), "anchoring.reason"@);
    let log_id = fields::optional_text(json::field(j, "log_id"@), "anchoring.log_id"@);
    let tree_size = fields::optional_number(json::field(j, "tree_size"@), "anchoring.tree_size"@);
    let root = fields::optional_digest(json::field(j, "root"@), "anchoring.root"@);
    let logged_at = fields::optional_instant(json::field(j, "logged_at"@), "anchoring.logged_at"@);
    let commitment = fields::optional_digest(
        json::field(j, "commitment"@),
        "anchoring.commitment"@,
    );
    let a = AnchoringView {
        status: status->0,
        reason: reason->Ok_0,
        log_id: log_id->Ok_0,
        receipt_seq: receipt_seq->Ok_0,
        tree_size: tree_size->Ok_0,
        root: root->Ok_0,
        logged_at: logged_at->Ok_0,
        commitment: commitment->Ok_0,
        receipt: receipt->Ok_0,
    };
    if !(j is Obj) {
        Err("`anchoring` must be an object"@)
    } else if status is None {
        Err("`anchoring.status` must be `anchored`/`unanchored`"@)
    } else if receipt is Err {
        Err(receipt->Err_0)
    } else if receipt_seq is Err {
        Err(receipt_seq->Err_0)
    } else if reason is Err {
        Err(reason->Err_0)
    } else if log_id is Err {
        Err(log_id->Err_0)
    } else if tree_size is Err {
        Err(tree_size->Err_0)
    } else if root is Err {
        Err(root->Err_0)
    } else if logged_at is Err {
        Err(logged_at->Err_0)
    } else if commitment is Err {
        Err(commitment->Err_0)
    } else if a.status == AnchoringStatus::Anchored && !a.complete() {
        Err(
            "an `anchored` record must carry log_id, receipt_id, tree_size, root, logged_at, commitment and the receipt"@,
        )
    } else {
        Ok(a)
    }
}

fn read_receipt(v: &Value) -> (r: Result<Option<Value>, String>)
    ensures
        match receipt_in(json::field(json::json_of(*v), "receipt"@)) {
            Ok(x) => r is Ok && receipt_view(r->Ok_0) == x,
            Err(e) => r is Err && r->Err_0@ == e,
        },
{
    match json::get(v, "receipt") {
        None => Ok(None),
        Some(x) => {
            if x.is_null() {
                Ok(None)
            } else if x.is_object() {
                Ok(Some(x.clone()))
            } else {
                Err("`anchoring.receipt` must be an object or null".to_owned())
            }
        },
    }
}

fn read_receipt_id(v: &Value) -> (r: Result<Option<u64>, String>)
    ensures
        text::outcome(r) == receipt_id_in(json::field(json::json_of(*v), "receipt_id"@)),
{
    match json::get(v, "receipt_id") {
        None => Ok(None),
        Some(x) => {
            if x.is_null() {
                return Ok(None);
            }
            match x.as_str() {
                Some(s) => match text::parse_number(s, u64::MAX) {
                    Some(n) => Ok(Some(n)),
                    None => Err("`anchoring.receipt_id` must be a numeric string".to_owned()),
                },
                None => Err("`anchoring.receipt_id` must be a numeric string or null".to_owned()),
            }
        },
    }
}

impl Clone for Anchoring {
    fn clone(&self) -> (r: Anchoring)
        ensures
            r@ == self@,
    {
        let receipt = match &self.receipt {
            Some(v) => Some(v.clone()),
            None => None,
        };
        Anchoring {
            status: self.status,
            reason: text::clone_option(&self.reason),
            log_id: text::clone_option(&self.log_id),
            receipt_seq: self.receipt_seq,
            tree_size: self.tree_size,
            root: self.root,
            logged_at: self.logged_at,
            commitment: self.commitment,
            receipt,
        }
    }
}

impl Anchoring {
    /// A successful anchor: summary fields, the verbatim receipt, and the
    /// commitment that was anchored.
    pub fn anchored(summary: AnchorSummary, receipt: Value, commitment: crate::hash::Hash) -> (r:
        Anchoring)
        ensures
            r@ == AnchoringView::anchored(summary@, json::json_of(receipt), commitment@),
    {
        Anchoring {
            status: AnchoringStatus::Anchored,
            reason: None,
            log_id: Some(summary.log_id),
            receipt_seq: Some(summary.receipt_seq),
            tree_size: Some(summary.tree_size),
            root: Some(summary.root),
            logged_at: Some(summary.logged_at),
            commitment: Some(commitment),
            receipt: Some(receipt),
        }
    }

    /// A skipped anchor with the reason (log not configured, unreachable, or a
    /// refused receipt).
    pub fn unanchored(reason: String) -> (r: Anchoring)
        ensures
            r@ == AnchoringView::bare(AnchoringStatus::Unanchored, Some(reason@)),
    {
        Anchoring { reason: Some(reason), ..Anchoring::unanchored_default() }
    }

    /// The unanchored shape used by the verifier-side rebuild (fields beyond
    /// `status` are ignored by the canonical statement).
    pub fn unanchored_default() -> (r: Anchoring)
        ensures
            r@ == AnchoringView::bare(AnchoringStatus::Unanchored, None),
    {
        Anchoring {
            status: AnchoringStatus::Unanchored,
            reason: None,
            log_id: None,
            receipt_seq: None,
            tree_size: None,
            root: None,
            logged_at: None,
            commitment: None,
            receipt: None,
        }
    }

    fn document_values(&self) -> (e: Vec<(String, Value)>)
        ensures
            json::fields_of(e@) == document_fields(self@),
    {
        let mut e = json::entries();
        json::put(&mut e, "status", json::text(self.status.as_str()));
        json::put(&mut e, "reason", json::opt_text(&self.reason));
        json::put(&mut e, "log_id", json::opt_text(&self.log_id));
        json::put(&mut e, "receipt_id", numeral_value(self.receipt_seq));
        json::put(&mut e, "tree_size", json::opt_uint(self.tree_size));
        json::put(&mut e, "root", digest_value(&self.root));
        json::put(&mut e, "logged_at", instant_value(self.logged_at));
        e
    }

    /// The journal rendering: all summary fields plus the verbatim receipt (so
    /// that replay reproduces byte-identical documents).
    pub fn to_journal_json(&self) -> (v: Value)
        ensures
            json::json_of(v) == anchoring_journal(self@),
    {
        let mut e = self.document_values();
        json::put(&mut e, "commitment", digest_value(&self.commitment));
        json::put(&mut e, "receipt", receipt_value(&self.receipt));
        json::object(e)
    }

    /// The document rendering: the summary fields without the receipt (the
    /// receipt rides one level up, under `oais.provenance.receipt`).
    pub fn to_document_json(&self) -> (v: Value)
        ensures
            json::json_of(v) == anchoring_document(self@),
    {
        json::object(self.document_values())
    }

    /// Read an outcome from its journal rendering.
    pub fn from_json(v: &Value) -> (r: Result<Anchoring, String>)
        ensures
            text::outcome(r) == anchoring_of(json::json_of(*v)),
    {
        if !v.is_object() {
            return Err("`anchoring` must be an object".to_owned());
        }
        let status = match get_status(v, "status") {
            Some(s) => s,
            None => {
                return Err("`anchoring.status` must be `anchored`/`unanchored`".to_owned());
            },
        };
        let receipt = match read_receipt(v) {
            Ok(x) => x,
            Err(e) => {
                return Err(e);
            },
        };
        let receipt_seq = match read_receipt_id(v) {
            Ok(x) => x,
            Err(e) => {
                return Err(e);
            },
        };
        let reason = match fields::read_optional_text(v, "reason", "anchoring.reason") {
            Ok(x) => x,
            Err(e) => {
                return Err(e);
            },
        };
        let log_id = match fields::read_optional_text(v, "log_id", "anchoring.log_id") {
            Ok(x) => x,
            Err(e) => {
                return Err(e);
            },
        };
        let tree_size = match fields::read_optional_number(v, "tree_size", "anchoring.tree_size") {
            Ok(x) => x,
            Err(e) => {
                return Err(e);
            },
        };
        let root = match fields::read_optional_digest(v, "root", "anchoring.root") {
            Ok(x) => x,
            Err(e) => {
                return Err(e);
            },
        };
        let logged_at = match fields::read_optional_instant(v, "logged_at", "anchoring.logged_at") {
            Ok(x) => x,
            Err(e) => {
                return Err(e);
            },
        };
        let commitment = match fields::read_optional_digest(v, "commitment", "anchoring.commitment") {
            Ok(x) => x,
            Err(e) => {
                return Err(e);
            },
        };
        // Integrity: an anchored outcome commits to all anchor fields in the
        // canonical statement, so a partial one cannot replay.
        if status == AnchoringStatus::Anchored {
            let complete = log_id.is_some() && receipt_seq.is_some() && tree_size.is_some()
                && root.is_some() && logged_at.is_some() && commitment.is_some()
                && receipt.is_some();
            if !complete {
                return Err(
                    "an `anchored` record must carry log_id, receipt_id, tree_size, root, logged_at, commitment and the receipt".to_owned(),
                );
            }
        }
        Ok(
            Anchoring {
                status,
                reason,
                log_id,
                receipt_seq,
                tree_size,
                root,
                logged_at,
                commitment,
                receipt,
            },
        )
    }
}

} // verus!
