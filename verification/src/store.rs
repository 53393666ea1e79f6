//! Store: the in-memory index over the append-only JSONL journal and the
//! snapshot files.
//!
//! The journal is the storage, nothing is edited in place. Sequencing is
//! strictly monotonic: a record is appended only under the next sequence
//! number, and a journal is replayed with the same discipline, so that its
//! sequence numbers are exactly 0, 1, 2 and so on.
//!
//! A crash in the middle of a write can tear only the final journal line; a torn
//! tail is tolerated and reported, wherever the tear falls, and is to be cut off
//! before the next line is added. Any corruption earlier in the file is a hard
//! error.
//!
//! An append writes the snapshot file first and the journal line last, so that
//! the journal holds a line exactly for the records of the index, whichever
//! write fails.
//!
//! The snapshot files are derived from the journal: each is checked against the
//! rendered body, a missing one is written again, a mismatching one is a hard
//! integrity error.

use serde_json::Value;
use vstd::prelude::*;
use vstd::string::*;
use crate::canonical;
use crate::canonical::CanonicalField;
use crate::hash;
use crate::hex;
use crate::journal;
use crate::json;
use crate::json::JsonView;
use crate::laws::archive as archive_laws;
use crate::laws::records as record_laws;
use crate::model::record;
use crate::model::record::RecordView;
use crate::model::record::SnapshotRecord;
use crate::text;
use crate::time::Timestamp;

verus! {

/// Store-level failures (journal or snapshot-file integrity).
#[derive(Debug, PartialEq, Eq)]
pub enum StoreError {
    /// The journal or a snapshot file violates archival integrity.
    Journal(String),
    /// The append conflicts with the journal's spine (wrong seq).
    Conflict(String),
}

/// The content of a store failure.
pub enum StoreErrorView {
    Journal(Seq<char>),
    Conflict(Seq<char>),
}

impl DeepView for StoreError {
    type V = StoreErrorView;

    open spec fn deep_view(&self) -> StoreErrorView {
        match *self {
            StoreError::Journal(m) => StoreErrorView::Journal(m@),
            StoreError::Conflict(m) => StoreErrorView::Conflict(m@),
        }
    }
}

impl Clone for StoreError {
    fn clone(&self) -> (r: StoreError)
        ensures
            r.deep_view() == self.deep_view(),
    {
        match self {
            StoreError::Journal(m) => StoreError::Journal(m.clone()),
            StoreError::Conflict(m) => StoreError::Conflict(m.clone()),
        }
    }
}

impl StoreError {
    /// The failure in words.
    pub fn to_string(&self) -> (r: String)
        ensures
            r@ == match self.deep_view() {
                StoreErrorView::Journal(m) => "journal integrity failure: "@ + m,
                StoreErrorView::Conflict(m) => "conflict: "@ + m,
            },
    {
        match self {
            StoreError::Journal(m) => text::cat2("journal integrity failure: ", m),
            StoreError::Conflict(m) => text::cat2("conflict: ", m),
        }
    }
}

/// What a store operation gave, by the views of its parts.
pub open spec fn outcome<T: DeepView>(r: Result<T, StoreError>) -> Result<T::V, StoreErrorView> {
    match r {
        Ok(t) => Ok(t.deep_view()),
        Err(e) => Err(e.deep_view()),
    }
}

/// The archive's index of notarized snapshots, in sequencing order.
#[derive(Debug)]
pub struct SnapshotStore {
    records: Vec<SnapshotRecord>,
}

impl View for SnapshotStore {
    type V = Seq<RecordView>;

    closed spec fn view(&self) -> Seq<RecordView> {
        self.records.deep_view()
    }
}

impl SnapshotStore {
    /// The sequence numbers are exactly 0, 1, 2 and so on.
    #[verifier::type_invariant]
    spec fn sequenced(self) -> bool {
        spine(self.records.deep_view())
    }
}

/// Whether the sequence numbers are exactly 0, 1, 2 and so on.
pub open spec fn spine(records: Seq<RecordView>) -> bool {
    forall|i: int| 0 <= i < records.len() ==> (#[trigger] records[i]).seq == i
}

/// Whether the sequence numbers increase.
pub open spec fn increasing(records: Seq<RecordView>) -> bool {
    forall|i: int, j: int|
        0 <= i < j < records.len() ==> (#[trigger] records[i]).seq < (#[trigger] records[j]).seq
}

/// Whether every record carries the digest of the text that is served for it.
pub open spec fn fixed<W: Fn(&Vec<CanonicalField>) -> Vec<u8>>(
    w: W,
    records: Seq<RecordView>,
) -> bool {
    forall|i: int| 0 <= i < records.len() ==> record::digest_matches(w, #[trigger] records[i])
}

// ---------------------------------------------------------------------------
// Replay
// ---------------------------------------------------------------------------

/// What was read of a journal: its bytes, and the failure that ended the reading
/// early, if one did.
#[derive(Debug)]
pub struct JournalRead {
    pub bytes: Vec<u8>,
    pub failure: Option<String>,
}

/// What a journal line means for the records kept so far.
#[derive(Debug)]
pub enum LineOutcome {
    /// The next record.
    Keep(SnapshotRecord),
    /// A torn tail, and what is wrong with it.
    Torn(String),
    /// A line that an archive must not accept.
    Refuse(StoreError),
}

/// The content of a line outcome.
pub enum LineView {
    Keep(RecordView),
    Torn(Seq<char>),
    Refuse(StoreErrorView),
}

impl DeepView for LineOutcome {
    type V = LineView;

    open spec fn deep_view(&self) -> LineView {
        match *self {
            LineOutcome::Keep(r) => LineView::Keep(r@),
            LineOutcome::Torn(e) => LineView::Torn(e@),
            LineOutcome::Refuse(e) => LineView::Refuse(e.deep_view()),
        }
    }
}

/// The record that the text of a journal line holds.
pub open spec fn line_record(line: Seq<char>) -> Result<RecordView, Seq<char>> {
    match json::json_parsed(line) {
        Ok(j) => record::record_of(j),
        Err(e) => Err(e),
    }
}

/// `line N: `, in front of what is wrong with a line.
pub open spec fn at_line(n: nat, what: Seq<char>) -> Seq<char> {
    "line "@ + text::decimal(n) + ": "@ + what
}

/// The words for a line that is no text.
pub const NOT_TEXT: &'static str = "stream did not contain valid UTF-8";

/// The remark on a torn tail.
pub open spec fn torn_tail(kept: nat, e: Seq<char>) -> Seq<char> {
    "journal ends with a torn line (kept "@ + text::decimal(kept) + " snapshots): "@ + e
}

/// What a line means after `kept` records. A line that is no text, or holds no
/// record and is not blank, is a torn tail if it is the last one; otherwise it is
/// corruption. A record must have the next sequence number and the digest of its
/// rendered body.
pub open spec fn line_outcome<W: Fn(&Vec<CanonicalField>) -> Vec<u8>>(
    w: W,
    kept: nat,
    line: Option<Seq<char>>,
    line_no: nat,
    last: bool,
) -> LineView {
    match line {
        None => if last {
            LineView::Torn(torn_tail(kept, NOT_TEXT@))
        } else {
            LineView::Refuse(read_error(NOT_TEXT@))
        },
        Some(line) => match line_record(line) {
            Ok(r) => if r.seq != kept {
                LineView::Refuse(
                    StoreErrorView::Journal(
                        at_line(
                            line_no,
                            "seq "@ + text::decimal(r.seq as nat)
                                + " is out of sequence (expected "@ + text::decimal(kept) + ")"@,
                        ),
                    ),
                )
            } else if !record::digest_matches(w, r) {
                LineView::Refuse(
                    StoreErrorView::Journal(
                        at_line(
                            line_no,
                            "rendered body digest does not match the journaled digest (renderer drift or a tampered record)"@,
                        ),
                    ),
                )
            } else {
                LineView::Keep(r)
            },
            Err(e) => if last && text::trimmed(line).len() > 0 {
                LineView::Torn(torn_tail(kept, e))
            } else {
                LineView::Refuse(StoreErrorView::Journal(at_line(line_no, e)))
            },
        },
    }
}

/// The failure of a journal that could not be read to its end.
pub open spec fn read_error(e: Seq<char>) -> StoreErrorView {
    StoreErrorView::Journal("journal read error: "@ + e)
}

/// What replaying the lines from `i` on makes of the records kept so far: the
/// records kept in the end, and the remark on a torn tail or the failure. The
/// line at which reading failed is not looked at.
pub open spec fn replayed<W: Fn(&Vec<CanonicalField>) -> Vec<u8>>(
    w: W,
    kept: Seq<RecordView>,
    lines: Seq<Option<Seq<char>>>,
    failure: Option<Seq<char>>,
    i: int,
) -> (Seq<RecordView>, Result<Option<Seq<char>>, StoreErrorView>)
    decreases lines.len() - i,
{
    if failure is Some && i + 1 >= lines.len() {
        (kept, Err(read_error(failure->0)))
    } else if i >= lines.len() {
        (kept, Ok(None))
    } else {
        match line_outcome(w, kept.len(), lines[i], (i + 1) as nat, i + 1 == lines.len()) {
            LineView::Keep(r) => replayed(w, kept.push(r), lines, failure, i + 1),
            LineView::Torn(m) => (kept, Ok(Some(m))),
            LineView::Refuse(e) => (kept, Err(e)),
        }
    }
}

/// How a journal ends, and which part of it is to be kept.
#[verifier::ext_equal]
pub struct EndView {
    pub torn: Option<Seq<char>>,
    pub keep: int,
    pub line_feed_due: bool,
}

/// The end of a journal, given the remark on a torn tail.
pub open spec fn end_of(bytes: Seq<u8>, torn: Option<Seq<char>>) -> EndView {
    EndView {
        torn,
        keep: journal::keep_len(bytes, torn is Some),
        line_feed_due: journal::line_feed_due(bytes, torn is Some),
    }
}

/// The end of a journal that was replayed, or why it could not be.
pub open spec fn replay_end(
    bytes: Seq<u8>,
    end: Result<Option<Seq<char>>, StoreErrorView>,
) -> Result<EndView, StoreErrorView> {
    match end {
        Ok(torn) => Ok(end_of(bytes, torn)),
        Err(e) => Err(e),
    }
}

/// What opening a store on a journal gives: the records, and how the journal
/// ends.
pub open spec fn opened<W: Fn(&Vec<CanonicalField>) -> Vec<u8>>(
    w: W,
    bytes: Seq<u8>,
    failure: Option<Seq<char>>,
) -> Result<(Seq<RecordView>, EndView), StoreErrorView> {
    let (kept, end) = replayed(w, Seq::empty(), journal::lines_in(bytes), failure, 0);
    match replay_end(bytes, end) {
        Ok(e) => Ok((kept, e)),
        Err(e) => Err(e),
    }
}

/// Decide what a journal line means after `kept` records.
pub fn read_line<W: Fn(&Vec<CanonicalField>) -> Vec<u8>>(
    writer: &W,
    kept: u64,
    line: &Option<String>,
    line_no: u64,
    last: bool,
) -> (r: LineOutcome)
    requires
        canonical::is_writer(*writer),
    ensures
        r.deep_view() == line_outcome(
            *writer,
            kept as nat,
            line.deep_view(),
            line_no as nat,
            last,
        ),
{
    let line = match line {
        Some(line) => line,
        None => {
            return if last {
                LineOutcome::Torn(say_torn(kept, NOT_TEXT))
            } else {
                LineOutcome::Refuse(
                    StoreError::Journal(text::cat2("journal read error: ", NOT_TEXT)),
                )
            };
        },
    };
    let parsed = match json::parse(line) {
        Ok(v) => SnapshotRecord::from_journal_json(&v),
        Err(e) => Err(e),
    };
    proof {
        assert(text::outcome(parsed) == line_record(line@));
    }
    match parsed {
        Ok(record) => {
            if record.seq != kept {
                let what = text::cat5(
                    "seq ",
                    &text::decimal_u64(record.seq),
                    " is out of sequence (expected ",
                    &text::decimal_u64(kept),
                    ")",
                );
                return LineOutcome::Refuse(StoreError::Journal(say_at_line(line_no, &what)));
            }
            // Renderer-drift detection: the journaled body digest must equal
            // today's rendering of the record.
            let body = record.render_body(writer);
            if !hash::sha256_text(&body).same(&record.body_digest) {
                return LineOutcome::Refuse(
                    StoreError::Journal(
                        say_at_line(
                            line_no,
                            "rendered body digest does not match the journaled digest (renderer drift or a tampered record)",
                        ),
                    ),
                );
            }
            LineOutcome::Keep(record)
        },
        Err(e) => {
            if last && text::chars_of(&text::trim(line)).len() > 0 {
                LineOutcome::Torn(say_torn(kept, &e))
            } else {
                LineOutcome::Refuse(StoreError::Journal(say_at_line(line_no, &e)))
            }
        },
    }
}

fn say_torn(kept: u64, e: &str) -> (r: String)
    ensures
        r@ == torn_tail(kept as nat, e@),
{
    let start = text::cat3(
        "journal ends with a torn line (kept ",
        &text::decimal_u64(kept),
        " snapshots): ",
    );
    text::cat2(&start, e)
}

fn say_at_line(n: u64, what: &str) -> (r: String)
    ensures
        r@ == at_line(n as nat, what@),
{
    let start = text::cat3("line ", &text::decimal_u64(n), ": ");
    text::cat2(&start, what)
}

/// How a journal ends, and which part of it is to be kept before a line is added
/// to it.
#[derive(Debug)]
pub struct JournalEnd {
    /// The remark on a torn tail.
    pub torn: Option<String>,
    /// The number of bytes to keep; what stands after them is to be cut off.
    pub keep: usize,
    /// Whether a line feed is to be added to what is kept.
    pub line_feed_due: bool,
}

impl DeepView for JournalEnd {
    type V = EndView;

    open spec fn deep_view(&self) -> EndView {
        EndView {
            torn: self.torn.deep_view(),
            keep: self.keep as int,
            line_feed_due: self.line_feed_due,
        }
    }
}

/// A store that was opened, and how its journal ends.
#[derive(Debug)]
pub struct OpenedStore {
    pub store: SnapshotStore,
    pub end: JournalEnd,
}

impl DeepView for OpenedStore {
    type V = (Seq<RecordView>, EndView);

    open spec fn deep_view(&self) -> (Seq<RecordView>, EndView) {
        (self.store@, self.end.deep_view())
    }
}

// ---------------------------------------------------------------------------
// Appending
// ---------------------------------------------------------------------------

/// A snapshot file that is to be written.
#[derive(Debug)]
pub struct SnapshotFile {
    pub name: String,
    pub body: String,
}

/// What is to be written for a snapshot before it enters the index: first the
/// snapshot file, then the journal line.
#[derive(Debug)]
pub struct AppendPlan {
    pub file: SnapshotFile,
    /// The journal line, without the line feed.
    pub line: String,
}

/// The content of a snapshot file.
#[verifier::ext_equal]
pub struct FileView {
    pub name: Seq<char>,
    pub body: Seq<char>,
}

/// The content of an append plan.
#[verifier::ext_equal]
pub struct PlanView {
    pub file: FileView,
    pub line: Seq<char>,
}

impl DeepView for SnapshotFile {
    type V = FileView;

    open spec fn deep_view(&self) -> FileView {
        FileView { name: self.name@, body: self.body@ }
    }
}

impl DeepView for AppendPlan {
    type V = PlanView;

    open spec fn deep_view(&self) -> PlanView {
        PlanView { file: self.file.deep_view(), line: self.line@ }
    }
}

/// The name of the snapshot file for a snapshot id.
pub open spec fn file_name(snapshot_id: Seq<char>) -> Seq<char> {
    snapshot_id + ".json"@
}

/// The text of the journal line of a record.
pub open spec fn line_text(r: RecordView) -> Seq<char> {
    json::compact_text(record::journal_line(r))
}

/// Whether the text of the journal line of a record is one line that reads back.
pub open spec fn line_reads_back(r: RecordView) -> bool {
    &&& !line_text(r).contains('\n')
    &&& json::json_parsed(line_text(r)) == json::reads_as(record::journal_line(r))
}

/// What is to be written for a record, or why it cannot be appended. Its
/// sequence number must be the next one, and its body digest that of its
/// rendered body.
pub open spec fn append_plan<W: Fn(&Vec<CanonicalField>) -> Vec<u8>>(
    w: W,
    next: nat,
    r: RecordView,
) -> Result<PlanView, StoreErrorView> {
    if r.seq != next {
        Err(
            StoreErrorView::Conflict(
                "snapshot seq "@ + text::decimal(r.seq as nat)
                    + " is not the next sequence number ("@ + text::decimal(next) + ")"@,
            ),
        )
    } else if !record::digest_matches(w, r) {
        Err(StoreErrorView::Journal("record body digest does not match its rendered bytes"@))
    } else {
        Ok(
            PlanView {
                file: file_of(w, r),
                line: line_text(r),
            },
        )
    }
}

/// Whether a file is the one to be written for a record that can be appended.
pub open spec fn planned_file<W: Fn(&Vec<CanonicalField>) -> Vec<u8>>(
    w: W,
    next: nat,
    r: RecordView,
    f: FileView,
) -> bool {
    append_plan(w, next, r) matches Ok(plan) && plan.file == f
}

/// What becomes of the records once a record was written, or could not be.
pub open spec fn append_end(
    records: Seq<RecordView>,
    r: RecordView,
    written: Result<(), Seq<char>>,
) -> (Seq<RecordView>, Result<(), StoreErrorView>) {
    match written {
        Ok(_) => (records.push(r), Ok(())),
        Err(m) => (records, Err(StoreErrorView::Journal(m))),
    }
}

/// What may become of the records and what may be returned once the writes of a
/// plan were made: the file was written or not, and then the line was written or
/// not.
pub open spec fn append_concluded<
    F: FnOnce(&SnapshotFile) -> Result<(), String>,
    L: FnOnce(&String) -> Result<(), String>,
>(
    write_file: F,
    write_line: L,
    plan: PlanView,
    records: Seq<RecordView>,
    r: RecordView,
    after: Seq<RecordView>,
    end: Result<(), StoreErrorView>,
) -> bool {
    exists|f: SnapshotFile, filed: Result<(), String>| #[trigger]
        write_file.ensures((&f,), filed) && f.deep_view() == plan.file && match filed {
            Err(m) => (after, end) == append_end(records, r, Err::<(), Seq<char>>(m@)),
            Ok(_) => exists|l: String, written: Result<(), String>| #[trigger]
                write_line.ensures((&l,), written) && l@ == plan.line && (after, end)
                    == append_end(records, r, text::outcome(written)),
        }
}

/// The name of the snapshot file for a snapshot id.
pub fn snapshot_path(snapshot_id: &str) -> (r: String)
    ensures
        r@ == file_name(snapshot_id@),
{
    text::cat2(snapshot_id, ".json")
}

// ---------------------------------------------------------------------------
// Snapshot files
// ---------------------------------------------------------------------------

/// What was found where a snapshot file should be.
#[derive(Debug)]
pub enum FileRead {
    Found(Vec<u8>),
    Missing,
    /// There is a file, but it could not be read.
    Failed(String),
}

/// The content of what was found.
pub enum FileReadView {
    Found(Seq<u8>),
    Missing,
    Failed(Seq<char>),
}

impl DeepView for FileRead {
    type V = FileReadView;

    open spec fn deep_view(&self) -> FileReadView {
        match *self {
            FileRead::Found(b) => FileReadView::Found(b@),
            FileRead::Missing => FileReadView::Missing,
            FileRead::Failed(e) => FileReadView::Failed(e@),
        }
    }
}

/// What is to be done about a snapshot file.
#[derive(Debug)]
pub enum FileCheck {
    /// The file is exactly what was notarized.
    Intact,
    /// The file is missing and this is its content.
    Rematerialize(String),
}

/// The content of a file check.
pub enum FileCheckView {
    Intact,
    Rematerialize(Seq<char>),
}

impl DeepView for FileCheck {
    type V = FileCheckView;

    open spec fn deep_view(&self) -> FileCheckView {
        match *self {
            FileCheck::Intact => FileCheckView::Intact,
            FileCheck::Rematerialize(b) => FileCheckView::Rematerialize(b@),
        }
    }
}

/// What is to be done about the file of a record, given what was found: only a
/// missing file is written again.
pub open spec fn file_check<W: Fn(&Vec<CanonicalField>) -> Vec<u8>>(
    w: W,
    r: RecordView,
    found: FileReadView,
    path: Seq<char>,
) -> Result<FileCheckView, StoreErrorView> {
    match found {
        FileReadView::Found(bytes) => if bytes == vstd::utf8::encode_utf8(record::body_text(w, r)) {
            Ok(FileCheckView::Intact)
        } else {
            Err(
                StoreErrorView::Journal(
                    "snapshot file "@ + path
                        + " does not match the journaled record (tampered or stale)"@,
                ),
            )
        },
        FileReadView::Missing => Ok(FileCheckView::Rematerialize(record::body_text(w, r))),
        FileReadView::Failed(e) => Err(
            StoreErrorView::Journal("cannot read snapshot file "@ + path + ": "@ + e),
        ),
    }
}

fn same_bytes(a: &[u8], b: &[u8]) -> (r: bool)
    ensures
        r == (a@ == b@),
{
    if a.len() != b.len() {
        return false;
    }
    let mut i: usize = 0;
    while i < a.len()
        invariant
            a@.len() == b@.len(),
            i <= a@.len(),
            forall|j: int| 0 <= j < i ==> a@[j] == #[trigger] b@[j],
        decreases a@.len() - i,
    {
        if a[i] != b[i] {
            proof {
                assert(a@[i as int] != b@[i as int]);
            }
            return false;
        }
        i = i + 1;
    }
    proof {
        assert(a@ =~= b@);
    }
    true
}

/// Check what was found of the snapshot file of a record against its rendered
/// body. A missing file is to be written again; other bytes, and a file that
/// cannot be read, are a hard error.
pub fn check_snapshot_file<W: Fn(&Vec<CanonicalField>) -> Vec<u8>>(
    writer: &W,
    record: &SnapshotRecord,
    found: &FileRead,
    path: &str,
) -> (r: Result<FileCheck, StoreError>)
    requires
        canonical::is_writer(*writer),
    ensures
        outcome(r) == file_check(*writer, record@, found.deep_view(), path@),
{
    let body = record.render_body(writer);
    match found {
        FileRead::Found(bytes) => {
            if same_bytes(bytes.as_slice(), body.as_str().as_bytes()) {
                Ok(FileCheck::Intact)
            } else {
                Err(
                    StoreError::Journal(
                        text::cat3(
                            "snapshot file ",
                            path,
                            " does not match the journaled record (tampered or stale)",
                        ),
                    ),
                )
            }
        },
        FileRead::Missing => Ok(FileCheck::Rematerialize(body)),
        FileRead::Failed(e) => {
            let start = text::cat3("cannot read snapshot file ", path, ": ");
            Err(StoreError::Journal(text::cat2(&start, e)))
        },
    }
}

/// The snapshot file of a record.
pub open spec fn file_of<W: Fn(&Vec<CanonicalField>) -> Vec<u8>>(w: W, r: RecordView) -> FileView {
    FileView { name: file_name(r.snapshot_id), body: record::body_text(w, r) }
}

/// Whether the file of a record may be read, and written where it may be missing.
pub open spec fn may_settle<
    W: Fn(&Vec<CanonicalField>) -> Vec<u8>,
    R: Fn(&String) -> FileRead,
    F: Fn(&SnapshotFile) -> Result<(), String>,
>(w: W, read: R, write: F, r: RecordView) -> bool {
    &&& forall|n: String| n@ == file_name(r.snapshot_id) ==> #[trigger] read.requires((&n,))
    &&& forall|n: String, f: SnapshotFile|
        #![trigger read.ensures((&n,), FileRead::Missing), write.requires((&f,))]
        n@ == file_name(r.snapshot_id) && read.ensures((&n,), FileRead::Missing) && f.deep_view()
            == file_of(w, r) ==> write.requires((&f,))
}

/// What may come of the file of a record: it was found intact, it was missing and
/// its body was written, or it failed.
pub open spec fn file_settled<
    W: Fn(&Vec<CanonicalField>) -> Vec<u8>,
    R: Fn(&String) -> FileRead,
    F: Fn(&SnapshotFile) -> Result<(), String>,
>(
    w: W,
    read: R,
    write: F,
    dir: Seq<char>,
    r: RecordView,
    end: Result<(), StoreErrorView>,
) -> bool {
    exists|n: String, found: FileRead| #[trigger]
        read.ensures((&n,), found) && n@ == file_name(r.snapshot_id) && match file_check(
            w,
            r,
            found.deep_view(),
            dir + n@,
        ) {
            Err(e) => end == Err::<(), StoreErrorView>(e),
            Ok(FileCheckView::Intact) => end is Ok,
            Ok(FileCheckView::Rematerialize(_)) => exists|
                f: SnapshotFile,
                written: Result<(), String>,
            | #[trigger]
                write.ensures((&f,), written) && f.deep_view() == file_of(w, r) && end
                    == written_end(text::outcome(written)),
        }
}

/// What comes of a file that was written, or could not be.
pub open spec fn written_end(written: Result<(), Seq<char>>) -> Result<(), StoreErrorView> {
    match written {
        Ok(_) => Ok(()),
        Err(m) => Err(StoreErrorView::Journal(m)),
    }
}

/// What may come of the files of some records: either all are settled, or the
/// first one that fails ends it.
pub open spec fn files_settled<
    W: Fn(&Vec<CanonicalField>) -> Vec<u8>,
    R: Fn(&String) -> FileRead,
    F: Fn(&SnapshotFile) -> Result<(), String>,
>(
    w: W,
    read: R,
    write: F,
    dir: Seq<char>,
    rs: Seq<RecordView>,
    end: Result<(), StoreErrorView>,
) -> bool {
    match end {
        Ok(_) => forall|i: int|
            0 <= i < rs.len() ==> file_settled(
                w,
                read,
                write,
                dir,
                #[trigger] rs[i],
                Ok::<(), StoreErrorView>(()),
            ),
        Err(_) => exists|k: int|
            0 <= k < rs.len() && file_settled(w, read, write, dir, #[trigger] rs[k], end)
                && forall|i: int|
                0 <= i < k ==> file_settled(
                    w,
                    read,
                    write,
                    dir,
                    #[trigger] rs[i],
                    Ok::<(), StoreErrorView>(()),
                ),
    }
}

/// Read the snapshot file of a record and check it, and write it where it is
/// missing. A file that is there is never written.
fn settle_file<
    W: Fn(&Vec<CanonicalField>) -> Vec<u8>,
    R: Fn(&String) -> FileRead,
    F: Fn(&SnapshotFile) -> Result<(), String>,
>(writer: &W, read: &R, write: &F, dir: &str, record: &SnapshotRecord) -> (r: Result<
    (),
    StoreError,
>)
    requires
        canonical::is_writer(*writer),
        may_settle(*writer, *read, *write, record@),
    ensures
        file_settled(*writer, *read, *write, dir@, record@, outcome(r)),
{
    let name = snapshot_path(&record.snapshot_id);
    let found = read(&name);
    match check_snapshot_file(writer, record, &found, &text::cat2(dir, &name)) {
        Ok(FileCheck::Intact) => Ok(()),
        Ok(FileCheck::Rematerialize(body)) => {
            proof {
                assert(found == FileRead::Missing);
            }
            let file = SnapshotFile { name, body };
            match write(&file) {
                Ok(_) => Ok(()),
                Err(m) => Err(StoreError::Journal(m)),
            }
        },
        Err(e) => Err(e),
    }
}

// ---------------------------------------------------------------------------
// Reads
// ---------------------------------------------------------------------------

/// Whether the record at `i` is the first with an id.
pub open spec fn first_with_id(records: Seq<RecordView>, id: Seq<char>, i: int) -> bool {
    &&& 0 <= i < records.len()
    &&& records[i].snapshot_id == id
    &&& forall|j: int| 0 <= j < i ==> (#[trigger] records[j]).snapshot_id != id
}

/// The record for a snapshot id: the first one that has it.
pub open spec fn found(records: Seq<RecordView>, id: Seq<char>) -> Option<RecordView> {
    if exists|i: int| first_with_id(records, id, i) {
        Some(records[choose|i: int| first_with_id(records, id, i)])
    } else {
        None
    }
}

/// Whether a record belongs to an as-of listing: of the passport, if one is
/// asked for, and notarized at or before the instant, if one is given.
pub open spec fn in_listing(
    r: RecordView,
    passport_id: Option<Seq<char>>,
    at: Option<Timestamp>,
) -> bool {
    &&& (passport_id matches Some(p) ==> r.passport_id == p)
    &&& (at matches Some(t) ==> r.notarized_at.secs <= t.secs)
}

/// The as-of listing, in sequencing order.
pub open spec fn listed(
    records: Seq<RecordView>,
    passport_id: Option<Seq<char>>,
    at: Option<Timestamp>,
) -> Seq<RecordView> {
    records.filter(|r: RecordView| in_listing(r, passport_id, at))
}

/// The records of a page: `limit` of them, after the first `offset`.
pub open spec fn page(records: Seq<RecordView>, limit: nat, offset: nat) -> Seq<RecordView> {
    let from = if offset <= records.len() {
        offset
    } else {
        records.len()
    };
    let to = if from + limit <= records.len() {
        from + limit
    } else {
        records.len()
    };
    records.subrange(from as int, to as int)
}

/// A record in the audit view: its journal line, and the body digest once more.
pub open spec fn audit_row(r: RecordView) -> JsonView {
    json::with_field(
        record::journal_line(r),
        "body_sha256"@,
        JsonView::Str(hex::hex_text(r.body_digest)),
    )
}

/// The audit view of a page of the journal.
pub open spec fn audit_view(records: Seq<RecordView>, limit: nat, offset: nat) -> JsonView {
    let rows = page(records, limit, offset);
    JsonView::Obj(
        map![
            "count"@ => JsonView::UInt(rows.len() as u64),
            "total"@ => JsonView::UInt(records.len() as u64),
            "limit"@ => JsonView::UInt(limit as u64),
            "offset"@ => JsonView::UInt(offset as u64),
            "records"@ => JsonView::Arr(rows.map_values(|r: RecordView| audit_row(r))),
        ],
    )
}

/// There is a torn tail only where there is a line.
proof fn lemma_torn_line<W: Fn(&Vec<CanonicalField>) -> Vec<u8>>(
    w: W,
    kept: Seq<RecordView>,
    lines: Seq<Option<Seq<char>>>,
    failure: Option<Seq<char>>,
    i: int,
)
    requires
        i >= 0,
    ensures
        replayed(w, kept, lines, failure, i).1 matches Ok(Some(_)) ==> lines.len() > 0,
    decreases lines.len() - i,
{
    if !(failure is Some && i + 1 >= lines.len()) && i < lines.len() {
        match line_outcome(w, kept.len(), lines[i], (i + 1) as nat, i + 1 == lines.len()) {
            LineView::Keep(r) => {
                lemma_torn_line(w, kept.push(r), lines, failure, i + 1);
            },
            _ => {},
        }
    }
}

/// Apply journal lines to records, in order.
fn replay_lines<W: Fn(&Vec<CanonicalField>) -> Vec<u8>>(
    writer: &W,
    records: Vec<SnapshotRecord>,
    lines: &Vec<Option<String>>,
    failure: &Option<String>,
) -> (r: (Vec<SnapshotRecord>, Result<Option<String>, StoreError>))
    requires
        canonical::is_writer(*writer),
        spine(records.deep_view()),
    ensures
        (r.0.deep_view(), outcome(r.1)) == replayed(
            *writer,
            records.deep_view(),
            lines.deep_view(),
            failure.deep_view(),
            0,
        ),
        spine(r.0.deep_view()),
{
    let n: usize = lines.len();
    let readable: usize = match failure {
        Some(_) => {
            if n > 0 {
                n - 1
            } else {
                0
            }
        },
        None => n,
    };
    let ghost start = records.deep_view();
    let ghost texts = lines.deep_view();
    let ghost broken = failure.deep_view();
    let mut kept = records;
    let mut i: usize = 0;
    while i < readable
        invariant
            canonical::is_writer(*writer),
            i <= readable <= n,
            n == lines@.len(),
            texts == lines.deep_view(),
            broken is None ==> readable == n,
            broken is Some ==> (n > 0 && readable == n - 1) || (n == 0 && readable == 0),
            spine(kept.deep_view()),
            start == records.deep_view(),
            broken == failure.deep_view(),
            replayed(*writer, start, texts, broken, 0) == replayed(
                *writer,
                kept.deep_view(),
                texts,
                broken,
                i as int,
            ),
        decreases readable - i,
    {
        let next: u64 = kept.len() as u64;
        proof {
            assert(texts[i as int] == lines@[i as int].deep_view());
        }
        match read_line(writer, next, &lines[i], (i as u64) + 1, n - i == 1) {
            LineOutcome::Keep(r) => {
                let ghost before = kept.deep_view();
                kept.push(r);
                proof {
                    assert(kept.deep_view() =~= before.push(r@));
                    assert(r@.seq == before.len());
                }
            },
            LineOutcome::Torn(m) => {
                return (kept, Ok(Some(m)));
            },
            LineOutcome::Refuse(e) => {
                return (kept, Err(e));
            },
        }
        i = i + 1;
    }
    match failure {
        Some(e) => (
            kept,
            Err(StoreError::Journal(text::cat2("journal read error: ", e))),
        ),
        None => (kept, Ok(None)),
    }
}

impl SnapshotStore {
    /// A store without records.
    pub fn new() -> (r: SnapshotStore)
        ensures
            r@ == Seq::<RecordView>::empty(),
    {
        let records: Vec<SnapshotRecord> = Vec::new();
        proof {
            assert(records.deep_view() =~= Seq::<RecordView>::empty());
        }
        SnapshotStore { records }
    }

    /// A store with the records of a journal. A torn final line is tolerated and
    /// reported; anything else that is wrong is an integrity error.
    pub fn open<W: Fn(&Vec<CanonicalField>) -> Vec<u8>>(
        writer: &W,
        journal: Option<&JournalRead>,
    ) -> (r: Result<OpenedStore, StoreError>)
        requires
            canonical::is_writer(*writer),
        ensures
            outcome(r) == match journal {
                Some(j) => opened(*writer, j.bytes@, j.failure.deep_view()),
                None => opened(*writer, Seq::empty(), None),
            },
    {
        let mut store = SnapshotStore::new();
        match journal {
            Some(j) => match store.replay(writer, j) {
                Ok(end) => Ok(OpenedStore { store, end }),
                Err(e) => Err(e),
            },
            None => {
                let end = JournalEnd { torn: None, keep: 0, line_feed_due: false };
                Ok(OpenedStore { store, end })
            },
        }
    }

    /// Apply the lines of a journal in order, and report how it ends.
    pub fn replay<W: Fn(&Vec<CanonicalField>) -> Vec<u8>>(
        &mut self,
        writer: &W,
        journal: &JournalRead,
    ) -> (r: Result<JournalEnd, StoreError>)
        requires
            canonical::is_writer(*writer),
        ensures
            ({
                let (kept, end) = replayed(
                    *writer,
                    old(self)@,
                    journal::lines_in(journal.bytes@),
                    journal.failure.deep_view(),
                    0,
                );
                final(self)@ == kept && outcome(r) == replay_end(journal.bytes@, end)
            }),
    {
        proof {
            use_type_invariant(&*self);
        }
        let read = journal::split_lines(journal.bytes.as_slice());
        let mut records: Vec<SnapshotRecord> = Vec::new();
        proof {
            assert(records.deep_view() =~= Seq::<RecordView>::empty());
        }
        std::mem::swap(&mut records, &mut self.records);
        let (records, end) = replay_lines(writer, records, &read.lines, &journal.failure);
        self.records = records;
        match end {
            Ok(torn) => {
                let n: usize = journal.bytes.len();
                proof {
                    lemma_torn_line(
                        *writer,
                        old(self)@,
                        journal::lines_in(journal.bytes@),
                        journal.failure.deep_view(),
                        0,
                    );
                    journal::lemma_mended(journal.bytes@, torn is Some);
                }
                let keep: usize = if torn.is_none() {
                    n
                } else if read.ended {
                    n - read.last_len - 1
                } else {
                    n - read.last_len
                };
                let line_feed_due = torn.is_none() && !read.ended;
                Ok(JournalEnd { torn, keep, line_feed_due })
            },
            Err(e) => Err(e),
        }
    }

    /// Reserve the next sequence number for a snapshot notarized at `now`.
    pub fn reserve(&self, now: Timestamp) -> (r: (u64, Timestamp))
        ensures
            r.0 == self@.len(),
            r.1 == now,
    {
        (self.size(), now)
    }

    /// Decide what is to be written for a record before it is appended.
    pub fn prepare_append<W: Fn(&Vec<CanonicalField>) -> Vec<u8>>(
        &self,
        writer: &W,
        record: &SnapshotRecord,
    ) -> (r: Result<AppendPlan, StoreError>)
        requires
            canonical::is_writer(*writer),
        ensures
            outcome(r) == append_plan(*writer, self@.len(), record@),
            r is Ok ==> !line_text(record@).contains('\n'),
            r is Ok && record::plain_receipt(record@, record::JOURNAL_RECEIPT_DEPTH as nat)
                ==> line_reads_back(record@),
    {
        let next: u64 = self.size();
        if record.seq != next {
            return Err(
                StoreError::Conflict(
                    text::cat5(
                        "snapshot seq ",
                        &text::decimal_u64(record.seq),
                        " is not the next sequence number (",
                        &text::decimal_u64(next),
                        ")",
                    ),
                ),
            );
        }
        let body = record.render_body(writer);
        if !hash::sha256_text(&body).same(&record.body_digest) {
            return Err(
                StoreError::Journal(
                    "record body digest does not match its rendered bytes".to_owned(),
                ),
            );
        }
        proof {
            if record::plain_receipt(record@, record::JOURNAL_RECEIPT_DEPTH as nat) {
                record_laws::lemma_journal_line_portable(record@);
            }
        }
        let line = json::compact(&record.to_journal_json());
        let file = SnapshotFile { name: snapshot_path(&record.snapshot_id), body };
        Ok(AppendPlan { file, line })
    }

    /// Enter a record into the index once it was written, or report that it
    /// could not be.
    pub fn finish_append(&mut self, record: &SnapshotRecord, written: Result<(), String>) -> (r:
        Result<(), StoreError>)
        requires
            written is Ok ==> record@.seq == old(self)@.len(),
        ensures
            (final(self)@, outcome(r)) == append_end(old(self)@, record@, text::outcome(written)),
    {
        match written {
            Ok(_) => {
                proof {
                    use_type_invariant(&*self);
                }
                let mut records: Vec<SnapshotRecord> = Vec::new();
                proof {
                    assert(records.deep_view() =~= Seq::<RecordView>::empty());
                }
                std::mem::swap(&mut records, &mut self.records);
                records.push(record.clone());
                proof {
                    assert(records.deep_view() =~= old(self)@.push(record@));
                }
                self.records = records;
                Ok(())
            },
            Err(m) => Err(StoreError::Journal(m)),
        }
    }

    /// Append one sealed snapshot: write its file, add its line to the journal,
    /// and enter it into the index. Its `seq` must be exactly the next sequence
    /// number. Nothing is written for a record that is refused, and no line is
    /// added for one whose file could not be written.
    ///
    /// `write_line` is to add the line and a line feed after the lines that were
    /// added before, and where it fails to leave those as they were.
    pub fn append_snapshot<
        W: Fn(&Vec<CanonicalField>) -> Vec<u8>,
        F: FnOnce(&SnapshotFile) -> Result<(), String>,
        L: FnOnce(&String) -> Result<(), String>,
    >(&mut self, writer: &W, record: &SnapshotRecord, write_file: F, write_line: L) -> (r: Result<
        (),
        StoreError,
    >)
        requires
            canonical::is_writer(*writer),
            forall|f: SnapshotFile|
                planned_file(*writer, old(self)@.len(), record@, f.deep_view())
                    ==> #[trigger] write_file.requires((&f,)),
            forall|f: SnapshotFile, l: String|
                #![trigger write_file.ensures((&f,), Ok::<(), String>(())), write_line.requires((&l,))]
                planned_file(*writer, old(self)@.len(), record@, f.deep_view())
                    && write_file.ensures((&f,), Ok::<(), String>(())) && l@ == line_text(record@)
                    ==> write_line.requires((&l,)),
        ensures
            match append_plan(*writer, old(self)@.len(), record@) {
                Err(e) => final(self)@ == old(self)@ && outcome(r) == Err::<(), StoreErrorView>(e),
                Ok(plan) => append_concluded(
                    write_file,
                    write_line,
                    plan,
                    old(self)@,
                    record@,
                    final(self)@,
                    outcome(r),
                ),
            },
            append_plan(*writer, old(self)@.len(), record@) is Ok ==> !line_text(
                record@,
            ).contains('\n'),
            append_plan(*writer, old(self)@.len(), record@) is Ok && record::plain_receipt(
                record@,
                record::JOURNAL_RECEIPT_DEPTH as nat,
            ) ==> line_reads_back(record@),
    {
        match self.prepare_append(writer, record) {
            Ok(plan) => {
                match write_file(&plan.file) {
                    Ok(_) => {},
                    Err(m) => {
                        return self.finish_append(record, Err(m));
                    },
                }
                let written = write_line(&plan.line);
                self.finish_append(record, written)
            },
            Err(e) => Err(e),
        }
    }

    /// Verify every snapshot file against its record: read each, in sequencing
    /// order, and write those that are missing. A file that does not match, that
    /// cannot be read or that cannot be written ends it with an error, and a file
    /// that is there is left as it is. `dir` stands in front of a file's name where
    /// an error speaks of it.
    pub fn verify_snapshot_files<
        W: Fn(&Vec<CanonicalField>) -> Vec<u8>,
        R: Fn(&String) -> FileRead,
        F: Fn(&SnapshotFile) -> Result<(), String>,
    >(&self, writer: &W, read: &R, write: &F, dir: &str) -> (r: Result<(), StoreError>)
        requires
            canonical::is_writer(*writer),
            forall|i: int|
                0 <= i < self@.len() ==> may_settle(*writer, *read, *write, #[trigger] self@[i]),
        ensures
            files_settled(*writer, *read, *write, dir@, self@, outcome(r)),
    {
        let mut i: usize = 0;
        while i < self.records.len()
            invariant
                canonical::is_writer(*writer),
                i <= self.records@.len(),
                forall|k: int|
                    0 <= k < self@.len() ==> may_settle(
                        *writer,
                        *read,
                        *write,
                        #[trigger] self@[k],
                    ),
                forall|k: int|
                    0 <= k < i ==> file_settled(
                        *writer,
                        *read,
                        *write,
                        dir@,
                        #[trigger] self@[k],
                        Ok::<(), StoreErrorView>(()),
                    ),
            decreases self.records@.len() - i,
        {
            proof {
                assert(self@[i as int] == self.records@[i as int]@);
            }
            match settle_file(writer, read, write, dir, &self.records[i]) {
                Ok(_) => {},
                Err(e) => {
                    return Err(e);
                },
            }
            i = i + 1;
        }
        Ok(())
    }

    // -- reads -----------------------------------------------------------

    /// Number of snapshots (the next sequence number).
    pub fn size(&self) -> (r: u64)
        ensures
            r == self@.len(),
            spine(self@),
    {
        proof {
            use_type_invariant(self);
        }
        self.records.len() as u64
    }

    /// The record for a snapshot id.
    pub fn get(&self, snapshot_id: &str) -> (r: Option<&SnapshotRecord>)
        ensures
            r.deep_view() == found(self@, snapshot_id@),
    {
        let mut i: usize = 0;
        while i < self.records.len()
            invariant
                i <= self.records@.len(),
                forall|j: int| 0 <= j < i ==> (#[trigger] self@[j]).snapshot_id != snapshot_id@,
            decreases self.records@.len() - i,
        {
            proof {
                assert(self@[i as int] == self.records@[i as int]@);
            }
            if text::same_text(&self.records[i].snapshot_id, snapshot_id) {
                proof {
                    assert(first_with_id(self@, snapshot_id@, i as int));
                    let k = choose|k: int| first_with_id(self@, snapshot_id@, k);
                    assert(k == i);
                }
                return Some(&self.records[i]);
            }
            i = i + 1;
        }
        None
    }

    /// As-of listing: every snapshot for `passport_id` (when given) that existed
    /// at `at` (when given), in sequencing order.
    pub fn list(&self, passport_id: Option<&str>, at: Option<Timestamp>) -> (r: Vec<
        &SnapshotRecord,
    >)
        ensures
            r.deep_view() == listed(self@, passport_id.deep_view(), at),
            increasing(r.deep_view()),
            forall|x: RecordView| #[trigger]
                r.deep_view().contains(x) <==> self@.contains(x) && (passport_id matches Some(p)
                    ==> x.passport_id == p@) && (at matches Some(t) ==> x.notarized_at.secs
                    <= t.secs),
    {
        proof {
            use_type_invariant(self);
        }
        let ghost keep = |x: RecordView| in_listing(x, passport_id.deep_view(), at);
        let mut r: Vec<&SnapshotRecord> = Vec::new();
        let mut i: usize = 0;
        proof {
            reveal(Seq::filter);
            assert(r.deep_view() =~= self@.take(0).filter(keep));
        }
        while i < self.records.len()
            invariant
                i <= self.records@.len(),
                keep == (|x: RecordView| in_listing(x, passport_id.deep_view(), at)),
                r.deep_view() == self@.take(i as int).filter(keep),
            decreases self.records@.len() - i,
        {
            let x = &self.records[i];
            let of_passport = match passport_id {
                Some(p) => text::same_text(&x.passport_id, p),
                None => true,
            };
            let existed = match at {
                Some(t) => x.notarized_at.secs <= t.secs,
                None => true,
            };
            let ghost before = r.deep_view();
            if of_passport && existed {
                r.push(x);
            }
            proof {
                reveal(Seq::filter);
                let t = self@.take(i + 1);
                assert(t.drop_last() =~= self@.take(i as int));
                assert(t.last() == x@);
                if of_passport && existed {
                    assert(r.deep_view() =~= before.push(x@));
                }
            }
            i = i + 1;
        }
        proof {
            assert(self@.take(i as int) =~= self@);
            archive_laws::law_listing_is_ordered(self@, passport_id.deep_view(), at);
            assert forall|x: RecordView| #[trigger] r.deep_view().contains(x) <==> self@.contains(x)
                && (passport_id matches Some(p) ==> x.passport_id == p@) && (at matches Some(t)
                ==> x.notarized_at.secs <= t.secs) by {
                archive_laws::law_listing_is_exact(self@, passport_id.deep_view(), at, x);
            }
        }
        r
    }

    /// The audit view of the journal (derived; ordered).
    pub fn audit_json(&self, limit: usize, offset: usize) -> (v: Value)
        ensures
            json::json_of(v) == audit_view(self@, limit as nat, offset as nat),
            increasing(page(self@, limit as nat, offset as nat)),
    {
        proof {
            use_type_invariant(self);
            archive_laws::law_page_is_consecutive(self@, limit as nat, offset as nat);
        }
        let total: usize = self.records.len();
        let from: usize = if offset <= total {
            offset
        } else {
            total
        };
        let to: usize = if limit <= total - from {
            from + limit
        } else {
            total
        };
        let ghost rows = page(self@, limit as nat, offset as nat);
        let mut out: Vec<Value> = Vec::new();
        let mut i: usize = from;
        while i < to
            invariant
                from <= i <= to <= self.records@.len(),
                rows == self@.subrange(from as int, to as int),
                json::contents(out@) == rows.take(i - from).map_values(
                    |r: RecordView| audit_row(r),
                ),
                out@.len() == i - from,
            decreases to - i,
        {
            let r = &self.records[i];
            let mut v = r.to_journal_json();
            json::insert(&mut v, "body_sha256", json::string(r.body_digest.hex()));
            let ghost before = json::contents(out@);
            let ghost row = json::json_of(v);
            out.push(v);
            proof {
                assert(self@[i as int] == r@);
                assert(rows[i - from] == r@);
                assert(json::contents(out@) =~= before.push(row));
                assert(rows.take(i - from + 1) =~= rows.take(i - from).push(r@));
                assert(rows.take(i - from + 1).map_values(|r: RecordView| audit_row(r))
                    =~= rows.take(i - from).map_values(|r: RecordView| audit_row(r)).push(
                    audit_row(r@),
                ));
            }
            i = i + 1;
        }
        proof {
            assert(rows.take(i - from) =~= rows);
        }
        let count: usize = out.len();
        let mut e = json::entries();
        json::put(&mut e, "count", json::uint(count as u64));
        json::put(&mut e, "total", json::uint(total as u64));
        json::put(&mut e, "limit", json::uint(limit as u64));
        json::put(&mut e, "offset", json::uint(offset as u64));
        json::put(&mut e, "records", json::array(out));
        json::object(e)
    }
}

} // verus!
