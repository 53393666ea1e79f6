//! What holds of the store: sequencing, replay and the as-of listing.

use vstd::prelude::*;
use crate::canonical::CanonicalField;
use crate::journal;
use crate::laws::records;
use crate::model::record;
use crate::model::record::RecordView;
use crate::store;
use crate::store::FileCheckView;
use crate::store::FileRead;
use crate::store::FileReadView;
use crate::store::LineView;
use crate::store::SnapshotFile;
use crate::store::StoreErrorView;
use crate::text;
use crate::time::Timestamp;

verus! {

// ---------------------------------------------------------------------------
// Sequencing
// ---------------------------------------------------------------------------

/// Appending keeps the archive sound: the sequence numbers stay 0, 1, 2 and so
/// on, and every record carries the digest of its served text.
pub proof fn law_append_keeps_the_archive_sound<W: Fn(&Vec<CanonicalField>) -> Vec<u8>>(
    w: W,
    records: Seq<RecordView>,
    r: RecordView,
)
    requires
        store::spine(records),
        store::fixed(w, records),
        store::append_plan(w, records.len(), r) is Ok,
    ensures
        store::spine(records.push(r)),
        store::fixed(w, records.push(r)),
{
    let after = records.push(r);
    assert forall|i: int| 0 <= i < after.len() implies (#[trigger] after[i]).seq == i
        && record::digest_matches(w, after[i]) by {
        if i < records.len() {
            assert(after[i] == records[i]);
        }
    }
}

/// A stale reservation is a conflict, never a silent overwrite: a record with
/// any sequence number but the next one is not appended.
pub proof fn law_stale_append_is_a_conflict<W: Fn(&Vec<CanonicalField>) -> Vec<u8>>(
    w: W,
    records: Seq<RecordView>,
    r: RecordView,
)
    requires
        r.seq != records.len(),
    ensures
        store::append_plan(w, records.len(), r) matches Err(StoreErrorView::Conflict(_)),
{
}

/// A sealed record with the next sequence number is appended, and what is
/// written to its file is the text that is served for it.
pub proof fn law_sealed_record_is_appended<W: Fn(&Vec<CanonicalField>) -> Vec<u8>>(
    w: W,
    records: Seq<RecordView>,
    r: RecordView,
    n: record::NotarizationView,
)
    requires
        r.seq == records.len(),
    ensures
        store::append_plan(w, records.len(), record::sealed(w, r, n)) matches Ok(p)
            && p.file.body == record::body_text(w, record::sealed(w, r, n)),
{
    records::law_sealed_record_is_fixed(w, r, n);
}

// ---------------------------------------------------------------------------
// Replay
// ---------------------------------------------------------------------------

proof fn lemma_replay_sound<W: Fn(&Vec<CanonicalField>) -> Vec<u8>>(
    w: W,
    kept: Seq<RecordView>,
    lines: Seq<Option<Seq<char>>>,
    failure: Option<Seq<char>>,
    i: int,
)
    requires
        store::spine(kept),
        store::fixed(w, kept),
    ensures
        store::spine(store::replayed(w, kept, lines, failure, i).0),
        store::fixed(w, store::replayed(w, kept, lines, failure, i).0),
    decreases lines.len() - i,
{
    if !(failure is Some && i + 1 >= lines.len()) && i < lines.len() {
        match store::line_outcome(
            w,
            kept.len(),
            lines[i],
            (i + 1) as nat,
            i + 1 == lines.len(),
        ) {
            LineView::Keep(r) => {
                let after = kept.push(r);
                assert forall|j: int| 0 <= j < after.len() implies (#[trigger] after[j]).seq == j
                    && record::digest_matches(w, after[j]) by {
                    if j < kept.len() {
                        assert(after[j] == kept[j]);
                    }
                }
                lemma_replay_sound(w, after, lines, failure, i + 1);
            },
            _ => {},
        }
    }
}

/// A store that opens is sound, whatever the journal holds: its sequence numbers
/// are 0, 1, 2 and so on, and every record carries the digest of its served
/// text.
pub proof fn law_opened_store_is_sound<W: Fn(&Vec<CanonicalField>) -> Vec<u8>>(
    w: W,
    bytes: Seq<u8>,
    failure: Option<Seq<char>>,
)
    ensures
        store::opened(w, bytes, failure) matches Ok(o) ==> store::spine(o.0) && store::fixed(w, o.0),
{
    lemma_replay_sound(w, Seq::empty(), journal::lines_in(bytes), failure, 0);
}

/// Where replay succeeds, the lines before a torn tail are the records, one by
/// one, and another journal that starts with those lines is replayed alike up to
/// them.
proof fn lemma_replay_prefix<W: Fn(&Vec<CanonicalField>) -> Vec<u8>>(
    w: W,
    kept: Seq<RecordView>,
    lines: Seq<Option<Seq<char>>>,
    other: Seq<Option<Seq<char>>>,
    i: int,
)
    requires
        kept.len() == i,
        i <= lines.len(),
        store::replayed(w, kept, lines, None, i).1 is Ok,
    ensures
        ({
            let (rs, end) = store::replayed(w, kept, lines, None, i);
            let n = rs.len() as int;
            &&& i <= n <= lines.len()
            &&& end->Ok_0 is None ==> n == lines.len()
            &&& end->Ok_0 is Some ==> n + 1 == lines.len()
            &&& other.len() >= n && other.take(n) == lines.take(n) ==> store::replayed(
                w,
                kept,
                other,
                None,
                i,
            ) == store::replayed(w, rs, other, None, n)
        }),
    decreases lines.len() - i,
{
    if i < lines.len() {
        let next = store::line_outcome(
            w,
            kept.len(),
            lines[i],
            (i + 1) as nat,
            i + 1 == lines.len(),
        );
        match next {
            LineView::Keep(r) => {
                lemma_replay_prefix(w, kept.push(r), lines, other, i + 1);
                let (rs, end) = store::replayed(w, kept, lines, None, i);
                let n = rs.len() as int;
                if other.len() >= n && other.take(n) == lines.take(n) {
                    assert(other[i] == other.take(n)[i]);
                    assert(lines[i] == lines.take(n)[i]);
                    assert(store::line_outcome(
                        w,
                        kept.len(),
                        other[i],
                        (i + 1) as nat,
                        i + 1 == other.len(),
                    ) == next);
                }
            },
            _ => {},
        }
    }
}

/// Whether a journal holds exactly some records: it opens as them, without a torn
/// tail, and a line can be added to it.
pub open spec fn in_step<W: Fn(&Vec<CanonicalField>) -> Vec<u8>>(
    w: W,
    journal: Seq<u8>,
    records: Seq<RecordView>,
) -> bool {
    &&& journal::ended(journal)
    &&& store::opened(w, journal, None) == Ok::<
        (Seq<RecordView>, store::EndView),
        StoreErrorView,
    >((records, store::end_of(journal, None)))
}

/// Whether a record can be read back from what is written for it.
pub open spec fn survives(r: RecordView) -> bool {
    records::journalable(r) && store::line_reads_back(r)
}

/// An empty journal holds an empty store.
pub proof fn law_fresh_journal_is_in_step<W: Fn(&Vec<CanonicalField>) -> Vec<u8>>(w: W)
    ensures
        in_step(w, Seq::<u8>::empty(), Seq::<RecordView>::empty()),
{
    assert(journal::lines_in(Seq::empty()) =~= Seq::<Option<Seq<char>>>::empty());
}

/// A journal that opens holds exactly the records that it opened as, once it is
/// mended: once a torn tail is cut off, or the line feed that the last line lacks
/// is added.
pub proof fn law_mended_journal_is_in_step<W: Fn(&Vec<CanonicalField>) -> Vec<u8>>(
    w: W,
    bytes: Seq<u8>,
)
    ensures
        store::opened(w, bytes, None) matches Ok(o) ==> in_step(
            w,
            journal::mended(bytes, o.1.torn is Some),
            o.0,
        ),
{
    let lines = journal::lines_in(bytes);
    if store::opened(w, bytes, None) is Ok {
        let (rs, end) = store::opened(w, bytes, None)->Ok_0;
        let torn = end.torn is Some;
        let whole = journal::mended(bytes, torn);
        let kept = journal::lines_in(whole);
        let n = rs.len() as int;
        lemma_replay_prefix(w, Seq::empty(), lines, kept, 0);
        assert(lines.len() == journal::raw_lines(bytes).len());
        journal::lemma_mended(bytes, torn);
        assert(kept =~= lines.take(n));
        assert(kept.take(n) =~= lines.take(n));
    }
}

/// The line of a record that can be appended is kept as that record.
proof fn lemma_line_is_kept<W: Fn(&Vec<CanonicalField>) -> Vec<u8>>(
    w: W,
    kept: nat,
    r: RecordView,
    line_no: nat,
    last: bool,
)
    requires
        store::append_plan(w, kept, r) is Ok,
        survives(r),
    ensures
        store::line_outcome(w, kept, Some(store::line_text(r)), line_no, last) == LineView::Keep(r),
{
    records::law_journal_round_trip(r);
    assert(store::line_record(store::line_text(r)) == Ok::<RecordView, Seq<char>>(r));
}

/// An append keeps the journal in step: with the line of the record it holds the
/// records of the index again.
pub proof fn law_append_keeps_the_journal_in_step<W: Fn(&Vec<CanonicalField>) -> Vec<u8>>(
    w: W,
    bytes: Seq<u8>,
    rs: Seq<RecordView>,
    r: RecordView,
)
    requires
        in_step(w, bytes, rs),
        store::append_plan(w, rs.len(), r) is Ok,
        survives(r),
    ensures
        in_step(w, bytes + journal::line_bytes(store::line_text(r)), rs.push(r)),
{
    let line = store::line_text(r);
    let lines = journal::lines_in(bytes);
    let all = journal::lines_in(bytes + journal::line_bytes(line));
    journal::lemma_text_added(bytes, line);
    lemma_replay_prefix(w, Seq::empty(), lines, all, 0);
    assert(all.take(rs.len() as int) =~= lines.take(rs.len() as int));
    lemma_line_is_kept(w, rs.len(), r, (rs.len() + 1) as nat, true);
    assert(all[rs.len() as int] == Some(line));
    assert(store::replayed(w, rs, all, None, rs.len() as int) == store::replayed(
        w,
        rs.push(r),
        all,
        None,
        rs.len() as int + 1,
    ));
}

/// An append survives a restart, also after a torn tail: opening a journal,
/// appending a record and opening what was written gives the records of before
/// and the new one.
pub proof fn law_append_survives_a_restart<W: Fn(&Vec<CanonicalField>) -> Vec<u8>>(
    w: W,
    bytes: Seq<u8>,
    r: RecordView,
)
    requires
        store::opened(w, bytes, None) matches Ok(o) && store::append_plan(w, o.0.len(), r) is Ok,
        survives(r),
    ensures
        ({
            let (rs, end) = store::opened(w, bytes, None)->Ok_0;
            let after = journal::mended(bytes, end.torn is Some) + journal::line_bytes(
                store::line_text(r),
            );
            store::opened(w, after, None) == Ok::<
                (Seq<RecordView>, store::EndView),
                StoreErrorView,
            >((rs.push(r), store::end_of(after, None)))
        }),
{
    let (rs, end) = store::opened(w, bytes, None)->Ok_0;
    law_mended_journal_is_in_step(w, bytes);
    law_append_keeps_the_journal_in_step(w, journal::mended(bytes, end.torn is Some), rs, r);
}

/// The journal of some records: their lines, one after the other.
pub open spec fn journal_of(rs: Seq<RecordView>) -> Seq<u8>
    decreases rs.len(),
{
    if rs.len() == 0 {
        Seq::empty()
    } else {
        journal_of(rs.drop_last()) + journal::line_bytes(store::line_text(rs.last()))
    }
}

/// Replay restores what was journaled: the lines of some records open as those
/// records, which are then served byte-identically.
pub proof fn law_replay_restores_the_records<W: Fn(&Vec<CanonicalField>) -> Vec<u8>>(
    w: W,
    rs: Seq<RecordView>,
)
    requires
        store::spine(rs),
        store::fixed(w, rs),
        forall|i: int| 0 <= i < rs.len() ==> survives(#[trigger] rs[i]),
    ensures
        in_step(w, journal_of(rs), rs),
    decreases rs.len(),
{
    if rs.len() == 0 {
        law_fresh_journal_is_in_step(w);
        assert(rs =~= Seq::empty());
    } else {
        let front = rs.drop_last();
        assert forall|i: int| 0 <= i < front.len() implies (#[trigger] front[i]).seq == i
            && record::digest_matches(w, front[i]) && survives(front[i]) by {
            assert(front[i] == rs[i]);
        }
        law_replay_restores_the_records(w, front);
        assert(rs[rs.len() - 1].seq == rs.len() - 1);
        assert(record::digest_matches(w, rs[rs.len() - 1]));
        assert(survives(rs[rs.len() - 1]));
        law_append_keeps_the_journal_in_step(w, journal_of(front), front, rs.last());
        assert(front.push(rs.last()) =~= rs);
    }
}

/// A torn tail is tolerated, wherever the tear falls: bytes after the last line
/// feed that are no text, or a text that holds no record and is not blank, cost
/// no snapshot and are reported, and what is to be kept is the journal without
/// them.
pub proof fn law_torn_tail_is_tolerated<W: Fn(&Vec<CanonicalField>) -> Vec<u8>>(
    w: W,
    bytes: Seq<u8>,
    rs: Seq<RecordView>,
    tail: Seq<u8>,
)
    requires
        in_step(w, bytes, rs),
        tail.len() > 0,
        !tail.contains(journal::LINE_FEED),
        journal::text_of(tail) matches Some(t) ==> store::line_record(t) is Err && text::trimmed(
            t,
        ).len() > 0,
    ensures
        store::opened(w, bytes + tail, None) matches Ok(o) && o.0 == rs && o.1.torn is Some,
        journal::mended(bytes + tail, true) == bytes,
{
    let lines = journal::lines_in(bytes);
    let all = journal::lines_in(bytes + tail);
    journal::lemma_split_continued(bytes, tail);
    assert(Seq::<u8>::empty() + tail =~= tail);
    assert(journal::split(bytes).1 + tail =~= tail);
    assert(journal::raw_lines(bytes).push(tail).map_values(|l: Seq<u8>| journal::text_of(l))
        =~= lines.push(journal::text_of(tail)));
    lemma_replay_prefix(w, Seq::empty(), lines, all, 0);
    assert(all.take(rs.len() as int) =~= lines.take(rs.len() as int));
    assert(all[rs.len() as int] == journal::text_of(tail));
    assert((bytes + tail).take(bytes.len() as int) =~= bytes);
}

// ---------------------------------------------------------------------------
// Appends that succeed and appends that fail
// ---------------------------------------------------------------------------

/// An append: the record, and what comes of writing its file and its line.
pub struct Attempt {
    pub record: RecordView,
    pub filed: Result<(), Seq<char>>,
    pub written: Result<(), Seq<char>>,
}

/// Whether the writes of an append succeed.
pub open spec fn is_written(a: Attempt) -> bool {
    a.filed is Ok && a.written is Ok
}

/// Whether the records that are written can be read back.
pub open spec fn written_survive(attempts: Seq<Attempt>) -> bool {
    forall|i: int|
        0 <= i < attempts.len() && is_written(#[trigger] attempts[i]) ==> survives(
            attempts[i].record,
        )
}

/// Whether an append gets through.
pub open spec fn gets_through<W: Fn(&Vec<CanonicalField>) -> Vec<u8>>(
    w: W,
    rs: Seq<RecordView>,
    a: Attempt,
) -> bool {
    store::append_plan(w, rs.len(), a.record) is Ok && is_written(a)
}

/// What an append makes of the records, and what it returns.
pub open spec fn attempt_end<W: Fn(&Vec<CanonicalField>) -> Vec<u8>>(
    w: W,
    rs: Seq<RecordView>,
    a: Attempt,
) -> (Seq<RecordView>, Result<(), StoreErrorView>) {
    match store::append_plan(w, rs.len(), a.record) {
        Err(e) => (rs, Err(e)),
        Ok(_) => match a.filed {
            Err(m) => store::append_end(rs, a.record, Err::<(), Seq<char>>(m)),
            Ok(_) => store::append_end(rs, a.record, a.written),
        },
    }
}

/// What an append makes of the journal: one line more if it gets through, and
/// nothing otherwise.
pub open spec fn journal_after<W: Fn(&Vec<CanonicalField>) -> Vec<u8>>(
    w: W,
    bytes: Seq<u8>,
    rs: Seq<RecordView>,
    a: Attempt,
) -> Seq<u8> {
    if gets_through(w, rs, a) {
        bytes + journal::line_bytes(store::line_text(a.record))
    } else {
        bytes
    }
}

/// What `append_snapshot` promises is an append in this sense.
pub proof fn law_append_is_an_attempt<
    W: Fn(&Vec<CanonicalField>) -> Vec<u8>,
    F: FnOnce(&SnapshotFile) -> Result<(), String>,
    L: FnOnce(&String) -> Result<(), String>,
>(
    w: W,
    write_file: F,
    write_line: L,
    rs: Seq<RecordView>,
    r: RecordView,
    after: Seq<RecordView>,
    end: Result<(), StoreErrorView>,
)
    requires
        store::append_plan(w, rs.len(), r) matches Ok(plan) && store::append_concluded(
            write_file,
            write_line,
            plan,
            rs,
            r,
            after,
            end,
        ),
    ensures
        exists|a: Attempt| a.record == r && (after, end) == #[trigger] attempt_end(w, rs, a),
{
    let plan = store::append_plan(w, rs.len(), r)->Ok_0;
    let (f, filed) = choose|f: SnapshotFile, filed: Result<(), String>| #[trigger]
        write_file.ensures((&f,), filed) && f.deep_view() == plan.file && match filed {
            Err(m) => (after, end) == store::append_end(rs, r, Err::<(), Seq<char>>(m@)),
            Ok(_) => exists|l: String, written: Result<(), String>| #[trigger]
                write_line.ensures((&l,), written) && l@ == plan.line && (after, end)
                    == store::append_end(rs, r, text::outcome(written)),
        };
    match filed {
        Err(m) => {
            let a = Attempt { record: r, filed: Err(m@), written: Ok(()) };
            assert((after, end) == attempt_end(w, rs, a));
        },
        Ok(_) => {
            let (l, written) = choose|l: String, written: Result<(), String>| #[trigger]
                write_line.ensures((&l,), written) && l@ == plan.line && (after, end)
                    == store::append_end(rs, r, text::outcome(written));
            let a = Attempt { record: r, filed: Ok(()), written: text::outcome(written) };
            assert((after, end) == attempt_end(w, rs, a));
        },
    }
}

/// An append that returns an error leaves records and journal as they were.
pub proof fn law_failed_append_changes_nothing<W: Fn(&Vec<CanonicalField>) -> Vec<u8>>(
    w: W,
    bytes: Seq<u8>,
    rs: Seq<RecordView>,
    a: Attempt,
)
    requires
        attempt_end(w, rs, a).1 is Err,
    ensures
        attempt_end(w, rs, a).0 == rs,
        journal_after(w, bytes, rs, a) == bytes,
{
}

/// The journal and the records after a sequence of appends, of which some may
/// fail.
pub open spec fn after_all<W: Fn(&Vec<CanonicalField>) -> Vec<u8>>(
    w: W,
    bytes: Seq<u8>,
    rs: Seq<RecordView>,
    attempts: Seq<Attempt>,
) -> (Seq<u8>, Seq<RecordView>)
    decreases attempts.len(),
{
    if attempts.len() == 0 {
        (bytes, rs)
    } else {
        let (j, r) = after_all(w, bytes, rs, attempts.drop_last());
        (journal_after(w, j, r, attempts.last()), attempt_end(w, r, attempts.last()).0)
    }
}

/// Appends that can be made and whose writes succeed are all kept, in order.
pub proof fn law_successful_appends_are_kept<W: Fn(&Vec<CanonicalField>) -> Vec<u8>>(
    w: W,
    bytes: Seq<u8>,
    rs: Seq<RecordView>,
    attempts: Seq<Attempt>,
)
    requires
        forall|i: int|
            0 <= i < attempts.len() ==> {
                &&& is_written(#[trigger] attempts[i])
                &&& store::append_plan(w, (rs.len() + i) as nat, attempts[i].record) is Ok
            },
    ensures
        after_all(w, bytes, rs, attempts).1 == rs + attempts.map_values(|a: Attempt| a.record),
    decreases attempts.len(),
{
    let all = attempts.map_values(|a: Attempt| a.record);
    if attempts.len() == 0 {
        assert(rs + all =~= rs);
    } else {
        let front = attempts.drop_last();
        assert forall|i: int| 0 <= i < front.len() implies {
            &&& is_written(#[trigger] front[i])
            &&& store::append_plan(w, (rs.len() + i) as nat, front[i].record) is Ok
        } by {
            assert(front[i] == attempts[i]);
        }
        law_successful_appends_are_kept(w, bytes, rs, front);
        let before = rs + front.map_values(|a: Attempt| a.record);
        let a = attempts[attempts.len() - 1];
        assert(before.len() == rs.len() + attempts.len() - 1);
        assert(gets_through(w, before, a));
        assert(rs + all =~= before.push(a.record));
    }
}

/// Whatever sequence of appends is made, and whichever of their writes fail, the
/// journal holds exactly the records of the index, so that it opens as them, and
/// the records of before stay as they were.
pub proof fn law_every_history_keeps_the_journal_in_step<
    W: Fn(&Vec<CanonicalField>) -> Vec<u8>,
>(w: W, bytes: Seq<u8>, rs: Seq<RecordView>, attempts: Seq<Attempt>)
    requires
        in_step(w, bytes, rs),
        written_survive(attempts),
    ensures
        ({
            let (j, after) = after_all(w, bytes, rs, attempts);
            &&& in_step(w, j, after)
            &&& rs.len() <= after.len()
            &&& after.take(rs.len() as int) == rs
        }),
    decreases attempts.len(),
{
    if attempts.len() == 0 {
        assert(rs.take(rs.len() as int) =~= rs);
    } else {
        let front = attempts.drop_last();
        assert(written_survive(front)) by {
            assert forall|i: int| 0 <= i < front.len() && is_written(#[trigger] front[i]) implies
                survives(front[i].record) by {
                assert(front[i] == attempts[i]);
            }
        }
        law_every_history_keeps_the_journal_in_step(w, bytes, rs, front);
        let (j, r) = after_all(w, bytes, rs, front);
        let a = attempts.last();
        assert(a == attempts[attempts.len() - 1]);
        if gets_through(w, r, a) {
            law_append_keeps_the_journal_in_step(w, j, r, a.record);
            assert(r.push(a.record).take(rs.len() as int) =~= r.take(rs.len() as int));
        }
    }
}

// ---------------------------------------------------------------------------
// What replay refuses
// ---------------------------------------------------------------------------

/// Whether replay refuses line `k`, once the lines before it are kept.
pub open spec fn line_refused<W: Fn(&Vec<CanonicalField>) -> Vec<u8>>(
    w: W,
    lines: Seq<Option<Seq<char>>>,
    k: int,
) -> bool {
    store::line_outcome(w, k as nat, lines[k], (k + 1) as nat, k + 1 == lines.len()) is Refuse
}

proof fn lemma_replay_refuses<W: Fn(&Vec<CanonicalField>) -> Vec<u8>>(
    w: W,
    kept: Seq<RecordView>,
    lines: Seq<Option<Seq<char>>>,
    failure: Option<Seq<char>>,
    i: int,
    k: int,
)
    requires
        kept.len() == i,
        0 <= i <= k < lines.len(),
        line_refused(w, lines, k),
    ensures
        store::replayed(w, kept, lines, failure, i).1 is Err,
    decreases lines.len() - i,
{
    if !(failure is Some && i + 1 >= lines.len()) && i < k {
        match store::line_outcome(
            w,
            kept.len(),
            lines[i],
            (i + 1) as nat,
            i + 1 == lines.len(),
        ) {
            LineView::Keep(r) => {
                lemma_replay_refuses(w, kept.push(r), lines, failure, i + 1, k);
            },
            _ => {},
        }
    }
}

/// Corruption before the last line is refused, be it a line that is no text or
/// one that holds no record: the archive does not paper over a
/// hole in the middle of its journal.
pub proof fn law_corruption_is_refused<W: Fn(&Vec<CanonicalField>) -> Vec<u8>>(
    w: W,
    bytes: Seq<u8>,
    failure: Option<Seq<char>>,
    k: int,
)
    requires
        0 <= k < journal::lines_in(bytes).len() - 1,
        journal::lines_in(bytes)[k] matches Some(t) ==> store::line_record(t) is Err,
    ensures
        store::opened(w, bytes, failure) is Err,
{
    lemma_replay_refuses(w, Seq::empty(), journal::lines_in(bytes), failure, 0, k);
}

/// A gap is refused: a record that does not have the number of its line keeps
/// the store from opening.
pub proof fn law_gap_is_refused<W: Fn(&Vec<CanonicalField>) -> Vec<u8>>(
    w: W,
    bytes: Seq<u8>,
    failure: Option<Seq<char>>,
    k: int,
)
    requires
        0 <= k < journal::lines_in(bytes).len(),
        journal::lines_in(bytes)[k] matches Some(t) && store::line_record(t) matches Ok(r) && r.seq != k,
    ensures
        store::opened(w, bytes, failure) is Err,
{
    lemma_replay_refuses(w, Seq::empty(), journal::lines_in(bytes), failure, 0, k);
}

/// A tampered record is refused: one whose rendered body no longer has the
/// journaled digest keeps the store from opening.
pub proof fn law_tampered_record_is_refused<W: Fn(&Vec<CanonicalField>) -> Vec<u8>>(
    w: W,
    bytes: Seq<u8>,
    failure: Option<Seq<char>>,
    k: int,
)
    requires
        0 <= k < journal::lines_in(bytes).len(),
        journal::lines_in(bytes)[k] matches Some(t) && store::line_record(t) matches Ok(r) && !record::digest_matches(w, r),
    ensures
        store::opened(w, bytes, failure) is Err,
{
    lemma_replay_refuses(w, Seq::empty(), journal::lines_in(bytes), failure, 0, k);
}

// ---------------------------------------------------------------------------
// Snapshot files
// ---------------------------------------------------------------------------

/// The store heals itself: what is written for a missing file, and what was
/// written when the record was appended, is what a later check finds intact.
pub proof fn law_written_files_are_intact<W: Fn(&Vec<CanonicalField>) -> Vec<u8>>(
    w: W,
    next: nat,
    r: RecordView,
    path: Seq<char>,
)
    ensures
        store::file_check(w, r, FileReadView::Missing, path) matches Ok(FileCheckView::Rematerialize(body))
            && store::file_check(
            w,
            r,
            FileReadView::Found(vstd::utf8::encode_utf8(body)),
            path,
        ) == Ok::<FileCheckView, StoreErrorView>(FileCheckView::Intact),
        store::append_plan(w, next, r) matches Ok(p) ==> store::file_check(
            w,
            r,
            FileReadView::Found(vstd::utf8::encode_utf8(p.file.body)),
            path,
        ) == Ok::<FileCheckView, StoreErrorView>(FileCheckView::Intact),
{
}

/// A file with any other bytes is a hard error: the archive does not serve what
/// was not notarized.
pub proof fn law_tampered_file_is_refused<W: Fn(&Vec<CanonicalField>) -> Vec<u8>>(
    w: W,
    r: RecordView,
    bytes: Seq<u8>,
    path: Seq<char>,
)
    requires
        bytes != vstd::utf8::encode_utf8(record::body_text(w, r)),
    ensures
        store::file_check(w, r, FileReadView::Found(bytes), path) matches Err(StoreErrorView::Journal(_)),
{
}

/// What is found on a disk, the bytes of whose files are known by name.
pub open spec fn on_disk(disk: Map<Seq<char>, Seq<u8>>, name: Seq<char>) -> FileReadView {
    if disk.contains_key(name) {
        FileReadView::Found(disk[name])
    } else {
        FileReadView::Missing
    }
}

/// The bytes of the snapshot file of a record.
pub open spec fn file_bytes<W: Fn(&Vec<CanonicalField>) -> Vec<u8>>(w: W, r: RecordView) -> Seq<u8> {
    vstd::utf8::encode_utf8(record::body_text(w, r))
}

/// Whether the file of a record, if it is there, holds its body.
pub open spec fn matches_on_disk<W: Fn(&Vec<CanonicalField>) -> Vec<u8>>(
    w: W,
    disk: Map<Seq<char>, Seq<u8>>,
    r: RecordView,
) -> bool {
    let name = store::file_name(r.snapshot_id);
    disk.contains_key(name) ==> disk[name] == file_bytes(w, r)
}

/// Whether no two records share an id.
pub open spec fn distinct_ids(rs: Seq<RecordView>) -> bool {
    forall|i: int, j: int|
        0 <= i < j < rs.len() ==> (#[trigger] rs[i]).snapshot_id != (#[trigger] rs[j]).snapshot_id
}

/// What verifying the files of some records makes of a disk that takes every
/// write, and how it ends.
pub open spec fn disk_after<W: Fn(&Vec<CanonicalField>) -> Vec<u8>>(
    w: W,
    rs: Seq<RecordView>,
    disk: Map<Seq<char>, Seq<u8>>,
    dir: Seq<char>,
) -> (Map<Seq<char>, Seq<u8>>, Result<(), StoreErrorView>)
    decreases rs.len(),
{
    if rs.len() == 0 {
        (disk, Ok(()))
    } else {
        let (d, end) = disk_after(w, rs.drop_last(), disk, dir);
        let name = store::file_name(rs.last().snapshot_id);
        match end {
            Err(_) => (d, end),
            Ok(_) => match store::file_check(w, rs.last(), on_disk(d, name), dir + name) {
                Err(e) => (d, Err(e)),
                Ok(FileCheckView::Intact) => (d, Ok(())),
                Ok(FileCheckView::Rematerialize(b)) => (
                    d.insert(name, vstd::utf8::encode_utf8(b)),
                    Ok(()),
                ),
            },
        }
    }
}

/// Different ids have different file names.
proof fn lemma_file_names_differ(a: Seq<char>, b: Seq<char>)
    requires
        store::file_name(a) == store::file_name(b),
    ensures
        a == b,
{
    let n = store::file_name(a);
    reveal_strlit(".json");
    assert(a =~= n.take(n.len() - 5));
    assert(b =~= n.take(n.len() - 5));
}

/// Records with the ids of their sequence numbers share none.
pub proof fn law_ids_are_distinct(rs: Seq<RecordView>)
    requires
        store::spine(rs),
        forall|i: int|
            0 <= i < rs.len() ==> (#[trigger] rs[i]).snapshot_id == record::id_of(rs[i].seq),
    ensures
        distinct_ids(rs),
{
    assert forall|i: int, j: int| 0 <= i < j < rs.len() implies (#[trigger] rs[i]).snapshot_id != (
    #[trigger] rs[j]).snapshot_id by {
        if rs[i].snapshot_id == rs[j].snapshot_id {
            records::law_snapshot_ids_differ(rs[i].seq, rs[j].seq);
        }
    }
}

/// Verifying the files of a whole store succeeds exactly if every file that is
/// there matches its record. Then every record's file holds its body. A file that
/// is there is left as it is, matching or not, and nothing is written but files of
/// records.
pub proof fn law_whole_store_is_verified<W: Fn(&Vec<CanonicalField>) -> Vec<u8>>(
    w: W,
    rs: Seq<RecordView>,
    disk: Map<Seq<char>, Seq<u8>>,
    dir: Seq<char>,
)
    requires
        distinct_ids(rs),
    ensures
        ({
            let (after, end) = disk_after(w, rs, disk, dir);
            &&& end is Ok <==> forall|i: int|
                0 <= i < rs.len() ==> matches_on_disk(w, disk, #[trigger] rs[i])
            &&& end is Ok ==> forall|i: int|
                0 <= i < rs.len() ==> on_disk(
                    after,
                    store::file_name((#[trigger] rs[i]).snapshot_id),
                ) == FileReadView::Found(file_bytes(w, rs[i]))
            &&& forall|n: Seq<char>| #[trigger]
                disk.contains_key(n) ==> after.contains_key(n) && after[n] == disk[n]
            &&& forall|n: Seq<char>| #[trigger]
                after.contains_key(n) && !disk.contains_key(n) ==> exists|i: int|
                    0 <= i < rs.len() && n == store::file_name((#[trigger] rs[i]).snapshot_id)
        }),
    decreases rs.len(),
{
    if rs.len() > 0 {
        let front = rs.drop_last();
        let r = rs[rs.len() - 1];
        let name = store::file_name(r.snapshot_id);
        assert forall|i: int| 0 <= i < front.len() implies #[trigger] front[i] == rs[i] by {}
        law_whole_store_is_verified(w, front, disk, dir);
        let (d, end) = disk_after(w, front, disk, dir);
        let (after, last) = disk_after(w, rs, disk, dir);
        assert forall|i: int| 0 <= i < front.len() implies store::file_name(
            (#[trigger] rs[i]).snapshot_id,
        ) != name by {
            if store::file_name(rs[i].snapshot_id) == name {
                lemma_file_names_differ(rs[i].snapshot_id, r.snapshot_id);
            }
        }
        assert(d.contains_key(name) <==> disk.contains_key(name)) by {
            if d.contains_key(name) && !disk.contains_key(name) {
                let i = choose|i: int|
                    0 <= i < front.len() && name == store::file_name(
                        (#[trigger] front[i]).snapshot_id,
                    );
                assert(front[i] == rs[i]);
            }
        }
        assert forall|n: Seq<char>| #[trigger]
            after.contains_key(n) && !disk.contains_key(n) implies exists|i: int|
            0 <= i < rs.len() && n == store::file_name((#[trigger] rs[i]).snapshot_id) by {
            if n == name {
                assert(rs[rs.len() - 1] == r);
            } else {
                assert(d.contains_key(n));
                let i = choose|i: int|
                    0 <= i < front.len() && n == store::file_name(
                        (#[trigger] front[i]).snapshot_id,
                    );
                assert(front[i] == rs[i]);
            }
        }
        if last is Ok {
            assert forall|i: int| 0 <= i < rs.len() implies matches_on_disk(
                w,
                disk,
                #[trigger] rs[i],
            ) && on_disk(after, store::file_name(rs[i].snapshot_id)) == FileReadView::Found(
                file_bytes(w, rs[i]),
            ) by {
                if i < front.len() {
                    assert(front[i] == rs[i]);
                }
            }
        } else if end is Ok {
            assert(!matches_on_disk(w, disk, r));
        } else {
            let i = choose|i: int|
                0 <= i < front.len() && !matches_on_disk(w, disk, #[trigger] front[i]);
            assert(front[i] == rs[i]);
        }
    }
}

/// The first file that fails decides how verifying ends.
proof fn lemma_disk_end<W: Fn(&Vec<CanonicalField>) -> Vec<u8>>(
    w: W,
    rs: Seq<RecordView>,
    disk: Map<Seq<char>, Seq<u8>>,
    dir: Seq<char>,
    k: int,
)
    requires
        distinct_ids(rs),
        0 <= k < rs.len(),
        forall|i: int| 0 <= i < k ==> matches_on_disk(w, disk, #[trigger] rs[i]),
        !matches_on_disk(w, disk, rs[k]),
    ensures
        ({
            let name = store::file_name(rs[k].snapshot_id);
            store::file_check(w, rs[k], on_disk(disk, name), dir + name) matches Err(e)
                && disk_after(w, rs, disk, dir).1 == Err::<(), StoreErrorView>(e)
        }),
    decreases rs.len(),
{
    let front = rs.drop_last();
    assert forall|i: int| 0 <= i < front.len() implies #[trigger] front[i] == rs[i] by {}
    law_whole_store_is_verified(w, front, disk, dir);
    if k < front.len() {
        lemma_disk_end(w, front, disk, dir, k);
    } else {
        assert(disk_after(w, front, disk, dir).1 is Ok);
    }
}

/// Whether a reader tells what is on a disk, and a writer does not fail.
pub open spec fn acts_on<
    R: Fn(&String) -> FileRead,
    F: Fn(&SnapshotFile) -> Result<(), String>,
>(read: R, write: F, disk: Map<Seq<char>, Seq<u8>>) -> bool {
    &&& forall|n: String, found: FileRead| #[trigger]
        read.ensures((&n,), found) ==> found.deep_view() == on_disk(disk, n@)
    &&& forall|f: SnapshotFile, written: Result<(), String>| #[trigger]
        write.ensures((&f,), written) ==> written is Ok
}

/// How the file of one record is settled follows from what is on the disk.
proof fn lemma_settled_on_disk<
    W: Fn(&Vec<CanonicalField>) -> Vec<u8>,
    R: Fn(&String) -> FileRead,
    F: Fn(&SnapshotFile) -> Result<(), String>,
>(
    w: W,
    read: R,
    write: F,
    dir: Seq<char>,
    r: RecordView,
    disk: Map<Seq<char>, Seq<u8>>,
    end: Result<(), StoreErrorView>,
)
    requires
        acts_on(read, write, disk),
        store::file_settled(w, read, write, dir, r, end),
    ensures
        end is Ok <==> matches_on_disk(w, disk, r),
        end is Err ==> ({
            let name = store::file_name(r.snapshot_id);
            store::file_check(w, r, on_disk(disk, name), dir + name) == Err::<
                FileCheckView,
                StoreErrorView,
            >(end->Err_0)
        }),
{
    let name = store::file_name(r.snapshot_id);
    let (n, found) = choose|n: String, found: FileRead| #[trigger]
        read.ensures((&n,), found) && n@ == name && match store::file_check(
            w,
            r,
            found.deep_view(),
            dir + n@,
        ) {
            Err(e) => end == Err::<(), StoreErrorView>(e),
            Ok(FileCheckView::Intact) => end is Ok,
            Ok(FileCheckView::Rematerialize(_)) => exists|
                f: SnapshotFile,
                written: Result<(), String>,
            | #[trigger]
                write.ensures((&f,), written) && f.deep_view() == store::file_of(w, r) && end
                    == store::written_end(text::outcome(written)),
        };
    assert(found.deep_view() == on_disk(disk, name));
}

/// `verify_snapshot_files` does this to a disk: with a reader that tells what is on
/// it and a writer that does not fail, it ends as said.
pub proof fn law_verifying_follows_the_disk<
    W: Fn(&Vec<CanonicalField>) -> Vec<u8>,
    R: Fn(&String) -> FileRead,
    F: Fn(&SnapshotFile) -> Result<(), String>,
>(
    w: W,
    read: R,
    write: F,
    dir: Seq<char>,
    rs: Seq<RecordView>,
    disk: Map<Seq<char>, Seq<u8>>,
    end: Result<(), StoreErrorView>,
)
    requires
        distinct_ids(rs),
        acts_on(read, write, disk),
        store::files_settled(w, read, write, dir, rs, end),
    ensures
        end == disk_after(w, rs, disk, dir).1,
{
    let fine = Ok::<(), StoreErrorView>(());
    law_whole_store_is_verified(w, rs, disk, dir);
    if end is Ok {
        assert forall|i: int| 0 <= i < rs.len() implies matches_on_disk(w, disk, #[trigger] rs[i]) by {
            assert(store::file_settled(w, read, write, dir, rs[i], fine));
            lemma_settled_on_disk(w, read, write, dir, rs[i], disk, fine);
        }
        assert(end->Ok_0 == ());
    } else {
        let k = choose|k: int|
            0 <= k < rs.len() && store::file_settled(w, read, write, dir, #[trigger] rs[k], end)
                && forall|i: int|
                0 <= i < k ==> store::file_settled(
                    w,
                    read,
                    write,
                    dir,
                    #[trigger] rs[i],
                    Ok::<(), StoreErrorView>(()),
                );
        assert forall|i: int| 0 <= i < k implies matches_on_disk(w, disk, #[trigger] rs[i]) by {
            assert(store::file_settled(w, read, write, dir, rs[i], fine));
            lemma_settled_on_disk(w, read, write, dir, rs[i], disk, fine);
        }
        lemma_settled_on_disk(w, read, write, dir, rs[k], disk, end);
        lemma_disk_end(w, rs, disk, dir, k);
    }
}

// ---------------------------------------------------------------------------
// Access
// ---------------------------------------------------------------------------

/// Access finds what was appended, and an append does not change what access
/// found before.
pub proof fn law_append_keeps_access(records: Seq<RecordView>, r: RecordView, id: Seq<char>)
    ensures
        store::found(records, id) is Some ==> store::found(records.push(r), id) == store::found(
            records,
            id,
        ),
        store::found(records, r.snapshot_id) is None ==> store::found(
            records.push(r),
            r.snapshot_id,
        ) == Some(r),
{
    let after = records.push(r);
    if store::found(records, id) is Some {
        let i = choose|i: int| store::first_with_id(records, id, i);
        assert forall|j: int| 0 <= j < i implies (#[trigger] after[j]).snapshot_id != id by {
            assert(after[j] == records[j]);
        }
        assert(after[i] == records[i]);
        assert(store::first_with_id(after, id, i));
        let k = choose|k: int| store::first_with_id(after, id, k);
        assert(k == i);
    }
    let own = r.snapshot_id;
    if store::found(records, own) is None {
        let n = records.len() as int;
        assert forall|j: int| 0 <= j < n implies (#[trigger] after[j]).snapshot_id != own by {
            lemma_absent(records, own, j);
            assert(after[j] == records[j]);
        }
        assert(store::first_with_id(after, own, n));
        let k = choose|k: int| store::first_with_id(after, own, k);
        assert(k == n);
    }
}

/// Where no record is found, none has the id.
proof fn lemma_absent(records: Seq<RecordView>, id: Seq<char>, j: int)
    requires
        store::found(records, id) is None,
        0 <= j < records.len(),
    ensures
        records[j].snapshot_id != id,
    decreases j,
{
    if records[j].snapshot_id == id {
        assert forall|k: int| 0 <= k < j implies (#[trigger] records[k]).snapshot_id != id by {
            lemma_absent(records, id, k);
        }
        assert(store::first_with_id(records, id, j));
    }
}

/// In an archive whose records have the ids of their sequence numbers, the id of
/// a sequence number finds the record with that number.
pub proof fn law_access_by_sequence(records: Seq<RecordView>, k: u64)
    requires
        store::spine(records),
        forall|i: int|
            0 <= i < records.len() ==> (#[trigger] records[i]).snapshot_id == record::id_of(
                records[i].seq,
            ),
        k < records.len(),
    ensures
        store::found(records, record::id_of(k)) == Some(records[k as int]),
{
    let id = record::id_of(k);
    assert(records[k as int].seq == k);
    assert forall|j: int| 0 <= j < k implies (#[trigger] records[j]).snapshot_id != id by {
        assert(records[j].seq == j);
        if record::id_of(records[j].seq) == id {
            records::law_snapshot_ids_differ(records[j].seq, k);
        }
    }
    assert(store::first_with_id(records, id, k as int));
    let i = choose|i: int| store::first_with_id(records, id, i);
    assert(i == k);
}

// ---------------------------------------------------------------------------
// The as-of listing
// ---------------------------------------------------------------------------

/// A record is listed exactly if it is in the archive, of the passport that is
/// asked for, and notarized at or before the instant.
pub proof fn law_listing_is_exact(
    records: Seq<RecordView>,
    passport_id: Option<Seq<char>>,
    at: Option<Timestamp>,
    r: RecordView,
)
    ensures
        store::listed(records, passport_id, at).contains(r) <==> records.contains(r)
            && store::in_listing(r, passport_id, at),
    decreases records.len(),
{
    let keep = |x: RecordView| store::in_listing(x, passport_id, at);
    reveal(Seq::filter);
    if records.len() > 0 {
        let front = records.drop_last();
        let kept = front.filter(keep);
        law_listing_is_exact(front, passport_id, at, r);
        assert(records =~= front.push(records.last()));
        lemma_contains_push(front, records.last(), r);
        if keep(records.last()) {
            lemma_contains_push(kept, records.last(), r);
        }
    }
}

proof fn lemma_contains_push(s: Seq<RecordView>, x: RecordView, r: RecordView)
    ensures
        s.push(x).contains(r) <==> s.contains(r) || x == r,
{
    let t = s.push(x);
    if s.contains(r) {
        let i = choose|i: int| 0 <= i < s.len() && s[i] == r;
        assert(t[i] == r);
    }
    if x == r {
        assert(t[s.len() as int] == r);
    }
    if t.contains(r) {
        let i = choose|i: int| 0 <= i < t.len() && t[i] == r;
        if i < s.len() {
            assert(s[i] == r);
        }
    }
}

/// Snapshots notarized after an instant, however many, do not change the listing
/// as of that instant.
pub proof fn law_past_listings_are_fixed(
    records: Seq<RecordView>,
    more: Seq<RecordView>,
    passport_id: Option<Seq<char>>,
    at: Timestamp,
)
    requires
        forall|i: int|
            0 <= i < more.len() ==> at.secs < (#[trigger] more[i]).notarized_at.secs,
    ensures
        store::listed(records + more, passport_id, Some(at)) == store::listed(
            records,
            passport_id,
            Some(at),
        ),
    decreases more.len(),
{
    reveal(Seq::filter);
    if more.len() > 0 {
        let front = more.drop_last();
        assert forall|i: int| 0 <= i < front.len() implies at.secs < (#[trigger] front[i]).notarized_at.secs by {
            assert(front[i] == more[i]);
        }
        law_past_listings_are_fixed(records, front, passport_id, at);
        assert((records + more).drop_last() =~= records + front);
        assert((records + more).last() == more[more.len() - 1]);
    } else {
        assert(records + more =~= records);
    }
}

/// A page of the audit log has consecutive sequence numbers, from its offset on.
pub proof fn law_page_is_consecutive(records: Seq<RecordView>, limit: nat, offset: nat)
    requires
        store::spine(records),
    ensures
        forall|i: int|
            0 <= i < store::page(records, limit, offset).len() ==> (#[trigger] store::page(
                records,
                limit,
                offset,
            )[i]).seq == offset + i,
{
    let rows = store::page(records, limit, offset);
    assert forall|i: int| 0 <= i < rows.len() implies (#[trigger] rows[i]).seq == offset + i by {
        assert(rows[i] == records[offset + i]);
    }
}

/// A listing has increasing sequence numbers.
pub proof fn law_listing_is_ordered(
    records: Seq<RecordView>,
    passport_id: Option<Seq<char>>,
    at: Option<Timestamp>,
)
    requires
        store::spine(records),
    ensures
        store::increasing(store::listed(records, passport_id, at)),
    decreases records.len(),
{
    reveal(Seq::filter);
    let all = store::listed(records, passport_id, at);
    if records.len() > 0 {
        let front = records.drop_last();
        let x = records.last();
        let kept = store::listed(front, passport_id, at);
        assert forall|i: int| 0 <= i < front.len() implies (#[trigger] front[i]).seq == i by {
            assert(front[i] == records[i]);
        }
        law_listing_is_ordered(front, passport_id, at);
        assert(records[records.len() - 1].seq == records.len() - 1);
        assert forall|i: int, j: int| 0 <= i < j < all.len() implies (#[trigger] all[i]).seq < (
        #[trigger] all[j]).seq by {
            assert(all[i] == kept[i]);
            if j < kept.len() {
                assert(all[j] == kept[j]);
            } else {
                law_listing_is_exact(front, passport_id, at, kept[i]);
                assert(kept.contains(kept[i]));
                let k = choose|k: int| 0 <= k < front.len() && front[k] == kept[i];
                assert(front[k].seq == k);
            }
        }
    }
}

/// The listing as of an instant is what remains of a later one, in the same
/// order, when only what was notarized by then is kept.
pub proof fn law_listing_grows(
    records: Seq<RecordView>,
    passport_id: Option<Seq<char>>,
    early: Timestamp,
    late: Timestamp,
)
    requires
        early.secs <= late.secs,
    ensures
        store::listed(records, passport_id, Some(early)) == store::listed(
            store::listed(records, passport_id, Some(late)),
            passport_id,
            Some(early),
        ),
    decreases records.len(),
{
    reveal(Seq::filter);
    if records.len() > 0 {
        let front = records.drop_last();
        let x = records.last();
        let keep = |r: RecordView| store::in_listing(r, passport_id, Some(late));
        law_listing_grows(front, passport_id, early, late);
        if keep(x) {
            assert(front.filter(keep).push(x).drop_last() =~= front.filter(keep));
        }
    }
}

} // verus!
