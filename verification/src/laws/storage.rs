//! What the journal and the snapshot files hold, and what is read from them.

use vstd::prelude::*;
use crate::canonical::CanonicalField;
use crate::hash;
use crate::journal;
use crate::json;
use crate::json::JsonView;
use crate::laws::documents;
use crate::laws::texts;
use crate::laws::words;
use crate::model::record;
use crate::model::record::RecordView;
use crate::store;
use crate::store::FileCheckView;
use crate::store::FileReadView;
use crate::store::LineView;
use crate::store::StoreErrorView;
use crate::text;

verus! {

/// Whether a text is JSON that holds a record.
pub open spec fn text_holds(line: Seq<char>, r: RecordView) -> bool {
    json::json_parsed(line) matches Ok(j) && documents::record_held(j, r)
}

/// Whether the body digest of a record is that of the document that is served for it.
pub open spec fn fixity_holds<W: Fn(&Vec<CanonicalField>) -> Vec<u8>>(w: W, r: RecordView) -> bool {
    r.body_digest == hash::sha256_of(
        vstd::utf8::encode_utf8(json::pretty_text(record::document(w, r))),
    )
}

pub proof fn lemma_line_record(line: Seq<char>, r: RecordView)
    ensures
        store::line_record(line) == Ok::<RecordView, Seq<char>>(r) <==> text_holds(line, r),
{
    if json::json_parsed(line) is Ok {
        documents::law_record_is_read_as_held(json::json_parsed(line)->Ok_0, r);
    }
}

/// A line is kept exactly if it holds a record with the next sequence number and the
/// digest of the document that is served for it.
pub proof fn law_line_is_kept_as_it_stands<W: Fn(&Vec<CanonicalField>) -> Vec<u8>>(
    w: W,
    kept: nat,
    line: Option<Seq<char>>,
    no: nat,
    last: bool,
    r: RecordView,
)
    ensures
        store::line_outcome(w, kept, line, no, last) == LineView::Keep(r) <==> (line matches Some(
            l,
        ) && text_holds(l, r)) && r.seq == kept && fixity_holds(w, r),
{
    if line is Some {
        lemma_line_record(line->0, r);
    }
}

/// A line is a torn tail exactly if it is the last one and is no text, or holds no
/// record and is not blank. Whatever is neither kept nor a torn tail is refused.
pub proof fn law_only_the_last_line_may_be_torn<W: Fn(&Vec<CanonicalField>) -> Vec<u8>>(
    w: W,
    kept: nat,
    line: Option<Seq<char>>,
    no: nat,
    last: bool,
)
    ensures
        store::line_outcome(w, kept, line, no, last) is Torn <==> last && (line matches Some(l)
            ==> !words::all_white(l) && forall|r: RecordView| !#[trigger] text_holds(l, r)),
{
    if line is Some {
        let l = line->0;
        if store::line_record(l) is Ok {
            let r = store::line_record(l)->Ok_0;
            lemma_line_record(l, r);
            assert(text_holds(l, r));
        } else {
            assert forall|r: RecordView| !#[trigger] text_holds(l, r) by {
                lemma_line_record(l, r);
            }
        }
        lemma_blank(l);
    }
}

pub proof fn lemma_blank(s: Seq<char>)
    ensures
        words::all_white(s) <==> text::trimmed(s).len() == 0,
{
    let t = text::trimmed(s);
    texts::law_trimming_takes_white_space_only(s, t);
    if words::all_white(s) {
        let e = Seq::<char>::empty();
        assert(words::stripped(s, e)) by {
            assert(s =~= s + e + e);
            assert(words::all_white(e));
        }
        texts::law_trimming_takes_white_space_only(s, e);
    } else if t.len() == 0 {
        let (a, b) = choose|a: Seq<char>, b: Seq<char>|
            #![trigger words::all_white(a), words::all_white(b)]
            s == a + t + b && words::all_white(a) && words::all_white(b);
        assert forall|i: int| 0 <= i < s.len() implies words::white(#[trigger] s[i]) by {
            if i < a.len() {
                assert(s[i] == a[i]);
            } else {
                assert(s[i] == b[i - a.len()]);
            }
        }
    }
}

/// An opened store holds, in order, exactly what the lines of its journal hold: one
/// record for every line, but for a torn last one, under the numbers 0, 1, 2 and so
/// on, and each with the digest of the document that is served for it. A journal that
/// could not be read to its end is not opened.
pub proof fn law_store_holds_what_the_journal_holds<W: Fn(&Vec<CanonicalField>) -> Vec<u8>>(
    w: W,
    bytes: Seq<u8>,
    failure: Option<Seq<char>>,
)
    ensures
        ({
            let lines = journal::lines_in(bytes);
            store::opened(w, bytes, failure) matches Ok((rs, end)) ==> {
                &&& failure is None
                &&& rs.len() == if end.torn is Some {
                    lines.len() - 1
                } else {
                    lines.len() as int
                }
                &&& forall|i: int|
                    0 <= i < rs.len() ==> (lines[i] matches Some(l) && text_holds(
                        l,
                        #[trigger] rs[i],
                    )) && rs[i].seq == i && fixity_holds(w, rs[i])
            }
        }),
{
    let lines = journal::lines_in(bytes);
    lemma_replayed(w, Seq::empty(), lines, failure, 0);
}

proof fn lemma_replayed<W: Fn(&Vec<CanonicalField>) -> Vec<u8>>(
    w: W,
    kept: Seq<RecordView>,
    lines: Seq<Option<Seq<char>>>,
    failure: Option<Seq<char>>,
    i: int,
)
    requires
        0 <= i <= lines.len(),
        kept.len() == i,
        forall|k: int|
            0 <= k < i ==> (lines[k] matches Some(l) && text_holds(l, #[trigger] kept[k]))
                && kept[k].seq == k && fixity_holds(w, kept[k]),
    ensures
        ({
            let (rs, end) = store::replayed(w, kept, lines, failure, i);
            end matches Ok(torn) ==> {
                &&& failure is None
                &&& rs.len() == if torn is Some {
                    lines.len() - 1
                } else {
                    lines.len() as int
                }
                &&& forall|k: int|
                    0 <= k < rs.len() ==> (lines[k] matches Some(l) && text_holds(
                        l,
                        #[trigger] rs[k],
                    )) && rs[k].seq == k && fixity_holds(w, rs[k])
            }
        }),
    decreases lines.len() - i,
{
    if !(failure is Some && i + 1 >= lines.len()) && i < lines.len() {
        let last = i + 1 == lines.len();
        match store::line_outcome(w, kept.len(), lines[i], (i + 1) as nat, last) {
            LineView::Keep(r) => {
                law_line_is_kept_as_it_stands(w, kept.len(), lines[i], (i + 1) as nat, last, r);
                lemma_replayed(w, kept.push(r), lines, failure, i + 1);
            },
            LineView::Torn(m) => {
                law_only_the_last_line_may_be_torn(w, kept.len(), lines[i], (i + 1) as nat, last);
            },
            LineView::Refuse(e) => {},
        }
    }
}

/// Lines, each with a line feed behind it.
pub open spec fn written_lines(lines: Seq<Seq<u8>>) -> Seq<u8>
    decreases lines.len(),
{
    if lines.len() == 0 {
        Seq::empty()
    } else {
        written_lines(lines.drop_last()) + lines.last() + seq![10u8]
    }
}

/// A journal is cut into lines at its line feeds and nowhere else: the lines, each
/// with a line feed behind it, and what stands after the last one are its bytes.
pub proof fn law_lines_are_cut_at_line_feeds(bytes: Seq<u8>)
    ensures
        ({
            let (lines, rest) = journal::split(bytes);
            &&& bytes == written_lines(lines) + rest
            &&& !rest.contains(10u8)
            &&& forall|i: int| 0 <= i < lines.len() ==> !(#[trigger] lines[i]).contains(10u8)
            &&& journal::raw_lines(bytes) == if rest == Seq::<u8>::empty() {
                lines
            } else {
                lines.push(rest)
            }
        }),
    decreases bytes.len(),
{
    if bytes.len() > 0 {
        let s = bytes.drop_last();
        law_lines_are_cut_at_line_feeds(s);
        let (lines, rest) = journal::split(s);
        assert(bytes =~= s.push(bytes.last()));
        if bytes.last() == journal::LINE_FEED {
            assert(lines.push(rest).drop_last() =~= lines);
            assert(bytes =~= written_lines(lines.push(rest)) + Seq::<u8>::empty());
        } else {
            assert(bytes =~= written_lines(lines) + rest.push(bytes.last()));
            assert forall|i: int| 0 <= i < rest.push(bytes.last()).len() implies #[trigger] rest.push(
                bytes.last(),
            )[i] != 10u8 by {
                if i < rest.len() {
                    assert(rest.contains(rest[i]));
                }
            }
        }
    } else {
        assert(bytes =~= written_lines(Seq::empty()) + Seq::<u8>::empty());
    }
}

/// The texts of the lines are the texts that their bytes encode in UTF-8.
pub proof fn law_lines_are_read_as_encoded(bytes: Seq<u8>, i: int, line: Seq<char>)
    requires
        0 <= i < journal::raw_lines(bytes).len(),
    ensures
        journal::lines_in(bytes).len() == journal::raw_lines(bytes).len(),
        journal::raw_lines(bytes)[i] == vstd::utf8::encode_utf8(line) ==> journal::lines_in(
            bytes,
        )[i] == Some(line),
        journal::lines_in(bytes)[i] is None <==> !vstd::utf8::valid_utf8(
            journal::raw_lines(bytes)[i],
        ),
{
    vstd::utf8::encode_utf8_valid_utf8(line);
    vstd::utf8::encode_utf8_decode_utf8(line);
}

/// What is kept of a journal is everything but a torn last line, and a line feed is
/// due exactly where the last line that is kept lacks one.
pub proof fn law_kept_journal_is_all_but_the_torn_line(bytes: Seq<u8>, torn: bool)
    requires
        torn ==> bytes.len() > 0,
    ensures
        ({
            let (lines, rest) = journal::split(bytes);
            let kept = bytes.take(journal::keep_len(bytes, torn));
            &&& !torn ==> kept == bytes
            &&& torn && rest.len() > 0 ==> kept == written_lines(lines)
            &&& torn && rest.len() == 0 ==> kept == written_lines(lines.drop_last())
            &&& journal::line_feed_due(bytes, torn) <==> !torn && rest.len() > 0
            &&& journal::mended(bytes, torn) == if !torn && rest.len() > 0 {
                bytes + seq![10u8]
            } else {
                kept
            }
        }),
{
    law_lines_are_cut_at_line_feeds(bytes);
    let (lines, rest) = journal::split(bytes);
    let kept = bytes.take(journal::keep_len(bytes, torn));
    if !torn {
        assert(kept =~= bytes);
        assert(bytes.push(10u8) =~= bytes + seq![10u8]);
    } else if rest.len() > 0 {
        assert(kept =~= written_lines(lines));
    } else {
        if lines.len() == 0 {
            assert(bytes =~= Seq::<u8>::empty());
        }
        assert(bytes =~= written_lines(lines.drop_last()) + lines.last() + seq![10u8]);
        assert(kept =~= written_lines(lines.drop_last()));
    }
}

/// A line is added to a journal as its UTF-8 bytes and a line feed.
pub proof fn law_line_is_written_with_a_line_feed(line: Seq<char>)
    ensures
        journal::line_bytes(line) == vstd::utf8::encode_utf8(line) + seq![10u8],
{
    assert(journal::line_bytes(line) =~= vstd::utf8::encode_utf8(line) + seq![10u8]);
}

/// A record is appended exactly if it has the next sequence number and the digest of
/// the document that is served for it. Then that document is written to a file named
/// by its id, and the journal line states the record.
pub proof fn law_append_writes_the_record<W: Fn(&Vec<CanonicalField>) -> Vec<u8>>(
    w: W,
    next: nat,
    r: RecordView,
)
    ensures
        store::append_plan(w, next, r) is Ok <==> r.seq == next && fixity_holds(w, r),
        store::append_plan(w, next, r) matches Ok(plan) ==> {
            &&& plan.file.name == r.snapshot_id + ".json"@
            &&& plan.file.body == json::pretty_text(record::document(w, r))
            &&& exists|j: JsonView| #[trigger]
                json::compact_text(j) == plan.line && documents::line_said(j, r)
        },
        store::append_plan(w, next, r) matches Err(e) ==> (e is Conflict <==> r.seq != next),
{
    documents::law_journal_line_states_its_record(r);
    let j = record::journal_line(r);
    assert(json::compact_text(j) == store::line_text(r));
}

/// A file that is there is intact exactly if it holds the document that is served, byte
/// for byte; one that is missing is written again with that document; and nothing else
/// is accepted.
pub proof fn law_only_the_served_document_is_intact<W: Fn(&Vec<CanonicalField>) -> Vec<u8>>(
    w: W,
    r: RecordView,
    found: FileReadView,
    path: Seq<char>,
)
    ensures
        ({
            let body = json::pretty_text(record::document(w, r));
            let check = store::file_check(w, r, found, path);
            &&& check == Ok::<FileCheckView, StoreErrorView>(FileCheckView::Intact) <==> found
                == FileReadView::Found(vstd::utf8::encode_utf8(body))
            &&& check matches Ok(FileCheckView::Rematerialize(b)) ==> found
                == FileReadView::Missing && b == body
            &&& check is Err <==> found is Failed || (found matches FileReadView::Found(b) && b
                != vstd::utf8::encode_utf8(body))
        }),
{
}

} // verus!
