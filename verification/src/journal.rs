//! The bytes of a journal: lines that each end with a line feed, of which a crash
//! can tear the last one.

use vstd::prelude::*;

verus! {

/// The byte that ends a line.
pub const LINE_FEED: u8 = 0x0a;

/// The lines of a journal that end with a line feed, without it, and what stands
/// after the last of them.
pub open spec fn split(bytes: Seq<u8>) -> (Seq<Seq<u8>>, Seq<u8>)
    decreases bytes.len(),
{
    if bytes.len() == 0 {
        (Seq::empty(), Seq::empty())
    } else {
        let (lines, rest) = split(bytes.drop_last());
        if bytes.last() == LINE_FEED {
            (lines.push(rest), Seq::empty())
        } else {
            (lines, rest.push(bytes.last()))
        }
    }
}

/// All lines of a journal: what stands after the last line feed is a line too,
/// unless it is empty.
pub open spec fn raw_lines(bytes: Seq<u8>) -> Seq<Seq<u8>> {
    let (lines, rest) = split(bytes);
    if rest.len() == 0 {
        lines
    } else {
        lines.push(rest)
    }
}

/// The text of a line, if its bytes are UTF-8.
pub open spec fn text_of(line: Seq<u8>) -> Option<Seq<char>> {
    if vstd::utf8::valid_utf8(line) {
        Some(vstd::utf8::decode_utf8(line))
    } else {
        None
    }
}

/// The texts of the lines of a journal.
pub open spec fn lines_in(bytes: Seq<u8>) -> Seq<Option<Seq<char>>> {
    raw_lines(bytes).map_values(|l: Seq<u8>| text_of(l))
}

/// Whether the last line of a journal ends with a line feed, or there is none.
pub open spec fn ended(bytes: Seq<u8>) -> bool {
    split(bytes).1.len() == 0
}

/// The number of bytes of a journal that are to be kept: without the last line
/// if that is torn.
pub open spec fn keep_len(bytes: Seq<u8>, torn: bool) -> int {
    if !torn {
        bytes.len() as int
    } else if ended(bytes) {
        bytes.len() - raw_lines(bytes).last().len() - 1
    } else {
        bytes.len() - raw_lines(bytes).last().len()
    }
}

/// Whether the part of a journal that is kept lacks the line feed of its last
/// line.
pub open spec fn line_feed_due(bytes: Seq<u8>, torn: bool) -> bool {
    !torn && !ended(bytes)
}

/// A journal to which a line can be added: what is kept of it, and the line feed
/// that it lacks.
pub open spec fn mended(bytes: Seq<u8>, torn: bool) -> Seq<u8> {
    let kept = bytes.take(keep_len(bytes, torn));
    if line_feed_due(bytes, torn) {
        kept.push(LINE_FEED)
    } else {
        kept
    }
}

/// The bytes of a line that is added to a journal.
pub open spec fn line_bytes(line: Seq<char>) -> Seq<u8> {
    vstd::utf8::encode_utf8(line).push(LINE_FEED)
}

/// The lines of a journal, and where the last one stands.
#[derive(Debug)]
pub struct JournalLines {
    /// The texts of the lines; nothing for a line that is no UTF-8.
    pub lines: Vec<Option<String>>,
    /// The number of bytes of the last line, without its line feed.
    pub last_len: usize,
    /// Whether the last line ends with a line feed, or there is none.
    pub ended: bool,
}

/// `String::from_utf8` gives the text that the bytes encode in UTF-8, and an
/// error where they are no UTF-8.
#[verifier::external_body]
fn decode(bytes: Vec<u8>) -> (r: Option<String>)
    ensures
        r.deep_view() == text_of(bytes@),
{
    String::from_utf8(bytes).ok()
}

/// Split a journal into its lines.
pub fn split_lines(bytes: &[u8]) -> (r: JournalLines)
    ensures
        r.lines.deep_view() == lines_in(bytes@),
        r.ended == ended(bytes@),
        raw_lines(bytes@).len() > 0 ==> r.last_len == raw_lines(bytes@).last().len(),
{
    let mut lines: Vec<Option<String>> = Vec::new();
    let mut last_len: usize = 0;
    let mut rest: Vec<u8> = Vec::new();
    let mut i: usize = 0;
    proof {
        assert(bytes@.take(0) =~= Seq::empty());
        assert(lines.deep_view() =~= split(bytes@.take(0)).0.map_values(|l: Seq<u8>| text_of(l)));
    }
    while i < bytes.len()
        invariant
            i <= bytes@.len(),
            rest@ == split(bytes@.take(i as int)).1,
            lines.deep_view() == split(bytes@.take(i as int)).0.map_values(
                |l: Seq<u8>| text_of(l),
            ),
            split(bytes@.take(i as int)).0.len() > 0 ==> last_len == split(
                bytes@.take(i as int),
            ).0.last().len(),
        decreases bytes@.len() - i,
    {
        let b: u8 = bytes[i];
        let ghost done = split(bytes@.take(i as int)).0;
        let ghost before = lines.deep_view();
        proof {
            assert(bytes@.take(i + 1).drop_last() =~= bytes@.take(i as int));
            assert(bytes@.take(i + 1).last() == b);
        }
        if b == LINE_FEED {
            let ghost line = rest@;
            last_len = rest.len();
            lines.push(decode(rest));
            rest = Vec::new();
            proof {
                assert(lines.deep_view() =~= before.push(text_of(line)));
                assert(done.push(line).map_values(|l: Seq<u8>| text_of(l)) =~= done.map_values(
                    |l: Seq<u8>| text_of(l),
                ).push(text_of(line)));
                assert(rest@ =~= Seq::empty());
            }
        } else {
            rest.push(b);
        }
        i = i + 1;
    }
    proof {
        assert(bytes@.take(i as int) =~= bytes@);
    }
    let ended = rest.len() == 0;
    if !ended {
        let ghost done = split(bytes@).0;
        let ghost before = lines.deep_view();
        let ghost line = rest@;
        last_len = rest.len();
        lines.push(decode(rest));
        proof {
            assert(lines.deep_view() =~= before.push(text_of(line)));
            assert(done.push(line).map_values(|l: Seq<u8>| text_of(l)) =~= done.map_values(
                |l: Seq<u8>| text_of(l),
            ).push(text_of(line)));
        }
    }
    JournalLines { lines, last_len, ended }
}

// ---------------------------------------------------------------------------
// Adding to a journal
// ---------------------------------------------------------------------------

/// Bytes without a line feed continue the last line.
pub proof fn lemma_split_continued(bytes: Seq<u8>, more: Seq<u8>)
    requires
        !more.contains(LINE_FEED),
    ensures
        split(bytes + more) == (split(bytes).0, split(bytes).1 + more),
    decreases more.len(),
{
    if more.len() == 0 {
        assert(bytes + more =~= bytes);
        assert(split(bytes).1 + more =~= split(bytes).1);
    } else {
        let front = more.drop_last();
        assert(more[more.len() - 1] != LINE_FEED);
        assert forall|i: int| 0 <= i < front.len() implies #[trigger] front[i] != LINE_FEED by {
            assert(front[i] == more[i]);
        }
        lemma_split_continued(bytes, front);
        assert((bytes + more).drop_last() =~= bytes + front);
        assert((split(bytes).1 + front).push(more.last()) =~= split(bytes).1 + more);
    }
}

/// A line that is added to an ended journal is its last line.
pub proof fn lemma_line_added(bytes: Seq<u8>, line: Seq<u8>)
    requires
        ended(bytes),
        !line.contains(LINE_FEED),
    ensures
        split(bytes + line.push(LINE_FEED)) == (split(bytes).0.push(line), Seq::<u8>::empty()),
{
    let all = bytes + line.push(LINE_FEED);
    lemma_split_continued(bytes, line);
    assert(all.drop_last() =~= bytes + line);
    assert(split(bytes).1 + line =~= line);
}

/// Without what stands after its last line feed, a journal has the same ended
/// lines.
pub proof fn lemma_rest_cut(bytes: Seq<u8>)
    ensures
        split(bytes).1.len() <= bytes.len(),
        split(bytes.take(bytes.len() - split(bytes).1.len())) == (
            split(bytes).0,
            Seq::<u8>::empty(),
        ),
    decreases bytes.len(),
{
    if bytes.len() > 0 {
        let front = bytes.drop_last();
        lemma_rest_cut(front);
        if bytes.last() == LINE_FEED {
            assert(bytes.take(bytes.len() as int) =~= bytes);
        } else {
            let n = bytes.len() - split(bytes).1.len();
            assert(bytes.take(n) =~= front.take(n));
        }
    } else {
        assert(bytes.take(0) =~= bytes);
    }
}

/// Mending keeps the lines of a journal, except for a torn last one, and ends
/// the last line.
pub proof fn lemma_mended(bytes: Seq<u8>, torn: bool)
    requires
        torn ==> raw_lines(bytes).len() > 0,
    ensures
        0 <= keep_len(bytes, torn) <= bytes.len(),
        ended(mended(bytes, torn)),
        raw_lines(mended(bytes, torn)) == if torn {
            raw_lines(bytes).drop_last()
        } else {
            raw_lines(bytes)
        },
{
    let (lines, rest) = split(bytes);
    lemma_rest_cut(bytes);
    if !torn {
        assert(bytes.take(bytes.len() as int) =~= bytes);
        if rest.len() > 0 {
            assert(bytes.push(LINE_FEED).drop_last() =~= bytes);
        }
    } else if rest.len() > 0 {
        assert(lines.push(rest).drop_last() =~= lines);
    } else {
        let front = bytes.drop_last();
        assert(bytes.len() > 0);
        lemma_rest_cut(front);
        let n = front.len() - split(front).1.len();
        assert(bytes.last() == LINE_FEED);
        assert(keep_len(bytes, torn) == n);
        assert(bytes.take(n) =~= front.take(n));
        assert(split(front).0.push(split(front).1).drop_last() =~= split(front).0);
    }
}

/// The bytes of a scalar value hold a line feed only for the line feed.
proof fn lemma_scalar_without_line_feed(c: char)
    requires
        c != '\n',
    ensures
        !vstd::utf8::encode_scalar(c as u32).contains(LINE_FEED),
{
    let s = c as u32;
    assert(s < 0x80 && s != 0x0a ==> (s & 0x7F) as u8 != 0x0a) by (bit_vector);
    assert(0xC0 | ((s >> 6) & 0x1F) as u8 != 0x0a) by (bit_vector);
    assert(0xE0 | ((s >> 12) & 0x0F) as u8 != 0x0a) by (bit_vector);
    assert(0xF0 | ((s >> 18) & 0x7) as u8 != 0x0a) by (bit_vector);
    assert(0x80 | (s & 0x3F) as u8 != 0x0a) by (bit_vector);
    assert(0x80 | ((s >> 6) & 0x3F) as u8 != 0x0a) by (bit_vector);
    assert(0x80 | ((s >> 12) & 0x3F) as u8 != 0x0a) by (bit_vector);
}

/// The bytes of a text without a line feed hold none.
pub proof fn lemma_text_without_line_feed(s: Seq<char>)
    requires
        !s.contains('\n'),
    ensures
        !vstd::utf8::encode_utf8(s).contains(LINE_FEED),
    decreases s.len(),
{
    let bytes = vstd::utf8::encode_utf8(s);
    if s.len() > 0 {
        let rest = s.drop_first();
        assert(s[0] != '\n');
        assert forall|i: int| 0 <= i < rest.len() implies #[trigger] rest[i] != '\n' by {
            assert(rest[i] == s[i + 1]);
        }
        lemma_scalar_without_line_feed(s[0]);
        lemma_text_without_line_feed(rest);
        let first = vstd::utf8::encode_scalar(s[0] as u32);
        let more = vstd::utf8::encode_utf8(rest);
        assert forall|i: int| 0 <= i < bytes.len() implies #[trigger] bytes[i] != LINE_FEED by {
            if i < first.len() {
                assert(bytes[i] == first[i]);
            } else {
                assert(bytes[i] == more[i - first.len()]);
            }
        }
    }
}

/// A line that is added to an ended journal is read as its last line.
pub proof fn lemma_text_added(bytes: Seq<u8>, line: Seq<char>)
    requires
        ended(bytes),
        !line.contains('\n'),
    ensures
        ended(bytes + line_bytes(line)),
        lines_in(bytes + line_bytes(line)) == lines_in(bytes).push(Some(line)),
{
    let raw = vstd::utf8::encode_utf8(line);
    lemma_text_without_line_feed(line);
    lemma_line_added(bytes, raw);
    vstd::utf8::encode_utf8_valid_utf8(line);
    vstd::utf8::encode_utf8_decode_utf8(line);
    assert(raw_lines(bytes).push(raw).map_values(|l: Seq<u8>| text_of(l)) =~= lines_in(bytes).push(
        text_of(raw),
    ));
}

} // verus!
