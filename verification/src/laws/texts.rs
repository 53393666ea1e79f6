//! What holds of texts: trimming, numerals and hexadecimal text.

use vstd::prelude::*;
use crate::hash;
use crate::hex;
use crate::laws::words;
use crate::text;

verus! {

// ---------------------------------------------------------------------------
// White space
// ---------------------------------------------------------------------------

/// The white space that is trimmed is that of Unicode.
pub proof fn law_white_space_is_that_of_unicode(c: char)
    ensures
        text::is_space(c) <==> words::white(c),
{
}

/// The control characters are those of the Unicode general category `Cc`.
pub proof fn law_control_characters_are_those_of_unicode(c: char)
    ensures
        text::is_control(c) <==> c as int <= 31 || 127 <= c as int <= 159,
{
}

proof fn lemma_white_in_front(a: Seq<char>, s: Seq<char>)
    requires
        words::all_white(a),
    ensures
        text::trim_start(a + s) == text::trim_start(s),
    decreases a.len(),
{
    if a.len() > 0 {
        let rest = a.drop_first();
        assert forall|i: int| 0 <= i < rest.len() implies words::white(#[trigger] rest[i]) by {
            assert(rest[i] == a[i + 1]);
        }
        lemma_white_in_front(rest, s);
        assert(words::white(a[0]));
        assert((a + s)[0] == a[0]);
        assert((a + s).drop_first() =~= rest + s);
    } else {
        assert(a + s =~= s);
    }
}

proof fn lemma_white_behind(s: Seq<char>, b: Seq<char>)
    requires
        words::all_white(b),
    ensures
        text::trim_end(s + b) == text::trim_end(s),
    decreases b.len(),
{
    if b.len() > 0 {
        let rest = b.drop_last();
        assert forall|i: int| 0 <= i < rest.len() implies words::white(#[trigger] rest[i]) by {
            assert(rest[i] == b[i]);
        }
        lemma_white_behind(s, rest);
        assert(words::white(b[b.len() - 1]));
        assert((s + b).last() == b[b.len() - 1]);
        assert((s + b).drop_last() =~= s + rest);
    } else {
        assert(s + b =~= s);
    }
}

proof fn lemma_trim_start_splits(s: Seq<char>) -> (a: Seq<char>)
    ensures
        a + text::trim_start(s) == s,
        words::all_white(a),
        text::trim_start(s).len() > 0 ==> !words::white(text::trim_start(s)[0]),
    decreases s.len(),
{
    if s.len() > 0 && text::is_space(s[0]) {
        let a = lemma_trim_start_splits(s.drop_first());
        let c = seq![s[0]] + a;
        law_white_space_is_that_of_unicode(s[0]);
        assert forall|i: int| 0 <= i < c.len() implies words::white(#[trigger] c[i]) by {
            if i > 0 {
                assert(c[i] == a[i - 1]);
            }
        }
        assert(c + text::trim_start(s) =~= s) by {
            assert(s =~= seq![s[0]] + s.drop_first());
        }
        c
    } else {
        assert(Seq::<char>::empty() + s =~= s);
        Seq::empty()
    }
}

proof fn lemma_trim_end_splits(s: Seq<char>) -> (b: Seq<char>)
    ensures
        text::trim_end(s) + b == s,
        words::all_white(b),
        text::trim_end(s).len() > 0 ==> !words::white(
            text::trim_end(s)[text::trim_end(s).len() - 1],
        ),
    decreases s.len(),
{
    if s.len() > 0 && text::is_space(s.last()) {
        let b = lemma_trim_end_splits(s.drop_last());
        let c = b.push(s.last());
        law_white_space_is_that_of_unicode(s.last());
        assert forall|i: int| 0 <= i < c.len() implies words::white(#[trigger] c[i]) by {
            if i < b.len() {
                assert(c[i] == b[i]);
            }
        }
        assert(text::trim_end(s) + c =~= s) by {
            assert(s =~= s.drop_last().push(s.last()));
        }
        c
    } else {
        assert(s + Seq::<char>::empty() =~= s);
        Seq::empty()
    }
}

/// Trimming takes the white space at both ends away and nothing else: of all texts
/// the trimmed one alone is the whole but for white space around it.
pub proof fn law_trimming_takes_white_space_only(s: Seq<char>, t: Seq<char>)
    ensures
        words::stripped(s, t) <==> t == text::trimmed(s),
{
    let front = text::trim_start(s);
    let r = text::trimmed(s);
    let a = lemma_trim_start_splits(s);
    let b = lemma_trim_end_splits(front);
    assert(a + r + b =~= s) by {
        assert(a + (r + b) =~= a + r + b);
    }
    if r.len() > 0 {
        assert(front[0] == r[0]) by {
            assert((r + b)[0] == r[0]);
        }
    }
    assert(words::stripped(s, r)) by {
        assert((a + r + b) == s);
    }
    if words::stripped(s, t) {
        let (x, y) = choose|x: Seq<char>, y: Seq<char>| #[trigger]
            (x + t + y) == s && words::all_white(x) && words::all_white(y);
        assert(x + t + y =~= x + (t + y));
        lemma_white_in_front(x, t + y);
        if t.len() > 0 {
            assert((t + y)[0] == t[0]);
            law_white_space_is_that_of_unicode(t[0]);
            law_white_space_is_that_of_unicode(t[t.len() - 1]);
            assert(t.last() == t[t.len() - 1]);
            assert(text::trim_start(t + y) == t + y);
            lemma_white_behind(t, y);
            assert(text::trim_end(t) == t);
        } else {
            assert(t + y =~= y + t);
            lemma_white_in_front(y, t);
            assert(text::trim_start(t) =~= t);
            assert(text::trim_end(t) =~= t);
        }
    }
}

/// A text without white space at its ends is trimmed to itself.
pub proof fn law_bare_text_stays_whole(s: Seq<char>)
    requires
        words::bare_ends(s),
    ensures
        text::trimmed(s) == s,
{
    let e = Seq::<char>::empty();
    assert((e + s + e) =~= s);
    assert(words::stripped(s, s)) by {
        assert((e + s + e) == s);
    }
    law_trimming_takes_white_space_only(s, s);
}

/// What is cut from the end of a text is the given character, as often as it stands
/// there, and nothing else.
pub proof fn law_trailing_characters_are_cut(s: Seq<char>, c: char)
    ensures
        ({
            let r = text::without_trailing(s, c);
            &&& r.len() <= s.len()
            &&& s.take(r.len() as int) == r
            &&& forall|i: int| r.len() <= i < s.len() ==> #[trigger] s[i] == c
            &&& r.len() > 0 ==> r[r.len() - 1] != c
        }),
    decreases s.len(),
{
    let r = text::without_trailing(s, c);
    if s.len() > 0 && s.last() == c {
        let front = s.drop_last();
        law_trailing_characters_are_cut(front, c);
        assert(s.take(r.len() as int) =~= front.take(r.len() as int));
        assert forall|i: int| r.len() <= i < s.len() implies #[trigger] s[i] == c by {
            if i < front.len() {
                assert(front[i] == s[i]);
            }
        }
    } else {
        assert(s.take(s.len() as int) =~= s);
    }
}

/// The first characters of a text are as many as asked for, or all.
pub proof fn law_prefix_is_the_beginning(s: Seq<char>, n: nat)
    ensures
        text::prefix(s, n).len() == if n < s.len() {
            n
        } else {
            s.len()
        },
        forall|i: int| 0 <= i < text::prefix(s, n).len() ==> #[trigger] text::prefix(s, n)[i] == s[i],
{
}

// ---------------------------------------------------------------------------
// Numerals
// ---------------------------------------------------------------------------

/// Reading digits one after the other gives the number that they write.
pub proof fn law_digits_are_read_as_written(s: Seq<char>)
    ensures
        text::all_digits(s) <==> forall|i: int| 0 <= i < s.len() ==> '0' <= #[trigger] s[i] <= '9',
        text::all_digits(s) ==> text::digits_value(s) == words::figure(s),
    decreases s.len(),
{
    if s.len() > 0 {
        law_digits_are_read_as_written(s.drop_last());
        if text::all_digits(s) {
            assert forall|i: int| 0 <= i < s.drop_last().len() implies text::is_digit(
                #[trigger] s.drop_last()[i],
            ) by {
                assert(s.drop_last()[i] == s[i]);
            }
            assert(text::is_digit(s[s.len() - 1]));
        }
    }
    if forall|i: int| 0 <= i < s.len() ==> '0' <= #[trigger] s[i] <= '9' {
        assert(text::all_digits(s));
    }
}

/// A number is written as its decimal numeral, without leading zeros.
pub proof fn law_decimal_writes_its_number(n: nat)
    ensures
        words::writes(text::decimal(n), n as int),
    decreases n,
{
    text::lemma_decimal(n);
    law_digits_are_read_as_written(text::decimal(n));
    if n >= 10 {
        law_decimal_writes_its_number(n / 10);
        let d = text::decimal(n / 10);
        assert(text::decimal(n)[0] == d[0]);
        if d.len() == 1 {
            assert(words::figure(d.drop_last()) == 0);
            assert(d.drop_last() =~= Seq::<char>::empty());
            assert(words::figure(d) == d[0] as int - 48);
        }
    }
}

/// A padded numeral is the numeral of its number behind zeros, at least as wide as
/// asked for and no wider than needed.
pub proof fn law_padding_is_zeros_in_front(n: nat, width: nat)
    ensures
        ({
            let p = text::padded(n, width);
            let d = text::decimal(n);
            let k = p.len() - d.len();
            &&& words::writes(d, n as int)
            &&& k >= 0
            &&& p.skip(k) == d
            &&& forall|i: int| 0 <= i < k ==> #[trigger] p[i] == '0'
            &&& p.len() >= width
            &&& p.len() > width ==> k == 0
        }),
{
    law_decimal_writes_its_number(n);
    let p = text::padded(n, width);
    let d = text::decimal(n);
    assert(p.skip(p.len() - d.len()) =~= d);
}

/// A text is read as a number exactly if it is decimal digits, with or without a
/// plus sign in front, that write a number that is not too large.
pub proof fn law_numbers_are_read_whole(s: Seq<char>, max: nat, n: nat)
    ensures
        text::number_of(s, max) == Some(n) <==> n <= max && ((words::figures(s) && words::figure(s)
            == n) || (s.len() > 0 && s[0] == '+' && words::figures(s.skip(1)) && words::figure(
            s.skip(1),
        ) == n)),
{
    law_digits_are_read_as_written(s);
    law_digits_are_read_as_written(s.skip(1));
    if s.len() > 0 {
        assert(s.drop_first() =~= s.skip(1));
    }
}

// ---------------------------------------------------------------------------
// Hexadecimal text
// ---------------------------------------------------------------------------

proof fn lemma_hex_value(c: char)
    ensures
        hex::hex_value(c) is Some <==> words::nibble(c) >= 0,
        hex::hex_value(c) matches Some(d) ==> d == words::nibble(c) && d < 16,
{
}

proof fn lemma_hex_char(d: nat)
    requires
        d < 16,
    ensures
        words::nibble(hex::hex_char(d)) == d,
        !('A' <= hex::hex_char(d) <= 'F'),
{
}

/// Bytes are written in lower-case hexadecimal text, two digits a byte.
pub proof fn law_bytes_are_spelled(b: Seq<u8>)
    ensures
        words::spells(hex::hex_text(b), b),
        words::lower(hex::hex_text(b)),
{
    let s = hex::hex_text(b);
    assert forall|i: int| 0 <= i < b.len() implies words::nibble(s[2 * i]) >= 0 && words::nibble(
        s[2 * i + 1],
    ) >= 0 && 16 * words::nibble(s[2 * i]) + words::nibble(s[2 * i + 1]) == #[trigger] b[i] by {
        let (hi, lo) = ((b[i] / 16) as nat, (b[i] % 16) as nat);
        assert(s[2 * i] == hex::hex_char(hi));
        assert(s[2 * i + 1] == hex::hex_char(lo));
        lemma_hex_char(hi);
        lemma_hex_char(lo);
    }
    assert forall|i: int| 0 <= i < s.len() implies !('A' <= #[trigger] s[i] <= 'F') by {
        let d = if i % 2 == 0 {
            (b[i / 2] / 16) as nat
        } else {
            (b[i / 2] % 16) as nat
        };
        assert(s[i] == hex::hex_char(d));
        lemma_hex_char(d);
    }
}

/// Hexadecimal text of either case is read as the bytes that it spells, and other
/// text is not read.
pub proof fn law_hex_is_read_as_spelled(s: Seq<char>, b: Seq<u8>)
    ensures
        hex::hex_decoded(s) == Ok::<Seq<u8>, Seq<char>>(b) <==> words::spells(s, b),
{
    if hex::hex_decoded(s) == Ok::<Seq<u8>, Seq<char>>(b) {
        assert forall|i: int| 0 <= i < b.len() implies words::nibble(s[2 * i]) >= 0
            && words::nibble(s[2 * i + 1]) >= 0 && 16 * words::nibble(s[2 * i]) + words::nibble(
            s[2 * i + 1],
        ) == #[trigger] b[i] by {
            lemma_hex_value(s[2 * i]);
            lemma_hex_value(s[2 * i + 1]);
            assert(b[i] == hex::hex_bytes(s)[i]);
        }
    }
    if words::spells(s, b) {
        assert forall|i: int| 0 <= i < s.len() implies hex::hex_value(#[trigger] s[i]) is Some by {
            let k = i / 2;
            lemma_hex_value(s[i]);
            assert(0 <= b[k]);
            if i % 2 == 0 {
                assert(s[2 * k] == s[i]);
            } else {
                assert(s[2 * k + 1] == s[i]);
            }
        }
        assert forall|i: int| 0 <= i < b.len() implies hex::hex_bytes(s)[i] == b[i] by {
            lemma_hex_value(s[2 * i]);
            lemma_hex_value(s[2 * i + 1]);
        }
        assert(hex::hex_bytes(s) =~= b);
    }
}

/// A digest is read from the 64 hexadecimal digits that spell its 32 bytes, and from
/// nothing else.
pub proof fn law_digest_is_read_as_spelled(s: Seq<char>, b: Seq<u8>)
    ensures
        hash::hash_of_hex(s) == Some(b) <==> b.len() == 32 && words::spells(s, b),
{
    law_hex_is_read_as_spelled(s, b);
}

/// A text spells one byte string only.
pub proof fn law_spelling_is_unambiguous(s: Seq<char>, a: Seq<u8>, b: Seq<u8>)
    requires
        words::spells(s, a),
        words::spells(s, b),
    ensures
        a == b,
{
    law_hex_is_read_as_spelled(s, a);
    law_hex_is_read_as_spelled(s, b);
}

} // verus!
