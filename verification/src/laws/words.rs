//! The words in which laws speak of texts and documents: fields of objects, digits,
//! hexadecimal digits and white space.

use vstd::prelude::*;
use crate::json::JsonView;

verus! {

/// Whether a value is an object with a field of this name and content.
pub open spec fn has(j: JsonView, name: Seq<char>, x: JsonView) -> bool {
    j matches JsonView::Obj(m) && m.contains_key(name) && m[name] == x
}

/// Whether a value is an object with a string under this name.
pub open spec fn says(j: JsonView, name: Seq<char>, s: Seq<char>) -> bool {
    has(j, name, JsonView::Str(s))
}

/// Whether a value is no object, or an object without a field of this name.
pub open spec fn lacks(j: JsonView, name: Seq<char>) -> bool {
    j matches JsonView::Obj(m) ==> !m.contains_key(name)
}

/// Whether a field is null or is not there.
pub open spec fn leaves_out(j: JsonView, name: Seq<char>) -> bool {
    lacks(j, name) || has(j, name, JsonView::Null)
}

/// Whether a value is an object with exactly these fields.
pub open spec fn fields_are(j: JsonView, names: Set<Seq<char>>) -> bool {
    j matches JsonView::Obj(m) && m.dom() == names
}

/// Whether a field holds a text, or null where there is none.
pub open spec fn says_or_null(j: JsonView, name: Seq<char>, s: Option<Seq<char>>) -> bool {
    match s {
        Some(s) => says(j, name, s),
        None => has(j, name, JsonView::Null),
    }
}

/// Whether a field holds a number, or null where there is none.
pub open spec fn counts_or_null(j: JsonView, name: Seq<char>, n: Option<u64>) -> bool {
    match n {
        Some(n) => has(j, name, JsonView::UInt(n)),
        None => has(j, name, JsonView::Null),
    }
}

/// Whether a text consists of decimal digits, one at least.
pub open spec fn figures(s: Seq<char>) -> bool {
    s.len() > 0 && forall|i: int| 0 <= i < s.len() ==> '0' <= #[trigger] s[i] <= '9'
}

/// The number that decimal digits write.
pub open spec fn figure(s: Seq<char>) -> int
    decreases s.len(),
{
    if s.len() == 0 {
        0
    } else {
        figure(s.drop_last()) * 10 + (s.last() as int - 48)
    }
}

/// Whether a text is the decimal numeral of a number, without leading zeros.
pub open spec fn writes(s: Seq<char>, n: int) -> bool {
    figures(s) && figure(s) == n && (s.len() > 1 ==> s[0] != '0')
}

/// Whether a field holds the decimal numeral of a number, or null where there is
/// none.
pub open spec fn writes_or_null(j: JsonView, name: Seq<char>, n: Option<u64>) -> bool {
    match n {
        Some(n) => exists|s: Seq<char>| #[trigger] says(j, name, s) && writes(s, n as int),
        None => has(j, name, JsonView::Null),
    }
}

/// Whether a text is read as a number: decimal digits that write it, with or without
/// a plus sign in front.
pub open spec fn reads_as_number(s: Seq<char>, n: int) -> bool {
    ||| figures(s) && figure(s) == n
    ||| s.len() > 0 && s[0] == '+' && figures(s.skip(1)) && figure(s.skip(1)) == n
}

/// The value of a hexadecimal digit, or -1.
pub open spec fn nibble(c: char) -> int {
    if '0' <= c <= '9' {
        c as int - 48
    } else if 'a' <= c <= 'f' {
        c as int - 87
    } else if 'A' <= c <= 'F' {
        c as int - 55
    } else {
        -1
    }
}

/// Whether a text writes bytes in hexadecimal digits of either case, the high half
/// of each byte first.
pub open spec fn spells(s: Seq<char>, b: Seq<u8>) -> bool {
    &&& s.len() == 2 * b.len()
    &&& forall|i: int|
        0 <= i < b.len() ==> nibble(s[2 * i]) >= 0 && nibble(s[2 * i + 1]) >= 0 && 16 * nibble(
            s[2 * i],
        ) + nibble(s[2 * i + 1]) == #[trigger] b[i]
}

/// Whether no letter of a text is an upper-case hexadecimal digit.
pub open spec fn lower(s: Seq<char>) -> bool {
    forall|i: int| 0 <= i < s.len() ==> !('A' <= #[trigger] s[i] <= 'F')
}

/// Whether a field holds bytes in lower-case hexadecimal text.
pub open spec fn spelled(j: JsonView, name: Seq<char>, b: Seq<u8>) -> bool {
    exists|s: Seq<char>| #[trigger] says(j, name, s) && spells(s, b) && lower(s)
}

/// Whether a field holds bytes in lower-case hexadecimal text, or null where there
/// are none.
pub open spec fn spelled_or_null(j: JsonView, name: Seq<char>, b: Option<Seq<u8>>) -> bool {
    match b {
        Some(b) => spelled(j, name, b),
        None => has(j, name, JsonView::Null),
    }
}

/// The characters with the Unicode property `White_Space`.
pub open spec fn white(c: char) -> bool {
    let n = c as int;
    ||| n == 9 || n == 10 || n == 11 || n == 12 || n == 13
    ||| n == 32
    ||| n == 133
    ||| n == 160
    ||| n == 5760
    ||| 8192 <= n <= 8202
    ||| n == 8232 || n == 8233 || n == 8239 || n == 8287
    ||| n == 12288
}

/// Whether a text is white space only.
pub open spec fn all_white(s: Seq<char>) -> bool {
    forall|i: int| 0 <= i < s.len() ==> white(#[trigger] s[i])
}

/// Whether a text neither begins nor ends with white space.
pub open spec fn bare_ends(s: Seq<char>) -> bool {
    s.len() > 0 ==> !white(s[0]) && !white(s[s.len() - 1])
}

/// Whether `t` is the whole of `s` but for white space around it.
pub open spec fn stripped(s: Seq<char>, t: Seq<char>) -> bool {
    &&& bare_ends(t)
    &&& exists|a: Seq<char>, b: Seq<char>| #[trigger]
        (a + t + b) == s && all_white(a) && all_white(b)
}

} // verus!
