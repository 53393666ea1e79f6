//! Hexadecimal text.

use vstd::prelude::*;
use crate::text::chars_of;

verus! {

/// The lower-case hexadecimal digit of a number below sixteen.
pub open spec fn hex_char(d: nat) -> char {
    if d < 10 {
        (('0' as u32) + d) as char
    } else {
        (('a' as u32) + (d - 10)) as char
    }
}

/// The value of a hexadecimal digit of either case.
pub open spec fn hex_value(c: char) -> Option<u8> {
    if '0' <= c <= '9' {
        Some((c as u32 - '0' as u32) as u8)
    } else if 'a' <= c <= 'f' {
        Some((c as u32 - 'a' as u32 + 10) as u8)
    } else if 'A' <= c <= 'F' {
        Some((c as u32 - 'A' as u32 + 10) as u8)
    } else {
        None
    }
}

/// The hexadecimal text of a byte string: two lower-case digits a byte, the
/// high half first.
pub open spec fn hex_text(bytes: Seq<u8>) -> Seq<char> {
    Seq::new(
        2 * bytes.len(),
        |i: int|
            if i % 2 == 0 {
                hex_char((bytes[i / 2] / 16) as nat)
            } else {
                hex_char((bytes[i / 2] % 16) as nat)
            },
    )
}

/// Whether every character is a hexadecimal digit.
pub open spec fn all_hex(s: Seq<char>) -> bool {
    forall|i: int| 0 <= i < s.len() ==> hex_value(#[trigger] s[i]) is Some
}

/// The bytes that a hexadecimal text of even length denotes.
pub open spec fn hex_bytes(s: Seq<char>) -> Seq<u8> {
    Seq::new(
        s.len() / 2,
        |i: int| (16 * hex_value(s[2 * i])->0 + hex_value(s[2 * i + 1])->0) as u8,
    )
}

/// What reading a hexadecimal text gives: its bytes, or what is wrong with it.
pub open spec fn hex_decoded(s: Seq<char>) -> Result<Seq<u8>, Seq<char>> {
    if s.len() % 2 != 0 {
        Err("odd hex length"@)
    } else if !all_hex(s) {
        Err("invalid hex digit"@)
    } else {
        Ok(hex_bytes(s))
    }
}

/// The hexadecimal text of a byte string reads back as that byte string.
pub proof fn lemma_hex_round_trip(bytes: Seq<u8>)
    ensures
        hex_text(bytes).len() == 2 * bytes.len(),
        all_hex(hex_text(bytes)),
        hex_bytes(hex_text(bytes)) == bytes,
        hex_decoded(hex_text(bytes)) == Ok::<Seq<u8>, Seq<char>>(bytes),
{
    let s = hex_text(bytes);
    assert forall|i: int| 0 <= i < bytes.len() implies hex_bytes(s)[i] == bytes[i] by {
        assert(s[2 * i] == hex_char((bytes[i] / 16) as nat));
        assert(s[2 * i + 1] == hex_char((bytes[i] % 16) as nat));
    }
    assert(hex_bytes(s) =~= bytes);
}

fn hex_digit(d: u8) -> (c: char)
    requires
        d < 16,
    ensures
        c == hex_char(d as nat),
{
    if d < 10 {
        (0x30u8 + d) as char
    } else {
        (0x61u8 + (d - 10)) as char
    }
}

fn digit_of(c: char) -> (r: Option<u8>)
    ensures
        r == hex_value(c),
        r matches Some(d) ==> d < 16,
{
    let u: u32 = c as u32;
    if '0' <= c && c <= '9' {
        Some((u - 0x30) as u8)
    } else if 'a' <= c && c <= 'f' {
        Some((u - 0x61 + 10) as u8)
    } else if 'A' <= c && c <= 'F' {
        Some((u - 0x41 + 10) as u8)
    } else {
        None
    }
}

/// Encode bytes as lower-case hexadecimal text.
pub fn hex_encode(bytes: &[u8]) -> (r: String)
    ensures
        r@ == hex_text(bytes@),
{
    let mut r = String::new();
    let mut i: usize = 0;
    while i < bytes.len()
        invariant
            i <= bytes@.len(),
            r@ == hex_text(bytes@.take(i as int)),
        decreases bytes@.len() - i,
    {
        let b: u8 = bytes[i];
        r.push(hex_digit(b / 16));
        r.push(hex_digit(b % 16));
        i = i + 1;
        proof {
            let t = hex_text(bytes@.take(i as int));
            assert(t =~= hex_text(bytes@.take(i - 1)).push(hex_char((b / 16) as nat)).push(
                hex_char((b % 16) as nat),
            ));
        }
    }
    proof {
        assert(bytes@.take(i as int) =~= bytes@);
    }
    r
}

/// Decode hexadecimal text of either case.
pub fn hex_decode(s: &str) -> (r: Result<Vec<u8>, String>)
    ensures
        match hex_decoded(s@) {
            Ok(b) => r is Ok && r->Ok_0@ == b,
            Err(e) => r is Err && r->Err_0@ == e,
        },
{
    let v = chars_of(s);
    if v.len() % 2 != 0 {
        return Err("odd hex length".to_owned());
    }
    let mut out: Vec<u8> = Vec::new();
    let mut i: usize = 0;
    while i < v.len()
        invariant
            v@ == s@,
            v@.len() % 2 == 0,
            i <= v@.len(),
            i % 2 == 0,
            out@.len() == i / 2,
            forall|j: int| 0 <= j < i ==> hex_value(#[trigger] s@[j]) is Some,
            forall|j: int| 0 <= j < i / 2 ==> #[trigger] out@[j] == hex_bytes(s@)[j],
        decreases v@.len() - i,
    {
        match (digit_of(v[i]), digit_of(v[i + 1])) {
            (Some(hi), Some(lo)) => {
                out.push(16 * hi + lo);
            },
            _ => {
                proof {
                    assert(hex_value(s@[i as int]) is None || hex_value(s@[i + 1]) is None);
                }
                return Err("invalid hex digit".to_owned());
            },
        }
        proof {
            assert(hex_bytes(s@)[i as int / 2] == (16 * hex_value(s@[i as int])->0 + hex_value(
                s@[i + 1],
            )->0) as u8);
        }
        i = i + 2;
    }
    proof {
        assert(out@ =~= hex_bytes(s@));
    }
    Ok(out)
}

} // verus!
