//! Canonical statements: the fields that a statement is made of, and the
//! writer that turns a list of fields into bytes.
//!
//! The byte format belongs to the writer. Functions that need it take it as a
//! function value.

use vstd::prelude::*;

verus! {

/// One field of a canonical statement.
#[derive(Debug)]
pub enum CanonicalField {
    /// A text.
    Str(String),
    /// An unsigned 32-bit number.
    U32(u32),
    /// An unsigned 64-bit number.
    U64(u64),
    /// A signed 64-bit number.
    I64(i64),
    /// A digest.
    Digest(crate::hash::Hash),
    /// Bytes that are taken over as they are.
    Raw(Vec<u8>),
}

/// The content of a field.
pub enum FieldView {
    Str(Seq<char>),
    U32(u32),
    U64(u64),
    I64(i64),
    Digest(Seq<u8>),
    Raw(Seq<u8>),
}

impl DeepView for CanonicalField {
    type V = FieldView;

    open spec fn deep_view(&self) -> FieldView {
        match *self {
            CanonicalField::Str(s) => FieldView::Str(s@),
            CanonicalField::U32(n) => FieldView::U32(n),
            CanonicalField::U64(n) => FieldView::U64(n),
            CanonicalField::I64(n) => FieldView::I64(n),
            CanonicalField::Digest(h) => FieldView::Digest(h@),
            CanonicalField::Raw(b) => FieldView::Raw(b@),
        }
    }
}

/// Whether `bytes` is a result that the writer may give for these fields.
pub open spec fn encodes<W: Fn(&Vec<CanonicalField>) -> Vec<u8>>(
    w: W,
    fields: Seq<FieldView>,
    bytes: Seq<u8>,
) -> bool {
    exists|v: Vec<CanonicalField>, b: Vec<u8>| #[trigger]
        w.ensures((&v,), b) && v.deep_view() == fields && b@ == bytes
}

/// Whether a writer accepts every list of fields and gives bytes that depend on
/// the fields alone.
pub open spec fn is_writer<W: Fn(&Vec<CanonicalField>) -> Vec<u8>>(w: W) -> bool {
    &&& forall|v: Vec<CanonicalField>| #[trigger] w.requires((&v,))
    &&& forall|fields: Seq<FieldView>, a: Seq<u8>, b: Seq<u8>| #[trigger]
        encodes(w, fields, a) && #[trigger] encodes(w, fields, b) ==> a == b
}

/// The bytes that a writer gives for a list of fields.
pub open spec fn canonical<W: Fn(&Vec<CanonicalField>) -> Vec<u8>>(
    w: W,
    fields: Seq<FieldView>,
) -> Seq<u8> {
    choose|bytes: Seq<u8>| encodes(w, fields, bytes)
}

/// Write a list of fields.
pub fn write_canonical<W: Fn(&Vec<CanonicalField>) -> Vec<u8>>(
    writer: &W,
    fields: &Vec<CanonicalField>,
) -> (r: Vec<u8>)
    requires
        is_writer(*writer),
    ensures
        r@ == canonical(*writer, fields.deep_view()),
        encodes(*writer, fields.deep_view(), r@),
{
    let r = writer(fields);
    proof {
        assert(encodes(*writer, fields.deep_view(), r@));
    }
    r
}

} // verus!
