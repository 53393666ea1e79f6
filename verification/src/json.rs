//! JSON values: what a `serde_json::Value` holds, and the operations on it
//! that the archive uses.

use serde_json::Value;
use vstd::prelude::*;
use vstd::string::*;
use crate::text;

verus! {

// ---------------------------------------------------------------------------
// What a JSON value holds
// ---------------------------------------------------------------------------

/// The content of a JSON value. An object is a map: it has no order of its
/// own. A floating-point number is known by its bits alone.
pub enum JsonView {
    Null,
    Bool(bool),
    UInt(u64),
    NegInt(i64),
    Float(u64),
    Str(Seq<char>),
    Arr(Seq<JsonView>),
    Obj(Map<Seq<char>, JsonView>),
}

/// `serde_json::Value`, a JSON value.
#[verifier::external_type_specification]
#[verifier::external_body]
pub struct ExValue(serde_json::Value);

/// The content of a `serde_json::Value`.
pub uninterp spec fn json_of(v: Value) -> JsonView;

/// The compact text that `serde_json` writes for a content.
pub uninterp spec fn compact_text(j: JsonView) -> Seq<char>;

/// The indented text that `serde_json` writes for a content.
pub uninterp spec fn pretty_text(j: JsonView) -> Seq<char>;

/// What `serde_json` reads from a text: a content, or the words of its error.
pub uninterp spec fn json_parsed(text: Seq<char>) -> Result<JsonView, Seq<char>>;

/// The reading of a text that holds `j`.
pub open spec fn reads_as(j: JsonView) -> Result<JsonView, Seq<char>> {
    Ok(j)
}

/// The key by which `serde_json` marks a text that is to be read as JSON in
/// place of the object that it stands in. The reader looks for it in the first key
/// of an object only, and the first key that is written is the least one.
pub const RAW_KEY: &'static str = "$serde_json::private::RawValue";

/// Whether a text comes before another in lexical order.
pub open spec fn precedes(a: Seq<char>, b: Seq<char>) -> bool {
    ||| a.len() < b.len() && a == b.take(a.len() as int)
    ||| exists|i: int|
        0 <= i < a.len() && i < b.len() && a.take(i) == b.take(i) && #[trigger] a[i] < #[trigger] b[i]
}

/// Whether the least key of an object is `RAW_KEY`.
pub open spec fn raw_first(m: Map<Seq<char>, JsonView>) -> bool {
    &&& m.contains_key(RAW_KEY@)
    &&& forall|k: Seq<char>| #[trigger] m.contains_key(k) ==> !precedes(k, RAW_KEY@)
}

/// Whether a content reads back from its text: every floating-point number in it
/// reads back by itself, no object in it has `RAW_KEY` for its least key, and it
/// nests arrays and objects at most `n` deep.
pub open spec fn portable(j: JsonView, n: nat) -> bool
    decreases n,
{
    match j {
        JsonView::Float(_) => json_parsed(compact_text(j)) == reads_as(j),
        JsonView::Arr(s) => n > 0 && forall|i: int|
            0 <= i < s.len() ==> portable(#[trigger] s[i], (n - 1) as nat),
        JsonView::Obj(m) => n > 0 && !raw_first(m) && forall|k: Seq<char>| #[trigger]
            m.contains_key(k) ==> portable(m[k], (n - 1) as nat),
        _ => true,
    }
}

/// The fields of an object under construction: of two entries with one key the
/// later one counts.
pub open spec fn fields_of(e: Seq<(String, Value)>) -> Map<Seq<char>, JsonView>
    decreases e.len(),
{
    if e.len() == 0 {
        Map::empty()
    } else {
        fields_of(e.drop_last()).insert(e.last().0@, json_of(e.last().1))
    }
}

/// A value with a field set, if it is an object.
pub open spec fn with_field(j: JsonView, k: Seq<char>, x: JsonView) -> JsonView {
    match j {
        JsonView::Obj(m) => JsonView::Obj(m.insert(k, x)),
        _ => j,
    }
}

/// The contents of a list of values.
pub open spec fn contents(v: Seq<Value>) -> Seq<JsonView> {
    v.map_values(|x: Value| json_of(x))
}

/// The value of a key of an object.
pub open spec fn field(j: JsonView, k: Seq<char>) -> Option<JsonView> {
    match j {
        JsonView::Obj(m) => if m.contains_key(k) {
            Some(m[k])
        } else {
            None
        },
        _ => None,
    }
}

/// An object without the key `RAW_KEY` is portable if the values of its fields
/// are, one level less deep.
pub proof fn lemma_portable_object(m: Map<Seq<char>, JsonView>, n: nat)
    requires
        n > 0,
        !m.contains_key(RAW_KEY@),
        forall|k: Seq<char>| #[trigger] m.contains_key(k) ==> portable(m[k], (n - 1) as nat),
    ensures
        portable(JsonView::Obj(m), n),
{
    let j = JsonView::Obj(m);
    assert forall|k: Seq<char>| #[trigger] j->Obj_0.contains_key(k) implies portable(
        j->Obj_0[k],
        (n - 1) as nat,
    ) by {
        assert(m.contains_key(k));
    }
}

// ---------------------------------------------------------------------------
// Operations of serde_json
// ---------------------------------------------------------------------------

/// `Value::as_str` gives the text of a string, and nothing for another value.
pub assume_specification<'a>[ serde_json::Value::as_str ](v: &'a serde_json::Value) -> (r: Option<
    &'a str,
>)
    ensures
        match json_of(*v) {
            JsonView::Str(s) => r is Some && r->0@ == s,
            _ => r is None,
        },
;

/// `Value::as_u64` gives a number that is an unsigned integer of 64 bits, and
/// nothing for another value.
pub assume_specification[ serde_json::Value::as_u64 ](v: &serde_json::Value) -> (r: Option<u64>)
    ensures
        match json_of(*v) {
            JsonView::UInt(n) => r == Some(n),
            _ => r is None,
        },
;

/// `Value::is_null` tells whether the value is null.
pub assume_specification[ serde_json::Value::is_null ](v: &serde_json::Value) -> (r: bool)
    ensures
        r == (json_of(*v) is Null),
;

/// `Value::is_object` tells whether the value is an object.
pub assume_specification[ serde_json::Value::is_object ](v: &serde_json::Value) -> (r: bool)
    ensures
        r == (json_of(*v) is Obj),
;

/// `Value::is_number` tells whether the value is a number of any sort.
pub assume_specification[ serde_json::Value::is_number ](v: &serde_json::Value) -> (r: bool)
    ensures
        r == (json_of(*v) is UInt || json_of(*v) is NegInt || json_of(*v) is Float),
;

/// `Value::as_array` gives the items of an array, and nothing for another value.
pub assume_specification[ serde_json::Value::as_array ](v: &serde_json::Value) -> (r: Option<
    &Vec<serde_json::Value>,
>)
    ensures
        match json_of(*v) {
            JsonView::Arr(s) => r is Some && contents(r->0@) == s,
            _ => r is None,
        },
;

/// `Value::as_object` with `Map::keys` gives the keys of an object, each once, and
/// nothing for another value.
#[verifier::external_body]
pub(crate) fn keys(v: &Value) -> (r: Option<Vec<String>>)
    ensures
        match json_of(*v) {
            JsonView::Obj(m) => r is Some && r->0.deep_view().to_set() == m.dom(),
            _ => r is None,
        },
{
    v.as_object().map(|m| m.keys().cloned().collect())
}

/// `Value::as_f64` gives the floating-point number that a value holds, here by its
/// bits. What it gives of other values goes unsaid: `is_f64` tells them apart.
#[verifier::external_body]
pub(crate) fn float_bits(v: &Value) -> (r: Option<u64>)
    ensures
        json_of(*v) matches JsonView::Float(b) ==> r == Some(b),
{
    v.as_f64().map(|x| x.to_bits())
}

/// `Value::is_f64` tells whether the value is a floating-point number.
pub assume_specification[ serde_json::Value::is_f64 ](v: &serde_json::Value) -> (r: bool)
    ensures
        r == (json_of(*v) is Float),
;

/// `Value::clone` makes a value of the same content.
pub assume_specification[ <serde_json::Value as Clone>::clone ](v: &serde_json::Value) -> (r:
    serde_json::Value)
    ensures
        json_of(r) == json_of(*v),
;

/// `Value::get` with a string key gives the value of that key of an object,
/// and nothing where the key is absent or the value is no object.
#[verifier::external_body]
pub(crate) fn get<'a>(v: &'a Value, key: &str) -> (r: Option<&'a Value>)
    ensures
        match field(json_of(*v), key@) {
            Some(j) => r is Some && json_of(*r->0) == j,
            None => r is None,
        },
{
    v.get(key)
}

/// `Value::Null` is null.
#[verifier::external_body]
pub(crate) fn null() -> (v: Value)
    ensures
        json_of(v) is Null,
{
    Value::Null
}

/// `Value::from` makes a boolean of a `bool`.
#[verifier::external_body]
pub(crate) fn boolean(b: bool) -> (v: Value)
    ensures
        json_of(v) == JsonView::Bool(b),
{
    Value::from(b)
}

/// `Value::from` makes a number of a `u64`.
#[verifier::external_body]
pub(crate) fn uint(n: u64) -> (v: Value)
    ensures
        json_of(v) == JsonView::UInt(n),
{
    Value::from(n)
}

/// `Value::from` makes a string of a `String`.
#[verifier::external_body]
pub(crate) fn string(s: String) -> (v: Value)
    ensures
        json_of(v) == JsonView::Str(s@),
{
    Value::from(s)
}

/// `Value::from` makes an array of a list of values, in their order.
#[verifier::external_body]
pub(crate) fn array(items: Vec<Value>) -> (v: Value)
    ensures
        json_of(v) == JsonView::Arr(contents(items@)),
{
    Value::from(items)
}

/// Collecting entries into a `serde_json::Map` makes an object of them, in
/// which a later entry replaces an earlier one of the same key.
#[verifier::external_body]
pub(crate) fn object(entries: Vec<(String, Value)>) -> (v: Value)
    ensures
        json_of(v) == JsonView::Obj(fields_of(entries@)),
{
    Value::Object(entries.into_iter().collect())
}

/// `Value::as_object_mut` with `Map::insert` sets a field of an object, and
/// leaves another value as it is.
#[verifier::external_body]
pub(crate) fn insert(v: &mut Value, key: &str, x: Value)
    ensures
        json_of(*final(v)) == with_field(json_of(*old(v)), key@, json_of(x)),
{
    if let Some(m) = v.as_object_mut() {
        m.insert(key.to_string(), x);
    }
}

/// The compact form of a value, as `Display` and `serde_json::to_string` write
/// it. The text is a function of the content: keys are written in the order of
/// a sorted map. It stands on one line. Where every floating-point number in the
/// content reads back by itself, no object has for its least key the one that the
/// reader takes for a mark of its own, and the nesting is within what the reader
/// admits, reading the text gives the content back. The text itself goes unsaid
/// beyond its name.
#[verifier::external_body]
pub(crate) fn compact(v: &Value) -> (r: String)
    ensures
        r@ == compact_text(json_of(*v)),
        !r@.contains('\n'),
        portable(json_of(*v), 127) ==> json_parsed(r@) == reads_as(json_of(*v)),
{
    v.to_string()
}

/// The indented form of a value, as `serde_json::to_string_pretty` writes it.
/// It does not fail on a `Value`, whose keys are all strings. The text is a
/// function of the content, and reads back as `compact` says. The text itself
/// goes unsaid beyond its name.
#[verifier::external_body]
pub(crate) fn pretty(v: &Value) -> (r: String)
    ensures
        r@ == pretty_text(json_of(*v)),
        portable(json_of(*v), 127) ==> json_parsed(r@) == reads_as(json_of(*v)),
{
    serde_json::to_string_pretty(v).expect("a JSON value serializes")
}

/// `serde_json::from_str` reads one JSON value from a text. What it reads, or
/// the words of its error, is a function of the text, and goes unsaid beyond
/// its name.
#[verifier::external_body]
pub(crate) fn parse(text: &str) -> (r: Result<Value, String>)
    ensures
        match json_parsed(text@) {
            Ok(j) => r is Ok && json_of(r->Ok_0) == j,
            Err(e) => r is Err && r->Err_0@ == e,
        },
{
    serde_json::from_str::<Value>(text).map_err(|e| e.to_string())
}

// ---------------------------------------------------------------------------
// Building and reading values
// ---------------------------------------------------------------------------

/// An object under construction, with no entries yet.
pub(crate) fn entries() -> (e: Vec<(String, Value)>)
    ensures
        fields_of(e@) == Map::<Seq<char>, JsonView>::empty(),
{
    Vec::new()
}

/// Append an entry to an object under construction.
pub(crate) fn put(entries: &mut Vec<(String, Value)>, key: &str, v: Value)
    ensures
        fields_of(final(entries)@) == fields_of(old(entries)@).insert(key@, json_of(v)),
{
    entries.push((key.to_owned(), v));
    proof {
        assert(entries@.drop_last() =~= old(entries)@);
    }
}

/// Whether a text comes before another in lexical order.
fn comes_before(a: &str, b: &str) -> (r: bool)
    ensures
        r == precedes(a@, b@),
{
    let x = text::chars_of(a);
    let y = text::chars_of(b);
    let mut i: usize = 0;
    while i < x.len() && i < y.len() && x[i] == y[i]
        invariant
            x@ == a@,
            y@ == b@,
            i <= x@.len(),
            i <= y@.len(),
            x@.take(i as int) == y@.take(i as int),
        decreases x@.len() - i,
    {
        proof {
            assert(x@.take(i + 1) =~= x@.take(i as int).push(x@[i as int]));
            assert(y@.take(i + 1) =~= y@.take(i as int).push(y@[i as int]));
        }
        i = i + 1;
    }
    let r = if i < x.len() && i < y.len() {
        x[i] < y[i]
    } else {
        i < y.len()
    };
    proof {
        let n = i as int;
        let (s, t) = (a@, b@);
        assert forall|k: int| 0 <= k < n implies s[k] == t[k] by {
            assert(s.take(n)[k] == t.take(n)[k]);
        }
        if n == s.len() {
            assert(s.take(n) =~= s);
        }
        assert forall|k: int|
            0 <= k < s.len() && k < t.len() && s.take(k) == t.take(k) && s[k] != t[k] implies k
            == n by {
            if k > n {
                assert(s.take(k)[n] == t.take(k)[n]);
            }
        }
        if s.len() < t.len() && s == t.take(s.len() as int) && n < s.len() {
            assert(t.take(s.len() as int)[n] == t[n]);
        }
    }
    r
}

/// Whether a floating-point number reads back from its text.
fn float_reads_back(v: &Value) -> (r: bool)
    requires
        json_of(*v) is Float,
    ensures
        r == portable(json_of(*v), 0),
{
    match parse(&compact(v)) {
        Ok(x) => x.is_f64() && float_bits(&x) == float_bits(v),
        Err(_) => false,
    }
}

/// Whether a value reads back from its text, with its arrays and objects nested
/// at most `n` deep.
pub(crate) fn reads_back(v: &Value, n: u64) -> (r: bool)
    ensures
        r == portable(json_of(*v), n as nat),
    decreases n, 1nat,
{
    if v.is_f64() {
        return float_reads_back(v);
    }
    if let Some(items) = v.as_array() {
        let ghost s = json_of(*v)->Arr_0;
        if n == 0 {
            return false;
        }
        let mut i: usize = 0;
        while i < items.len()
            invariant
                n > 0,
                i <= items@.len(),
                s == contents(items@),
                json_of(*v) == JsonView::Arr(s),
                forall|k: int| 0 <= k < i ==> portable(#[trigger] s[k], (n - 1) as nat),
            decreases items@.len() - i,
        {
            proof {
                assert(s[i as int] == json_of(items@[i as int]));
            }
            if !reads_back(&items[i], n - 1) {
                proof {
                    assert(!portable(json_of(*v)->Arr_0[i as int], (n - 1) as nat));
                }
                return false;
            }
            i = i + 1;
        }
        return true;
    }
    if let Some(names) = keys(v) {
        return n > 0 && !is_raw_first(v, &names) && fields_read_back(v, &names, n);
    }
    true
}

/// Whether the least key of an object, given its keys, is `RAW_KEY`.
fn is_raw_first(v: &Value, names: &Vec<String>) -> (r: bool)
    requires
        json_of(*v) matches JsonView::Obj(m) && names.deep_view().to_set() == m.dom(),
    ensures
        r == raw_first(json_of(*v)->Obj_0),
{
    let ghost m = json_of(*v)->Obj_0;
    let mut i: usize = 0;
    while i < names.len()
        invariant
            i <= names@.len(),
            json_of(*v) == JsonView::Obj(m),
            names.deep_view().to_set() == m.dom(),
            forall|k: int| 0 <= k < i ==> !precedes(#[trigger] names.deep_view()[k], RAW_KEY@),
        decreases names@.len() - i,
    {
        proof {
            assert(names.deep_view()[i as int] == names@[i as int]@);
        }
        if comes_before(&names[i], RAW_KEY) {
            proof {
                assert(names.deep_view().to_set().contains(names.deep_view()[i as int]));
                assert(m.contains_key(names.deep_view()[i as int]));
            }
            return false;
        }
        i = i + 1;
    }
    proof {
        assert forall|k: Seq<char>| #[trigger] m.contains_key(k) implies !precedes(k, RAW_KEY@) by {
            assert(names.deep_view().to_set().contains(k));
        }
    }
    get(v, RAW_KEY).is_some()
}

/// Whether the values of an object, given its keys, read back, one level less
/// deep.
fn fields_read_back(v: &Value, names: &Vec<String>, n: u64) -> (r: bool)
    requires
        n > 0,
        json_of(*v) matches JsonView::Obj(m) && names.deep_view().to_set() == m.dom(),
    ensures
        r == forall|k: Seq<char>| #[trigger]
            json_of(*v)->Obj_0.contains_key(k) ==> portable(
                json_of(*v)->Obj_0[k],
                (n - 1) as nat,
            ),
    decreases n, 0nat,
{
    let ghost m = json_of(*v)->Obj_0;
    let mut i: usize = 0;
    while i < names.len()
        invariant
            n > 0,
            json_of(*v) == JsonView::Obj(m),
            i <= names@.len(),
            names.deep_view().to_set() == m.dom(),
            forall|k: int|
                0 <= k < i ==> portable(m[#[trigger] names.deep_view()[k]], (n - 1) as nat),
        decreases names@.len() - i,
    {
        let ghost key = names.deep_view()[i as int];
        proof {
            assert(key == names@[i as int]@);
            assert(names.deep_view().to_set().contains(key));
            assert(m.contains_key(key));
        }
        let fine = match get(v, &names[i]) {
            Some(x) => reads_back(x, n - 1),
            None => false,
        };
        if !fine {
            return false;
        }
        i = i + 1;
    }
    proof {
        assert forall|k: Seq<char>| #[trigger] m.contains_key(k) implies portable(
            m[k],
            (n - 1) as nat,
        ) by {
            assert(names.deep_view().to_set().contains(k));
        }
    }
    true
}

/// A string or null, for a text that may be missing.
pub open spec fn text_or_null(s: Option<Seq<char>>) -> JsonView {
    match s {
        Some(s) => JsonView::Str(s),
        None => JsonView::Null,
    }
}

/// A number or null, for a number that may be missing.
pub open spec fn number_or_null(n: Option<u64>) -> JsonView {
    match n {
        Some(n) => JsonView::UInt(n),
        None => JsonView::Null,
    }
}

/// The text of a string value.
pub open spec fn text_in(j: Option<JsonView>) -> Option<Seq<char>> {
    match j {
        Some(JsonView::Str(s)) => Some(s),
        _ => None,
    }
}

/// The number of an unsigned integer value.
pub open spec fn number_in(j: Option<JsonView>) -> Option<u64> {
    match j {
        Some(JsonView::UInt(n)) => Some(n),
        _ => None,
    }
}

/// Whether a field is missing or null.
pub open spec fn absent(j: Option<JsonView>) -> bool {
    j is None || j == Some(JsonView::Null)
}

/// A string value.
pub(crate) fn text(s: &str) -> (v: Value)
    ensures
        json_of(v) == JsonView::Str(s@),
{
    string(s.to_owned())
}

/// A string value, or null.
pub(crate) fn opt_text(s: &Option<String>) -> (v: Value)
    ensures
        json_of(v) == text_or_null(s.deep_view()),
{
    match s {
        Some(s) => text(s),
        None => null(),
    }
}

/// A number value, or null.
pub(crate) fn opt_uint(n: Option<u64>) -> (v: Value)
    ensures
        json_of(v) == number_or_null(n),
{
    match n {
        Some(n) => uint(n),
        None => null(),
    }
}

/// The text of a string field of an object.
pub(crate) fn get_text<'a>(v: &'a Value, key: &str) -> (r: Option<&'a str>)
    ensures
        match text_in(field(json_of(*v), key@)) {
            Some(s) => r is Some && r->0@ == s,
            None => r is None,
        },
{
    match get(v, key) {
        Some(x) => x.as_str(),
        None => None,
    }
}

/// The number of an unsigned integer field of an object.
pub(crate) fn get_uint(v: &Value, key: &str) -> (r: Option<u64>)
    ensures
        r == number_in(field(json_of(*v), key@)),
{
    match get(v, key) {
        Some(x) => x.as_u64(),
        None => None,
    }
}

} // verus!
