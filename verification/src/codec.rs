//! Typed access to JSON object members, shared by the model codecs:
//! reading a member as a string, integer, boolean or array, and building
//! objects member by member.

use vstd::prelude::*;

use crate::chars::{dec_of, parse_int_spec};
use crate::json::{arr_jv, jv_get, obj_jv, JsonV, JsonValue};

verus! {

/// The integer a value holds, when it is a number whose literal spells
/// an integer that fits an `i32`.
pub open spec fn jv_i32(j: JsonV) -> Option<int> {
    match j {
        JsonV::Num(lit) => match parse_int_spec(lit) {
            Some(v) => if -0x8000_0000 <= v <= 0x7fff_ffff {
                Some(v)
            } else {
                None
            },
            None => None,
        },
        _ => None,
    }
}

/// The characters a value holds, when it is a string.
pub open spec fn jv_str(j: JsonV) -> Option<Seq<char>> {
    match j {
        JsonV::Str(t) => Some(t),
        _ => None,
    }
}

/// The member `key` as a string.
pub open spec fn sp_get_str(j: JsonV, key: Seq<char>) -> Option<Seq<char>> {
    match jv_get(j, key) {
        Some(f) => jv_str(f),
        None => None,
    }
}

/// The member `key` as an `i32`.
pub open spec fn sp_get_i32(j: JsonV, key: Seq<char>) -> Option<int> {
    match jv_get(j, key) {
        Some(f) => jv_i32(f),
        None => None,
    }
}

/// The member `key` as a boolean.
pub open spec fn sp_get_bool(j: JsonV, key: Seq<char>) -> Option<bool> {
    match jv_get(j, key) {
        Some(JsonV::Bool(b)) => Some(b),
        _ => None,
    }
}

/// The member `key` as an array.
pub open spec fn sp_get_arr(j: JsonV, key: Seq<char>) -> Option<Seq<JsonV>> {
    match jv_get(j, key) {
        Some(JsonV::Arr(items)) => Some(items),
        _ => None,
    }
}

/// The member `key` as an optional string: an absent member and an
/// explicit `null` both read as absent; any other non-string is an error.
pub open spec fn sp_get_opt_str(j: JsonV, key: Seq<char>) -> Option<Option<Seq<char>>> {
    match jv_get(j, key) {
        None => Some(None),
        Some(JsonV::Null) => Some(None),
        Some(JsonV::Str(t)) => Some(Some(t)),
        Some(_) => None,
    }
}

/// The member `key` as an optional `i32`, with the same reading of
/// absence as `sp_get_opt_str`.
pub open spec fn sp_get_opt_i32(j: JsonV, key: Seq<char>) -> Option<Option<int>> {
    match jv_get(j, key) {
        None => Some(None),
        Some(JsonV::Null) => Some(None),
        Some(f) => match jv_i32(f) {
            Some(v) => Some(Some(v)),
            None => None,
        },
    }
}

pub fn get_string(v: &JsonValue, key: &str) -> (r: Option<String>)
    ensures
        match r {
            Some(s) => sp_get_str(v.jv(), key@) == Some(s@),
            None => sp_get_str(v.jv(), key@) is None,
        },
{
    match v.get(key) {
        Some(f) => f.as_string(),
        None => None,
    }
}

pub fn get_i32(v: &JsonValue, key: &str) -> (r: Option<i32>)
    ensures
        match r {
            Some(n) => sp_get_i32(v.jv(), key@) == Some(n as int),
            None => sp_get_i32(v.jv(), key@) is None,
        },
{
    match v.get(key) {
        Some(f) => match f.as_i64() {
            Some(n) => if -0x8000_0000i64 <= n && n <= 0x7fff_ffffi64 {
                Some(n as i32)
            } else {
                None
            },
            None => None,
        },
        None => None,
    }
}

pub fn get_bool(v: &JsonValue, key: &str) -> (r: Option<bool>)
    ensures
        match r {
            Some(b) => sp_get_bool(v.jv(), key@) == Some(b),
            None => sp_get_bool(v.jv(), key@) is None,
        },
{
    match v.get(key) {
        Some(f) => f.as_bool(),
        None => None,
    }
}

pub fn get_arr<'a>(v: &'a JsonValue, key: &str) -> (r: Option<&'a Vec<JsonValue>>)
    ensures
        match r {
            Some(items) => sp_get_arr(v.jv(), key@) == Some(arr_jv(items@)),
            None => sp_get_arr(v.jv(), key@) is None,
        },
{
    match v.get(key) {
        Some(f) => match f {
            JsonValue::Arr(items) => Some(items),
            _ => None,
        },
        None => None,
    }
}

pub fn get_opt_string(v: &JsonValue, key: &str) -> (r: Option<Option<String>>)
    ensures
        match r {
            Some(Some(s)) => sp_get_opt_str(v.jv(), key@) == Some(Some(s@)),
            Some(None) => sp_get_opt_str(v.jv(), key@) == Some(None::<Seq<char>>),
            None => sp_get_opt_str(v.jv(), key@) is None,
        },
{
    match v.get(key) {
        None => Some(None),
        Some(f) => match f {
            JsonValue::Null => Some(None),
            JsonValue::Str(_) => match f.as_string() {
                Some(s) => Some(Some(s)),
                None => None,
            },
            _ => None,
        },
    }
}

pub fn get_opt_i32(v: &JsonValue, key: &str) -> (r: Option<Option<i32>>)
    ensures
        match r {
            Some(Some(n)) => sp_get_opt_i32(v.jv(), key@) == Some(Some(n as int)),
            Some(None) => sp_get_opt_i32(v.jv(), key@) == Some(None::<int>),
            None => sp_get_opt_i32(v.jv(), key@) is None,
        },
{
    match v.get(key) {
        None => Some(None),
        Some(f) => match f {
            JsonValue::Null => Some(None),
            _ => match f.as_i64() {
                Some(n) => if -0x8000_0000i64 <= n && n <= 0x7fff_ffffi64 {
                    Some(Some(n as i32))
                } else {
                    None
                },
                None => None,
            },
        },
    }
}

/// The member `key` as a vector of `i32`.
pub fn get_i32_arr(v: &JsonValue, key: &str) -> (r: Option<Vec<i32>>)
    ensures
        match r {
            Some(xs) => (match sp_get_arr(v.jv(), key@) {
                Some(items) => xs@.len() == items.len() && (forall|k: int|
                    0 <= k < items.len() ==> jv_i32(items[k]) == Some(xs@[k] as int)),
                None => false,
            }),
            None => (match sp_get_arr(v.jv(), key@) {
                Some(items) => exists|k: int| 0 <= k < items.len() && jv_i32(items[k]) is None,
                None => true,
            }),
        },
{
    let items = match get_arr(v, key) {
        Some(items) => items,
        None => {
            return None;
        },
    };
    let n = items.len();
    let mut xs: Vec<i32> = Vec::new();
    let mut i: usize = 0;
    while i < n
        invariant
            n == items@.len(),
            i <= n,
            xs@.len() == i,
            sp_get_arr(v.jv(), key@) == Some(arr_jv(items@)),
            forall|k: int| 0 <= k < i ==> jv_i32(arr_jv(items@)[k]) == Some(xs@[k] as int),
        decreases n - i,
    {
        proof {
            assert(arr_jv(items@)[i as int] == items@[i as int].jv());
        }
        match items[i].as_i64() {
            Some(m) => {
                if -0x8000_0000i64 <= m && m <= 0x7fff_ffffi64 {
                    xs.push(m as i32);
                } else {
                    proof {
                        assert(jv_i32(arr_jv(items@)[i as int]) is None);
                    }
                    return None;
                }
            },
            None => {
                proof {
                    assert(jv_i32(arr_jv(items@)[i as int]) is None);
                }
                return None;
            },
        }
        i = i + 1;
    }
    Some(xs)
}

/// The member `key` as a vector of strings.
pub fn get_string_arr(v: &JsonValue, key: &str) -> (r: Option<Vec<String>>)
    ensures
        match r {
            Some(xs) => (match sp_get_arr(v.jv(), key@) {
                Some(items) => xs@.len() == items.len() && (forall|k: int|
                    0 <= k < items.len() ==> jv_str(items[k]) == Some(xs@[k]@)),
                None => false,
            }),
            None => (match sp_get_arr(v.jv(), key@) {
                Some(items) => exists|k: int| 0 <= k < items.len() && jv_str(items[k]) is None,
                None => true,
            }),
        },
{
    let items = match get_arr(v, key) {
        Some(items) => items,
        None => {
            return None;
        },
    };
    let n = items.len();
    let mut xs: Vec<String> = Vec::new();
    let mut i: usize = 0;
    while i < n
        invariant
            n == items@.len(),
            i <= n,
            xs@.len() == i,
            sp_get_arr(v.jv(), key@) == Some(arr_jv(items@)),
            forall|k: int| 0 <= k < i ==> jv_str(arr_jv(items@)[k]) == Some(xs@[k]@),
        decreases n - i,
    {
        proof {
            assert(arr_jv(items@)[i as int] == items@[i as int].jv());
        }
        match items[i].as_string() {
            Some(s) => {
                xs.push(s);
            },
            None => {
                proof {
                    assert(jv_str(arr_jv(items@)[i as int]) is None);
                }
                return None;
            },
        }
        i = i + 1;
    }
    Some(xs)
}

// ---------------------------------------------------------------------------
// Building objects.
// ---------------------------------------------------------------------------
/// A number value spelling the given integer in decimal.
pub fn num_i64(n: i64) -> (r: JsonValue)
    ensures
        r.jv() == JsonV::Num(dec_of(n as int)),
{
    let cs = crate::chars::i64_to_chars(n);
    JsonValue::Num(crate::chars::chars_to_string(&cs))
}

/// A string value holding a copy of `s`.
pub fn str_value(s: &str) -> (r: JsonValue)
    ensures
        r.jv() == JsonV::Str(s@),
{
    JsonValue::Str(s.to_owned())
}

/// Append one member to an object under construction.
pub fn push_field(fields: &mut Vec<(String, JsonValue)>, key: &str, v: JsonValue)
    ensures
        obj_jv(final(fields)@) == obj_jv(old(fields)@).push((key@, v.jv())),
        final(fields)@.len() == old(fields)@.len() + 1,
        obj_jv(final(fields)@)[old(fields)@.len() as int] == (key@, v.jv()),
        forall|k: int|
            0 <= k < old(fields)@.len() ==> obj_jv(final(fields)@)[k] == obj_jv(old(fields)@)[k],
{
    let ghost v0 = v.jv();
    fields.push((key.to_owned(), v));
    proof {
        assert(obj_jv(fields@) =~= obj_jv(old(fields)@).push((key@, v0)));
    }
}

/// An array of numbers spelling the given integers.
pub fn arr_of_i32(xs: &Vec<i32>) -> (r: JsonValue)
    ensures
        r.jv() == JsonV::Arr(i32_seq_jv(xs@)),
{
    let n = xs.len();
    let mut items: Vec<JsonValue> = Vec::new();
    let mut i: usize = 0;
    while i < n
        invariant
            n == xs@.len(),
            i <= n,
            items@.len() == i,
            forall|k: int| 0 <= k < i ==> arr_jv(items@)[k] == JsonV::Num(dec_of(xs@[k] as int)),
        decreases n - i,
    {
        let ghost items0 = items@;
        let elem = num_i64(xs[i] as i64);
        let ghost ev = elem.jv();
        items.push(elem);
        i = i + 1;
        proof {
            let si = items@;
            assert forall|k: int| 0 <= k < i implies arr_jv(si)[k] == JsonV::Num(
                dec_of(xs@[k] as int),
            ) by {
                assert(arr_jv(si)[k] == si[k].jv());
                if k < i - 1 {
                    assert(si[k] == items0[k]);
                    assert(arr_jv(items0)[k] == items0[k].jv());
                } else {
                    assert(si[k].jv() == ev);
                }
            }
        }
    }
    proof {
        assert(arr_jv(items@) =~= i32_seq_jv(xs@));
    }
    JsonValue::Arr(items)
}

/// An array of strings holding copies of the given strings.
pub fn arr_of_strings(xs: &Vec<String>) -> (r: JsonValue)
    ensures
        r.jv() == JsonV::Arr(str_seq_jv(xs@)),
{
    let n = xs.len();
    let mut items: Vec<JsonValue> = Vec::new();
    let mut i: usize = 0;
    while i < n
        invariant
            n == xs@.len(),
            i <= n,
            items@.len() == i,
            forall|k: int| 0 <= k < i ==> arr_jv(items@)[k] == JsonV::Str(xs@[k]@),
        decreases n - i,
    {
        let ghost items0 = items@;
        let elem = str_value(xs[i].as_str());
        let ghost ev = elem.jv();
        items.push(elem);
        i = i + 1;
        proof {
            let si = items@;
            assert forall|k: int| 0 <= k < i implies arr_jv(si)[k] == JsonV::Str(xs@[k]@) by {
                assert(arr_jv(si)[k] == si[k].jv());
                if k < i - 1 {
                    assert(si[k] == items0[k]);
                    assert(arr_jv(items0)[k] == items0[k].jv());
                } else {
                    assert(si[k].jv() == ev);
                }
            }
        }
    }
    proof {
        assert(arr_jv(items@) =~= str_seq_jv(xs@));
    }
    JsonValue::Arr(items)
}


// ---------------------------------------------------------------------------
// Record codecs.
// ---------------------------------------------------------------------------
/// A record with a fixed JSON shape: it encodes to `jv` of itself, and
/// decodes from any value that `agrees` with a record, which happens
/// exactly when the value passes `shape_ok`.
pub trait JsonCodec: Sized {
    /// The JSON value this record encodes to.
    spec fn jv(self) -> JsonV;

    /// Whether `j` binds every field of this record.
    spec fn agrees(self, j: JsonV) -> bool;

    /// Whether some record's fields can all be read from `j`.
    spec fn shape_ok(j: JsonV) -> bool;

    fn to_json(&self) -> (r: JsonValue)
        ensures
            r.jv() == self.jv(),
    ;

    fn from_json(v: &JsonValue) -> (r: Option<Self>)
        ensures
            match r {
                Some(x) => x.agrees(v.jv()) && Self::shape_ok(v.jv()),
                None => !Self::shape_ok(v.jv()),
            },
    ;
}

/// The encodings of a sequence of records.
pub open spec fn seq_jv_of<X: JsonCodec>(xs: Seq<X>) -> Seq<JsonV> {
    Seq::new(
        xs.len(),
        |k: int|
            if 0 <= k < xs.len() {
                xs[k].jv()
            } else {
                JsonV::Null
            },
    )
}

/// Each record agrees with the element at its position.
pub open spec fn all_agree<X: JsonCodec>(xs: Seq<X>, items: Seq<JsonV>) -> bool {
    xs.len() == items.len() && (forall|k: int| 0 <= k < items.len() ==> xs[k].agrees(items[k]))
}

/// Every element decodes as a record.
pub open spec fn all_shape_ok<X: JsonCodec>(items: Seq<JsonV>) -> bool {
    forall|k: int| 0 <= k < items.len() ==> X::shape_ok(items[k])
}

/// Encode a vector of records as a JSON array.
pub fn vec_to_json<X: JsonCodec>(xs: &Vec<X>) -> (r: JsonValue)
    ensures
        r.jv() == JsonV::Arr(seq_jv_of(xs@)),
{
    let n = xs.len();
    let mut items: Vec<JsonValue> = Vec::new();
    let mut i: usize = 0;
    while i < n
        invariant
            n == xs@.len(),
            i <= n,
            items@.len() == i,
            forall|k: int| 0 <= k < i ==> arr_jv(items@)[k] == xs@[k].jv(),
        decreases n - i,
    {
        let ghost items0 = items@;
        let elem = xs[i].to_json();
        let ghost ev = elem.jv();
        items.push(elem);
        i = i + 1;
        proof {
            let si = items@;
            assert forall|k: int| 0 <= k < i implies arr_jv(si)[k] == xs@[k].jv() by {
                assert(arr_jv(si)[k] == si[k].jv());
                if k < i - 1 {
                    assert(si[k] == items0[k]);
                    assert(arr_jv(items0)[k] == items0[k].jv());
                } else {
                    assert(si[k].jv() == ev);
                }
            }
        }
    }
    proof {
        assert(arr_jv(items@) =~= seq_jv_of(xs@));
    }
    JsonValue::Arr(items)
}

/// Decode every element of a JSON array as a record.
pub fn vec_from_json<X: JsonCodec>(items: &Vec<JsonValue>) -> (r: Option<Vec<X>>)
    ensures
        match r {
            Some(xs) => all_agree(xs@, arr_jv(items@)) && all_shape_ok::<X>(arr_jv(items@)),
            None => !all_shape_ok::<X>(arr_jv(items@)),
        },
{
    let n = items.len();
    let mut xs: Vec<X> = Vec::new();
    let mut i: usize = 0;
    while i < n
        invariant
            n == items@.len(),
            i <= n,
            xs@.len() == i,
            forall|k: int| 0 <= k < i ==> xs@[k].agrees(arr_jv(items@)[k]) && X::shape_ok(
                arr_jv(items@)[k],
            ),
        decreases n - i,
    {
        proof {
            assert(arr_jv(items@)[i as int] == items@[i as int].jv());
        }
        match X::from_json(&items[i]) {
            Some(x) => {
                xs.push(x);
            },
            None => {
                proof {
                    assert(!X::shape_ok(arr_jv(items@)[i as int]));
                }
                return None;
            },
        }
        i = i + 1;
    }
    Some(xs)
}

/// The member `key` as a vector of records.
pub fn get_codec_arr<X: JsonCodec>(v: &JsonValue, key: &str) -> (r: Option<Vec<X>>)
    ensures
        match r {
            Some(xs) => (match sp_get_arr(v.jv(), key@) {
                Some(items) => all_agree(xs@, items) && all_shape_ok::<X>(items),
                None => false,
            }),
            None => (match sp_get_arr(v.jv(), key@) {
                Some(items) => !all_shape_ok::<X>(items),
                None => true,
            }),
        },
{
    match get_arr(v, key) {
        Some(items) => vec_from_json(items),
        None => None,
    }
}


/// The member `key` as a number's literal spelling.
pub open spec fn sp_get_numlit(j: JsonV, key: Seq<char>) -> Option<Seq<char>> {
    match jv_get(j, key) {
        Some(JsonV::Num(lit)) => Some(lit),
        _ => None,
    }
}

pub fn get_numlit(v: &JsonValue, key: &str) -> (r: Option<String>)
    ensures
        match r {
            Some(s) => sp_get_numlit(v.jv(), key@) == Some(s@),
            None => sp_get_numlit(v.jv(), key@) is None,
        },
{
    match v.get(key) {
        Some(f) => match f {
            JsonValue::Num(lit) => Some(lit.clone()),
            _ => None,
        },
        None => None,
    }
}

/// The encodings of a sequence of integers.
pub open spec fn i32_seq_jv(xs: Seq<i32>) -> Seq<JsonV> {
    Seq::new(
        xs.len(),
        |k: int|
            if 0 <= k < xs.len() {
                JsonV::Num(dec_of(xs[k] as int))
            } else {
                JsonV::Null
            },
    )
}

/// The encodings of a sequence of strings.
pub open spec fn str_seq_jv(xs: Seq<String>) -> Seq<JsonV> {
    Seq::new(
        xs.len(),
        |k: int|
            if 0 <= k < xs.len() {
                JsonV::Str(xs[k]@)
            } else {
                JsonV::Null
            },
    )
}

/// Each element spells the integer at its position.
pub open spec fn i32s_agree(xs: Seq<i32>, items: Seq<JsonV>) -> bool {
    xs.len() == items.len() && (forall|k: int|
        0 <= k < items.len() ==> jv_i32(items[k]) == Some(xs[k] as int))
}

/// Every element spells an integer that fits an `i32`.
pub open spec fn all_i32(items: Seq<JsonV>) -> bool {
    forall|k: int| 0 <= k < items.len() ==> jv_i32(items[k]) is Some
}

/// Each element holds the string at its position.
pub open spec fn strs_agree(xs: Seq<String>, items: Seq<JsonV>) -> bool {
    xs.len() == items.len() && (forall|k: int|
        0 <= k < items.len() ==> jv_str(items[k]) == Some(xs[k]@))
}

/// Every element is a string.
pub open spec fn all_str(items: Seq<JsonV>) -> bool {
    forall|k: int| 0 <= k < items.len() ==> jv_str(items[k]) is Some
}

/// The encoding of an optional string: `null` when absent.
pub open spec fn opt_str_jv(o: Option<String>) -> JsonV {
    match o {
        Some(s) => JsonV::Str(s@),
        None => JsonV::Null,
    }
}

/// The characters of an optional string.
pub open spec fn opt_str_view(o: Option<String>) -> Option<Seq<char>> {
    match o {
        Some(s) => Some(s@),
        None => None,
    }
}

/// The encoding of an optional integer: `null` when absent.
pub open spec fn opt_i32_jv(o: Option<i32>) -> JsonV {
    match o {
        Some(n) => JsonV::Num(dec_of(n as int)),
        None => JsonV::Null,
    }
}

/// The value of an optional integer.
pub open spec fn opt_i32_view(o: Option<i32>) -> Option<int> {
    match o {
        Some(n) => Some(n as int),
        None => None,
    }
}

/// Encode an optional string, `null` when absent.
pub fn opt_str_value(o: &Option<String>) -> (r: JsonValue)
    ensures
        r.jv() == opt_str_jv(*o),
{
    match o {
        Some(s) => str_value(s.as_str()),
        None => JsonValue::Null,
    }
}

/// Encode an optional integer, `null` when absent.
pub fn opt_i32_value(o: &Option<i32>) -> (r: JsonValue)
    ensures
        r.jv() == opt_i32_jv(*o),
{
    match o {
        Some(n) => num_i64(*n as i64),
        None => JsonValue::Null,
    }
}

/// The member `key` as an optional array: an absent member and `null`
/// both read as absent; any other non-array is an error.
pub open spec fn sp_get_opt_arr(j: JsonV, key: Seq<char>) -> Option<Option<Seq<JsonV>>> {
    match jv_get(j, key) {
        None => Some(None),
        Some(JsonV::Null) => Some(None),
        Some(JsonV::Arr(items)) => Some(Some(items)),
        Some(_) => None,
    }
}

/// The member `key` as an optional vector of records.
pub fn get_opt_codec_arr<X: JsonCodec>(v: &JsonValue, key: &str) -> (r: Option<
    Option<Vec<X>>,
>)
    ensures
        match r {
            Some(Some(xs)) => (match sp_get_opt_arr(v.jv(), key@) {
                Some(Some(items)) => all_agree(xs@, items) && all_shape_ok::<X>(items),
                _ => false,
            }),
            Some(None) => sp_get_opt_arr(v.jv(), key@) == Some(None::<Seq<JsonV>>),
            None => (match sp_get_opt_arr(v.jv(), key@) {
                Some(Some(items)) => !all_shape_ok::<X>(items),
                Some(None) => false,
                None => true,
            }),
        },
{
    match v.get(key) {
        None => Some(None),
        Some(f) => match f {
            JsonValue::Null => Some(None),
            JsonValue::Arr(items) => match vec_from_json::<X>(items) {
                Some(xs) => Some(Some(xs)),
                None => None,
            },
            _ => None,
        },
    }
}

/// The encoding of an optional record vector: `null` when absent.
pub open spec fn opt_seq_jv_of<X: JsonCodec>(o: Option<Vec<X>>) -> JsonV {
    match o {
        Some(xs) => JsonV::Arr(seq_jv_of(xs@)),
        None => JsonV::Null,
    }
}

/// Encode an optional vector of records, `null` when absent.
pub fn opt_vec_to_json<X: JsonCodec>(o: &Option<Vec<X>>) -> (r: JsonValue)
    ensures
        r.jv() == opt_seq_jv_of(*o),
{
    match o {
        Some(xs) => vec_to_json(xs),
        None => JsonValue::Null,
    }
}


/// Two string vectors hold the same characters at every position.
pub open spec fn str_seq_eqv(a: Seq<String>, b: Seq<String>) -> bool {
    a.len() == b.len() && (forall|k: int| 0 <= k < a.len() ==> a[k]@ == b[k]@)
}


/// The member `key` as a string that defaults to empty when the member
/// is absent.
pub open spec fn sp_get_defstr(j: JsonV, key: Seq<char>) -> Option<Seq<char>> {
    match jv_get(j, key) {
        None => Some(Seq::empty()),
        Some(JsonV::Str(t)) => Some(t),
        Some(_) => None,
    }
}

pub fn get_defstr(v: &JsonValue, key: &str) -> (r: Option<String>)
    ensures
        match r {
            Some(s) => sp_get_defstr(v.jv(), key@) == Some(s@),
            None => sp_get_defstr(v.jv(), key@) is None,
        },
{
    match v.get(key) {
        None => Some(String::new()),
        Some(f) => match f {
            JsonValue::Str(_) => f.as_string(),
            _ => None,
        },
    }
}

} // verus!
