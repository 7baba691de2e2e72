//! The JSON wire format: a value model, a text parser and a serializer.
//!
//! `JsonValue` is the executable representation; `JsonV` is its
//! mathematical counterpart, with sequences in place of vectors and
//! strings.  Numbers carry their literal spelling, so no floating-point
//! value is ever interpreted or re-rendered.

use vstd::prelude::*;

verus! {

use crate::chars::is_digit;

broadcast use vstd::std_specs::vec::group_vec_axioms;

/// Mathematical model of a JSON value.
#[verifier::ext_equal]
pub enum JsonV {
    Null,
    Bool(bool),
    /// The literal spelling of a number, e.g. `-12.5e3`.
    Num(Seq<char>),
    Str(Seq<char>),
    Arr(Seq<JsonV>),
    Obj(Seq<(Seq<char>, JsonV)>),
}

/// A JSON value, as held and produced by the library.
#[derive(Debug)]
pub enum JsonValue {
    Null,
    Bool(bool),
    /// A number, kept as its literal spelling.
    Num(String),
    Str(String),
    Arr(Vec<JsonValue>),
    Obj(Vec<(String, JsonValue)>),
}

impl JsonValue {
    /// The mathematical value this `JsonValue` stands for.
    pub open spec fn jv(self) -> JsonV
        decreases self,
    {
        match self {
            JsonValue::Null => JsonV::Null,
            JsonValue::Bool(b) => JsonV::Bool(b),
            JsonValue::Num(s) => JsonV::Num(s@),
            JsonValue::Str(s) => JsonV::Str(s@),
            JsonValue::Arr(items) => JsonV::Arr(arr_jv(items@)),
            JsonValue::Obj(fields) => JsonV::Obj(obj_jv(fields@)),
        }
    }
}

/// The mathematical values of a sequence of array elements.
pub open spec fn arr_jv(items: Seq<JsonValue>) -> Seq<JsonV>
    decreases items,
{
    Seq::new(
        items.len(),
        |i: int|
            if 0 <= i < items.len() {
                items[i].jv()
            } else {
                JsonV::Null
            },
    )
}

/// The mathematical values of a sequence of object members.
pub open spec fn obj_jv(fields: Seq<(String, JsonValue)>) -> Seq<(Seq<char>, JsonV)>
    decreases fields,
{
    Seq::new(
        fields.len(),
        |i: int|
            if 0 <= i < fields.len() {
                (fields[i].0@, fields[i].1.jv())
            } else {
                (Seq::empty(), JsonV::Null)
            },
    )
}

// ---------------------------------------------------------------------------
// The grammar, as spec functions.  Every parsing function takes the input
// and a start index and yields the parsed item together with the index just
// after it, or `None` when the input does not match.  The mutually
// recursive functions take a fuel argument for termination; `parse_fuel`
// below is always enough, since every recursive call follows the
// consumption of at least one input character.
// ---------------------------------------------------------------------------
/// JSON insignificant whitespace.
pub open spec fn is_ws(c: char) -> bool {
    c == ' ' || c == '\t' || c == '\n' || c == '\r'
}

/// The first index at or after `i` holding a non-whitespace character.
pub open spec fn skip_ws(s: Seq<char>, i: int) -> int
    decreases s.len() - i,
{
    if 0 <= i < s.len() && is_ws(s[i]) {
        skip_ws(s, i + 1)
    } else {
        i
    }
}

/// The first index at or after `i` holding a non-digit character.
pub open spec fn digits_end(s: Seq<char>, i: int) -> int
    decreases s.len() - i,
{
    if 0 <= i < s.len() && is_digit(s[i]) {
        digits_end(s, i + 1)
    } else {
        i
    }
}

/// The value of a hexadecimal digit, or -1 for other characters.
pub open spec fn hex_val(c: char) -> int {
    if is_digit(c) {
        c as u32 - '0' as u32
    } else if 'a' <= c && c <= 'f' {
        c as u32 - 'a' as u32 + 10
    } else if 'A' <= c && c <= 'F' {
        c as u32 - 'A' as u32 + 10
    } else {
        -1
    }
}

/// The single character named by a short escape, if the escape is legal.
pub open spec fn short_escape(e: char) -> Option<char> {
    if e == '"' {
        Some('"')
    } else if e == '\\' {
        Some('\\')
    } else if e == '/' {
        Some('/')
    } else if e == 'b' {
        Some('\u{0008}')
    } else if e == 'f' {
        Some('\u{000C}')
    } else if e == 'n' {
        Some('\n')
    } else if e == 'r' {
        Some('\r')
    } else if e == 't' {
        Some('\t')
    } else {
        None
    }
}

/// The scalar value of the four hex digits at `i`, or -1 if any of the
/// four characters is missing or not a hex digit.
pub open spec fn hex4_val(s: Seq<char>, i: int) -> int {
    if 0 <= i && i + 4 <= s.len() && hex_val(s[i]) >= 0 && hex_val(s[i + 1]) >= 0 && hex_val(
        s[i + 2],
    ) >= 0 && hex_val(s[i + 3]) >= 0 {
        hex_val(s[i]) * 0x1000 + hex_val(s[i + 1]) * 0x100 + hex_val(s[i + 2]) * 16 + hex_val(
            s[i + 3],
        )
    } else {
        -1
    }
}

/// The body of a string literal from index `i` (just after the opening
/// quote) to its closing quote: the unescaped characters and the index
/// just after the closing quote.  A `\u` escape must name a Unicode
/// scalar value; surrogates (paired or not) are not accepted.
pub open spec fn sp_string_body(s: Seq<char>, i: int, fuel: nat) -> Option<(Seq<char>, int)>
    decreases fuel,
{
    if fuel == 0 || !(0 <= i < s.len()) {
        None
    } else if s[i] == '"' {
        Some((Seq::empty(), i + 1))
    } else if s[i] == '\\' {
        if i + 1 >= s.len() {
            None
        } else if s[i + 1] == 'u' {
            let code = hex4_val(s, i + 2);
            if code >= 0 && !(0xD800 <= code < 0xE000) {
                match sp_string_body(s, i + 6, (fuel - 1) as nat) {
                    Some((rest, e)) => Some((seq![(code as u32) as char] + rest, e)),
                    None => None,
                }
            } else {
                None
            }
        } else {
            match short_escape(s[i + 1]) {
                Some(c) => match sp_string_body(s, i + 2, (fuel - 1) as nat) {
                    Some((rest, e)) => Some((seq![c] + rest, e)),
                    None => None,
                },
                None => None,
            }
        }
    } else if (s[i] as u32) < 0x20 {
        None
    } else {
        match sp_string_body(s, i + 1, (fuel - 1) as nat) {
            Some((rest, e)) => Some((seq![s[i]] + rest, e)),
            None => None,
        }
    }
}

/// The index just after the number literal starting at `i`, or `None`
/// if no number starts there: an optional minus sign, an integer part
/// (`0`, or a nonzero digit followed by digits), an optional fraction
/// and an optional exponent.
pub open spec fn num_end(s: Seq<char>, i: int) -> Option<int> {
    let j = if 0 <= i < s.len() && s[i] == '-' {
        i + 1
    } else {
        i
    };
    if !(0 <= j < s.len() && is_digit(s[j])) {
        None
    } else {
        let k = if s[j] == '0' {
            j + 1
        } else {
            digits_end(s, j)
        };
        let f = if k < s.len() && s[k] == '.' {
            if k + 1 < s.len() && is_digit(s[k + 1]) {
                Some(digits_end(s, k + 1))
            } else {
                None
            }
        } else {
            Some(k)
        };
        match f {
            None => None,
            Some(k2) => {
                if k2 < s.len() && (s[k2] == 'e' || s[k2] == 'E') {
                    let e0 = if k2 + 1 < s.len() && (s[k2 + 1] == '+' || s[k2 + 1] == '-') {
                        k2 + 2
                    } else {
                        k2 + 1
                    };
                    if e0 < s.len() && is_digit(s[e0]) {
                        Some(digits_end(s, e0))
                    } else {
                        None
                    }
                } else {
                    Some(k2)
                }
            },
        }
    }
}

/// Whether the four characters of `word` occur in `s` at `i`.
pub open spec fn has_lit4(s: Seq<char>, i: int, c0: char, c1: char, c2: char, c3: char) -> bool {
    0 <= i && i + 4 <= s.len() && s[i] == c0 && s[i + 1] == c1 && s[i + 2] == c2 && s[i + 3] == c3
}

/// The JSON value starting exactly at `i` (no leading whitespace) and the
/// index just after it.
pub open spec fn sp_value(s: Seq<char>, i: int, fuel: nat) -> Option<(JsonV, int)>
    decreases fuel,
{
    if fuel == 0 || !(0 <= i < s.len()) {
        None
    } else {
        let c = s[i];
        if c == 'n' {
            if has_lit4(s, i, 'n', 'u', 'l', 'l') {
                Some((JsonV::Null, i + 4))
            } else {
                None
            }
        } else if c == 't' {
            if has_lit4(s, i, 't', 'r', 'u', 'e') {
                Some((JsonV::Bool(true), i + 4))
            } else {
                None
            }
        } else if c == 'f' {
            if has_lit4(s, i + 1, 'a', 'l', 's', 'e') {
                Some((JsonV::Bool(false), i + 5))
            } else {
                None
            }
        } else if c == '"' {
            match sp_string_body(s, i + 1, (fuel - 1) as nat) {
                Some((t, e)) => Some((JsonV::Str(t), e)),
                None => None,
            }
        } else if c == '[' {
            let j = skip_ws(s, i + 1);
            if j < s.len() && s[j] == ']' {
                Some((JsonV::Arr(Seq::empty()), j + 1))
            } else {
                match sp_elems(s, j, (fuel - 1) as nat) {
                    Some((items, e)) => Some((JsonV::Arr(items), e)),
                    None => None,
                }
            }
        } else if c == '{' {
            let j = skip_ws(s, i + 1);
            if j < s.len() && s[j] == '}' {
                Some((JsonV::Obj(Seq::empty()), j + 1))
            } else {
                match sp_members(s, j, (fuel - 1) as nat) {
                    Some((fields, e)) => Some((JsonV::Obj(fields), e)),
                    None => None,
                }
            }
        } else {
            match num_end(s, i) {
                Some(e) => Some((JsonV::Num(s.subrange(i, e)), e)),
                None => None,
            }
        }
    }
}

/// One or more comma-separated array elements starting at `i` (whitespace
/// already skipped), up to and including the closing bracket.
pub open spec fn sp_elems(s: Seq<char>, i: int, fuel: nat) -> Option<(Seq<JsonV>, int)>
    decreases fuel,
{
    if fuel == 0 {
        None
    } else {
        match sp_value(s, i, (fuel - 1) as nat) {
            None => None,
            Some((v, j)) => {
                let k = skip_ws(s, j);
                if k < s.len() && s[k] == ',' {
                    match sp_elems(s, skip_ws(s, k + 1), (fuel - 1) as nat) {
                        Some((rest, e)) => Some((seq![v] + rest, e)),
                        None => None,
                    }
                } else if k < s.len() && s[k] == ']' {
                    Some((seq![v], k + 1))
                } else {
                    None
                }
            },
        }
    }
}

/// One or more `"key": value` members starting at `i` (whitespace already
/// skipped), up to and including the closing brace.
pub open spec fn sp_members(s: Seq<char>, i: int, fuel: nat) -> Option<
    (Seq<(Seq<char>, JsonV)>, int),
>
    decreases fuel,
{
    if fuel == 0 {
        None
    } else if !(0 <= i < s.len() && s[i] == '"') {
        None
    } else {
        match sp_string_body(s, i + 1, (fuel - 1) as nat) {
            None => None,
            Some((key, j)) => {
                let k = skip_ws(s, j);
                if !(k < s.len() && s[k] == ':') {
                    None
                } else {
                    match sp_value(s, skip_ws(s, k + 1), (fuel - 1) as nat) {
                        None => None,
                        Some((v, m)) => {
                            let n = skip_ws(s, m);
                            if n < s.len() && s[n] == ',' {
                                match sp_members(s, skip_ws(s, n + 1), (fuel - 1) as nat) {
                                    Some((rest, e)) => Some((seq![(key, v)] + rest, e)),
                                    None => None,
                                }
                            } else if n < s.len() && s[n] == '}' {
                                Some((seq![(key, v)], n + 1))
                            } else {
                                None
                            }
                        },
                    }
                }
            },
        }
    }
}

/// Fuel that suffices for any input of this length.
pub open spec fn parse_fuel(s: Seq<char>) -> nat {
    (3 * s.len() + 8) as nat
}

/// The JSON document `s` stands for: exactly one value, surrounded by
/// optional whitespace.
pub open spec fn json_parse_spec(s: Seq<char>) -> Option<JsonV> {
    match sp_value(s, skip_ws(s, 0), parse_fuel(s)) {
        None => None,
        Some((v, j)) => if skip_ws(s, j) == s.len() {
            Some(v)
        } else {
            None
        },
    }
}

// ---------------------------------------------------------------------------
// Bounds of the spec parser: a parsed item always consumes at least one
// character and never runs past the end of the input.
// ---------------------------------------------------------------------------
pub proof fn lemma_skip_ws_bounds(s: Seq<char>, i: int)
    requires
        0 <= i <= s.len(),
    ensures
        i <= skip_ws(s, i) <= s.len(),
    decreases s.len() - i,
{
    if i < s.len() && is_ws(s[i]) {
        lemma_skip_ws_bounds(s, i + 1);
    }
}

pub proof fn lemma_digits_end_bounds(s: Seq<char>, i: int)
    requires
        0 <= i <= s.len(),
    ensures
        i <= digits_end(s, i) <= s.len(),
    decreases s.len() - i,
{
    if i < s.len() && is_digit(s[i]) {
        lemma_digits_end_bounds(s, i + 1);
    }
}

pub proof fn lemma_num_end_bounds(s: Seq<char>, i: int)
    requires
        0 <= i <= s.len(),
    ensures
        num_end(s, i) matches Some(e) ==> i < e <= s.len(),
{
    let j = if 0 <= i < s.len() && s[i] == '-' {
        i + 1
    } else {
        i
    };
    if 0 <= j < s.len() && is_digit(s[j]) {
        lemma_digits_end_bounds(s, j);
        let k = if s[j] == '0' {
            j + 1
        } else {
            digits_end(s, j)
        };
        assert(s[j] != '0' ==> digits_end(s, j) == digits_end(s, j + 1));
        assert(s[j] != '0' ==> digits_end(s, j + 1) >= j + 1) by {
            if s[j] != '0' {
                lemma_digits_end_bounds(s, j + 1);
            }
        }
        if k < s.len() && s[k] == '.' {
            if k + 1 < s.len() && is_digit(s[k + 1]) {
                lemma_digits_end_bounds(s, k + 1);
            }
        }
        let f = if k < s.len() && s[k] == '.' {
            if k + 1 < s.len() && is_digit(s[k + 1]) {
                Some(digits_end(s, k + 1))
            } else {
                None
            }
        } else {
            Some(k)
        };
        match f {
            None => {},
            Some(k2) => {
                if k2 < s.len() && (s[k2] == 'e' || s[k2] == 'E') {
                    let e0 = if k2 + 1 < s.len() && (s[k2 + 1] == '+' || s[k2 + 1] == '-') {
                        k2 + 2
                    } else {
                        k2 + 1
                    };
                    if e0 < s.len() && is_digit(s[e0]) {
                        lemma_digits_end_bounds(s, e0);
                    }
                }
            },
        }
    }
}

pub proof fn lemma_sp_string_body_bounds(s: Seq<char>, i: int, fuel: nat)
    ensures
        sp_string_body(s, i, fuel) matches Some((t, e)) ==> i < e <= s.len(),
    decreases fuel,
{
    if fuel != 0 && 0 <= i < s.len() {
        lemma_sp_string_body_bounds(s, i + 6, (fuel - 1) as nat);
        lemma_sp_string_body_bounds(s, i + 2, (fuel - 1) as nat);
        lemma_sp_string_body_bounds(s, i + 1, (fuel - 1) as nat);
    }
}

pub proof fn lemma_sp_value_bounds(s: Seq<char>, i: int, fuel: nat)
    ensures
        sp_value(s, i, fuel) matches Some((v, j)) ==> 0 <= i < j <= s.len(),
    decreases fuel,
{
    if fuel != 0 && 0 <= i < s.len() {
        let c = s[i];
        if c == '"' {
            lemma_sp_string_body_bounds(s, i + 1, (fuel - 1) as nat);
        } else if c == '[' || c == '{' {
            lemma_skip_ws_bounds(s, i + 1);
            let j = skip_ws(s, i + 1);
            lemma_sp_elems_bounds(s, j, (fuel - 1) as nat);
            lemma_sp_members_bounds(s, j, (fuel - 1) as nat);
        } else {
            lemma_num_end_bounds(s, i);
        }
    }
}

pub proof fn lemma_sp_elems_bounds(s: Seq<char>, i: int, fuel: nat)
    ensures
        sp_elems(s, i, fuel) matches Some((items, e)) ==> 0 <= i < e <= s.len(),
    decreases fuel,
{
    if fuel != 0 {
        lemma_sp_value_bounds(s, i, (fuel - 1) as nat);
        match sp_value(s, i, (fuel - 1) as nat) {
            None => {},
            Some((v, j)) => {
                lemma_skip_ws_bounds(s, j);
                let k = skip_ws(s, j);
                if k < s.len() && s[k] == ',' {
                    lemma_skip_ws_bounds(s, k + 1);
                    lemma_sp_elems_bounds(s, skip_ws(s, k + 1), (fuel - 1) as nat);
                }
            },
        }
    }
}

pub proof fn lemma_sp_members_bounds(s: Seq<char>, i: int, fuel: nat)
    ensures
        sp_members(s, i, fuel) matches Some((fields, e)) ==> 0 <= i < e <= s.len(),
    decreases fuel,
{
    if fuel != 0 && 0 <= i < s.len() && s[i] == '"' {
        lemma_sp_string_body_bounds(s, i + 1, (fuel - 1) as nat);
        match sp_string_body(s, i + 1, (fuel - 1) as nat) {
            None => {},
            Some((key, j)) => {
                lemma_skip_ws_bounds(s, j);
                let k = skip_ws(s, j);
                if k < s.len() && s[k] == ':' {
                    lemma_skip_ws_bounds(s, k + 1);
                    lemma_sp_value_bounds(s, skip_ws(s, k + 1), (fuel - 1) as nat);
                    match sp_value(s, skip_ws(s, k + 1), (fuel - 1) as nat) {
                        None => {},
                        Some((v, m)) => {
                            lemma_skip_ws_bounds(s, m);
                            let n = skip_ws(s, m);
                            if n < s.len() && s[n] == ',' {
                                lemma_skip_ws_bounds(s, n + 1);
                                lemma_sp_members_bounds(s, skip_ws(s, n + 1), (fuel - 1) as nat);
                            }
                        },
                    }
                }
            },
        }
    }
}

// ---------------------------------------------------------------------------
// The executable parser.  Each function returns exactly what its spec
// counterpart denotes.
// ---------------------------------------------------------------------------
/// Relies on `char::from_u32`: it returns the character with the given
/// code for every Unicode scalar value, and `None` for surrogate codes
/// and codes above the Unicode range.
#[verifier::external_body]
fn char_from_u32(u: u32) -> (r: Option<char>)
    ensures
        (u < 0xD800 || (0xE000 <= u && u <= 0x10FFFF)) ==> r == Some(u as char),
        !(u < 0xD800 || (0xE000 <= u && u <= 0x10FFFF)) ==> r is None,
{
    char::from_u32(u)
}

fn p_skip_ws(s: &Vec<char>, i: usize) -> (j: usize)
    requires
        i <= s@.len(),
    ensures
        j as int == skip_ws(s@, i as int),
        i <= j <= s@.len(),
{
    let mut k = i;
    while k < s.len() && (s[k] == ' ' || s[k] == '\t' || s[k] == '\n' || s[k] == '\r')
        invariant
            i <= k <= s@.len(),
            skip_ws(s@, i as int) == skip_ws(s@, k as int),
        decreases s@.len() - k,
    {
        k = k + 1;
    }
    k
}

fn p_digits_end(s: &Vec<char>, i: usize) -> (j: usize)
    requires
        i <= s@.len(),
    ensures
        j as int == digits_end(s@, i as int),
        i <= j <= s@.len(),
{
    let mut k = i;
    while k < s.len() && '0' <= s[k] && s[k] <= '9'
        invariant
            i <= k <= s@.len(),
            digits_end(s@, i as int) == digits_end(s@, k as int),
        decreases s@.len() - k,
    {
        k = k + 1;
    }
    k
}

/// The end of the number literal starting at `i`, per `num_end`.
fn p_num_end(s: &Vec<char>, i: usize) -> (r: Option<usize>)
    requires
        i <= s@.len(),
    ensures
        match r {
            Some(e) => num_end(s@, i as int) == Some(e as int) && i < e <= s@.len(),
            None => num_end(s@, i as int) is None,
        },
{
    proof {
        lemma_num_end_bounds(s@, i as int);
    }
    let j = if i < s.len() && s[i] == '-' {
        i + 1
    } else {
        i
    };
    if !(j < s.len() && '0' <= s[j] && s[j] <= '9') {
        return None;
    }
    let k = if s[j] == '0' {
        j + 1
    } else {
        p_digits_end(s, j)
    };
    let k2 = if k < s.len() && s[k] == '.' {
        if k + 1 < s.len() && '0' <= s[k + 1] && s[k + 1] <= '9' {
            p_digits_end(s, k + 1)
        } else {
            return None;
        }
    } else {
        k
    };
    if k2 < s.len() && (s[k2] == 'e' || s[k2] == 'E') {
        let e0 = if k2 + 1 < s.len() && (s[k2 + 1] == '+' || s[k2 + 1] == '-') {
            k2 + 2
        } else {
            k2 + 1
        };
        if e0 < s.len() && '0' <= s[e0] && s[e0] <= '9' {
            Some(p_digits_end(s, e0))
        } else {
            None
        }
    } else {
        Some(k2)
    }
}

/// A copy of the characters of `s` between `a` and `b`.
fn collect_range(s: &Vec<char>, a: usize, b: usize) -> (out: Vec<char>)
    requires
        a <= b <= s@.len(),
    ensures
        out@ == s@.subrange(a as int, b as int),
{
    let mut out: Vec<char> = Vec::new();
    let mut k = a;
    while k < b
        invariant
            a <= k <= b <= s@.len(),
            out@ =~= s@.subrange(a as int, k as int),
        decreases b - k,
    {
        out.push(s[k]);
        k = k + 1;
        proof {
            assert(out@ =~= s@.subrange(a as int, k as int));
        }
    }
    out
}

/// The value of the hexadecimal digit `c`, or `None`, per `hex_val`.
fn p_hex_val(c: char) -> (r: Option<u32>)
    ensures
        match r {
            Some(v) => hex_val(c) == v as int && v < 16,
            None => hex_val(c) < 0,
        },
{
    if '0' <= c && c <= '9' {
        Some(c as u32 - '0' as u32)
    } else if 'a' <= c && c <= 'f' {
        Some(c as u32 - 'a' as u32 + 10)
    } else if 'A' <= c && c <= 'F' {
        Some(c as u32 - 'A' as u32 + 10)
    } else {
        None
    }
}

fn p_string_body(s: &Vec<char>, i: usize, fuel: u128) -> (r: Option<(Vec<char>, usize)>)
    requires
        i <= s@.len(),
    ensures
        match r {
            Some((t, e)) => sp_string_body(s@, i as int, fuel as nat) == Some((t@, e as int)) && i
                < e <= s@.len(),
            None => sp_string_body(s@, i as int, fuel as nat) is None,
        },
    decreases fuel,
{
    if fuel == 0 || i >= s.len() {
        return None;
    }
    let c = s[i];
    if c == '"' {
        let t: Vec<char> = Vec::new();
        proof {
            assert(t@ =~= Seq::<char>::empty());
        }
        return Some((t, i + 1));
    }
    if c == '\\' {
        if i + 1 >= s.len() {
            return None;
        }
        let e1 = s[i + 1];
        if e1 == 'u' {
            if s.len() - i < 6 {
                proof {
                    assert(hex4_val(s@, i as int + 2) < 0);
                }
                return None;
            }
            let h0 = p_hex_val(s[i + 2]);
            let h1 = p_hex_val(s[i + 3]);
            let h2 = p_hex_val(s[i + 4]);
            let h3 = p_hex_val(s[i + 5]);
            match (h0, h1, h2, h3) {
                (Some(v0), Some(v1), Some(v2), Some(v3)) => {
                    let code: u32 = v0 * 0x1000 + v1 * 0x100 + v2 * 16 + v3;
                    assert(code as int == hex4_val(s@, i as int + 2));
                    if 0xD800 <= code && code < 0xE000 {
                        return None;
                    }
                    let ch = match char_from_u32(code) {
                        Some(ch) => ch,
                        None => {
                            return None;
                        },
                    };
                    match p_string_body(s, i + 6, fuel - 1) {
                        Some((rest, e)) => {
                            let ghost rest0 = rest@;
                            let mut t = rest;
                            t.insert(0, ch);
                            proof {
                                assert(t@ =~= seq![(code as u32) as char] + rest0);
                            }
                            Some((t, e))
                        },
                        None => None,
                    }
                },
                _ => {
                    assert(hex4_val(s@, i as int + 2) < 0);
                    None
                },
            }
        } else {
            let sc: char = if e1 == '"' {
                '"'
            } else if e1 == '\\' {
                '\\'
            } else if e1 == '/' {
                '/'
            } else if e1 == 'b' {
                '\u{0008}'
            } else if e1 == 'f' {
                '\u{000C}'
            } else if e1 == 'n' {
                '\n'
            } else if e1 == 'r' {
                '\r'
            } else if e1 == 't' {
                '\t'
            } else {
                return None;
            };
            assert(short_escape(e1) == Some(sc));
            match p_string_body(s, i + 2, fuel - 1) {
                Some((rest, e)) => {
                    let ghost rest0 = rest@;
                    let mut t = rest;
                    t.insert(0, sc);
                    proof {
                        assert(t@ =~= seq![sc] + rest0);
                    }
                    Some((t, e))
                },
                None => None,
            }
        }
    } else if (c as u32) < 0x20 {
        None
    } else {
        match p_string_body(s, i + 1, fuel - 1) {
            Some((rest, e)) => {
                let ghost rest0 = rest@;
                let mut t = rest;
                t.insert(0, c);
                proof {
                    assert(t@ =~= seq![c] + rest0);
                }
                Some((t, e))
            },
            None => None,
        }
    }
}

proof fn lemma_arr_jv_insert0(items: Seq<JsonValue>, v: JsonValue)
    ensures
        arr_jv(items.insert(0, v)) =~= seq![v.jv()] + arr_jv(items),
{
}

proof fn lemma_obj_jv_insert0(fields: Seq<(String, JsonValue)>, k: String, v: JsonValue)
    ensures
        obj_jv(fields.insert(0, (k, v))) =~= seq![(k@, v.jv())] + obj_jv(fields),
{
}

fn p_value(s: &Vec<char>, i: usize, fuel: u128) -> (r: Option<(JsonValue, usize)>)
    requires
        i <= s@.len(),
    ensures
        match r {
            Some((v, j)) => sp_value(s@, i as int, fuel as nat) == Some((v.jv(), j as int)) && i < j
                <= s@.len(),
            None => sp_value(s@, i as int, fuel as nat) is None,
        },
    decreases fuel, 2int,
{
    proof {
        lemma_sp_value_bounds(s@, i as int, fuel as nat);
    }
    if fuel == 0 || i >= s.len() {
        return None;
    }
    let c = s[i];
    if c == 'n' {
        if s.len() - i >= 4 && s[i + 1] == 'u' && s[i + 2] == 'l' && s[i + 3] == 'l' {
            Some((JsonValue::Null, i + 4))
        } else {
            None
        }
    } else if c == 't' {
        if s.len() - i >= 4 && s[i + 1] == 'r' && s[i + 2] == 'u' && s[i + 3] == 'e' {
            Some((JsonValue::Bool(true), i + 4))
        } else {
            None
        }
    } else if c == 'f' {
        if s.len() - i >= 5 && s[i + 1] == 'a' && s[i + 2] == 'l' && s[i + 3] == 's' && s[i + 4]
            == 'e' {
            Some((JsonValue::Bool(false), i + 5))
        } else {
            None
        }
    } else if c == '"' {
        match p_string_body(s, i + 1, fuel - 1) {
            Some((t, e)) => Some((JsonValue::Str(crate::chars::chars_to_string(&t)), e)),
            None => None,
        }
    } else if c == '[' {
        let j = p_skip_ws(s, i + 1);
        if j < s.len() && s[j] == ']' {
            let items: Vec<JsonValue> = Vec::new();
            proof {
                assert(arr_jv(items@) =~= Seq::<JsonV>::empty());
            }
            Some((JsonValue::Arr(items), j + 1))
        } else {
            match p_elems(s, j, fuel - 1) {
                Some((items, e)) => Some((JsonValue::Arr(items), e)),
                None => None,
            }
        }
    } else if c == '{' {
        let j = p_skip_ws(s, i + 1);
        if j < s.len() && s[j] == '}' {
            let fields: Vec<(String, JsonValue)> = Vec::new();
            proof {
                assert(obj_jv(fields@) =~= Seq::<(Seq<char>, JsonV)>::empty());
            }
            Some((JsonValue::Obj(fields), j + 1))
        } else {
            match p_members(s, j, fuel - 1) {
                Some((fields, e)) => Some((JsonValue::Obj(fields), e)),
                None => None,
            }
        }
    } else {
        match p_num_end(s, i) {
            Some(e) => {
                let lit = collect_range(s, i, e);
                Some((JsonValue::Num(crate::chars::chars_to_string(&lit)), e))
            },
            None => None,
        }
    }
}

fn p_elems(s: &Vec<char>, i: usize, fuel: u128) -> (r: Option<(Vec<JsonValue>, usize)>)
    requires
        i <= s@.len(),
    ensures
        match r {
            Some((items, e)) => sp_elems(s@, i as int, fuel as nat) == Some(
                (arr_jv(items@), e as int),
            ) && i < e <= s@.len(),
            None => sp_elems(s@, i as int, fuel as nat) is None,
        },
    decreases fuel, 1int,
{
    proof {
        lemma_sp_elems_bounds(s@, i as int, fuel as nat);
    }
    if fuel == 0 {
        return None;
    }
    match p_value(s, i, fuel - 1) {
        None => None,
        Some((v, j)) => {
            let k = p_skip_ws(s, j);
            if k < s.len() && s[k] == ',' {
                let m = p_skip_ws(s, k + 1);
                match p_elems(s, m, fuel - 1) {
                    Some((rest, e)) => {
                        let ghost rest0 = rest@;
                        let ghost v0 = v;
                        let mut items = rest;
                        items.insert(0, v);
                        proof {
                            lemma_arr_jv_insert0(rest0, v0);
                        }
                        Some((items, e))
                    },
                    None => None,
                }
            } else if k < s.len() && s[k] == ']' {
                let mut items: Vec<JsonValue> = Vec::new();
                let ghost v0 = v;
                items.push(v);
                proof {
                    assert(arr_jv(items@) =~= seq![v0.jv()]);
                }
                Some((items, k + 1))
            } else {
                None
            }
        },
    }
}

fn p_members(s: &Vec<char>, i: usize, fuel: u128) -> (r: Option<(Vec<(String, JsonValue)>, usize)>)
    requires
        i <= s@.len(),
    ensures
        match r {
            Some((fields, e)) => sp_members(s@, i as int, fuel as nat) == Some(
                (obj_jv(fields@), e as int),
            ) && i < e <= s@.len(),
            None => sp_members(s@, i as int, fuel as nat) is None,
        },
    decreases fuel, 1int,
{
    proof {
        lemma_sp_members_bounds(s@, i as int, fuel as nat);
    }
    if fuel == 0 {
        return None;
    }
    if !(i < s.len() && s[i] == '"') {
        return None;
    }
    match p_string_body(s, i + 1, fuel - 1) {
        None => None,
        Some((key_chars, j)) => {
            let key = crate::chars::chars_to_string(&key_chars);
            let k = p_skip_ws(s, j);
            if !(k < s.len() && s[k] == ':') {
                return None;
            }
            let m0 = p_skip_ws(s, k + 1);
            match p_value(s, m0, fuel - 1) {
                None => None,
                Some((v, m)) => {
                    let n = p_skip_ws(s, m);
                    if n < s.len() && s[n] == ',' {
                        let n1 = p_skip_ws(s, n + 1);
                        match p_members(s, n1, fuel - 1) {
                            Some((rest, e)) => {
                                let ghost rest0 = rest@;
                                let ghost key0 = key;
                                let ghost v0 = v;
                                let mut fields = rest;
                                fields.insert(0, (key, v));
                                proof {
                                    lemma_obj_jv_insert0(rest0, key0, v0);
                                }
                                Some((fields, e))
                            },
                            None => None,
                        }
                    } else if n < s.len() && s[n] == '}' {
                        let mut fields: Vec<(String, JsonValue)> = Vec::new();
                        let ghost key0 = key;
                        let ghost v0 = v;
                        fields.push((key, v));
                        proof {
                            assert(obj_jv(fields@) =~= seq![(key0@, v0.jv())]);
                        }
                        Some((fields, n + 1))
                    } else {
                        None
                    }
                },
            }
        },
    }
}

/// Parse a JSON document: exactly one value surrounded by optional
/// whitespace, per `json_parse_spec`.
pub fn parse_json(text: &str) -> (r: Option<JsonValue>)
    ensures
        match r {
            Some(v) => json_parse_spec(text@) == Some(v.jv()),
            None => json_parse_spec(text@) is None,
        },
{
    let s = crate::chars::str_to_chars(text);
    let i = p_skip_ws(&s, 0);
    let fuel: u128 = 3 * (s.len() as u128) + 8;
    match p_value(&s, i, fuel) {
        None => None,
        Some((v, j)) => {
            let k = p_skip_ws(&s, j);
            if k == s.len() {
                Some(v)
            } else {
                None
            }
        },
    }
}


// ---------------------------------------------------------------------------
// The serializer.  `ser_spec` is the canonical text of a value: no
// insignificant whitespace, strings escaped minimally (quote, backslash
// and control characters only), numbers rendered as their literal.
// ---------------------------------------------------------------------------
/// The hexadecimal digit character for a value below 16.
pub open spec fn hex_digit_char(d: int) -> char {
    if d == 0 {
        '0'
    } else if d == 1 {
        '1'
    } else if d == 2 {
        '2'
    } else if d == 3 {
        '3'
    } else if d == 4 {
        '4'
    } else if d == 5 {
        '5'
    } else if d == 6 {
        '6'
    } else if d == 7 {
        '7'
    } else if d == 8 {
        '8'
    } else if d == 9 {
        '9'
    } else if d == 10 {
        'a'
    } else if d == 11 {
        'b'
    } else if d == 12 {
        'c'
    } else if d == 13 {
        'd'
    } else if d == 14 {
        'e'
    } else {
        'f'
    }
}

/// The escaped spelling of one string character.
pub open spec fn esc_char(c: char) -> Seq<char> {
    if c == '"' {
        seq!['\\', '"']
    } else if c == '\\' {
        seq!['\\', '\\']
    } else if c == '\u{0008}' {
        seq!['\\', 'b']
    } else if c == '\u{000C}' {
        seq!['\\', 'f']
    } else if c == '\n' {
        seq!['\\', 'n']
    } else if c == '\r' {
        seq!['\\', 'r']
    } else if c == '\t' {
        seq!['\\', 't']
    } else if (c as u32) < 0x20 {
        seq!['\\', 'u', '0', '0', hex_digit_char(c as u32 as int / 16), hex_digit_char(c as u32 as int % 16)]
    } else {
        seq![c]
    }
}

/// The escaped spelling of a string body.
pub open spec fn esc_str(s: Seq<char>) -> Seq<char>
    decreases s.len(),
{
    if s.len() == 0 {
        Seq::empty()
    } else {
        esc_char(s[0]) + esc_str(s.subrange(1, s.len() as int))
    }
}

/// The canonical text of a value.
pub open spec fn ser_spec(v: JsonV) -> Seq<char>
    decreases v,
{
    match v {
        JsonV::Null => seq!['n', 'u', 'l', 'l'],
        JsonV::Bool(b) => if b {
            seq!['t', 'r', 'u', 'e']
        } else {
            seq!['f', 'a', 'l', 's', 'e']
        },
        JsonV::Num(lit) => lit,
        JsonV::Str(t) => seq!['"'] + esc_str(t) + seq!['"'],
        JsonV::Arr(items) => seq!['['] + ser_items(items) + seq![']'],
        JsonV::Obj(fields) => seq!['{'] + ser_members(fields) + seq!['}'],
    }
}

/// The canonical text of comma-separated array elements.
pub open spec fn ser_items(items: Seq<JsonV>) -> Seq<char>
    decreases items,
{
    if items.len() == 0 {
        Seq::empty()
    } else if items.len() == 1 {
        ser_spec(items[0])
    } else {
        ser_spec(items[0]) + seq![','] + ser_items(items.subrange(1, items.len() as int))
    }
}

/// The canonical text of one object member.
pub open spec fn ser_member(f: (Seq<char>, JsonV)) -> Seq<char>
    decreases f,
{
    seq!['"'] + esc_str(f.0) + seq!['"', ':'] + ser_spec(f.1)
}

/// The canonical text of comma-separated object members.
pub open spec fn ser_members(fields: Seq<(Seq<char>, JsonV)>) -> Seq<char>
    decreases fields,
{
    if fields.len() == 0 {
        Seq::empty()
    } else if fields.len() == 1 {
        ser_member(fields[0])
    } else {
        ser_member(fields[0]) + seq![','] + ser_members(
            fields.subrange(1, fields.len() as int),
        )
    }
}

proof fn lemma_esc_str_push(s: Seq<char>, c: char)
    ensures
        esc_str(s.push(c)) == esc_str(s) + esc_char(c),
    decreases s.len(),
{
    if s.len() == 0 {
        assert(s.push(c).subrange(1, s.push(c).len() as int) =~= Seq::<char>::empty());
        assert(s.push(c)[0] == c);
        assert(esc_str(Seq::<char>::empty()) == Seq::<char>::empty());
        assert(esc_str(s.push(c)) == esc_char(c) + esc_str(
            s.push(c).subrange(1, s.push(c).len() as int),
        ));
        assert(esc_str(s) == Seq::<char>::empty());
        assert(esc_str(s.push(c)) =~= esc_str(s) + esc_char(c));
    } else {
        let t = s.subrange(1, s.len() as int);
        assert(s.push(c).subrange(1, s.push(c).len() as int) =~= t.push(c));
        lemma_esc_str_push(t, c);
        assert(esc_str(s.push(c)) =~= esc_str(s) + esc_char(c));
    }
}

/// Append the escaped spelling of one character.
fn w_escape_char(c: char, out: &mut Vec<char>)
    ensures
        final(out)@ == old(out)@ + esc_char(c),
{
    if c == '"' {
        out.push('\\');
        out.push('"');
    } else if c == '\\' {
        out.push('\\');
        out.push('\\');
    } else if c == '\u{0008}' {
        out.push('\\');
        out.push('b');
    } else if c == '\u{000C}' {
        out.push('\\');
        out.push('f');
    } else if c == '\n' {
        out.push('\\');
        out.push('n');
    } else if c == '\r' {
        out.push('\\');
        out.push('r');
    } else if c == '\t' {
        out.push('\\');
        out.push('t');
    } else if (c as u32) < 0x20 {
        out.push('\\');
        out.push('u');
        out.push('0');
        out.push('0');
        let hi: u32 = (c as u32) / 16;
        let lo: u32 = (c as u32) % 16;
        out.push(if hi == 0 { '0' } else { '1' });
        out.push(
            if lo == 0 { '0' } else if lo == 1 { '1' } else if lo == 2 { '2' } else if lo == 3 { '3' }
            else if lo == 4 { '4' } else if lo == 5 { '5' } else if lo == 6 { '6' } else if lo == 7 { '7' }
            else if lo == 8 { '8' } else if lo == 9 { '9' } else if lo == 10 { 'a' } else if lo == 11 { 'b' }
            else if lo == 12 { 'c' } else if lo == 13 { 'd' } else if lo == 14 { 'e' } else { 'f' },
        );
        proof {
            assert(final(out)@ =~= old(out)@ + esc_char(c));
        }
    } else {
        out.push(c);
        proof {
            assert(final(out)@ =~= old(out)@ + esc_char(c));
        }
    }
    proof {
        assert(final(out)@ =~= old(out)@ + esc_char(c));
    }
}

/// Append the escaped spelling of a string body.
fn w_escape_str(t: &str, out: &mut Vec<char>)
    ensures
        final(out)@ == old(out)@ + esc_str(t@),
{
    let cs = crate::chars::str_to_chars(t);
    let n = cs.len();
    let mut i: usize = 0;
    while i < n
        invariant
            n == cs@.len(),
            cs@ == t@,
            i <= n,
            out@ == old(out)@ + esc_str(t@.subrange(0, i as int)),
        decreases n - i,
    {
        proof {
            lemma_esc_str_push(t@.subrange(0, i as int), cs@[i as int]);
            assert(t@.subrange(0, i as int).push(cs@[i as int]) =~= t@.subrange(0, i as int + 1));
        }
        w_escape_char(cs[i], out);
        i = i + 1;
    }
    proof {
        assert(t@.subrange(0, n as int) =~= t@);
    }
}


/// Append the canonical text of a value.
fn w_value(v: &JsonValue, out: &mut Vec<char>)
    ensures
        final(out)@ == old(out)@ + ser_spec(v.jv()),
    decreases *v, 0int,
{
    match v {
        JsonValue::Null => {
            out.push('n');
            out.push('u');
            out.push('l');
            out.push('l');
            proof {
                assert(final(out)@ =~= old(out)@ + ser_spec(v.jv()));
            }
        },
        JsonValue::Bool(b) => {
            if *b {
                out.push('t');
                out.push('r');
                out.push('u');
                out.push('e');
            } else {
                out.push('f');
                out.push('a');
                out.push('l');
                out.push('s');
                out.push('e');
            }
            proof {
                assert(final(out)@ =~= old(out)@ + ser_spec(v.jv()));
            }
        },
        JsonValue::Num(lit) => {
            let cs = crate::chars::str_to_chars(lit.as_str());
            let n = cs.len();
            let mut i: usize = 0;
            while i < n
                invariant
                    n == cs@.len(),
                    i <= n,
                    out@ == old(out)@ + cs@.subrange(0, i as int),
                decreases n - i,
            {
                out.push(cs[i]);
                i = i + 1;
                proof {
                    assert(old(out)@ + cs@.subrange(0, i as int - 1) + seq![cs@[i as int - 1]]
                        =~= old(out)@ + cs@.subrange(0, i as int));
                }
            }
            proof {
                assert(cs@.subrange(0, n as int) =~= cs@);
            }
        },
        JsonValue::Str(t) => {
            out.push('"');
            w_escape_str(t.as_str(), out);
            out.push('"');
            proof {
                assert(final(out)@ =~= old(out)@ + (seq!['"'] + esc_str(t@) + seq!['"']));
            }
        },
        JsonValue::Arr(items) => {
            out.push('[');
            w_items(items, 0, out);
            out.push(']');
            proof {
                assert(arr_jv(items@).subrange(0, arr_jv(items@).len() as int) =~= arr_jv(
                    items@,
                ));
                assert(final(out)@ =~= old(out)@ + (seq!['['] + ser_items(arr_jv(items@))
                    + seq![']']));
            }
        },
        JsonValue::Obj(fields) => {
            out.push('{');
            w_members(fields, 0, out);
            out.push('}');
            proof {
                assert(obj_jv(fields@).subrange(0, obj_jv(fields@).len() as int) =~= obj_jv(
                    fields@,
                ));
                assert(final(out)@ =~= old(out)@ + (seq!['{'] + ser_members(obj_jv(fields@))
                    + seq!['}']));
            }
        },
    }
}

/// Append the canonical text of the array elements from `from` on.
fn w_items(items: &Vec<JsonValue>, from: usize, out: &mut Vec<char>)
    requires
        from <= items@.len(),
    ensures
        final(out)@ == old(out)@ + ser_items(
            arr_jv(items@).subrange(from as int, arr_jv(items@).len() as int),
        ),
    decreases *items, items@.len() - from,
{
    let ghost sub = arr_jv(items@).subrange(from as int, arr_jv(items@).len() as int);
    if from >= items.len() {
        proof {
            assert(sub =~= Seq::<JsonV>::empty());
        }
        return ;
    }
    w_value(&items[from], out);
    proof {
        assert(sub[0] == items@[from as int].jv());
    }
    if from + 1 < items.len() {
        out.push(',');
        w_items(items, from + 1, out);
        proof {
            assert(sub.subrange(1, sub.len() as int) =~= arr_jv(items@).subrange(
                from as int + 1,
                arr_jv(items@).len() as int,
            ));
            assert(final(out)@ =~= old(out)@ + (ser_spec(sub[0]) + seq![','] + ser_items(
                sub.subrange(1, sub.len() as int),
            )));
        }
    } else {
        proof {
            assert(sub.len() == 1);
        }
    }
}

/// Append the canonical text of the object members from `from` on.
fn w_members(fields: &Vec<(String, JsonValue)>, from: usize, out: &mut Vec<char>)
    requires
        from <= fields@.len(),
    ensures
        final(out)@ == old(out)@ + ser_members(
            obj_jv(fields@).subrange(from as int, obj_jv(fields@).len() as int),
        ),
    decreases *fields, fields@.len() - from,
{
    let ghost sub = obj_jv(fields@).subrange(from as int, obj_jv(fields@).len() as int);
    if from >= fields.len() {
        proof {
            assert(sub =~= Seq::<(Seq<char>, JsonV)>::empty());
        }
        return ;
    }
    out.push('"');
    w_escape_str(fields[from].0.as_str(), out);
    out.push('"');
    out.push(':');
    w_value(&fields[from].1, out);
    proof {
        assert(sub[0] == (fields@[from as int].0@, fields@[from as int].1.jv()));
        assert(ser_member(sub[0]) == seq!['"'] + esc_str(fields@[from as int].0@) + seq![
            '"',
            ':',
        ] + ser_spec(fields@[from as int].1.jv()));
    }
    if from + 1 < fields.len() {
        out.push(',');
        w_members(fields, from + 1, out);
        proof {
            assert(sub.subrange(1, sub.len() as int) =~= obj_jv(fields@).subrange(
                from as int + 1,
                obj_jv(fields@).len() as int,
            ));
            assert(final(out)@ =~= old(out)@ + (ser_member(sub[0]) + seq![','] + ser_members(
                sub.subrange(1, sub.len() as int),
            )));
        }
    } else {
        proof {
            assert(sub.len() == 1);
            assert(final(out)@ =~= old(out)@ + ser_member(sub[0]));
        }
    }
}

/// The canonical JSON text of a value, per `ser_spec`.
pub fn json_to_string(v: &JsonValue) -> (s: String)
    ensures
        s@ == ser_spec(v.jv()),
{
    let mut out: Vec<char> = Vec::new();
    w_value(v, &mut out);
    crate::chars::chars_to_string(&out)
}


// ---------------------------------------------------------------------------
// Reading object members.
// ---------------------------------------------------------------------------
/// The first value bound to `key`, scanning members in order.
pub open spec fn lookup(fields: Seq<(Seq<char>, JsonV)>, key: Seq<char>) -> Option<JsonV>
    decreases fields.len(),
{
    if fields.len() == 0 {
        None
    } else if fields[0].0 == key {
        Some(fields[0].1)
    } else {
        lookup(fields.subrange(1, fields.len() as int), key)
    }
}

/// The value bound to `key`: `None` unless the value is an object that
/// binds the key.
pub open spec fn jv_get(v: JsonV, key: Seq<char>) -> Option<JsonV> {
    match v {
        JsonV::Obj(fields) => lookup(fields, key),
        _ => None,
    }
}

impl JsonValue {
    /// The member bound to `key`, if this is an object that binds it.
    pub fn get<'a>(&'a self, key: &str) -> (r: Option<&'a JsonValue>)
        ensures
            match r {
                Some(f) => jv_get(self.jv(), key@) == Some(f.jv()),
                None => jv_get(self.jv(), key@) is None,
            },
    {
        match self {
            JsonValue::Obj(fields) => {
                let n = fields.len();
                proof {
                    assert(obj_jv(fields@).subrange(0, n as int) =~= obj_jv(fields@));
                }
                let mut i: usize = 0;
                while i < n
                    invariant
                        n == fields@.len(),
                        i <= n,
                        self.jv() == JsonV::Obj(obj_jv(fields@)),
                        lookup(obj_jv(fields@), key@) == lookup(
                            obj_jv(fields@).subrange(i as int, n as int),
                            key@,
                        ),
                    decreases n - i,
                {
                    let ghost sub = obj_jv(fields@).subrange(i as int, n as int);
                    proof {
                        assert(sub[0] == (fields@[i as int].0@, fields@[i as int].1.jv()));
                    }
                    if crate::chars::str_eq(fields[i].0.as_str(), key) {
                        proof {
                            assert(sub.len() > 0 && sub[0].0 == key@);
                            assert(lookup(sub, key@) == Some(sub[0].1));
                        }
                        return Some(&fields[i].1);
                    }
                    i = i + 1;
                    proof {
                        assert(sub.subrange(1, sub.len() as int) =~= obj_jv(fields@).subrange(
                            i as int,
                            n as int,
                        ));
                    }
                }
                proof {
                    assert(obj_jv(fields@).subrange(n as int, n as int)
                        =~= Seq::<(Seq<char>, JsonV)>::empty());
                }
                None
            },
            _ => None,
        }
    }

    /// The characters of this value, if it is a string.
    pub fn as_string(&self) -> (r: Option<String>)
        ensures
            match r {
                Some(s) => self.jv() == JsonV::Str(s@),
                None => !(self.jv() is Str),
            },
    {
        match self {
            JsonValue::Str(s) => Some(s.clone()),
            _ => None,
        }
    }

    /// The integer this value spells, if it is a number whose literal is
    /// an integer of at most eighteen digits.
    pub fn as_i64(&self) -> (r: Option<i64>)
        ensures
            match r {
                Some(n) => (match self.jv() {
                    JsonV::Num(lit) => crate::chars::parse_int_spec(lit) == Some(n as int),
                    _ => false,
                }),
                None => (match self.jv() {
                    JsonV::Num(lit) => crate::chars::parse_int_spec(lit) is None,
                    _ => true,
                }),
            },
    {
        match self {
            JsonValue::Num(lit) => crate::chars::parse_int_lit(lit.as_str()),
            _ => None,
        }
    }

    /// The boolean this value holds, if it is a boolean.
    pub fn as_bool(&self) -> (r: Option<bool>)
        ensures
            match r {
                Some(b) => self.jv() == JsonV::Bool(b),
                None => !(self.jv() is Bool),
            },
    {
        match self {
            JsonValue::Bool(b) => Some(*b),
            _ => None,
        }
    }
}


// ---------------------------------------------------------------------------
// Copying values.
// ---------------------------------------------------------------------------
/// A deep copy of a value, with the same mathematical content.
pub fn clone_value(v: &JsonValue) -> (r: JsonValue)
    ensures
        r.jv() == v.jv(),
    decreases *v, 0int,
{
    match v {
        JsonValue::Null => JsonValue::Null,
        JsonValue::Bool(b) => JsonValue::Bool(*b),
        JsonValue::Num(s) => JsonValue::Num(s.clone()),
        JsonValue::Str(s) => JsonValue::Str(s.clone()),
        JsonValue::Arr(items) => JsonValue::Arr(clone_items(items)),
        JsonValue::Obj(fields) => JsonValue::Obj(clone_fields(fields)),
    }
}

fn clone_items(items: &Vec<JsonValue>) -> (r: Vec<JsonValue>)
    ensures
        arr_jv(r@) == arr_jv(items@),
    decreases *items, 1int,
{
    let n = items.len();
    let mut out: Vec<JsonValue> = Vec::new();
    let mut i: usize = 0;
    while i < n
        invariant
            n == items@.len(),
            i <= n,
            out@.len() == i,
            forall|k: int| 0 <= k < i ==> arr_jv(out@)[k] == arr_jv(items@)[k],
        decreases n - i,
    {
        let ghost out0 = out@;
        let c = clone_value(&items[i]);
        let ghost cv = c.jv();
        out.push(c);
        i = i + 1;
        proof {
            let so = out@;
            assert forall|k: int| 0 <= k < i implies arr_jv(so)[k] == arr_jv(items@)[k] by {
                assert(arr_jv(so)[k] == so[k].jv());
                assert(arr_jv(items@)[k] == items@[k].jv());
                if k < i - 1 {
                    assert(so[k] == out0[k]);
                    assert(arr_jv(out0)[k] == out0[k].jv());
                } else {
                    assert(so[k].jv() == cv);
                }
            }
        }
    }
    proof {
        assert(arr_jv(out@) =~= arr_jv(items@));
    }
    out
}

fn clone_fields(fields: &Vec<(String, JsonValue)>) -> (r: Vec<(String, JsonValue)>)
    ensures
        obj_jv(r@) == obj_jv(fields@),
    decreases *fields, 1int,
{
    let n = fields.len();
    let mut out: Vec<(String, JsonValue)> = Vec::new();
    let mut i: usize = 0;
    while i < n
        invariant
            n == fields@.len(),
            i <= n,
            out@.len() == i,
            forall|k: int| 0 <= k < i ==> obj_jv(out@)[k] == obj_jv(fields@)[k],
        decreases n - i,
    {
        let ghost out0 = out@;
        let key = fields[i].0.clone();
        let c = clone_value(&fields[i].1);
        let ghost cv = c.jv();
        let ghost kv = key@;
        out.push((key, c));
        i = i + 1;
        proof {
            let so = out@;
            assert forall|k: int| 0 <= k < i implies obj_jv(so)[k] == obj_jv(fields@)[k] by {
                assert(obj_jv(so)[k] == (so[k].0@, so[k].1.jv()));
                assert(obj_jv(fields@)[k] == (fields@[k].0@, fields@[k].1.jv()));
                if k < i - 1 {
                    assert(so[k] == out0[k]);
                    assert(obj_jv(out0)[k] == (out0[k].0@, out0[k].1.jv()));
                } else {
                    assert(so[k].1.jv() == cv && so[k].0@ == kv);
                }
            }
        }
    }
    proof {
        assert(obj_jv(out@) =~= obj_jv(fields@));
    }
    out
}

} // verus!
