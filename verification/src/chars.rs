//! Character-level utilities: decimal formatting of integers, decimal
//! parsing, and conversions between `String` and `Vec<char>`.

use vstd::prelude::*;

verus! {

/// The character for a single decimal digit value.
pub open spec fn digit_char(d: int) -> char {
    if d == 0 {
        '0'
    } else if d == 1 {
        '1'
    } else if d == 2 {
        '2'
    } else if d == 3 {
        '3'
    } else if d == 4 {
        '4'
    } else if d == 5 {
        '5'
    } else if d == 6 {
        '6'
    } else if d == 7 {
        '7'
    } else if d == 8 {
        '8'
    } else {
        '9'
    }
}

/// Decimal digits of a positive integer, most significant first; empty for
/// zero and negative numbers.
pub open spec fn dec_rep(n: int) -> Seq<char>
    decreases n,
{
    if n <= 0 {
        Seq::empty()
    } else {
        dec_rep(n / 10).push(digit_char(n % 10))
    }
}

/// The canonical decimal spelling of an integer, with a leading `-` for
/// negative numbers.
pub open spec fn dec_of(n: int) -> Seq<char> {
    if n == 0 {
        seq!['0']
    } else if n < 0 {
        seq!['-'] + dec_rep(-n)
    } else {
        dec_rep(n)
    }
}

proof fn lemma_push_reverse(s: Seq<char>, c: char)
    ensures
        s.push(c).reverse() =~= seq![c] + s.reverse(),
{
}

/// Decimal digits of `n`, least significant first, reversed into the
/// canonical most-significant-first spelling.
fn u64_digits(n: u64) -> (out: Vec<char>)
    requires
        n > 0,
    ensures
        out@ == dec_rep(n as int),
{
    let mut rev: Vec<char> = Vec::new();
    let mut m: u64 = n;
    while m > 0
        invariant
            dec_rep(n as int) == dec_rep(m as int) + rev@.reverse(),
        decreases m,
    {
        let d: u64 = m % 10;
        let c: char = if d == 0 {
            '0'
        } else if d == 1 {
            '1'
        } else if d == 2 {
            '2'
        } else if d == 3 {
            '3'
        } else if d == 4 {
            '4'
        } else if d == 5 {
            '5'
        } else if d == 6 {
            '6'
        } else if d == 7 {
            '7'
        } else if d == 8 {
            '8'
        } else {
            '9'
        };
        proof {
            assert(c == digit_char(m as int % 10));
            lemma_push_reverse(rev@, c);
            assert(dec_rep(m as int) == dec_rep(m as int / 10).push(digit_char(m as int % 10)));
            assert(dec_rep(m as int / 10).push(c) + rev@.reverse() =~= dec_rep(m as int / 10) + (
            seq![c] + rev@.reverse()));
        }
        rev.push(c);
        m = m / 10;
    }
    let ghost digits = dec_rep(n as int);
    proof {
        assert(rev@.reverse() == digits);
        assert(rev@.len() == digits.len());
    }
    let mut out: Vec<char> = Vec::new();
    let len = rev.len();
    let mut i: usize = 0;
    while i < len
        invariant
            len == rev@.len(),
            rev@.reverse() == digits,
            i <= len,
            out@.len() == i,
            forall|j: int| 0 <= j < i ==> out@[j] == digits[j],
        decreases len - i,
    {
        proof {
            assert(rev@.reverse()[i as int] == rev@[len - 1 - i]);
        }
        out.push(rev[len - 1 - i]);
        i = i + 1;
    }
    proof {
        assert(out@ =~= digits);
    }
    out
}

/// The decimal spelling of a `u64`, as characters.
pub fn u64_to_chars(n: u64) -> (out: Vec<char>)
    ensures
        out@ == dec_of(n as int),
{
    if n == 0 {
        let mut out: Vec<char> = Vec::new();
        out.push('0');
        proof {
            assert(out@ =~= seq!['0']);
        }
        out
    } else {
        u64_digits(n)
    }
}

/// The decimal spelling of an `i64`, as characters.
pub fn i64_to_chars(n: i64) -> (out: Vec<char>)
    ensures
        out@ == dec_of(n as int),
{
    if n >= 0 {
        u64_to_chars(n as u64)
    } else {
        let mag: u64 = if n == i64::MIN {
            9223372036854775808u64
        } else {
            (-n) as u64
        };
        assert(mag == -(n as int));
        let digits = u64_digits(mag);
        let mut out: Vec<char> = Vec::new();
        out.push('-');
        let mut i: usize = 0;
        let len = digits.len();
        while i < len
            invariant
                len == digits@.len(),
                i <= len,
                out@ =~= seq!['-'] + digits@.subrange(0, i as int),
            decreases len - i,
        {
            out.push(digits[i]);
            i = i + 1;
            proof {
                assert(out@ =~= seq!['-'] + digits@.subrange(0, i as int));
            }
        }
        proof {
            assert(digits@.subrange(0, len as int) =~= digits@);
        }
        out
    }
}

/// The characters of a string, in order.
pub fn str_to_chars(s: &str) -> (v: Vec<char>)
    ensures
        v@ == s@,
{
    let n = s.unicode_len();
    let mut v: Vec<char> = Vec::new();
    let mut i: usize = 0;
    while i < n
        invariant
            n == s@.len(),
            i <= n,
            v@ =~= s@.subrange(0, i as int),
        decreases n - i,
    {
        v.push(s.get_char(i));
        i = i + 1;
        proof {
            assert(v@ =~= s@.subrange(0, i as int));
        }
    }
    proof {
        assert(s@.subrange(0, n as int) =~= s@);
    }
    v
}

/// Relies on `String`'s `FromIterator<char>` implementation: collecting
/// an iterator of characters yields the string of exactly those
/// characters, in order.
#[verifier::external_body]
pub fn chars_to_string(v: &Vec<char>) -> (s: String)
    ensures
        s@ == v@,
{
    v.iter().collect()
}

/// Whether two strings hold the same characters.
pub fn str_eq(a: &str, b: &str) -> (r: bool)
    ensures
        r == (a@ == b@),
{
    let va = str_to_chars(a);
    let vb = str_to_chars(b);
    if va.len() != vb.len() {
        proof {
            assert(a@ != b@) by {
                if a@ == b@ {
                    assert(a@.len() == b@.len());
                }
            }
        }
        return false;
    }
    let n = va.len();
    let mut i: usize = 0;
    while i < n
        invariant
            n == a@.len() == b@.len(),
            va@ == a@,
            vb@ == b@,
            i <= n,
            forall|j: int| 0 <= j < i ==> a@[j] == b@[j],
        decreases n - i,
    {
        if va[i] != vb[i] {
            proof {
                assert(a@ != b@) by {
                    if a@ == b@ {
                        assert(a@[i as int] == b@[i as int]);
                    }
                }
            }
            return false;
        }
        i = i + 1;
    }
    proof {
        assert(a@ =~= b@);
    }
    true
}

// ---------------------------------------------------------------------------
// Decimal integer literals.
// ---------------------------------------------------------------------------
pub open spec fn is_digit(c: char) -> bool {
    '0' <= c && c <= '9'
}

/// The numeric value of a decimal digit character.
pub open spec fn digit_val(c: char) -> int {
    c as u32 - '0' as u32
}

pub open spec fn pow10(k: nat) -> int
    decreases k,
{
    if k == 0 {
        1
    } else {
        10 * pow10((k - 1) as nat)
    }
}

/// Every character is a decimal digit.
pub open spec fn all_digits(s: Seq<char>) -> bool {
    forall|i: int| 0 <= i < s.len() ==> is_digit(s[i])
}

/// A nonempty run of decimal digits.
pub open spec fn is_digits(s: Seq<char>) -> bool {
    s.len() > 0 && all_digits(s)
}

/// The value of a run of decimal digits, most significant first.
pub open spec fn digits_val(s: Seq<char>) -> int
    decreases s.len(),
{
    if s.len() == 0 {
        0
    } else {
        digits_val(s.subrange(0, s.len() - 1)) * 10 + digit_val(s[s.len() - 1])
    }
}

/// The integer an optionally signed run of digits spells, if it is one.
pub open spec fn int_lit_val(cs: Seq<char>) -> Option<int> {
    if cs.len() > 0 && cs[0] == '-' {
        let digs = cs.subrange(1, cs.len() as int);
        if is_digits(digs) {
            Some(-digits_val(digs))
        } else {
            None
        }
    } else {
        if is_digits(cs) {
            Some(digits_val(cs))
        } else {
            None
        }
    }
}

/// What `parse_int_lit` returns: the literal's value when the digits
/// (after an optional sign) number at most eighteen, so that the value
/// surely fits a machine word; `None` otherwise.
pub open spec fn parse_int_spec(cs: Seq<char>) -> Option<int> {
    let digs = if cs.len() > 0 && cs[0] == '-' {
        cs.subrange(1, cs.len() as int)
    } else {
        cs
    };
    if is_digits(digs) && digs.len() <= 18 {
        int_lit_val(cs)
    } else {
        None
    }
}

proof fn lemma_pow10_pos(k: nat)
    ensures
        pow10(k) >= 1,
    decreases k,
{
    if k > 0 {
        lemma_pow10_pos((k - 1) as nat);
    }
}

proof fn lemma_digits_val_bound(s: Seq<char>)
    requires
        all_digits(s),
    ensures
        0 <= digits_val(s) < pow10(s.len() as nat),
    decreases s.len(),
{
    if s.len() == 0 {
    } else {
        let pre = s.subrange(0, s.len() - 1);
        lemma_digits_val_bound(pre);
        assert(0 <= digit_val(s[s.len() - 1]) <= 9);
    }
}

/// Parse an optionally signed decimal literal, per `parse_int_spec`.
pub fn parse_int_lit(s: &str) -> (r: Option<i64>)
    ensures
        match r {
            Some(n) => parse_int_spec(s@) == Some(n as int),
            None => parse_int_spec(s@) is None,
        },
{
    proof {
        reveal_with_fuel(pow10, 19);
    }
    let cs = str_to_chars(s);
    let n = cs.len();
    let (neg, start): (bool, usize) = if n > 0 && cs[0] == '-' {
        (true, 1)
    } else {
        (false, 0)
    };
    let ghost digs = if neg {
        s@.subrange(1, n as int)
    } else {
        s@
    };
    proof {
        if !neg {
            assert(digs =~= s@.subrange(start as int, n as int));
        } else {
            assert(digs =~= s@.subrange(start as int, n as int));
        }
    }
    if n - start == 0 {
        return None;
    }
    if n - start > 18 {
        return None;
    }
    let mut acc: u64 = 0;
    let mut i: usize = start;
    while i < n
        invariant
            start <= i <= n,
            n == s@.len() == cs@.len(),
            cs@ == s@,
            n - start <= 18,
            neg == (n > 0 && s@[0] == '-'),
            start == (if neg {
                1int
            } else {
                0int
            }),
            digs == s@.subrange(start as int, n as int),
            forall|j: int| start <= j < i ==> is_digit(s@[j]),
            acc == digits_val(s@.subrange(start as int, i as int)),
            acc < pow10((i - start) as nat),
        decreases n - i,
    {
        proof {
            reveal_with_fuel(pow10, 19);
        }
        let c = cs[i];
        if !('0' <= c && c <= '9') {
            proof {
                assert(!is_digit(digs[i - start]));
            }
            return None;
        }
        let d: u32 = c as u32 - '0' as u32;
        proof {
            assert(pow10(((i - start) + 1) as nat) == 10 * pow10((i - start) as nat));
            assert(pow10((i - start) as nat) <= pow10(17)) by {
                lemma_pow10_mono((i - start) as nat, 17);
            }
        }
        acc = acc * 10 + (d as u64);
        i = i + 1;
        proof {
            let cur = s@.subrange(start as int, i as int);
            assert(cur.subrange(0, cur.len() - 1) =~= s@.subrange(start as int, i as int - 1));
            assert(cur[cur.len() - 1] == s@[i as int - 1]);
        }
    }
    proof {
        assert(digs =~= s@.subrange(start as int, n as int));
        assert(is_digits(digs));
        assert(acc == digits_val(digs));
        assert(acc < pow10(18));
    }
    if neg {
        Some(-(acc as i64))
    } else {
        Some(acc as i64)
    }
}

proof fn lemma_pow10_mono(a: nat, b: nat)
    requires
        a <= b,
    ensures
        pow10(a) <= pow10(b),
    decreases b,
{
    if a < b {
        lemma_pow10_pos(a);
        lemma_pow10_mono(a, (b - 1) as nat);
        lemma_pow10_pos((b - 1) as nat);
    }
}

proof fn lemma_dec_rep_props(n: int)
    requires
        n >= 0,
    ensures
        all_digits(dec_rep(n)),
        digits_val(dec_rep(n)) == n,
        n > 0 ==> dec_rep(n).len() >= 1,
    decreases n,
{
    if n > 0 {
        lemma_dec_rep_props(n / 10);
        let pre = dec_rep(n / 10);
        let d = digit_char(n % 10);
        let whole = pre.push(d);
        assert(digit_val(d) == n % 10);
        assert(whole.subrange(0, whole.len() - 1) =~= pre);
        assert(whole[whole.len() - 1] == d);
        assert(digits_val(whole) == digits_val(pre) * 10 + digit_val(d));
    }
}

proof fn lemma_dec_rep_len(n: int, k: nat)
    requires
        0 <= n < pow10(k),
    ensures
        dec_rep(n).len() <= k,
    decreases k,
{
    if n > 0 {
        assert(k > 0) by {
            if k == 0 {
                assert(pow10(0nat) == 1);
            }
        }
        lemma_dec_rep_len(n / 10, (k - 1) as nat);
    }
}

/// A decimal spelling written by `dec_of` reads back as the same value,
/// for every integer of at most eighteen digits.
pub proof fn lemma_parse_dec_of(n: int)
    requires
        -1000000000000000000 < n < 1000000000000000000,
    ensures
        parse_int_spec(dec_of(n)) == Some(n),
{
    reveal_with_fuel(pow10, 19);
    if n == 0 {
        let cs = dec_of(0);
        assert(cs == seq!['0']);
        assert(is_digit(cs[0]));
        assert(cs.subrange(0, 0) =~= Seq::<char>::empty());
        assert(digits_val(cs) == digits_val(cs.subrange(0, 0)) * 10 + digit_val('0'));
        assert(digits_val(cs) == 0);
    } else if n > 0 {
        lemma_dec_rep_props(n);
        lemma_dec_rep_len(n, 18);
        let cs = dec_of(n);
        assert(cs == dec_rep(n));
        assert(cs.len() >= 1);
        assert(is_digit(cs[0]));
        assert(cs[0] != '-');
    } else {
        lemma_dec_rep_props(-n);
        lemma_dec_rep_len(-n, 18);
        let cs = dec_of(n);
        let digs = cs.subrange(1, cs.len() as int);
        assert(digs =~= dec_rep(-n));
        assert(cs[0] == '-');
        assert(is_digits(digs));
        assert(digits_val(digs) == -n);
    }
}

} // verus!
