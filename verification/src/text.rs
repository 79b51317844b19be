//! Character-level text utilities: converting between `&str`, `Vec<char>`
//! and `String`, and decimal formatting and parsing of `u32` values.

use vstd::prelude::*;

verus! {

/// Names the judgment of `char::is_alphanumeric`: whether Unicode classes
/// the character as alphabetic or numeric. It depends on the character alone.
pub uninterp spec fn alphanumeric(c: char) -> bool;

/// Relies on `char::is_alphanumeric`, a pure Unicode-table lookup whose
/// result is a function of the character alone (named `alphanumeric`).
#[verifier::external_body]
pub(crate) fn char_is_alphanumeric(c: char) -> (r: bool)
    ensures
        r == alphanumeric(c),
{
    c.is_alphanumeric()
}

/// Relies on `String::push`: appends the given character to the end of the
/// string.
#[verifier::external_body]
pub(crate) fn push_char(s: &mut String, c: char)
    ensures
        final(s)@ == old(s)@.push(c),
{
    s.push(c);
}

/// The characters of a string slice, in order, as a vector.
pub fn chars_of(s: &str) -> (r: Vec<char>)
    ensures
        r@ == s@,
{
    let n = s.unicode_len();
    let mut r: Vec<char> = Vec::new();
    for i in 0..n
        invariant
            n == s@.len(),
            r@ =~= s@.take(i as int),
    {
        r.push(s.get_char(i));
        assert(r@ =~= s@.take(i + 1));
    }
    assert(s@.take(n as int) =~= s@);
    r
}

/// Rebuilds a `String` from a vector of characters.
pub fn string_from_chars(v: &Vec<char>) -> (r: String)
    ensures
        r@ == v@,
{
    let mut r = String::new();
    for i in 0..v.len()
        invariant
            r@ =~= v@.take(i as int),
    {
        push_char(&mut r, v[i]);
        assert(r@ =~= v@.take(i + 1));
    }
    assert(v@.take(v@.len() as int) =~= v@);
    r
}

/// The character for a single decimal digit value.
pub open spec fn dec_digit(d: int) -> char {
    ((48 + d) as u8) as char
}

/// The decimal digit string of a non-negative integer, most significant
/// digit first, with no leading zeros (a single `'0'` for zero).
pub open spec fn dec_str(n: int) -> Seq<char>
    recommends
        n >= 0,
    decreases n,
{
    if n < 10 {
        seq![dec_digit(n)]
    } else {
        dec_str(n / 10).push(dec_digit(n % 10))
    }
}

/// Whether `c` is an ASCII decimal digit.
pub open spec fn is_dec_digit(c: char) -> bool {
    '0' <= c && c <= '9'
}

/// The numeric value of an ASCII decimal digit character.
pub open spec fn digit_val(c: char) -> int {
    c as int - 48
}

/// The value of a string of decimal digits, most significant first.
pub open spec fn digits_val(s: Seq<char>) -> int
    decreases s.len(),
{
    if s.len() == 0 {
        0
    } else {
        10 * digits_val(s.drop_last()) + digit_val(s.last())
    }
}

/// Whether every character of `s` is an ASCII decimal digit.
pub open spec fn all_dec_digits(s: Seq<char>) -> bool {
    forall|i: int| 0 <= i < s.len() ==> is_dec_digit(s[i])
}

/// What `str::parse::<u32>` yields on `s`: an optional leading `'+'`,
/// then one or more decimal digits whose value fits in `u32`; anything
/// else is rejected.
pub open spec fn parsed_u32(s: Seq<char>) -> Option<u32> {
    let body = if s.len() > 0 && s[0] == '+' {
        s.drop_first()
    } else {
        s
    };
    if body.len() > 0 && all_dec_digits(body) && digits_val(body) <= u32::MAX as int {
        Some(digits_val(body) as u32)
    } else {
        None
    }
}

proof fn lemma_digits_val_nonneg(s: Seq<char>)
    requires
        all_dec_digits(s),
    ensures
        digits_val(s) >= 0,
    decreases s.len(),
{
    if s.len() > 0 {
        assert(all_dec_digits(s.drop_last())) by {
            assert(forall|i: int|
                0 <= i < s.drop_last().len() ==> s.drop_last()[i] == s[i]);
        }
        lemma_digits_val_nonneg(s.drop_last());
    }
}

proof fn lemma_digits_val_step(s: Seq<char>, k: int)
    requires
        0 <= k < s.len(),
    ensures
        digits_val(s.take(k + 1)) == 10 * digits_val(s.take(k)) + digit_val(s[k]),
{
    assert(s.take(k + 1).drop_last() =~= s.take(k));
    assert(s.take(k + 1).last() == s[k]);
}

proof fn lemma_digits_val_grows(s: Seq<char>, k: int)
    requires
        all_dec_digits(s),
        0 <= k <= s.len(),
    ensures
        digits_val(s) >= digits_val(s.take(k)),
    decreases s.len() - k,
{
    assert(forall|j: int| 0 <= j < k ==> s.take(k)[j] == s[j]);
    if k == s.len() {
        assert(s.take(k) =~= s);
    } else {
        lemma_digits_val_step(s, k);
        assert(all_dec_digits(s.take(k)));
        lemma_digits_val_nonneg(s.take(k));
        lemma_digits_val_grows(s, k + 1);
    }
}

/// Formats `n` in decimal.
pub fn u32_string(n: u32) -> (r: String)
    ensures
        r@ == dec_str(n as int),
{
    if n == 0 {
        let z: Vec<char> = vec!['0'];
        proof {
            assert(z@ =~= seq!['0']);
            assert(dec_str(0) =~= seq![dec_digit(0)]);
        }
        return string_from_chars(&z);
    }
    let mut digits: Vec<char> = Vec::new();
    let mut m: u32 = n;
    while m > 0
        invariant
            digits.len() == 0 ==> m == n,
            m == 0 ==> digits.len() > 0,
            digits.len() > 0 && m > 0 ==> dec_str(n as int) == dec_str(m as int) + digits@,
            digits.len() > 0 && m == 0 ==> dec_str(n as int) == digits@,
        decreases m,
    {
        let ghost prev = digits@;
        let ghost m0 = m as int;
        let d: u32 = m % 10;
        let c: char = (48 + d as u8) as char;
        digits.insert(0, c);
        m = m / 10;
        proof {
            assert(c == dec_digit(m0 % 10));
            assert(digits@ =~= seq![c] + prev);
            if m0 >= 10 {
                assert(dec_str(m0) == dec_str(m0 / 10).push(dec_digit(m0 % 10)));
                assert(dec_str(m0) =~= dec_str(m0 / 10) + seq![c]);
                if prev.len() == 0 {
                    assert(dec_str(n as int) == dec_str(m0));
                }
                assert(dec_str(n as int) =~= dec_str(m0 / 10) + digits@);
            } else {
                assert(dec_str(m0) =~= seq![c]);
                if prev.len() == 0 {
                    assert(dec_str(n as int) =~= digits@);
                } else {
                    assert(dec_str(n as int) =~= digits@);
                }
            }
        }
    }
    string_from_chars(&digits)
}

/// Parses the characters `v[lo..hi]` as `str::parse::<u32>` would.
pub fn parse_u32_range(v: &Vec<char>, lo: usize, hi: usize) -> (r: Option<u32>)
    requires
        lo <= hi <= v@.len(),
    ensures
        r == parsed_u32(v@.subrange(lo as int, hi as int)),
{
    let ghost tok = v@.subrange(lo as int, hi as int);
    let start: usize = if lo < hi && v[lo] == '+' {
        lo + 1
    } else {
        lo
    };
    let ghost body = v@.subrange(start as int, hi as int);
    proof {
        if tok.len() > 0 && tok[0] == '+' {
            assert(body =~= tok.drop_first());
        } else {
            assert(body =~= tok);
        }
    }
    if start == hi {
        return None;
    }
    let mut acc: u64 = 0;
    let mut i: usize = start;
    while i < hi
        invariant
            lo <= start <= i <= hi <= v@.len(),
            hi > start,
            tok == v@.subrange(lo as int, hi as int),
            body == v@.subrange(start as int, hi as int),
            body == (if tok.len() > 0 && tok[0] == '+' {
                tok.drop_first()
            } else {
                tok
            }),
            all_dec_digits(body.take(i - start)),
            acc == digits_val(body.take(i - start)),
            acc <= u32::MAX,
        decreases hi - i,
    {
        let c = v[i];
        if !('0' <= c && c <= '9') {
            proof {
                assert(body[i - start] == c);
                assert(!all_dec_digits(body));
            }
            return None;
        }
        let d: u64 = (c as u32 - 48) as u64;
        proof {
            lemma_digits_val_step(body, i - start);
            assert(body[i - start] == c);
        }
        acc = acc * 10 + d;
        i = i + 1;
        if acc > u32::MAX as u64 {
            proof {
                if all_dec_digits(body) {
                    lemma_digits_val_grows(body, i - start);
                }
            }
            return None;
        }
    }
    proof {
        assert(body.take(hi - start) =~= body);
    }
    Some(acc as u32)
}

} // verus!
