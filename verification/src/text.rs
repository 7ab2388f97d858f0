//! Small verified string helpers shared across the crate: building
//! strings character by character, ASCII case folding and decimal
//! rendering.

use vstd::prelude::*;
use vstd::string::StrSliceExecFns;
use vstd::string::StringExecFns;

verus! {

/// Relies on `String::push` of std: appends exactly one character.
#[verifier::external_body]
pub fn push_char(s: &mut String, c: char)
    ensures
        final(s)@ == old(s)@.push(c),
{
    s.push(c);
}

/// Relies on `str`'s `==` of std: character-for-character equality.
#[verifier::external_body]
pub fn str_eq(a: &str, b: &str) -> (r: bool)
    ensures
        r == (a@ == b@),
{
    a == b
}

/// The ASCII-uppercase form of a character: a lowercase ASCII letter
/// loses 32, everything else stays as it is.
pub open spec fn upper_char(c: char) -> char {
    if 'a' <= c && c <= 'z' {
        ((c as u8) - 32) as char
    } else {
        c
    }
}

/// A string, character by character, in ASCII uppercase.
pub open spec fn spec_upper(s: Seq<char>) -> Seq<char> {
    s.map(|_i: int, c: char| upper_char(c))
}

/// ASCII-uppercases a string; characters outside `a..z` are unchanged.
pub fn to_ascii_upper(s: &str) -> (r: String)
    ensures
        r@ == spec_upper(s@),
{
    let n = s.unicode_len();
    let mut r = String::new();
    let mut i: usize = 0;
    while i < n
        invariant
            i <= n,
            n == s@.len(),
            r@ == spec_upper(s@.subrange(0, i as int)),
        decreases n - i,
    {
        let c = s.get_char(i);
        let u = if 'a' <= c && c <= 'z' {
            ((c as u8) - 32) as char
        } else {
            c
        };
        assert(u == upper_char(c));
        push_char(&mut r, u);
        proof {
            assert(r@ =~= spec_upper(s@.subrange(0, i + 1 as int)));
        }
        i = i + 1;
    }
    proof {
        assert(s@.subrange(0, n as int) =~= s@);
    }
    r
}

/// The character of one decimal digit.
pub open spec fn digit_char(d: int) -> char {
    ((d + 48) as u8) as char
}

/// The decimal digits of `n`, most significant first, no leading zero
/// except for zero itself.
pub open spec fn spec_decimal(n: int) -> Seq<char>
    decreases n,
{
    if n < 10 {
        seq![digit_char(n)]
    } else {
        spec_decimal(n / 10).push(digit_char(n % 10))
    }
}

/// Renders a number in decimal.
pub fn u64_to_string(n: u64) -> (r: String)
    ensures
        r@ == spec_decimal(n as int),
{
    let mut digits: Vec<char> = Vec::new();
    let mut m = n;
    if m == 0 {
        let mut r = String::new();
        push_char(&mut r, '0');
        proof {
            assert(r@ =~= spec_decimal(0));
        }
        return r;
    }
    while m > 0
        invariant
            n > 0,
            m > 0 ==> spec_decimal(n as int) =~= spec_decimal(m as int) + digits@.reverse(),
            m == 0 ==> spec_decimal(n as int) =~= digits@.reverse(),
        decreases m,
    {
        let d = ((m % 10) as u8 + 48) as char;
        assert(d == digit_char((m % 10) as int));
        let ghost pre = digits@;
        digits.push(d);
        proof {
            assert(digits@.reverse() =~= seq![digit_char((m % 10) as int)] + pre.reverse());
            if m >= 10 {
                assert(spec_decimal(m as int) + pre.reverse() =~= spec_decimal((m / 10) as int)
                    + digits@.reverse());
            } else {
                assert(spec_decimal(m as int) + pre.reverse() =~= digits@.reverse());
            }
        }
        m = m / 10;
    }
    let mut r = String::new();
    let mut j = digits.len();
    while j > 0
        invariant
            j <= digits@.len(),
            r@ =~= digits@.subrange(j as int, digits@.len() as int).reverse(),
        decreases j,
    {
        j = j - 1;
        push_char(&mut r, digits[j]);
        proof {
            assert(r@ =~= digits@.subrange(j as int, digits@.len() as int).reverse());
        }
    }
    proof {
        assert(digits@.subrange(0, digits@.len() as int) =~= digits@);
    }
    r
}

} // verus!
