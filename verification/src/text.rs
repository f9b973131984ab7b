//! Character-level helpers shared by the name mangler and the synthesizer:
//! extracting the characters of a string, rebuilding a string from
//! characters, and rendering a decimal index for synthetic parameter names.

use vstd::prelude::*;
use vstd::string::StrSliceExecFns;

verus! {

/// The decimal digit character for `d` (`0 <= d <= 9`).
pub open spec fn dec_digit(d: nat) -> char {
    ((48 + d) as char)
}

/// The decimal rendering of `n`, most significant digit first, without
/// leading zeros (`0` renders as `"0"`).
pub open spec fn dec_spec(n: nat) -> Seq<char>
    decreases n,
{
    if n < 10 {
        seq![dec_digit(n)]
    } else {
        dec_spec(n / 10).push(dec_digit(n % 10))
    }
}

/// A decimal rendering is never empty.
pub proof fn lemma_dec_nonempty(n: nat)
    ensures
        dec_spec(n).len() >= 1,
    decreases n,
{
    if n >= 10 {
        lemma_dec_nonempty(n / 10);
    }
}

/// Distinct numbers have distinct decimal renderings.
pub proof fn lemma_dec_injective(m: nat, n: nat)
    requires
        dec_spec(m) == dec_spec(n),
    ensures
        m == n,
    decreases m + n,
{
    if m < 10 && n < 10 {
        assert(dec_spec(m)[0] == dec_digit(m));
        assert(dec_digit(m) as int == 48 + m);
        assert(dec_digit(n) as int == 48 + n);
    } else if m < 10 {
        lemma_dec_nonempty(n / 10);
        assert(dec_spec(n).len() >= 2);
    } else if n < 10 {
        lemma_dec_nonempty(m / 10);
        assert(dec_spec(m).len() >= 2);
    } else {
        assert(dec_spec(m).last() == dec_digit(m % 10));
        assert(dec_spec(n).last() == dec_digit(n % 10));
        assert(dec_digit(m % 10) as int == 48 + m % 10);
        assert(dec_digit(n % 10) as int == 48 + n % 10);
        assert(m % 10 == n % 10);
        assert(dec_spec(m).drop_last() =~= dec_spec(m / 10));
        assert(dec_spec(n).drop_last() =~= dec_spec(n / 10));
        lemma_dec_injective(m / 10, n / 10);
        assert(m == 10 * (m / 10) + m % 10);
        assert(n == 10 * (n / 10) + n % 10);
    }
}

/// The characters of `s`, in order.
pub fn str_chars(s: &str) -> (r: Vec<char>)
    ensures
        r@ == s@,
{
    let n: usize = s.unicode_len();
    let mut r: Vec<char> = Vec::new();
    let mut i: usize = 0;
    while i < n
        invariant
            n == s@.len(),
            i <= n,
            r@ == s@.take(i as int),
        decreases n - i,
    {
        let c: char = s.get_char(i);
        r.push(c);
        proof {
            assert(s@.take(i + 1) =~= s@.take(i as int).push(s@[i as int]));
        }
        i = i + 1;
    }
    proof {
        assert(s@.take(n as int) =~= s@);
    }
    r
}

/// Relies on std's `FromIterator` impl for `String`: collecting an iterator
/// of `char`s yields the string made of exactly those characters in order.
#[verifier::external_body]
pub(crate) fn chars_to_string(v: &Vec<char>) -> (r: String)
    ensures
        r@ == v@,
{
    v.iter().collect()
}

/// Relies on `str`'s `PartialEq`: two string slices compare equal exactly
/// when they consist of the same characters in the same order.
#[verifier::external_body]
pub(crate) fn str_eq(a: &str, b: &str) -> (r: bool)
    ensures
        r == (a@ == b@),
{
    a == b
}

/// Appends every character of `s` to `out`, in order.
pub fn push_all(out: &mut Vec<char>, s: &Vec<char>)
    ensures
        final(out)@ == old(out)@ + s@,
{
    let mut i: usize = 0;
    while i < s.len()
        invariant
            i <= s@.len(),
            out@ == old(out)@ + s@.take(i as int),
        decreases s@.len() - i,
    {
        out.push(s[i]);
        proof {
            assert(old(out)@ + s@.take(i + 1) =~= (old(out)@ + s@.take(i as int)).push(
                s@[i as int],
            ));
        }
        i = i + 1;
    }
    proof {
        assert(s@.take(s@.len() as int) =~= s@);
    }
}

/// Appends the decimal rendering of `n` to `out`.
pub fn push_decimal(out: &mut Vec<char>, n: usize)
    ensures
        final(out)@ == old(out)@ + dec_spec(n as nat),
    decreases n,
{
    if n >= 10 {
        push_decimal(out, n / 10);
    }
    let d: u8 = (n % 10) as u8;
    out.push((48 + d) as char);
    proof {
        if n < 10 {
            assert(old(out)@.push(dec_digit(n as nat)) =~= old(out)@ + dec_spec(n as nat));
        } else {
            assert((old(out)@ + dec_spec((n / 10) as nat)).push(dec_digit((n % 10) as nat)) =~= old(
                out,
            )@ + dec_spec(n as nat));
        }
    }
}

} // verus!
