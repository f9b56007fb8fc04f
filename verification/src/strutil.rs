//! Small verified string utilities: equality, character appends and decimal
//! rendering, used by the launch planner and the script generator.

use vstd::prelude::*;

verus! {

/// Compares two string slices for (unicode) equality.
pub fn str_eq(a: &str, b: &str) -> (r: bool)
    ensures
        r == (a@ == b@),
{
    let sa: String = a.to_owned();
    let sb: String = b.to_owned();
    sa == sb
}

/// Relies on `String::push`: appends one character to the end of the string.
#[verifier::external_body]
pub fn push_char(s: &mut String, c: char)
    ensures
        final(s)@ == old(s)@.push(c),
{
    s.push(c);
}

/// The decimal digit character for `d`.
pub open spec fn digit_char(d: int) -> char {
    if d == 0 {
        '0'
    } else if d == 1 {
        '1'
    } else if d == 2 {
        '2'
    } else if d == 3 {
        '3'
    } else if d == 4 {
        '4'
    } else if d == 5 {
        '5'
    } else if d == 6 {
        '6'
    } else if d == 7 {
        '7'
    } else if d == 8 {
        '8'
    } else {
        '9'
    }
}

/// The decimal rendering of a non-negative integer, without sign or padding.
pub open spec fn spec_dec(n: int) -> Seq<char>
    decreases n,
{
    if n < 10 {
        seq![digit_char(n)]
    } else {
        spec_dec(n / 10).push(digit_char(n % 10))
    }
}

fn digit_of(d: u64) -> (c: char)
    requires
        d < 10,
    ensures
        c == digit_char(d as int),
{
    if d == 0 {
        '0'
    } else if d == 1 {
        '1'
    } else if d == 2 {
        '2'
    } else if d == 3 {
        '3'
    } else if d == 4 {
        '4'
    } else if d == 5 {
        '5'
    } else if d == 6 {
        '6'
    } else if d == 7 {
        '7'
    } else if d == 8 {
        '8'
    } else {
        '9'
    }
}

/// Renders `n` in decimal.
pub fn u64_dec(n: u64) -> (r: String)
    ensures
        r@ == spec_dec(n as int),
{
    let mut digits: Vec<char> = Vec::new();
    let mut m: u64 = n;
    while m >= 10
        invariant
            spec_dec(n as int) == spec_dec(m as int) + digits@.reverse(),
        decreases m,
    {
        let d = digit_of(m % 10);
        proof {
            let pre = digits@;
            assert(spec_dec(m as int) == spec_dec(m as int / 10).push(digit_char(m as int % 10)));
            assert(spec_dec(m as int / 10).push(d) + pre.reverse() =~= spec_dec(m as int / 10)
                + pre.push(d).reverse());
        }
        digits.push(d);
        m = m / 10;
    }
    let d = digit_of(m);
    proof {
        assert(seq![d] + digits@.reverse() =~= digits@.push(d).reverse());
    }
    digits.push(d);
    let ghost all = digits@;
    assert(spec_dec(n as int) =~= all.reverse());
    let mut r = String::new();
    let mut i: usize = digits.len();
    while i > 0
        invariant
            i <= all.len(),
            digits@ == all,
            r@.len() == all.len() - i,
            forall|j: int| 0 <= j < r@.len() ==> r@[j] == all[all.len() - 1 - j],
        decreases i,
    {
        i = i - 1;
        push_char(&mut r, digits[i]);
    }
    assert(r@ =~= all.reverse());
    r
}

} // verus!
