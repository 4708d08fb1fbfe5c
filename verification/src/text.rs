//! String building for the rest of the library.

use vstd::prelude::*;

verus! {

/// `String::push_str` appends the slice to the end of the string and leaves
/// what was there before untouched.
pub assume_specification[ String::push_str ](s: &mut String, t: &str)
    ensures
        final(s)@ == old(s)@ + t@,
;

/// The concatenation of two strings.
pub fn join(a: &str, b: &str) -> (r: String)
    ensures
        r@ == a@ + b@,
{
    let mut r: String = a.to_owned();
    r.push_str(b);
    r
}

/// One decimal digit as text.
pub open spec fn spec_digit(d: nat) -> Seq<char> {
    if d == 0 {
        "0"@
    } else if d == 1 {
        "1"@
    } else if d == 2 {
        "2"@
    } else if d == 3 {
        "3"@
    } else if d == 4 {
        "4"@
    } else if d == 5 {
        "5"@
    } else if d == 6 {
        "6"@
    } else if d == 7 {
        "7"@
    } else if d == 8 {
        "8"@
    } else {
        "9"@
    }
}

/// A number in decimal, without leading zeros.
pub open spec fn spec_decimal(n: nat) -> Seq<char>
    decreases n,
{
    if n < 10 {
        spec_digit(n)
    } else {
        spec_decimal(n / 10) + spec_digit(n % 10)
    }
}

fn digit(d: u16) -> (r: &'static str)
    requires
        d < 10,
    ensures
        r@ == spec_digit(d as nat),
{
    if d == 0 {
        "0"
    } else if d == 1 {
        "1"
    } else if d == 2 {
        "2"
    } else if d == 3 {
        "3"
    } else if d == 4 {
        "4"
    } else if d == 5 {
        "5"
    } else if d == 6 {
        "6"
    } else if d == 7 {
        "7"
    } else if d == 8 {
        "8"
    } else {
        "9"
    }
}

/// Writes a port number in decimal.
pub fn decimal(n: u16) -> (r: String)
    ensures
        r@ == spec_decimal(n as nat),
    decreases n,
{
    if n < 10 {
        digit(n).to_owned()
    } else {
        let head = decimal(n / 10);
        join(head.as_str(), digit(n % 10))
    }
}

} // verus!
