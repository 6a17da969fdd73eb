//! Decimal text of numbers, and lists of numbers joined by a separator.

use itertools::Itertools;
use vstd::prelude::*;

verus! {

/// The character that writes the decimal digit `d`.
pub open spec fn digit_char(d: nat) -> char {
    (d + 48) as char
}

/// The decimal notation of `n`: no sign, no leading zero, `"0"` for zero.
pub open spec fn decimal(n: nat) -> Seq<char>
    decreases n,
{
    if n < 10 {
        seq![digit_char(n)]
    } else {
        decimal(n / 10).push(digit_char(n % 10))
    }
}

/// The decimal notations of `items`, in order, with `sep` between neighbours.
pub open spec fn joined(items: Seq<u64>, sep: Seq<char>) -> Seq<char>
    decreases items.len(),
{
    if items.len() == 0 {
        Seq::empty()
    } else if items.len() == 1 {
        decimal(items[0] as nat)
    } else {
        joined(items.drop_last(), sep) + sep + decimal(items.last() as nat)
    }
}

/// The characters of an optional string.
pub open spec fn text_of(text: Option<String>) -> Option<Seq<char>> {
    match text {
        Some(s) => Some(s@),
        None => None,
    }
}

/// `itertools::Itertools::join` over the numbers of `items`.
///
/// Trusted: `join` writes each element with its `Display` impl and puts `sep`
/// between two neighbours and nowhere else; an empty list gives the empty
/// string. `Display` for `u64` writes the decimal notation.
#[verifier::external_body]
pub(crate) fn join_numbers(items: &Vec<u64>, sep: &str) -> (text: String)
    ensures
        text@ == joined(items@, sep@),
{
    items.iter().join(sep)
}

/// `ToString::to_string` of a 16-bit number.
///
/// Trusted: `to_string` goes through `Display`, which for `u16` writes the
/// decimal notation.
#[verifier::external_body]
pub(crate) fn port_text(port: u16) -> (text: String)
    ensures
        text@ == decimal(port as nat),
{
    port.to_string()
}

} // verus!
