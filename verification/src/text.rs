//! Small text-building blocks with exact specifications: decimal rendering
//! of integers, appending characters, and joining rendered items with a
//! separator.
use itertools::Itertools;
use vstd::prelude::*;

verus! {

/// The character of a decimal digit `d` (for `d < 10`).
pub open spec fn digit_char(d: nat) -> char {
    if d == 0 {
        '0'
    } else if d == 1 {
        '1'
    } else if d == 2 {
        '2'
    } else if d == 3 {
        '3'
    } else if d == 4 {
        '4'
    } else if d == 5 {
        '5'
    } else if d == 6 {
        '6'
    } else if d == 7 {
        '7'
    } else if d == 8 {
        '8'
    } else {
        '9'
    }
}

/// Decimal notation of a natural number, most significant digit first,
/// without leading zeros.
pub open spec fn nat_text(n: nat) -> Seq<char>
    decreases n,
{
    if n < 10 {
        seq![digit_char(n)]
    } else {
        nat_text(n / 10).push(digit_char(n % 10))
    }
}

/// Decimal notation of an integer: a leading `-` for negative numbers.
pub open spec fn int_text(i: int) -> Seq<char> {
    if i < 0 {
        seq!['-'] + nat_text((-i) as nat)
    } else {
        nat_text(i as nat)
    }
}

/// The items joined by `sep`: nothing for no items, the item itself for
/// one, and `sep` between each two neighbours otherwise.
pub open spec fn seq_join(items: Seq<Seq<char>>, sep: Seq<char>) -> Seq<char>
    decreases items.len(),
{
    if items.len() == 0 {
        seq![]
    } else if items.len() == 1 {
        items[0]
    } else {
        seq_join(items.drop_last(), sep) + sep + items.last()
    }
}

/// `String::push`: the string afterwards is the old one with `c` appended.
#[verifier::external_body]
pub fn push_char(s: &mut String, c: char)
    ensures
        final(s)@ == old(s)@.push(c),
{
    s.push(c)
}

/// `Itertools::join` on the strings of `items`: writes the first item, then
/// for each further item the separator followed by the item. The contract
/// states that the result is `seq_join` of the items' characters.
#[verifier::external_body]
pub fn join_strings(items: &Vec<String>, sep: &str) -> (res: String)
    ensures
        res@ == seq_join(items@.map_values(|s: String| s@), sep@),
{
    items.iter().join(sep)
}

/// The character of the decimal digit `d`.
pub fn digit(d: u64) -> (c: char)
    requires
        d < 10,
    ensures
        c == digit_char(d as nat),
{
    if d == 0 {
        '0'
    } else if d == 1 {
        '1'
    } else if d == 2 {
        '2'
    } else if d == 3 {
        '3'
    } else if d == 4 {
        '4'
    } else if d == 5 {
        '5'
    } else if d == 6 {
        '6'
    } else if d == 7 {
        '7'
    } else if d == 8 {
        '8'
    } else {
        '9'
    }
}

/// Appends the decimal notation of `n` to `s`.
pub fn push_nat(s: &mut String, n: u64)
    ensures
        final(s)@ == old(s)@ + nat_text(n as nat),
    decreases n,
{
    if n >= 10 {
        push_nat(s, n / 10);
        push_char(s, digit(n % 10));
        assert(final(s)@ == old(s)@ + nat_text(n as nat));
    } else {
        push_char(s, digit(n));
    }
}

} // verus!
