//! Addresses of items: a node identifier and an offset inside that node.

use vstd::prelude::*;

verus! {

/// Location of an item inside a container: the identifier of the node that
/// holds it and the item's offset in that node.
///
/// The identifier `usize::MAX` is reserved: an address that carries it names
/// no location, whatever its offset.
#[derive(Clone, Copy, PartialEq, Eq, Structural)]
pub struct ItemAddr {
    pub id: usize,
    pub offset: usize,
}

/// The character that stands for the decimal digit `d`.
pub open spec fn digit_char(d: nat) -> char
    recommends
        d < 10,
{
    if d == 0 {
        '0'
    } else if d == 1 {
        '1'
    } else if d == 2 {
        '2'
    } else if d == 3 {
        '3'
    } else if d == 4 {
        '4'
    } else if d == 5 {
        '5'
    } else if d == 6 {
        '6'
    } else if d == 7 {
        '7'
    } else if d == 8 {
        '8'
    } else {
        '9'
    }
}

/// The decimal numeral of `n`: its digits, most significant first, without
/// leading zeros (`0` itself is the single digit `0`).
pub open spec fn decimal(n: nat) -> Seq<char>
    decreases n,
{
    if n < 10 {
        seq![digit_char(n)]
    } else {
        decimal(n / 10).push(digit_char(n % 10))
    }
}

/// The text of the address with the given fields: `@`, the identifier in
/// decimal, `:`, the offset in decimal.
pub open spec fn addr_text(id: nat, offset: nat) -> Seq<char> {
    seq!['@'] + decimal(id) + seq![':'] + decimal(offset)
}

/// `String::push` appends the given character to the end of the string and
/// leaves what was there before in place.
pub assume_specification[ String::push ](s: &mut String, c: char)
    ensures
        final(s)@ == old(s)@.push(c),
;

/// The character of one decimal digit.
fn digit(d: usize) -> (c: char)
    requires
        d < 10,
    ensures
        c == digit_char(d as nat),
{
    if d == 0 {
        '0'
    } else if d == 1 {
        '1'
    } else if d == 2 {
        '2'
    } else if d == 3 {
        '3'
    } else if d == 4 {
        '4'
    } else if d == 5 {
        '5'
    } else if d == 6 {
        '6'
    } else if d == 7 {
        '7'
    } else if d == 8 {
        '8'
    } else {
        '9'
    }
}

/// Appends the decimal numeral of `n` to `out`.
fn push_decimal(out: &mut String, n: usize)
    ensures
        final(out)@ == old(out)@ + decimal(n as nat),
    decreases n,
{
    if n >= 10 {
        push_decimal(out, n / 10);
    }
    out.push(digit(n % 10));
}

impl ItemAddr {
    /// What [`ItemAddr::nowhere`] returns.
    pub open spec fn spec_nowhere() -> ItemAddr {
        ItemAddr { id: usize::MAX, offset: 0 }
    }

    /// Whether the address names no location: its identifier is the reserved
    /// one.
    pub open spec fn spec_is_nowhere(&self) -> bool {
        self.id == usize::MAX
    }

    /// The text of the address.
    pub open spec fn text(&self) -> Seq<char> {
        addr_text(self.id as nat, self.offset as nat)
    }

    /// The address that names no location: the reserved identifier with
    /// offset 0.
    #[verifier::when_used_as_spec(spec_nowhere)]
    pub fn nowhere() -> (addr: ItemAddr)
        ensures
            addr == (ItemAddr { id: usize::MAX, offset: 0 }),
            addr.is_nowhere(),
    {
        ItemAddr { id: usize::MAX, offset: 0 }
    }

    /// True exactly when the identifier is the reserved one; the offset plays
    /// no part.
    #[verifier::when_used_as_spec(spec_is_nowhere)]
    pub fn is_nowhere(&self) -> (b: bool)
        ensures
            b <==> self.id == usize::MAX,
    {
        self.id == usize::MAX
    }

    /// Renders the address as `@`, the identifier, `:` and the offset, both
    /// numbers in decimal.
    pub fn to_string(&self) -> (s: String)
        ensures
            s@ == self.text(),
    {
        let mut s = String::new();
        s.push('@');
        push_decimal(&mut s, self.id);
        s.push(':');
        push_decimal(&mut s, self.offset);
        s
    }
}

/// An address with any identifier but the reserved one names a location,
/// whatever its offset; the address [`ItemAddr::nowhere`] names none.
pub proof fn lemma_nowhere_is_the_only_sentinel(id: usize, offset: usize)
    ensures
        ItemAddr::nowhere().is_nowhere(),
        id != usize::MAX ==> !(ItemAddr { id, offset }).is_nowhere(),
        id == usize::MAX ==> (ItemAddr { id, offset }).is_nowhere(),
{
}

} // verus!
