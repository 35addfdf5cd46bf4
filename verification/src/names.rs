//! The identifier scheme: deterministic formatting of a (kind, index) pair
//! into a node name of the form `"<kind>-"` plus a zero-padded four-digit
//! index, injective over all kinds and all indices up to 9999.

use vstd::arithmetic::div_mod::{lemma_div_denominator, lemma_fundamental_div_mod};
use vstd::prelude::*;

verus! {

/// The fixed set of interchangeable node implementation kinds a scenario can
/// emulate.
#[derive(Clone, Copy, Debug, PartialEq, Eq, Structural)]
pub enum NodeKind {
    Lnd,
    Ldk,
    Cln,
}

/// The name prefix every node name of the given kind starts with, including
/// the trailing separator.
pub open spec fn spec_prefix(kind: NodeKind) -> Seq<char> {
    match kind {
        NodeKind::Lnd => "blast_lnd-"@,
        NodeKind::Ldk => "blast_ldk-"@,
        NodeKind::Cln => "blast_cln-"@,
    }
}

/// The decimal digit character for a value below ten.
pub open spec fn digit_char(d: int) -> char {
    if d == 0 {
        '0'
    } else if d == 1 {
        '1'
    } else if d == 2 {
        '2'
    } else if d == 3 {
        '3'
    } else if d == 4 {
        '4'
    } else if d == 5 {
        '5'
    } else if d == 6 {
        '6'
    } else if d == 7 {
        '7'
    } else if d == 8 {
        '8'
    } else {
        '9'
    }
}

/// The four zero-padded decimal digit characters of an index below ten
/// thousand.
pub open spec fn spec_digits(index: int) -> Seq<char> {
    seq![
        digit_char(index / 1000),
        digit_char((index / 100) % 10),
        digit_char((index / 10) % 10),
        digit_char(index % 10),
    ]
}

/// The node name of a (kind, index) pair: the kind's prefix followed by the
/// zero-padded four-digit index.
pub open spec fn spec_name(kind: NodeKind, index: int) -> Seq<char> {
    spec_prefix(kind) + spec_digits(index)
}

/// A one-character string holding the decimal digit character of `d`.
fn digit_str(d: u32) -> (r: &'static str)
    requires
        d < 10,
    ensures
        r@ == seq![digit_char(d as int)],
{
    let r: &'static str = match d {
        0 => "0",
        1 => "1",
        2 => "2",
        3 => "3",
        4 => "4",
        5 => "5",
        6 => "6",
        7 => "7",
        8 => "8",
        _ => "9",
    };
    proof {
        reveal_strlit("0");
        reveal_strlit("1");
        reveal_strlit("2");
        reveal_strlit("3");
        reveal_strlit("4");
        reveal_strlit("5");
        reveal_strlit("6");
        reveal_strlit("7");
        reveal_strlit("8");
        reveal_strlit("9");
        assert(r@ =~= seq![digit_char(d as int)]);
    }
    r
}

/// Format the node name for a (kind, index) pair.
///
/// Deterministic and free of failure modes; the index domain is the four
/// decimal digits the name format holds.
pub fn name(kind: NodeKind, index: u32) -> (r: String)
    requires
        index <= 9999,
    ensures
        r@ == spec_name(kind, index as int),
{
    let prefix: &'static str = match kind {
        NodeKind::Lnd => "blast_lnd-",
        NodeKind::Ldk => "blast_ldk-",
        NodeKind::Cln => "blast_cln-",
    };
    let mut s = String::from_str(prefix);
    let d3: u32 = index / 1000;
    let d2: u32 = (index / 100) % 10;
    let d1: u32 = (index / 10) % 10;
    let d0: u32 = index % 10;
    s.append(digit_str(d3));
    s.append(digit_str(d2));
    s.append(digit_str(d1));
    s.append(digit_str(d0));
    proof {
        assert(s@ =~= spec_name(kind, index as int));
    }
    s
}

/// Node name for an lnd-kind node: `"blast_lnd-"` plus the four-digit index.
pub fn blast_lnd_node(id: i32) -> (r: String)
    requires
        0 <= id <= 9999,
    ensures
        r@ == spec_name(NodeKind::Lnd, id as int),
{
    name(NodeKind::Lnd, id as u32)
}

/// Node name for an ldk-kind node: `"blast_ldk-"` plus the four-digit index.
pub fn blast_ldk_node(id: i32) -> (r: String)
    requires
        0 <= id <= 9999,
    ensures
        r@ == spec_name(NodeKind::Ldk, id as int),
{
    name(NodeKind::Ldk, id as u32)
}

/// Node name for a cln-kind node: `"blast_cln-"` plus the four-digit index.
pub fn blast_cln_node(id: i32) -> (r: String)
    requires
        0 <= id <= 9999,
    ensures
        r@ == spec_name(NodeKind::Cln, id as int),
{
    name(NodeKind::Cln, id as u32)
}

/// Law: a name always carries exactly four digit characters of index padding
/// after the ten-character kind prefix.
pub proof fn lemma_name_padding(kind: NodeKind, index: int)
    requires
        0 <= index <= 9999,
    ensures
        spec_prefix(kind).len() == 10,
        spec_name(kind, index).len() == spec_prefix(kind).len() + 4,
        forall|j: int|
            10 <= j < 14 ==> spec_name(kind, index)[j] == spec_digits(index)[j - 10],
{
    reveal_strlit("blast_lnd-");
    reveal_strlit("blast_ldk-");
    reveal_strlit("blast_cln-");
}

/// An index below ten thousand is recovered exactly from its four zero-padded
/// decimal digits.
proof fn lemma_digit_decomposition(i: int)
    requires
        0 <= i <= 9999,
    ensures
        i == 1000 * (i / 1000) + 100 * ((i / 100) % 10) + 10 * ((i / 10) % 10) + (i % 10),
{
    lemma_fundamental_div_mod(i, 10);
    lemma_div_denominator(i, 10, 10);
    lemma_fundamental_div_mod(i / 10, 10);
    lemma_div_denominator(i / 10, 10, 10);
    assert((i / 10) / 10 == i / 100);
    assert((i / 100) / 10 == i / 1000) by {
        lemma_div_denominator(i, 100, 10);
    }
    lemma_fundamental_div_mod(i / 100, 10);
}

/// Law: node names are pairwise distinct. For any two (kind, index) pairs
/// with indices in `[0, 9999]`, equal names force equal kinds and equal
/// indices.
pub proof fn lemma_name_injective(k1: NodeKind, i1: int, k2: NodeKind, i2: int)
    requires
        0 <= i1 <= 9999,
        0 <= i2 <= 9999,
        spec_name(k1, i1) == spec_name(k2, i2),
    ensures
        k1 == k2,
        i1 == i2,
{
    reveal_strlit("blast_lnd-");
    reveal_strlit("blast_ldk-");
    reveal_strlit("blast_cln-");
    let s = spec_name(k1, i1);
    assert(s[7] == spec_prefix(k1)[7]);
    assert(s[7] == spec_prefix(k2)[7]);
    assert(k1 == k2);
    assert(s[10] == digit_char(i1 / 1000) && s[10] == digit_char(i2 / 1000));
    assert(s[11] == digit_char((i1 / 100) % 10) && s[11] == digit_char((i2 / 100) % 10));
    assert(s[12] == digit_char((i1 / 10) % 10) && s[12] == digit_char((i2 / 10) % 10));
    assert(s[13] == digit_char(i1 % 10) && s[13] == digit_char(i2 % 10));
    assert(i1 / 1000 == i2 / 1000);
    assert((i1 / 100) % 10 == (i2 / 100) % 10);
    assert((i1 / 10) % 10 == (i2 / 10) % 10);
    assert(i1 % 10 == i2 % 10);
    lemma_digit_decomposition(i1);
    lemma_digit_decomposition(i2);
}

} // verus!
