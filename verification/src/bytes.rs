//! Byte strings: paths and arguments are arbitrary bytes, and the fixed texts
//! of the grammar are ASCII.

use vstd::prelude::*;
use vstd::string::*;

verus! {

/// The byte of the character `-`, which opens every flag.
pub const DASH: u8 = 0x2d;

/// The byte of the character `0`; the other digits follow it.
pub const ZERO: u8 = 0x30;

/// The bytes of a text made of ASCII characters, one byte for each character.
pub open spec fn ascii(text: Seq<char>) -> Seq<u8> {
    Seq::new(text.len(), |i: int| text[i] as u8)
}

/// A list of byte strings as a mathematical value.
pub open spec fn views(tokens: Seq<Vec<u8>>) -> Seq<Seq<u8>> {
    tokens.map_values(|token: Vec<u8>| token@)
}

/// Whether a byte string begins with `-`.
pub open spec fn starts_with_dash(token: Seq<u8>) -> bool {
    token.len() > 0 && token[0] == DASH
}

/// The decimal digits of `n`, most significant first, without leading zeros.
pub open spec fn decimal(n: nat) -> Seq<u8>
    decreases n,
{
    if n < 10 {
        seq![(ZERO + n) as u8]
    } else {
        decimal(n / 10).push((ZERO + n % 10) as u8)
    }
}

/// The number that a run of decimal digits stands for.
pub open spec fn number(digits: Seq<u8>) -> nat
    decreases digits.len(),
{
    if digits.len() == 0 {
        0
    } else {
        (number(digits.drop_last()) * 10 + (digits.last() - ZERO)) as nat
    }
}

/// The decimal digits of a number are digits, begin with `0` for zero alone,
/// and stand for that number.
pub proof fn lemma_decimal_reads_back(n: nat)
    ensures
        decimal(n).len() > 0,
        forall|i: int| 0 <= i < decimal(n).len() ==> ZERO <= #[trigger] decimal(n)[i] <= ZERO + 9,
        decimal(n)[0] == ZERO <==> n == 0,
        number(decimal(n)) == n,
    decreases n,
{
    if n < 10 {
        assert(decimal(n).drop_last() =~= Seq::<u8>::empty());
        assert(number(Seq::<u8>::empty()) == 0);
    } else {
        lemma_decimal_reads_back(n / 10);
        assert(decimal(n).drop_last() =~= decimal(n / 10));
    }
}

/// The bytes of an ASCII text.
pub(crate) fn literal(text: &str) -> (bytes: Vec<u8>)
    requires
        text.is_ascii(),
    ensures
        bytes@ == ascii(text@),
{
    broadcast use is_ascii_spec_bytes;

    text.as_bytes_vec()
}

/// Whether `token` is exactly the ASCII text `text`.
pub(crate) fn is_literal(token: &Vec<u8>, text: &str) -> (same: bool)
    requires
        text.is_ascii(),
    ensures
        same == (token@ == ascii(text@)),
{
    broadcast use is_ascii_spec_bytes;

    let expected = text.as_bytes();
    if token.len() != expected.len() {
        return false;
    }
    let mut i: usize = 0;
    while i < token.len()
        invariant
            i <= token.len(),
            token.len() == expected.len(),
            expected@ == ascii(text@),
            forall|j: int| 0 <= j < i ==> token@[j] == expected@[j],
        decreases token.len() - i,
    {
        if token[i] != expected[i] {
            return false;
        }
        i += 1;
    }
    assert(token@ =~= ascii(text@));
    true
}

/// Whether `token` begins with `-`.
pub(crate) fn has_dash(token: &Vec<u8>) -> (yes: bool)
    ensures
        yes == starts_with_dash(token@),
{
    token.len() > 0 && token[0] == DASH
}

/// A copy of a byte string.
pub(crate) fn copy(bytes: &Vec<u8>) -> (same: Vec<u8>)
    ensures
        same@ == bytes@,
{
    bytes.clone()
}

/// A copy of the byte strings of `tokens` from index `from` on.
pub(crate) fn copy_from(tokens: &[Vec<u8>], from: usize) -> (rest: Vec<Vec<u8>>)
    requires
        from <= tokens@.len(),
    ensures
        views(rest@) == views(tokens@).subrange(from as int, tokens@.len() as int),
{
    let mut rest: Vec<Vec<u8>> = Vec::new();
    let mut i: usize = from;
    while i < tokens.len()
        invariant
            from <= i <= tokens@.len(),
            views(rest@) == views(tokens@).subrange(from as int, i as int),
        decreases tokens@.len() - i,
    {
        let ghost before = views(rest@);
        rest.push(copy(&tokens[i]));
        assert(views(rest@) =~= before.push(tokens@[i as int]@));
        i += 1;
    }
    rest
}

/// Appends the bytes of `tail` to `head`.
pub(crate) fn append(head: &mut Vec<u8>, tail: &Vec<u8>)
    ensures
        final(head)@ == old(head)@ + tail@,
{
    head.extend_from_slice(tail.as_slice());
}

/// Appends the decimal digits of `n` to `out`.
pub(crate) fn push_decimal(out: &mut Vec<u8>, n: u32)
    ensures
        final(out)@ == old(out)@ + decimal(n as nat),
    decreases n,
{
    if n >= 10 {
        push_decimal(out, n / 10);
    }
    out.push(ZERO + (n % 10) as u8);
}

} // verus!
