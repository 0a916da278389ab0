//! Byte-level helpers shared by the selector matcher and the shape
//! parser: ASCII case folding, case-insensitive comparison, and decimal
//! formatting of integers.

use vstd::prelude::*;
use vstd::string::StringSliceAdditionalSpecFns;

verus! {

/// ASCII lowercase of one byte.
pub open spec fn lower(b: u8) -> u8 {
    if 65 <= b && b <= 90 {
        (b + 32) as u8
    } else {
        b
    }
}

/// ASCII lowercase of a byte sequence.
pub open spec fn lower_seq(s: Seq<u8>) -> Seq<u8> {
    s.map_values(|b: u8| lower(b))
}

/// Two byte sequences are equal up to ASCII case.
pub open spec fn eq_ignore_case(a: Seq<u8>, b: Seq<u8>) -> bool {
    lower_seq(a) == lower_seq(b)
}

/// ASCII lowercase of one byte, executable.
pub fn lower_byte(b: u8) -> (r: u8)
    ensures
        r == lower(b),
{
    if 65 <= b && b <= 90 {
        b + 32
    } else {
        b
    }
}

/// Case-insensitive (ASCII) equality of two byte strings.
pub fn bytes_eq_ignore_case(a: &[u8], b: &[u8]) -> (r: bool)
    ensures
        r == eq_ignore_case(a@, b@),
{
    if a.len() != b.len() {
        assert(lower_seq(a@).len() != lower_seq(b@).len());
        return false;
    }
    let mut i: usize = 0;
    while i < a.len()
        invariant
            i <= a.len(),
            a.len() == b.len(),
            forall|j: int| 0 <= j < i ==> lower(a@[j]) == lower(b@[j]),
        decreases a.len() - i,
    {
        if lower_byte(a[i]) != lower_byte(b[i]) {
            assert(lower_seq(a@)[i as int] != lower_seq(b@)[i as int]);
            return false;
        }
        i += 1;
    }
    assert(lower_seq(a@) =~= lower_seq(b@));
    true
}

/// Exact equality of two byte strings.
pub fn bytes_eq(a: &[u8], b: &[u8]) -> (r: bool)
    ensures
        r == (a@ == b@),
{
    if a.len() != b.len() {
        return false;
    }
    let mut i: usize = 0;
    while i < a.len()
        invariant
            i <= a.len(),
            a.len() == b.len(),
            forall|j: int| 0 <= j < i ==> a@[j] == b@[j],
        decreases a.len() - i,
    {
        if a[i] != b[i] {
            return false;
        }
        i += 1;
    }
    assert(a@ =~= b@);
    true
}

/// Decimal digit sequence of a non-negative integer, most significant
/// digit first.
pub open spec fn dec_of_nat(n: nat) -> Seq<u8>
    decreases n,
{
    if n < 10 {
        seq![(48 + n) as u8]
    } else {
        dec_of_nat(n / 10).push((48 + n % 10) as u8)
    }
}

/// Decimal rendering of an integer, with a leading `-` when negative.
pub open spec fn dec_of(n: int) -> Seq<u8> {
    if n < 0 {
        seq![45u8].add(dec_of_nat((-n) as nat))
    } else {
        dec_of_nat(n as nat)
    }
}

fn push_dec_nat(out: &mut Vec<u8>, n: u64)
    ensures
        final(out)@ == old(out)@.add(dec_of_nat(n as nat)),
    decreases n,
{
    if n < 10 {
        out.push((48 + n) as u8);
        assert(out@ =~= old(out)@.add(dec_of_nat(n as nat)));
    } else {
        push_dec_nat(out, n / 10);
        out.push((48 + n % 10) as u8);
        assert(out@ =~= old(out)@.add(dec_of_nat(n as nat)));
    }
}

/// Append the decimal rendering of `n` to `out`.
pub fn push_dec(out: &mut Vec<u8>, n: i64)
    requires
        n > i64::MIN,
    ensures
        final(out)@ == old(out)@.add(dec_of(n as int)),
{
    if n < 0 {
        out.push(45);
        push_dec_nat(out, (-n) as u64);
        assert(out@ =~= old(out)@.add(dec_of(n as int)));
    } else {
        push_dec_nat(out, n as u64);
    }
}

/// Case-insensitive match of a byte name against an ASCII keyword.
pub fn name_matches(name: &Vec<u8>, kw: &str) -> (r: bool)
    ensures
        r == eq_ignore_case(name@, kw.spec_bytes()),
{
    bytes_eq_ignore_case(name.as_slice(), kw.as_bytes())
}

} // verus!
