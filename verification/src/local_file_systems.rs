//! Entry points for local filesystems and the identities they receive.

use vstd::prelude::*;
use vstd::utf8::*;

use crate::file_uri_path::is_ascii_bytes;
use crate::file_uri_path::lemma_ascii_valid_utf8;
use crate::file_uri_path::string_from_utf8;

verus! {

/// Entry points for host and rooted local filesystems.
pub struct LocalFileSystems {
    _private: (),
}

/// The ASCII decimal digits of `n`, most significant first, without leading
/// zeros.
pub open spec fn decimal_bytes(n: nat) -> Seq<u8>
    decreases n,
{
    if n < 10 {
        seq![(0x30 + n) as u8]
    } else {
        decimal_bytes(n / 10).push((0x30 + n % 10) as u8)
    }
}

/// The generated identity of a rooted filesystem: the prefix, the process
/// number and a sequence number, separated by `-`.
pub open spec fn rooted_identity_bytes(process_id: nat, sequence: nat) -> Seq<u8> {
    seq![0x6cu8, 0x6fu8, 0x63u8, 0x61u8, 0x6cu8, 0x2du8, 0x72u8, 0x6fu8, 0x6fu8, 0x74u8, 0x65u8, 0x64u8, 0x2du8]
        + decimal_bytes(process_id) + seq![0x2du8] + decimal_bytes(sequence)
}

/// The number written by ASCII decimal digits.
pub open spec fn decimal_value(digits: Seq<u8>) -> nat
    decreases digits.len(),
{
    if digits.len() == 0 {
        0
    } else {
        decimal_value(digits.drop_last()) * 10 + (digits.last() - 0x30) as nat
    }
}

/// Decimal digits are ASCII digits.
proof fn lemma_decimal_digits(n: nat)
    ensures
        decimal_bytes(n).len() > 0,
        forall|i: int| 0 <= i < decimal_bytes(n).len() ==> 0x30 <= #[trigger] decimal_bytes(n)[i] <= 0x39,
    decreases n,
{
    if n >= 10 {
        lemma_decimal_digits(n / 10);
        let d = decimal_bytes(n / 10);
        assert forall|i: int| 0 <= i < decimal_bytes(n).len() implies 0x30 <= #[trigger] decimal_bytes(n)[i] <= 0x39 by {
            if i < d.len() {
                assert(decimal_bytes(n)[i] == d[i]);
            }
        }
    }
}

/// Decimal digits are ASCII.
proof fn lemma_decimal_ascii(n: nat)
    ensures
        is_ascii_bytes(decimal_bytes(n)),
{
    lemma_decimal_digits(n);
    assert forall|i: int| 0 <= i < decimal_bytes(n).len() implies #[trigger] decimal_bytes(n)[i] < 0x80 by {
        assert(decimal_bytes(n)[i] <= 0x39);
    }
}

/// Decimal digits read back as the number they were written from.
proof fn lemma_decimal_value(n: nat)
    ensures
        decimal_value(decimal_bytes(n)) == n,
    decreases n,
{
    let d = decimal_bytes(n);
    if n < 10 {
        assert(d.drop_last() =~= Seq::<u8>::empty());
        assert(d.last() == (0x30 + n) as u8);
        assert(((0x30 + n) as u8) as int == 0x30 + n);
        assert(decimal_value(d) == decimal_value(d.drop_last()) * 10 + (d.last() - 0x30) as nat);
    } else {
        lemma_decimal_value(n / 10);
        assert(d.drop_last() =~= decimal_bytes(n / 10));
        assert(d.last() == (0x30 + n % 10) as u8);
        assert(((0x30 + n % 10) as u8) as int == 0x30 + n % 10);
        assert(decimal_value(d) == decimal_value(d.drop_last()) * 10 + (d.last() - 0x30) as nat);
        assert(n == (n / 10) * 10 + n % 10) by (nonlinear_arith);
    }
}

/// Distinct numbers have distinct decimal digits.
proof fn lemma_decimal_injective(a: nat, b: nat)
    requires
        decimal_bytes(a) == decimal_bytes(b),
    ensures
        a == b,
{
    lemma_decimal_value(a);
    lemma_decimal_value(b);
}

/// Distinct process and sequence numbers give distinct rooted identities.
pub proof fn lemma_rooted_identities_are_distinct(p1: nat, s1: nat, p2: nat, s2: nat)
    requires
        rooted_identity_bytes(p1, s1) == rooted_identity_bytes(p2, s2),
    ensures
        p1 == p2,
        s1 == s2,
{
    let a = rooted_identity_bytes(p1, s1);
    let b = rooted_identity_bytes(p2, s2);
    let d1 = decimal_bytes(p1);
    let d2 = decimal_bytes(p2);
    lemma_decimal_digits(p1);
    lemma_decimal_digits(p2);
    if d1.len() < d2.len() {
        let i: int = 13 + d1.len() as int;
        assert(a[i] == 0x2du8);
        assert(b[i] == d2[i - 13]);
        assert(false);
    } else if d2.len() < d1.len() {
        let i: int = 13 + d2.len() as int;
        assert(b[i] == 0x2du8);
        assert(a[i] == d1[i - 13]);
        assert(false);
    } else {
        assert(d1 =~= a.subrange(13, 13 + d1.len() as int));
        assert(d2 =~= b.subrange(13, 13 + d2.len() as int));
        lemma_decimal_injective(p1, p2);
        let t1 = decimal_bytes(s1);
        let t2 = decimal_bytes(s2);
        assert(t1 =~= a.subrange(14 + d1.len() as int, a.len() as int));
        assert(t2 =~= b.subrange(14 + d2.len() as int, b.len() as int));
        lemma_decimal_injective(s1, s2);
    }
}

/// Appends the decimal digits of `n`.
fn push_decimal(out: &mut Vec<u8>, n: u64)
    ensures
        final(out)@ == old(out)@ + decimal_bytes(n as nat),
    decreases n,
{
    if n >= 10 {
        push_decimal(out, n / 10);
    }
    let digit: u8 = (n % 10) as u8;
    out.push(0x30 + digit);
    proof {
        if n >= 10 {
            assert(decimal_bytes(n as nat) == decimal_bytes((n / 10) as nat).push((0x30 + n % 10) as u8));
        }
    }
}

impl LocalFileSystems {
    /// The identity given to a rooted filesystem created without one:
    /// `local-rooted-{process_id}-{sequence}`. Distinct sequence numbers
    /// within one process give distinct identities.
    pub fn rooted_identity(process_id: u32, sequence: u64) -> (r: String)
        ensures
            encode_utf8(r@) == rooted_identity_bytes(process_id as nat, sequence as nat),
    {
        let mut bytes: Vec<u8> = Vec::new();
        bytes.push(0x6c);
        bytes.push(0x6f);
        bytes.push(0x63);
        bytes.push(0x61);
        bytes.push(0x6c);
        bytes.push(0x2d);
        bytes.push(0x72);
        bytes.push(0x6f);
        bytes.push(0x6f);
        bytes.push(0x74);
        bytes.push(0x65);
        bytes.push(0x64);
        bytes.push(0x2d);
        push_decimal(&mut bytes, process_id as u64);
        bytes.push(0x2d);
        push_decimal(&mut bytes, sequence);
        let ghost b = bytes@;
        proof {
            assert(b =~= rooted_identity_bytes(process_id as nat, sequence as nat));
            lemma_decimal_ascii(process_id as nat);
            lemma_decimal_ascii(sequence as nat);
            assert(is_ascii_bytes(b)) by {
                assert forall|i: int| 0 <= i < b.len() implies #[trigger] b[i] < 0x80 by {
                    let p = decimal_bytes(process_id as nat);
                    let s = decimal_bytes(sequence as nat);
                    if 13 <= i < 13 + p.len() {
                        assert(b[i] == p[i - 13]);
                    } else if 14 + p.len() <= i {
                        assert(b[i] == s[i - 14 - p.len()]);
                    }
                }
            }
            lemma_ascii_valid_utf8(b);
        }
        let r = string_from_utf8(bytes);
        proof {
            broadcast use decode_utf8_encode_utf8;
        }
        r
    }
}

} // verus!
