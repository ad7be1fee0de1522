//! The address model: a stable identity per record, a pointer per revision.

use vstd::prelude::*;

verus! {

/// The stable handle of one logical record. It is issued when the record is
/// first written and never changes afterwards.
#[derive(Clone, Copy, Debug, PartialEq, Eq, Hash, Structural)]
pub struct IdentityAddress {
    pub raw: u64,
}

/// The handle of one version of a record's content. Every write issues a new
/// one; the pointer of the newest version is the record's head.
#[derive(Clone, Copy, Debug, PartialEq, Eq, Hash, Structural)]
pub struct RevisionPointer {
    pub record: u64,
    pub version: u64,
}

/// Either kind of address, as accepted by a read.
#[derive(Clone, Copy, Debug, PartialEq, Eq, Hash, Structural)]
pub enum RecordAddress {
    Identity(IdentityAddress),
    Revision(RevisionPointer),
}

/// The `width` low-order bytes of `value`, most significant byte first.
pub open spec fn big_endian(value: nat, width: nat) -> Seq<u8>
    decreases width,
{
    if width == 0 {
        Seq::empty()
    } else {
        big_endian(value / 256, (width - 1) as nat).push((value % 256) as u8)
    }
}

/// The eight bytes that stand for an identity address.
pub open spec fn address_bytes(address: IdentityAddress) -> Seq<u8> {
    big_endian(address.raw as nat, 8)
}

pub proof fn big_endian_len(value: nat, width: nat)
    ensures
        big_endian(value, width).len() == width,
    decreases width,
{
    if width > 0 {
        big_endian_len(value / 256, (width - 1) as nat);
    }
}

/// Two values below `256^width` with the same bytes are the same value.
pub proof fn big_endian_is_injective(a: nat, b: nat, width: nat)
    requires
        big_endian(a, width) == big_endian(b, width),
    ensures
        a / pow256(width) == b / pow256(width) ==> a == b,
    decreases width,
{
    if width > 0 {
        let w = (width - 1) as nat;
        let sa = big_endian(a / 256, w);
        let sb = big_endian(b / 256, w);
        big_endian_len(a / 256, w);
        big_endian_len(b / 256, w);
        assert(sa.push((a % 256) as u8).drop_last() == sa);
        assert(sb.push((b % 256) as u8).drop_last() == sb);
        assert(sa == sb);
        assert(sa.push((a % 256) as u8).last() == (a % 256) as u8);
        assert(sb.push((b % 256) as u8).last() == (b % 256) as u8);
        assert(a % 256 == b % 256);
        big_endian_is_injective(a / 256, b / 256, w);
        pow256_positive(w);
        assert(pow256(width) == 256 * pow256(w));
        vstd::arithmetic::div_mod::lemma_div_denominator(a as int, 256, pow256(w) as int);
        vstd::arithmetic::div_mod::lemma_div_denominator(b as int, 256, pow256(w) as int);
        if a / pow256(width) == b / pow256(width) {
            assert((a / 256) / pow256(w) == (b / 256) / pow256(w));
            assert(a / 256 == b / 256);
            assert(a == 256 * (a / 256) + a % 256);
            assert(b == 256 * (b / 256) + b % 256);
        }
    } else {
        assert(pow256(0) == 1);
    }
}

/// `256` to the power `n`.
pub open spec fn pow256(n: nat) -> nat
    decreases n,
{
    if n == 0 {
        1
    } else {
        256 * pow256((n - 1) as nat)
    }
}

pub proof fn pow256_positive(n: nat)
    ensures
        pow256(n) > 0,
    decreases n,
{
    if n > 0 {
        pow256_positive((n - 1) as nat);
    }
}

/// Distinct identity addresses have distinct bytes.
pub proof fn address_bytes_are_injective(a: IdentityAddress, b: IdentityAddress)
    ensures
        address_bytes(a) == address_bytes(b) <==> a == b,
{
    if address_bytes(a) == address_bytes(b) {
        big_endian_is_injective(a.raw as nat, b.raw as nat, 8);
        assert(pow256(8) == 0x1_0000_0000_0000_0000) by {
            reveal_with_fuel(pow256, 9);
        }
        assert((a.raw as nat) / pow256(8) == 0);
        assert((b.raw as nat) / pow256(8) == 0);
    }
}

impl IdentityAddress {
    /// The address as bytes, most significant first.
    pub fn to_bytes(&self) -> (bytes: Vec<u8>)
        ensures
            bytes@ == address_bytes(*self),
    {
        let mut bytes: Vec<u8> = Vec::new();
        let mut rest: u64 = self.raw;
        let mut done: usize = 0;
        while done < 8
            invariant
                done <= 8,
                bytes@.len() == done,
                big_endian(self.raw as nat, 8) == big_endian(rest as nat, (8 - done) as nat) + bytes@,
            decreases 8 - done,
        {
            let low: u8 = (rest % 256) as u8;
            proof {
                let width = (8 - done) as nat;
                let head = big_endian((rest / 256) as nat, (width - 1) as nat);
                assert(big_endian(rest as nat, width) == head.push(low));
                assert(head.push(low) + bytes@ == head + bytes@.insert(0, low));
            }
            bytes.insert(0, low);
            rest = rest / 256;
            done = done + 1;
        }
        assert(big_endian(rest as nat, 0) + bytes@ == bytes@);
        bytes
    }
}

} // verus!
