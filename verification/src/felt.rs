//! The field-element value type: a scalar carried losslessly as 32
//! big-endian bytes, the numeric domain used for every cryptographic
//! quantity in a transaction envelope.

use vstd::arithmetic::mul::lemma_mul_inequality;
use vstd::prelude::*;

verus! {

/// 256 raised to the power `n`: the weight of a byte `n` places from the
/// low end of a big-endian byte string.
pub open spec fn pow256(n: nat) -> nat
    decreases n,
{
    if n == 0 {
        1
    } else {
        256 * pow256((n - 1) as nat)
    }
}

/// The unsigned integer denoted by a big-endian byte string.
pub open spec fn be_value(s: Seq<u8>) -> nat
    decreases s.len(),
{
    if s.len() == 0 {
        0
    } else {
        (s[0] as nat) * pow256((s.len() - 1) as nat) + be_value(s.drop_first())
    }
}

/// A big-endian byte string of length `n` denotes a value below `256^n`.
pub proof fn lemma_be_value_bound(s: Seq<u8>)
    ensures
        be_value(s) < pow256(s.len()),
    decreases s.len(),
{
    if s.len() == 0 {
    } else {
        let p = pow256((s.len() - 1) as nat);
        lemma_be_value_bound(s.drop_first());
        lemma_pow256_pos((s.len() - 1) as nat);
        lemma_mul_inequality(s[0] as int, 255, p as int);
        assert(be_value(s) <= 255 * p + (p - 1));
    }
}

pub proof fn lemma_pow256_pos(n: nat)
    ensures
        pow256(n) >= 1,
    decreases n,
{
    if n > 0 {
        lemma_pow256_pos((n - 1) as nat);
    }
}

/// The bound of the address key-space: `2^251`.
pub open spec fn address_bound() -> nat {
    0x0800000000000000000000000000000000000000000000000000000000000000nat
}

/// For a 32-byte big-endian string, lying below `2^251` is decided by the
/// leading byte alone: the value is in range exactly when that byte is
/// below 8.
pub proof fn lemma_address_bound_by_leading_byte(s: Seq<u8>)
    requires
        s.len() == 32,
    ensures
        be_value(s) < address_bound() <==> s[0] < 8,
{
    let p = pow256(31);
    assert(p == 0x0100000000000000000000000000000000000000000000000000000000000000nat)
        by {
        reveal_with_fuel(pow256, 32);
    }
    lemma_be_value_bound(s.drop_first());
    assert(be_value(s) == (s[0] as nat) * p + be_value(s.drop_first()));
    if s[0] < 8 {
        lemma_mul_inequality(s[0] as int, 7, p as int);
        assert(be_value(s) <= 7 * p + (p - 1));
    } else {
        lemma_mul_inequality(8, s[0] as int, p as int);
        assert((s[0] as nat) * p >= 8 * p);
    }
}

/// A field element, stored as exactly 32 big-endian bytes.
#[derive(Clone, Debug, PartialEq, Eq)]
pub struct Felt {
    bytes: Vec<u8>,
}

impl View for Felt {
    type V = Seq<u8>;

    closed spec fn view(&self) -> Seq<u8> {
        self.bytes@
    }
}

impl Felt {
    /// A felt is well formed when it carries exactly 32 bytes.
    pub open spec fn wf(&self) -> bool {
        self@.len() == 32
    }

    /// The felt holding the value of a 64-bit unsigned integer.
    pub fn from_u64(x: u64) -> (r: Felt)
        ensures
            r.wf(),
            r@ == spec_u64_felt_bytes(x),
    {
        let mut bytes: Vec<u8> = Vec::new();
        let mut i: usize = 0;
        while i < 24
            invariant
                i <= 24,
                bytes@ =~= Seq::new(i as nat, |j: int| 0u8),
            decreases 24 - i,
        {
            bytes.push(0u8);
            i += 1;
        }
        bytes.push((x >> 56) as u8);
        bytes.push((x >> 48) as u8);
        bytes.push((x >> 40) as u8);
        bytes.push((x >> 32) as u8);
        bytes.push((x >> 24) as u8);
        bytes.push((x >> 16) as u8);
        bytes.push((x >> 8) as u8);
        bytes.push(x as u8);
        let r = Felt { bytes };
        proof {
            assert(r@ =~= spec_u64_felt_bytes(x));
        }
        r
    }

    /// The felt with the given big-endian bytes; rejects anything but
    /// exactly 32 bytes.
    pub fn from_be_bytes(bytes: Vec<u8>) -> (r: Option<Felt>)
        ensures
            r is Some <==> bytes@.len() == 32,
            r matches Some(f) ==> f.wf() && f@ == bytes@,
    {
        if bytes.len() == 32 {
            Some(Felt { bytes })
        } else {
            None
        }
    }

    /// The felt's big-endian bytes.
    pub fn to_be_bytes(&self) -> (r: Vec<u8>)
        ensures
            r@ == self@,
    {
        let mut r: Vec<u8> = Vec::new();
        let mut i: usize = 0;
        while i < self.bytes.len()
            invariant
                i <= self.bytes.len(),
                r@ =~= self.bytes@.subrange(0, i as int),
            decreases self.bytes.len() - i,
        {
            r.push(self.bytes[i]);
            i += 1;
        }
        proof {
            assert(r@ =~= self@);
        }
        r
    }

    /// The byte at the given position of the felt's big-endian form.
    pub fn byte_at(&self, i: usize) -> (r: u8)
        requires
            i < self@.len(),
        ensures
            r == self@[i as int],
    {
        self.bytes[i]
    }

    /// Whether the felt's value lies in the address key-space, below `2^251`.
    pub fn in_address_space(&self) -> (r: bool)
        requires
            self.wf(),
        ensures
            r == (be_value(self@) < address_bound()),
    {
        proof {
            lemma_address_bound_by_leading_byte(self@);
        }
        self.bytes[0] < 8
    }
}

/// The 32-byte big-endian encoding of a 64-bit value: 24 zero bytes followed
/// by the value's own big-endian bytes.
pub open spec fn spec_u64_felt_bytes(x: u64) -> Seq<u8> {
    Seq::new(32, |i: int| {
        if i < 24 {
            0u8
        } else if i == 24 {
            (x >> 56) as u8
        } else if i == 25 {
            (x >> 48) as u8
        } else if i == 26 {
            (x >> 40) as u8
        } else if i == 27 {
            (x >> 32) as u8
        } else if i == 28 {
            (x >> 24) as u8
        } else if i == 29 {
            (x >> 16) as u8
        } else if i == 30 {
            (x >> 8) as u8
        } else {
            x as u8
        }
    })
}

} // verus!
