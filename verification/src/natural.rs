//! Natural numbers of any size, as they travel between actors.
//!
//! A number is held as its big-endian bytes without leading zeros. The
//! conversions from and to `u64` are those of `candid::Nat`.

use ic_cdk::export::candid::Nat;
use num_bigint::BigUint;
use num_traits::ToPrimitive;
use vstd::prelude::*;

verus! {

/// The number that `bytes` write, most significant byte first.
pub open spec fn be_value(bytes: Seq<u8>) -> nat
    decreases bytes.len(),
{
    if bytes.len() == 0 {
        0
    } else {
        be_value(bytes.drop_last()) * 256 + bytes.last() as nat
    }
}

/// The one way to write a number: at least one byte, and no zero in front
/// of another byte.
pub open spec fn is_canonical(bytes: Seq<u8>) -> bool {
    bytes.len() >= 1 && (bytes.len() == 1 || bytes[0] != 0)
}

/// A zero byte in front does not change the number.
proof fn lemma_leading_zero(bytes: Seq<u8>)
    requires
        bytes.len() >= 1,
        bytes[0] == 0,
    ensures
        be_value(bytes) == be_value(bytes.drop_first()),
    decreases bytes.len(),
{
    let tail = bytes.drop_first();
    if bytes.len() == 1 {
        assert(be_value(bytes.drop_last()) == 0);
        assert(be_value(tail) == 0);
    } else {
        lemma_leading_zero(bytes.drop_last());
        assert(bytes.drop_last().drop_first() =~= tail.drop_last());
        assert(tail.last() == bytes.last());
        assert(be_value(tail) == be_value(tail.drop_last()) * 256 + tail.last() as nat);
    }
}

/// Any number of zero bytes in front do not change the number.
proof fn lemma_leading_zeros(bytes: Seq<u8>, count: int)
    requires
        0 <= count <= bytes.len(),
        forall|i: int| 0 <= i < count ==> bytes[i] == 0,
    ensures
        be_value(bytes) == be_value(bytes.skip(count)),
    decreases count,
{
    if count == 0 {
        assert(bytes.skip(0) =~= bytes);
    } else {
        lemma_leading_zero(bytes);
        lemma_leading_zeros(bytes.drop_first(), count - 1);
        assert(bytes.drop_first().skip(count - 1) =~= bytes.skip(count));
    }
}

/// Bytes that begin with a non-zero byte write a number that fills them:
/// it is at least one, and at least 256 where there are two bytes or more.
proof fn lemma_leading_nonzero(bytes: Seq<u8>)
    requires
        bytes.len() >= 1,
        bytes[0] != 0,
    ensures
        be_value(bytes) >= 1,
        bytes.len() >= 2 ==> be_value(bytes) >= 256,
    decreases bytes.len(),
{
    if bytes.len() == 1 {
        assert(be_value(bytes.drop_last()) == 0);
    } else {
        lemma_leading_nonzero(bytes.drop_last());
    }
}

/// Two canonical byte strings that write the same number are the same.
proof fn lemma_canonical_unique(a: Seq<u8>, b: Seq<u8>)
    requires
        is_canonical(a),
        is_canonical(b),
        be_value(a) == be_value(b),
    ensures
        a == b,
    decreases a.len(),
{
    if a.len() == 1 || b.len() == 1 {
        assert(a.len() == 1 ==> be_value(a.drop_last()) == 0);
        assert(b.len() == 1 ==> be_value(b.drop_last()) == 0);
        if a.len() >= 2 {
            lemma_leading_nonzero(a);
        }
        if b.len() >= 2 {
            lemma_leading_nonzero(b);
        }
        assert(a =~= b);
    } else {
        lemma_canonical_unique(a.drop_last(), b.drop_last());
        assert(a =~= a.drop_last().push(a.last()));
        assert(b =~= b.drop_last().push(b.last()));
    }
}

/// A natural number without an upper bound.
#[derive(Debug, PartialEq, Eq)]
pub struct Natural {
    bytes: Vec<u8>,
}

impl View for Natural {
    type V = nat;

    open spec fn view(&self) -> nat {
        be_value(self.digits())
    }
}

impl Clone for Natural {
    fn clone(&self) -> (copy: Self)
        ensures
            copy.digits() == self.digits(),
            copy.wf(),
    {
        Natural { bytes: self.to_bytes_be() }
    }
}

/// `candid::Nat::from` on a `u64`, with the number handed back through
/// `BigUint::to_bytes_be`: the bytes write `value`, most significant byte
/// first.
#[verifier::external_body]
fn nat_from_u64(value: u64) -> (bytes: Vec<u8>)
    ensures
        be_value(bytes@) == value,
{
    Nat::from(value).0.to_bytes_be()
}

/// `ToPrimitive::to_u64` on the `BigUint` that `BigUint::from_bytes_be`
/// makes of `bytes`: the number that the bytes write where a `u64` can hold
/// it, and nothing where it cannot.
#[verifier::external_body]
fn nat_to_u64(bytes: &Vec<u8>) -> (value: Option<u64>)
    ensures
        value == if be_value(bytes@) <= u64::MAX {
            Some(be_value(bytes@) as u64)
        } else {
            None
        },
{
    BigUint::from_bytes_be(bytes.as_slice()).to_u64()
}

impl Natural {
    /// The bytes that hold the number.
    pub closed spec fn digits(&self) -> Seq<u8> {
        self.bytes@
    }

    /// Every number is held in its one canonical writing.
    pub open spec fn wf(&self) -> bool {
        is_canonical(self.digits())
    }

    #[verifier::type_invariant]
    spec fn held_canonically(&self) -> bool {
        is_canonical(self.bytes@)
    }

    /// The number that `bytes` write, most significant byte first. Zero
    /// bytes in front are dropped; no bytes at all write zero.
    pub fn from_bytes_be(bytes: Vec<u8>) -> (number: Natural)
        ensures
            number@ == be_value(bytes@),
            number.wf(),
    {
        let mut bytes = bytes;
        let ghost given = bytes@;
        let mut zeros: usize = 0;
        while zeros < bytes.len() && bytes[zeros] == 0
            invariant
                zeros <= bytes.len(),
                forall|i: int| 0 <= i < zeros ==> bytes[i] == 0,
            decreases bytes.len() - zeros,
        {
            zeros += 1;
        }
        proof {
            lemma_leading_zeros(given, zeros as int);
        }
        if zeros == bytes.len() {
            let mut digits: Vec<u8> = Vec::new();
            digits.push(0);
            assert(be_value(given.skip(zeros as int)) == 0);
            assert(be_value(digits@.drop_last()) == 0);
            Natural { bytes: digits }
        } else {
            let digits = bytes.split_off(zeros);
            assert(digits@ =~= given.skip(zeros as int));
            Natural { bytes: digits }
        }
    }

    /// The number `value`.
    pub fn from_u64(value: u64) -> (number: Natural)
        ensures
            number@ == value,
            number.wf(),
    {
        Natural::from_bytes_be(nat_from_u64(value))
    }

    /// The number as a `u64`, where it is small enough to be one.
    pub fn to_u64(&self) -> (value: Option<u64>)
        ensures
            value == if self@ <= u64::MAX {
                Some(self@ as u64)
            } else {
                None
            },
    {
        nat_to_u64(&self.bytes)
    }

    /// The bytes of the number, most significant first, with none to spare.
    pub fn to_bytes_be(&self) -> (bytes: Vec<u8>)
        ensures
            bytes@ == self.digits(),
            is_canonical(bytes@),
    {
        proof {
            use_type_invariant(self);
        }
        let bytes = self.bytes.clone();
        assert(bytes@ =~= self.bytes@);
        bytes
    }

    /// Whether the number is zero.
    pub fn is_zero(&self) -> (zero: bool)
        ensures
            zero == (self@ == 0),
    {
        proof {
            use_type_invariant(self);
            if self.bytes@[0] != 0 {
                lemma_leading_nonzero(self.bytes@);
            } else {
                assert(be_value(self.bytes@.drop_last()) == 0);
            }
        }
        self.bytes[0] == 0
    }
}

/// The value of `number`, if there is one.
pub open spec fn number_view(number: Option<Natural>) -> Option<nat> {
    match number {
        Some(number) => Some(number@),
        None => None,
    }
}

/// A number is held in one way only: two numbers of the same value hold the
/// same bytes.
pub proof fn same_value_same_digits(a: Natural, b: Natural)
    requires
        a.wf(),
        b.wf(),
        a@ == b@,
    ensures
        a.digits() == b.digits(),
{
    lemma_canonical_unique(a.digits(), b.digits());
}

} // verus!
