//! Digests and words: four elements of the prime field of order `2^64 - 2^32 + 1`.
use vstd::bytes::{spec_u64_to_le_bytes, u64_to_le_bytes};
use vstd::prelude::*;

verus! {

/// Order of the prime field: `2^64 - 2^32 + 1`.
pub const FIELD_MODULUS: u64 = 0xFFFF_FFFF_0000_0001;

/// Four field elements, each held as its canonical integer below [`FIELD_MODULUS`].
///
/// The same type serves as a hash value and as the value of a tree leaf.
#[derive(Clone, Copy, Debug, PartialEq, Eq, Structural)]
pub struct Digest {
    pub(crate) e0: u64,
    pub(crate) e1: u64,
    pub(crate) e2: u64,
    pub(crate) e3: u64,
}

impl View for Digest {
    type V = Seq<u64>;

    closed spec fn view(&self) -> Seq<u64> {
        seq![self.e0, self.e1, self.e2, self.e3]
    }
}

impl Default for Digest {
    /// The all-zero word.
    fn default() -> (r: Digest)
        ensures
            r == Digest::empty(),
    {
        Digest { e0: 0, e1: 0, e2: 0, e3: 0 }
    }
}

impl Digest {
    #[verifier::type_invariant]
    closed spec fn canonical(self) -> bool {
        &&& self.e0 < FIELD_MODULUS
        &&& self.e1 < FIELD_MODULUS
        &&& self.e2 < FIELD_MODULUS
        &&& self.e3 < FIELD_MODULUS
    }

    /// The digest with the given elements.
    pub closed spec fn from_elements(e0: u64, e1: u64, e2: u64, e3: u64) -> Digest {
        Digest { e0, e1, e2, e3 }
    }

    /// The all-zero word, which a tree reads as "no value".
    pub open spec fn empty() -> Digest {
        Digest::from_elements(0, 0, 0, 0)
    }

    /// Whether every element of the sequence is a canonical field element.
    pub open spec fn in_field(s: Seq<u64>) -> bool {
        forall|i: int| 0 <= i < s.len() ==> s[i] < FIELD_MODULUS
    }

    /// A digest has four elements and is determined by them.
    pub proof fn lemma_view(self)
        ensures
            self@.len() == 4,
            self == Digest::from_elements(self@[0], self@[1], self@[2], self@[3]),
    {
    }

    /// `from_elements` and the view are inverse to each other.
    pub proof fn lemma_from_elements(e0: u64, e1: u64, e2: u64, e3: u64)
        ensures
            Digest::from_elements(e0, e1, e2, e3)@ == seq![e0, e1, e2, e3],
    {
    }

    /// Builds a digest from four integers, or `None` if one of them is not below the modulus.
    pub fn new(e0: u64, e1: u64, e2: u64, e3: u64) -> (r: Option<Digest>)
        ensures
            r is Some <==> (e0 < FIELD_MODULUS && e1 < FIELD_MODULUS && e2 < FIELD_MODULUS && e3
                < FIELD_MODULUS),
            r matches Some(d) ==> d == Digest::from_elements(e0, e1, e2, e3),
    {
        if e0 < FIELD_MODULUS && e1 < FIELD_MODULUS && e2 < FIELD_MODULUS && e3 < FIELD_MODULUS {
            Some(Digest { e0, e1, e2, e3 })
        } else {
            None
        }
    }

    /// The all-zero word.
    pub fn zero() -> (r: Digest)
        ensures
            r == Digest::empty(),
    {
        Digest { e0: 0, e1: 0, e2: 0, e3: 0 }
    }

    /// The four elements, first to last.
    pub fn elements(&self) -> (r: [u64; 4])
        ensures
            r@ == self@,
            Digest::in_field(self@),
    {
        proof {
            use_type_invariant(self);
        }
        let r = [self.e0, self.e1, self.e2, self.e3];
        assert(r@ =~= self@);
        r
    }

    /// The 32 bytes of the digest: each element in little-endian order, first to last.
    pub open spec fn bytes(self) -> Seq<u8> {
        spec_u64_to_le_bytes(self@[0]) + spec_u64_to_le_bytes(self@[1]) + spec_u64_to_le_bytes(
            self@[2],
        ) + spec_u64_to_le_bytes(self@[3])
    }

    /// The 32 bytes of the digest.
    pub fn as_bytes(&self) -> (bytes: Vec<u8>)
        ensures
            bytes@ == self.bytes(),
            bytes@.len() == 32,
    {
        let mut bytes = u64_to_le_bytes(self.e0);
        let mut b1 = u64_to_le_bytes(self.e1);
        let mut b2 = u64_to_le_bytes(self.e2);
        let mut b3 = u64_to_le_bytes(self.e3);
        bytes.append(&mut b1);
        bytes.append(&mut b2);
        bytes.append(&mut b3);
        bytes
    }

    /// Whether this is the all-zero word.
    pub fn is_empty(&self) -> (r: bool)
        ensures
            r == (*self == Digest::empty()),
    {
        self.e0 == 0 && self.e1 == 0 && self.e2 == 0 && self.e3 == 0
    }
}

} // verus!
