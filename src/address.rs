//! Fixed-size 32-byte identifiers: account addresses and blockhashes.
use vstd::prelude::*;

verus! {

/// A 32-byte account identifier (a public key or a derived address).
#[derive(Clone, Copy, Debug, PartialEq, Eq, Hash)]
pub struct Address {
    pub bytes: [u8; 32],
}

impl View for Address {
    type V = Seq<u8>;

    open spec fn view(&self) -> Seq<u8> {
        self.bytes@
    }
}

/// The all-zero identifier, used where an account cannot be recovered.
pub open spec fn zero_address() -> Seq<u8> {
    Seq::new(32, |i: int| 0u8)
}

impl Address {
    /// Wraps 32 raw bytes.
    pub fn new_from_array(bytes: [u8; 32]) -> (r: Address)
        ensures
            r@ == bytes@,
    {
        Address { bytes }
    }

    /// The all-zero identifier.
    pub fn zero() -> (r: Address)
        ensures
            r@ == zero_address(),
    {
        let r = Address { bytes: [0u8; 32] };
        assert(r@ =~= zero_address());
        r
    }

    /// Reads an identifier from `data[at..at + 32]`.
    pub fn read_from(data: &[u8], at: usize) -> (r: Address)
        requires
            at + 32 <= data@.len(),
        ensures
            r@ == data@.subrange(at as int, at + 32),
    {
        let n: usize = data.len();
        let mut bytes = [0u8; 32];
        let mut i: usize = 0;
        while i < 32
            invariant
                n == data@.len(),
                at + 32 <= data@.len(),
                i <= 32,
                bytes@.len() == 32,
                forall|j: int| 0 <= j < i ==> bytes@[j] == data@[at + j],
            decreases 32 - i,
        {
            bytes[i] = data[at + i];
            i = i + 1;
        }
        assert(bytes@ =~= data@.subrange(at as int, at + 32));
        Address { bytes }
    }

    /// Byte-wise equality of two identifiers.
    pub fn same_as(&self, other: &Address) -> (r: bool)
        ensures
            r == (self@ == other@),
    {
        let mut i: usize = 0;
        while i < 32
            invariant
                i <= 32,
                self.bytes@.len() == 32,
                other.bytes@.len() == 32,
                forall|j: int| 0 <= j < i ==> self.bytes@[j] == other.bytes@[j],
            decreases 32 - i,
        {
            if self.bytes[i] != other.bytes[i] {
                return false;
            }
            i = i + 1;
        }
        assert(self@ =~= other@);
        true
    }
}

} // verus!
