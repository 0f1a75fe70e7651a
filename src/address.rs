use vstd::prelude::*;

verus! {

/// The number of bytes in an account address.
pub const ADDRESS_LEN: usize = 32;

/// An account address on the ledger: 32 raw bytes.
#[derive(Clone, Copy, Debug)]
pub struct Address {
    pub bytes: [u8; 32],
}

impl View for Address {
    type V = Seq<u8>;

    open spec fn view(&self) -> Seq<u8> {
        self.bytes@
    }
}

impl Address {
    pub fn new(bytes: [u8; 32]) -> (r: Address)
        ensures
            r.bytes == bytes,
    {
        Address { bytes }
    }

    /// Whether two addresses hold the same bytes.
    pub fn same(&self, other: &Address) -> (r: bool)
        ensures
            r == (self@ == other@),
    {
        let mut i: usize = 0;
        while i < ADDRESS_LEN
            invariant
                0 <= i <= ADDRESS_LEN,
                self@.len() == ADDRESS_LEN,
                other@.len() == ADDRESS_LEN,
                forall|j: int| 0 <= j < i ==> self@[j] == other@[j],
            decreases ADDRESS_LEN - i,
        {
            if self.bytes[i] != other.bytes[i] {
                return false;
            }
            i = i + 1;
        }
        assert(self@ =~= other@);
        true
    }

    /// The address as an owned byte vector.
    pub fn to_vec(&self) -> (r: Vec<u8>)
        ensures
            r@ == self@,
    {
        let mut v: Vec<u8> = Vec::new();
        let mut i: usize = 0;
        while i < ADDRESS_LEN
            invariant
                0 <= i <= ADDRESS_LEN,
                self@.len() == ADDRESS_LEN,
                v@ == self@.subrange(0, i as int),
            decreases ADDRESS_LEN - i,
        {
            v.push(self.bytes[i]);
            i = i + 1;
            assert(v@ =~= self@.subrange(0, i as int));
        }
        assert(self@.subrange(0, ADDRESS_LEN as int) =~= self@);
        v
    }
}

} // verus!
