use vstd::prelude::*;

verus! {

/// A 32-byte ledger account address.
#[derive(Clone, Copy, Debug)]
pub struct Address(pub [u8; 32]);

impl Address {
    pub open spec fn view(&self) -> Seq<u8> {
        self.0@
    }

    /// Compares two addresses byte by byte.
    pub fn same_as(&self, other: &Address) -> (r: bool)
        ensures
            r == (self@ == other@),
    {
        let mut i: usize = 0;
        while i < 32
            invariant
                0 <= i <= 32,
                self.0@.len() == 32,
                other.0@.len() == 32,
                forall|j: int| 0 <= j < i ==> self.0@[j] == other.0@[j],
            decreases 32 - i,
        {
            if self.0[i] != other.0[i] {
                return false;
            }
            i = i + 1;
        }
        assert(self.0@ =~= other.0@);
        true
    }

    /// Reads the 32 bytes that start at `off`.
    pub fn read_at(data: &[u8], off: usize) -> (r: Address)
        requires
            off + 32 <= data@.len(),
                off + 32 <= usize::MAX,
        ensures
            r@ == data@.subrange(off as int, off + 32),
    {
        let mut a: [u8; 32] = [0u8; 32];
        let mut i: usize = 0;
        while i < 32
            invariant
                0 <= i <= 32,
                off + 32 <= data@.len(),
                off + 32 <= usize::MAX,
                a@.len() == 32,
                forall|j: int| 0 <= j < i ==> a@[j] == data@[off + j],
            decreases 32 - i,
        {
            a[i] = data[off + i];
            i = i + 1;
        }
        let r = Address(a);
        assert(r@ =~= data@.subrange(off as int, off + 32));
        r
    }
}

} // verus!
