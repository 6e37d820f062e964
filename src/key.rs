use vstd::prelude::*;

verus! {

/// A 32-byte account identifier on the ledger.
#[derive(Clone, Copy, Debug, PartialEq, Eq)]
pub struct Key {
    pub bytes: [u8; 32],
}

impl Key {
    /// The bytes of the identifier, as a sequence.
    pub open spec fn view(&self) -> Seq<u8> {
        self.bytes@
    }

    /// The key with these bytes.
    pub fn new(bytes: [u8; 32]) -> (r: Key)
        ensures
            r.bytes == bytes,
    {
        Key { bytes }
    }

    /// Whether the two keys are equal, byte by byte.
    pub fn same(&self, other: &Key) -> (r: bool)
        ensures
            r == (*self == *other),
    {
        let mut i: usize = 0;
        while i < 32
            invariant
                0 <= i <= 32,
                forall|j: int| 0 <= j < i ==> self.bytes@[j] == other.bytes@[j],
            decreases 32 - i,
        {
            if self.bytes[i] != other.bytes[i] {
                return false;
            }
            i = i + 1;
        }
        proof {
            broadcast use vstd::array::axiom_array_ext_equal;

            assert(self.bytes =~= other.bytes);
        }
        true
    }
}

impl Key {
    /// The bytes of the identifier, as a vector.
    pub fn to_vec(&self) -> (r: Vec<u8>)
        ensures
            r@ == self@,
    {
        let mut v: Vec<u8> = Vec::new();
        let mut i: usize = 0;
        while i < 32
            invariant
                0 <= i <= 32,
                v@ == self.bytes@.subrange(0, i as int),
            decreases 32 - i,
        {
            v.push(self.bytes[i]);
            i = i + 1;
            assert(v@ =~= self.bytes@.subrange(0, i as int));
        }
        assert(v@ =~= self.bytes@);
        v
    }
}

/// Two keys are equal exactly when their bytes are.
pub proof fn lemma_key_view_injective(a: Key, b: Key)
    ensures
        (a == b) <==> (a@ == b@),
{
    broadcast use vstd::array::axiom_array_ext_equal;

    if a@ == b@ {
        assert(forall|i: int| 0 <= i < 32 ==> a.bytes[i] == a@[i] && b.bytes[i] == b@[i]);
        assert(a.bytes =~= b.bytes);
    }
}

} // verus!
