//! Identities and addresses: 32 bytes, compared byte by byte.

use vstd::prelude::*;
use vstd::std_specs::cmp::PartialEqSpecImpl;

verus! {

/// The public identifier of a party, or the address of a record or of an
/// escrow slot.
#[derive(Clone, Copy, Debug, Eq, Hash)]
pub struct Key {
    pub bytes: [u8; 32],
}

impl View for Key {
    type V = Seq<u8>;

    open spec fn view(&self) -> Seq<u8> {
        self.bytes@
    }
}

impl PartialEq for Key {
    fn eq(&self, other: &Key) -> (r: bool) {
        let mut i: usize = 0;
        while i < 32
            invariant
                i <= 32,
                forall|j: int| 0 <= j < i ==> self.bytes[j] == other.bytes[j],
            decreases 32 - i,
        {
            if self.bytes[i] != other.bytes[i] {
                return false;
            }
            i += 1;
        }
        assert(self.bytes =~= other.bytes);
        true
    }
}

impl PartialEqSpecImpl for Key {
    open spec fn obeys_eq_spec() -> bool {
        true
    }

    open spec fn eq_spec(&self, other: &Key) -> bool {
        *self == *other
    }
}

impl Key {
    /// The bytes of the key, in order.
    pub fn to_vec(&self) -> (v: Vec<u8>)
        ensures
            v@ == self@,
    {
        let mut v: Vec<u8> = Vec::new();
        let mut i: usize = 0;
        while i < 32
            invariant
                i <= 32,
                v@.len() == i,
                forall|j: int| 0 <= j < i ==> v@[j] == self.bytes[j],
            decreases 32 - i,
        {
            v.push(self.bytes[i]);
            i += 1;
        }
        assert(v@ =~= self@);
        v
    }

    /// Keys are equal exactly when their bytes are.
    pub proof fn same_view(self, other: Key)
        ensures
            (self@ == other@) <==> (self == other),
    {
        if self@ == other@ {
            assert(forall|i: int| 0 <= i < 32 ==> self.bytes[i] == other.bytes[i]) by {
                assert forall|i: int| 0 <= i < 32 implies self.bytes[i] == other.bytes[i] by {
                    assert(self@[i] == other@[i]);
                }
            }
            assert(self.bytes =~= other.bytes);
        }
    }
}

} // verus!
