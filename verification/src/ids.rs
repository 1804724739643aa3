//! Identities: every participant (validator, beneficiary, account) is named
//! by a fixed 32-byte key. Group assignment hashes these canonical bytes, so
//! the library keeps them as plain bytes rather than as a host-specific
//! address type.

use vstd::prelude::*;

verus! {

broadcast use vstd::array::group_array_axioms;

/// A 32-byte participant identity.
#[derive(Clone, Copy, Debug, PartialEq, Eq)]
pub struct Identity {
    pub bytes: [u8; 32],
}

impl View for Identity {
    type V = Seq<u8>;

    open spec fn view(&self) -> Seq<u8> {
        self.bytes@
    }
}

impl Identity {
    /// The all-zero identity, standing for an unset owner or destination.
    pub fn zeroed() -> (r: Identity)
        ensures
            r@ == Seq::new(32, |i: int| 0u8),
    {
        let bytes: [u8; 32] = [0u8; 32];
        proof {
            assert(bytes@ =~= Seq::new(32, |i: int| 0u8));
        }
        Identity { bytes }
    }

    /// Byte-wise equality of two identities.
    pub fn equals(&self, other: &Identity) -> (r: bool)
        ensures
            r == (self == other),
    {
        let mut i: usize = 0;
        while i < 32
            invariant
                i <= 32,
                forall|k: int| 0 <= k < i ==> self.bytes@[k] == other.bytes@[k],
            decreases 32 - i,
        {
            if self.bytes[i] != other.bytes[i] {
                return false;
            }
            i = i + 1;
        }
        proof {
            assert(self.bytes =~= other.bytes);
        }
        true
    }
}

/// Whether `v` holds `x`, by byte-wise comparison.
pub fn contains_identity(v: &Vec<Identity>, x: &Identity) -> (r: bool)
    ensures
        r == v@.contains(*x),
{
    let mut i: usize = 0;
    while i < v.len()
        invariant
            i <= v@.len(),
            forall|k: int| 0 <= k < i ==> v@[k] != *x,
        decreases v@.len() - i,
    {
        if v[i].equals(x) {
            proof {
                assert(v@[i as int] == *x);
            }
            return true;
        }
        i = i + 1;
    }
    false
}

} // verus!
