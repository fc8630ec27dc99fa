//! Account addresses.

use vstd::prelude::*;

verus! {

/// The 32-byte address of an account: a market, a reserve, a mint or a user.
///
/// Two keys name the same account exactly when their bytes agree; the view of
/// a key is that sequence of bytes.
#[derive(Clone, Copy, Debug, PartialEq, Eq)]
pub struct AccountKey {
    pub bytes: [u8; 32],
}

impl View for AccountKey {
    type V = Seq<u8>;

    open spec fn view(&self) -> Seq<u8> {
        self.bytes@
    }
}

impl AccountKey {
    /// The key made of these bytes.
    pub fn new(bytes: [u8; 32]) -> (key: AccountKey)
        ensures
            key@ == bytes@,
            key.bytes == bytes,
    {
        AccountKey { bytes }
    }

    /// The bytes of the key.
    pub fn to_bytes(&self) -> (bytes: [u8; 32])
        ensures
            bytes@ == self@,
            bytes == self.bytes,
    {
        self.bytes
    }

    /// Whether both keys name the same account.
    pub fn matches(&self, other: &AccountKey) -> (same: bool)
        ensures
            same == (self@ == other@),
    {
        let mut i: usize = 0;
        while i < 32
            invariant
                0 <= i <= 32,
                forall|j: int| 0 <= j < i ==> self.bytes@[j] == other.bytes@[j],
            decreases 32 - i,
        {
            if self.bytes[i] != other.bytes[i] {
                return false;
            }
            i += 1;
        }
        proof {
            assert(self.bytes@ =~= other.bytes@);
        }
        true
    }
}

} // verus!
