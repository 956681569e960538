use vstd::prelude::*;

verus! {

/// An opaque fixed-size byte identifier for a holder of units.
///
/// The ledger never interprets the bytes: an identifier is only compared for
/// equality, never ordered or decoded.
#[derive(Clone, Copy, Debug)]
pub struct AccountId {
    bytes: [u8; 32],
}

impl AccountId {
    /// The identifier's bytes, as a mathematical sequence.
    pub closed spec fn spec_bytes(self) -> Seq<u8> {
        self.bytes@
    }

    /// Two identifiers are equal exactly when their bytes are equal.
    pub proof fn lemma_eq_is_byte_eq(a: AccountId, b: AccountId)
        ensures
            a == b <==> a.spec_bytes() == b.spec_bytes(),
    {
        if a.spec_bytes() == b.spec_bytes() {
            assert(a.bytes =~= b.bytes);
        }
    }

    /// The identifier a given byte array denotes.
    pub closed spec fn spec_from_bytes(bytes: [u8; 32]) -> AccountId {
        AccountId { bytes }
    }

    /// Builds an identifier from its bytes.
    pub fn from_bytes(bytes: [u8; 32]) -> (r: AccountId)
        ensures
            r == AccountId::spec_from_bytes(bytes),
            r.spec_bytes() == bytes@,
    {
        AccountId { bytes }
    }

    /// Hands the identifier's bytes back to the host, which may need them
    /// to render or serialize the identifier.
    pub fn to_bytes(&self) -> (r: [u8; 32])
        ensures
            r@ == self.spec_bytes(),
    {
        self.bytes
    }
}

impl core::convert::From<[u8; 32]> for AccountId {
    fn from(bytes: [u8; 32]) -> (r: AccountId) {
        AccountId { bytes }
    }
}

impl vstd::std_specs::convert::FromSpecImpl<[u8; 32]> for AccountId {
    open spec fn obeys_from_spec() -> bool {
        true
    }

    open spec fn from_spec(bytes: [u8; 32]) -> AccountId {
        AccountId::spec_from_bytes(bytes)
    }
}

impl PartialEq for AccountId {
    fn eq(&self, other: &AccountId) -> (r: bool) {
        let mut i: usize = 0;
        while i < 32
            invariant
                i <= 32,
                forall|j: int| 0 <= j < i ==> self.bytes@[j] == other.bytes@[j],
            decreases 32 - i,
        {
            if self.bytes[i] != other.bytes[i] {
                return false;
            }
            i = i + 1;
        }
        proof {
            assert(self.bytes =~= other.bytes);
        }
        true
    }
}

impl Eq for AccountId {
}

impl vstd::std_specs::cmp::PartialEqSpecImpl for AccountId {
    open spec fn obeys_eq_spec() -> bool {
        true
    }

    open spec fn eq_spec(&self, other: &AccountId) -> bool {
        self == other
    }
}

} // verus!
