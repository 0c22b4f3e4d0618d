//! Account identities: 32-byte addresses compared byte for byte.

use vstd::prelude::*;

verus! {

/// A 32-byte account address. Two identities are the same account exactly
/// when all 32 bytes agree.
#[derive(Clone, Copy, Debug, Eq)]
pub struct Identity {
    pub bytes: [u8; 32],
}

impl View for Identity {
    type V = Seq<u8>;

    open spec fn view(&self) -> Seq<u8> {
        self.bytes@
    }
}

impl PartialEq for Identity {
    fn eq(&self, other: &Identity) -> (r: bool) {
        let mut i: usize = 0;
        while i < 32
            invariant
                i <= 32,
                forall|j: int| 0 <= j < i ==> self.bytes@[j] == other.bytes@[j],
            decreases 32 - i,
        {
            if self.bytes[i] != other.bytes[i] {
                return false;
            }
            i += 1;
        }
        proof {
            assert(self.bytes =~= other.bytes);
        }
        true
    }
}

impl vstd::std_specs::cmp::PartialEqSpecImpl for Identity {
    open spec fn obeys_eq_spec() -> bool {
        true
    }

    open spec fn eq_spec(&self, other: &Identity) -> bool {
        *self == *other
    }
}

impl Identity {
    /// The identity made of the given bytes.
    pub fn new(bytes: [u8; 32]) -> (r: Identity)
        ensures
            r.bytes == bytes,
    {
        Identity { bytes }
    }
}

/// Address of the legacy-class asset that this deployment exchanges.
pub const MEA_SPL_MINT: [u8; 32] = [
    91, 24, 245, 219, 12, 236, 232, 78, 131, 231, 184, 22, 42, 172, 149, 188,
    90, 249, 127, 203, 208, 153, 242, 130, 172, 239, 89, 193, 82, 75, 120, 163,
];

/// Address of the extended-class asset that this deployment exchanges.
pub const MEA_SPL2022_MINT: [u8; 32] = [
    147, 108, 213, 134, 185, 32, 44, 141, 174, 92, 118, 193, 3, 87, 58, 28,
    133, 162, 118, 241, 151, 191, 119, 43, 137, 178, 163, 100, 125, 219, 93, 242,
];

/// Address under which the exchange itself is deployed; pool authorities are
/// derived from it.
pub const PROGRAM_ID: [u8; 32] = [
    40, 208, 57, 31, 139, 178, 228, 231, 101, 237, 23, 188, 94, 132, 224, 219,
    18, 149, 232, 193, 94, 26, 91, 185, 106, 165, 10, 62, 178, 243, 162, 146,
];

/// The two asset types of the exchange.
#[derive(Clone, Copy, Debug, PartialEq, Eq, Structural)]
pub enum Asset {
    /// The legacy-class asset.
    Spl,
    /// The extended-class asset, moved with an identity and precision check.
    Spl2022,
}

impl Asset {
    /// The fixed address of this asset.
    pub open spec fn spec_mint(self) -> Identity {
        match self {
            Asset::Spl => Identity { bytes: MEA_SPL_MINT },
            Asset::Spl2022 => Identity { bytes: MEA_SPL2022_MINT },
        }
    }

    /// The fixed address of this asset.
    #[verifier::when_used_as_spec(spec_mint)]
    pub fn mint(self) -> (r: Identity)
        ensures
            r == self.spec_mint(),
    {
        match self {
            Asset::Spl => Identity { bytes: MEA_SPL_MINT },
            Asset::Spl2022 => Identity { bytes: MEA_SPL2022_MINT },
        }
    }

    /// The asset on the other side of the exchange.
    pub open spec fn spec_other(self) -> Asset {
        match self {
            Asset::Spl => Asset::Spl2022,
            Asset::Spl2022 => Asset::Spl,
        }
    }

    /// The asset on the other side of the exchange.
    #[verifier::when_used_as_spec(spec_other)]
    pub fn other(self) -> (r: Asset)
        ensures
            r == self.spec_other(),
    {
        match self {
            Asset::Spl => Asset::Spl2022,
            Asset::Spl2022 => Asset::Spl,
        }
    }
}

} // verus!
