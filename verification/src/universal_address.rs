use vstd::prelude::*;

use crate::pubkey::Pubkey;

verus! {

/// A 32-byte address that can name an account on any chain.
#[derive(Clone, Copy, Debug, PartialEq, Eq)]
pub struct UniversalAddress {
    /// The raw 32-byte address
    pub bytes: [u8; 32],
}

impl UniversalAddress {
    /// The universal address that carries the bytes of a key.
    pub open spec fn spec_from_pubkey(pubkey: Pubkey) -> UniversalAddress {
        UniversalAddress { bytes: pubkey.bytes }
    }

    /// The key that carries the bytes of this address.
    pub open spec fn spec_to_pubkey(self) -> Pubkey {
        Pubkey { bytes: self.bytes }
    }

    /// Creates a UniversalAddress from a Solana Pubkey
    pub fn from_pubkey(pubkey: &Pubkey) -> (r: Self)
        ensures
            r == Self::spec_from_pubkey(*pubkey),
    {
        Self { bytes: pubkey.to_bytes() }
    }

    /// Converts the UniversalAddress back to a Solana Pubkey
    pub fn to_pubkey(&self) -> (r: Pubkey)
        ensures
            r == self.spec_to_pubkey(),
    {
        Pubkey::new_from_array(self.bytes)
    }

    /// Creates a UniversalAddress from raw bytes
    pub fn from_bytes(bytes: [u8; 32]) -> (r: Self)
        ensures
            r.bytes == bytes,
    {
        Self { bytes }
    }

    /// Returns the raw bytes of the UniversalAddress
    pub fn to_bytes(&self) -> (r: [u8; 32])
        ensures
            r == self.bytes,
    {
        self.bytes
    }
}

impl Default for UniversalAddress {
    fn default() -> (r: Self)
        ensures
            forall|i: int| 0 <= i < 32 ==> r.bytes[i] == 0u8,
    {
        UniversalAddress { bytes: [0u8; 32] }
    }
}

impl From<Pubkey> for UniversalAddress {
    fn from(pubkey: Pubkey) -> (r: Self) {
        Self::from_pubkey(&pubkey)
    }
}

impl vstd::std_specs::convert::FromSpecImpl<Pubkey> for UniversalAddress {
    open spec fn obeys_from_spec() -> bool {
        true
    }

    open spec fn from_spec(pubkey: Pubkey) -> Self {
        UniversalAddress::spec_from_pubkey(pubkey)
    }
}

impl From<UniversalAddress> for Pubkey {
    fn from(addr: UniversalAddress) -> (r: Self) {
        addr.to_pubkey()
    }
}

impl vstd::std_specs::convert::FromSpecImpl<UniversalAddress> for Pubkey {
    open spec fn obeys_from_spec() -> bool {
        true
    }

    open spec fn from_spec(addr: UniversalAddress) -> Self {
        addr.spec_to_pubkey()
    }
}

/// Turning a key into a universal address and back gives the key.
pub proof fn lemma_pubkey_roundtrip(pubkey: Pubkey)
    ensures
        UniversalAddress::spec_from_pubkey(pubkey).spec_to_pubkey() == pubkey,
{
}

/// Turning a universal address into a key and back gives the address.
pub proof fn lemma_address_roundtrip(addr: UniversalAddress)
    ensures
        UniversalAddress::spec_from_pubkey(addr.spec_to_pubkey()) == addr,
{
}

} // verus!
