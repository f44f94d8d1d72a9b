//! The closed enumeration of address types, the set of types a receiver
//! accepts, and the policy mapping each type to its address encoder.
//!
//! Each type owns one wire tag (a byte in the notification payload) and one
//! flag bit (in the payment code); the mappings here are the single point
//! where a new type would be added.

use vstd::prelude::*;

use crate::crypto;
use crate::network::Network;

verus! {

/// The script kinds a payment can be received to.
#[derive(Clone, Copy, Debug, Hash, PartialEq, Eq, Structural)]
pub enum AddressType {
    /// Legacy pay-to-public-key-hash.
    P2pkh,
    /// Segwit version 0 pay-to-witness-public-key-hash.
    P2wpkh,
    /// Taproot (segwit version 1) pay-to-taproot.
    P2tr,
}

impl AddressType {
    /// The wire tag of this type in a notification payload.
    pub open spec fn spec_tag(self) -> u8 {
        match self {
            AddressType::P2pkh => 0,
            AddressType::P2wpkh => 1,
            AddressType::P2tr => 2,
        }
    }

    /// The flag value of this type in a payment code: bit number `tag`.
    pub open spec fn spec_flag(self) -> u16 {
        match self {
            AddressType::P2pkh => 1,
            AddressType::P2wpkh => 2,
            AddressType::P2tr => 4,
        }
    }

    /// The wire tag of this type.
    pub fn tag(self) -> (r: u8)
        ensures
            r == self.spec_tag(),
    {
        match self {
            AddressType::P2pkh => 0,
            AddressType::P2wpkh => 1,
            AddressType::P2tr => 2,
        }
    }

    /// The type a wire tag names, if any.
    pub open spec fn spec_from_tag(tag: u8) -> Option<AddressType> {
        if tag == 0 {
            Some(AddressType::P2pkh)
        } else if tag == 1 {
            Some(AddressType::P2wpkh)
        } else if tag == 2 {
            Some(AddressType::P2tr)
        } else {
            None
        }
    }

    /// Parse a wire tag. Tags round-trip: every type is recovered from its
    /// own tag, and an unknown tag is rejected.
    pub fn from_tag(tag: u8) -> (r: Option<AddressType>)
        ensures
            r == Self::spec_from_tag(tag),
            r matches Some(t) ==> t.spec_tag() == tag,
            forall|t: AddressType| tag == t.spec_tag() ==> r == Some(t),
    {
        if tag == 0 {
            Some(AddressType::P2pkh)
        } else if tag == 1 {
            Some(AddressType::P2wpkh)
        } else if tag == 2 {
            Some(AddressType::P2tr)
        } else {
            None
        }
    }

    /// The textual address of a compressed public key under this type's
    /// encoding rule, on the given network.
    pub open spec fn spec_address(self, pk: Seq<u8>, network: Network) -> Seq<char> {
        match self {
            AddressType::P2pkh => crypto::p2pkh_addr_of(pk, network is Mainnet),
            AddressType::P2wpkh => crypto::p2wpkh_addr_of(pk, network is Mainnet),
            AddressType::P2tr => crypto::p2tr_addr_of(pk, network is Mainnet),
        }
    }

    /// Encode a public key as an address of this type. Encoding is owed for
    /// every valid curve point.
    pub fn encode_address(self, pk: &Vec<u8>, network: Network) -> (r: Option<String>)
        requires
            pk@.len() == 33,
        ensures
            crypto::is_point(pk@) ==> r is Some,
            r matches Some(a) ==> a@ == self.spec_address(pk@, network),
    {
        let mainnet = network.is_mainnet();
        match self {
            AddressType::P2pkh => crypto::p2pkh_address(pk, mainnet),
            AddressType::P2wpkh => crypto::p2wpkh_address(pk, mainnet),
            AddressType::P2tr => crypto::p2tr_address(pk, mainnet),
        }
    }
}

/// The set of address types a receiver accepts. An empty set is legal, but a
/// payment code with one can receive no notification.
#[derive(Clone, Copy, Debug, PartialEq, Eq, Structural)]
pub struct AddressTypeSet {
    /// Whether legacy addresses are accepted.
    pub p2pkh: bool,
    /// Whether segwit version 0 addresses are accepted.
    pub p2wpkh: bool,
    /// Whether taproot addresses are accepted.
    pub p2tr: bool,
}

impl AddressTypeSet {
    /// The empty set.
    pub fn empty() -> (r: AddressTypeSet)
        ensures
            forall|t: AddressType| !r.spec_contains(t),
    {
        AddressTypeSet { p2pkh: false, p2wpkh: false, p2tr: false }
    }

    /// Whether `t` is in the set.
    pub open spec fn spec_contains(self, t: AddressType) -> bool {
        match t {
            AddressType::P2pkh => self.p2pkh,
            AddressType::P2wpkh => self.p2wpkh,
            AddressType::P2tr => self.p2tr,
        }
    }

    /// Whether `t` is in the set.
    pub fn contains(&self, t: AddressType) -> (r: bool)
        ensures
            r == self.spec_contains(t),
    {
        match t {
            AddressType::P2pkh => self.p2pkh,
            AddressType::P2wpkh => self.p2wpkh,
            AddressType::P2tr => self.p2tr,
        }
    }

    /// Add `t` to the set.
    pub fn insert(&mut self, t: AddressType)
        ensures
            final(self).spec_contains(t),
            forall|u: AddressType|
                u != t ==> final(self).spec_contains(u) == old(self).spec_contains(u),
    {
        match t {
            AddressType::P2pkh => self.p2pkh = true,
            AddressType::P2wpkh => self.p2wpkh = true,
            AddressType::P2tr => self.p2tr = true,
        }
    }

    /// The flag word of the set: the sum of the member types' flag bits.
    pub open spec fn spec_flags(self) -> u16 {
        (((if self.p2pkh {
            1u16
        } else {
            0u16
        }) + (if self.p2wpkh {
            2u16
        } else {
            0u16
        })) + (if self.p2tr {
            4u16
        } else {
            0u16
        })) as u16
    }

    /// The flag word of the set.
    pub fn to_flags(&self) -> (r: u16)
        ensures
            r == self.spec_flags(),
            r < 8,
    {
        let mut r: u16 = 0;
        if self.p2pkh {
            r += 1;
        }
        if self.p2wpkh {
            r += 2;
        }
        if self.p2tr {
            r += 4;
        }
        r
    }

    /// The set a flag word names. Each type is named by its own bit; bits
    /// above the known types are ignored.
    pub open spec fn spec_from_flags(flags: u16) -> AddressTypeSet {
        AddressTypeSet {
            p2pkh: flags % 2 == 1,
            p2wpkh: (flags / 2) % 2 == 1,
            p2tr: (flags / 4) % 2 == 1,
        }
    }

    /// Parse a flag word.
    pub fn from_flags(flags: u16) -> (r: AddressTypeSet)
        ensures
            r == Self::spec_from_flags(flags),
    {
        AddressTypeSet {
            p2pkh: flags % 2 == 1,
            p2wpkh: (flags / 2) % 2 == 1,
            p2tr: (flags / 4) % 2 == 1,
        }
    }
}

/// The flag encoding is lossless: every set is recovered from its own flag
/// word.
pub proof fn lemma_flags_roundtrip(s: AddressTypeSet)
    ensures
        AddressTypeSet::spec_from_flags(s.spec_flags()) == s,
{
}

} // verus!
