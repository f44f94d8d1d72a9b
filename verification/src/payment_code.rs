//! The payment code: the reusable, shareable identity of a receiver.
//!
//! It wraps the receiver's compressed public key and the set of address
//! types the receiver accepts, and serializes to a checksummed text string:
//! a two-byte big-endian flag word followed by the 33-byte key, carried in a
//! bech32m envelope whose prefix names the network.

use vstd::prelude::*;

use crate::address_type::AddressTypeSet;
use crate::crypto;
use crate::network::Network;
use crate::util;
use crate::Error;

verus! {

/// A receiver's public payment identity.
#[derive(Clone, Debug)]
pub struct PaymentCode {
    /// The receiver's compressed public key.
    pub pubkey: Vec<u8>,
    /// The network the receiver operates on.
    pub network: Network,
    /// The address types the receiver accepts.
    pub address_types: AddressTypeSet,
}

impl PaymentCode {
    /// Well-formedness: the key is a 33-byte encoding of a curve point.
    pub open spec fn wf(self) -> bool {
        &&& self.pubkey@.len() == 33
        &&& crypto::is_point(self.pubkey@)
    }

    /// Build a payment code from its parts, validating the key.
    pub fn new(pubkey: Vec<u8>, network: Network, address_types: AddressTypeSet) -> (r: Result<
        PaymentCode,
        Error,
    >)
        ensures
            r matches Ok(pc) ==> {
                &&& pc.wf()
                &&& pc.pubkey@ == pubkey@
                &&& pc.network == network
                &&& pc.address_types == address_types
            },
            r is Err <==> !(pubkey@.len() == 33 && crypto::is_point(pubkey@)),
            r matches Err(e) ==> e == Error::InvalidPublicKey,
    {
        if pubkey.len() != 33 {
            return Err(Error::InvalidPublicKey);
        }
        if !crypto::check_pubkey(&pubkey) {
            return Err(Error::InvalidPublicKey);
        }
        Ok(PaymentCode { pubkey, network, address_types })
    }

    /// The address types this code accepts.
    pub fn address_types(&self) -> (r: AddressTypeSet)
        ensures
            r == self.address_types,
    {
        self.address_types
    }

    /// The 35-byte binary payload: the big-endian flag word, then the key.
    pub open spec fn spec_payload(flags: u16, pk: Seq<u8>) -> Seq<u8> {
        seq![(flags / 256) as u8, (flags % 256) as u8] + pk
    }

    /// The text encoding of a payment code with these fields.
    pub open spec fn spec_text(self) -> Seq<char> {
        crypto::bech32m_of(
            self.network.spec_hrp(),
            Self::spec_payload(self.address_types.spec_flags(), self.pubkey@),
        )
    }

    /// Encode this payment code as its checksummed text string.
    pub fn to_text(&self) -> (r: String)
        requires
            self.pubkey@.len() == 33,
        ensures
            r@ == self.spec_text(),
    {
        let flags = self.address_types.to_flags();
        let mut payload: Vec<u8> = Vec::new();
        payload.push((flags / 256) as u8);
        payload.push((flags % 256) as u8);
        util::push_all(&mut payload, &self.pubkey);
        proof {
            assert(payload@ =~= Self::spec_payload(self.address_types.spec_flags(), self.pubkey@));
        }
        let hrp = self.network.hrp();
        crypto::bech32m_encode(&hrp, &payload)
    }

    /// Decode a payment code from its text form.
    ///
    /// The decoding inverts `to_text` on every well-formed payment code; a
    /// corrupted or truncated string is rejected with the stage that failed,
    /// never patched up with defaults.
    pub fn from_text(s: &str) -> (r: Result<PaymentCode, Error>)
        ensures
            r matches Ok(pc) ==> pc.wf(),
            forall|pc: PaymentCode|
                pc.wf() && s@ == #[trigger] pc.spec_text() ==> (r matches Ok(q) && q.pubkey@
                    == pc.pubkey@ && q.network == pc.network && q.address_types
                    == pc.address_types),
            r matches Ok(pc) ==> (crypto::bech32m_parse_of(s@) matches Some(hd)
                && Network::spec_from_hrp(hd.0) == Some(pc.network) && hd.1.len() == 35
                && pc.pubkey@ == hd.1.subrange(2, 35) && pc.address_types
                == AddressTypeSet::spec_from_flags(
                (((hd.1[0] as u16) * 256) + (hd.1[1] as u16)) as u16,
            )),
            r == Err::<PaymentCode, Error>(Error::NotBech32m) <==> crypto::bech32m_parse_of(s@)
                is None,
            r == Err::<PaymentCode, Error>(Error::UnknownNetwork) <==> (crypto::bech32m_parse_of(
                s@,
            ) matches Some(hd) && Network::spec_from_hrp(hd.0) is None),
            r == Err::<PaymentCode, Error>(Error::WrongPayloadLength) <==> (
            crypto::bech32m_parse_of(s@) matches Some(hd) && Network::spec_from_hrp(hd.0) is Some
                && hd.1.len() != 35),
            r == Err::<PaymentCode, Error>(Error::InvalidPublicKey) <==> (crypto::bech32m_parse_of(
                s@,
            ) matches Some(hd) && Network::spec_from_hrp(hd.0) is Some && hd.1.len() == 35
                && !crypto::is_point(hd.1.subrange(2, 35))),
    {
        let decoded = match crypto::bech32m_decode(s) {
            Some(hd) => hd,
            None => {
                return Err(Error::NotBech32m);
            },
        };
        let (hrp, data) = decoded;
        let network = match Network::from_hrp(&hrp) {
            Some(n) => n,
            None => {
                return Err(Error::UnknownNetwork);
            },
        };
        if data.len() != 35 {
            return Err(Error::WrongPayloadLength);
        }
        let flags: u16 = (data[0] as u16) * 256 + (data[1] as u16);
        let address_types = AddressTypeSet::from_flags(flags);
        let pubkey = util::copy_range(&data, 2, 35);
        if !crypto::check_pubkey(&pubkey) {
            proof {
                assert forall|pc: PaymentCode|
                    pc.wf() && s@ == #[trigger] pc.spec_text() implies false by {
                    assert(data@ == Self::spec_payload(
                        pc.address_types.spec_flags(),
                        pc.pubkey@,
                    ));
                    assert(pubkey@ =~= pc.pubkey@);
                }
            }
            return Err(Error::InvalidPublicKey);
        }
        proof {
            assert forall|pc: PaymentCode| pc.wf() && s@ == #[trigger] pc.spec_text() implies {
                &&& hrp@ == pc.network.spec_hrp()
                &&& data@ == Self::spec_payload(pc.address_types.spec_flags(), pc.pubkey@)
            } by {}
            assert forall|pc: PaymentCode|
                pc.wf() && data@ == Self::spec_payload(
                    pc.address_types.spec_flags(),
                    pc.pubkey@,
                ) implies {
                &&& flags == pc.address_types.spec_flags()
                &&& pubkey@ == pc.pubkey@
            } by {
                let f = pc.address_types.spec_flags();
                assert(data@[0] == (f / 256) as u8 && data@[1] == (f % 256) as u8);
                assert(f < 8);
                assert(flags == f);
                assert(pubkey@ =~= pc.pubkey@);
            }
        }
        Ok(PaymentCode { pubkey, network, address_types })
    }
}

} // verus!
