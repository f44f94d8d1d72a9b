//! The ledger network a payment identity lives on, with its payment-code
//! prefix and its coin constant in the derivation path.

use vstd::prelude::*;

use crate::crypto;

verus! {

/// The network of a payment identity.
#[derive(Clone, Copy, Debug, PartialEq, Eq, Structural)]
pub enum Network {
    /// The main network.
    Mainnet,
    /// The test network.
    Testnet,
}

impl Network {
    /// The human-readable prefix of payment codes on this network, as ASCII
    /// bytes: `pay` on the main network, `payt` on the test network.
    pub open spec fn spec_hrp(self) -> Seq<u8> {
        match self {
            Network::Mainnet => seq![112u8, 97u8, 121u8],
            Network::Testnet => seq![112u8, 97u8, 121u8, 116u8],
        }
    }

    /// The payment-code prefix of this network.
    pub fn hrp(self) -> (r: Vec<u8>)
        ensures
            r@ == self.spec_hrp(),
            crypto::lower_hrp(r@),
    {
        let mut r: Vec<u8> = Vec::new();
        r.push(112);
        r.push(97);
        r.push(121);
        if let Network::Testnet = self {
            r.push(116);
        }
        proof {
            assert(r@ =~= self.spec_hrp());
        }
        r
    }

    /// The network a payment-code prefix names, if any.
    pub open spec fn spec_from_hrp(hrp: Seq<u8>) -> Option<Network> {
        if hrp == Network::Mainnet.spec_hrp() {
            Some(Network::Mainnet)
        } else if hrp == Network::Testnet.spec_hrp() {
            Some(Network::Testnet)
        } else {
            None
        }
    }

    /// The network a payment-code prefix names, if any. Prefixes round-trip:
    /// every network is recovered from its own prefix.
    pub fn from_hrp(hrp: &Vec<u8>) -> (r: Option<Network>)
        ensures
            r == Self::spec_from_hrp(hrp@),
            r matches Some(n) ==> hrp@ == n.spec_hrp(),
            forall|n: Network| hrp@ == n.spec_hrp() ==> r == Some(n),
    {
        if hrp.len() == 3 && hrp[0] == 112 && hrp[1] == 97 && hrp[2] == 121 {
            proof {
                assert(hrp@ =~= Network::Mainnet.spec_hrp());
            }
            Some(Network::Mainnet)
        } else if hrp.len() == 4 && hrp[0] == 112 && hrp[1] == 97 && hrp[2] == 121 && hrp[3]
            == 116 {
            proof {
                assert(hrp@ =~= Network::Testnet.spec_hrp());
            }
            Some(Network::Testnet)
        } else {
            proof {
                assert(forall|n: Network| hrp@ != n.spec_hrp());
            }
            None
        }
    }

    /// Whether this is the main network.
    pub fn is_mainnet(self) -> (r: bool)
        ensures
            r == (self is Mainnet),
    {
        match self {
            Network::Mainnet => true,
            Network::Testnet => false,
        }
    }

    /// The hardened coin constant of this network in the derivation path.
    pub open spec fn spec_coin(self) -> u32 {
        match self {
            Network::Mainnet => 0,
            Network::Testnet => 1,
        }
    }

    /// The coin constant of this network.
    pub fn coin(self) -> (r: u32)
        ensures
            r == self.spec_coin(),
    {
        match self {
            Network::Mainnet => 0,
            Network::Testnet => 1,
        }
    }
}

} // verus!
