//! A deterministic stealth-payment derivation engine.
//!
//! A receiver publishes a reusable payment code derived from a wallet seed.
//! A sender, knowing only that code, publishes an on-chain notification and
//! derives a sequence of one-time payment addresses; the receiver detects the
//! notification, re-derives the same commitment, and can recover both the
//! addresses and their private keys.
//!
//! Elliptic-curve arithmetic, hashing, hierarchical key derivation and the
//! textual address encodings are supplied by outside collaborators behind
//! trusted wrappers; everything else — the codecs, the policy checks and the
//! derivation pipeline — is verified.

use vstd::prelude::*;

pub mod address_type;
pub mod crypto;
pub mod hexstr;
pub mod network;
pub mod notification;
pub mod payment_code;
pub mod recipient;
pub mod sender;
pub mod util;

verus! {

/// Everything that can go wrong in the engine.
///
/// The variants fall into three groups:
/// - input errors (user-correctable): `EmptySeed`, `AccountOutOfRange`,
///   `InvalidHex`;
/// - decode errors (corrupt encodings, terminal for that input):
///   `NotBech32m`, `UnknownNetwork`, `WrongPayloadLength`, `InvalidPublicKey`;
/// - derivation errors (arithmetic edge cases on the curve):
///   `InvalidScalar`, `InvalidPoint`, `UnsupportedAddressType`.
///
/// The expected "this script is not a notification for me" outcome is not an
/// error: detection returns `Option::None` for it.
#[derive(Clone, Copy, Debug, PartialEq, Eq, Structural)]
pub enum Error {
    /// The seed was empty; a seed must hold at least one byte.
    EmptySeed,
    /// The account index is outside the hardened derivation range.
    AccountOutOfRange,
    /// A hex string held a non-digit or an odd number of digits.
    InvalidHex,
    /// The text is not a well-formed checksummed payment code string.
    NotBech32m,
    /// The payment code prefix names no known network.
    UnknownNetwork,
    /// A binary payload was truncated or had trailing garbage.
    WrongPayloadLength,
    /// A public key field does not encode a point on the curve.
    InvalidPublicKey,
    /// A derived scalar fell outside the curve order.
    InvalidScalar,
    /// A point operation had no valid result.
    InvalidPoint,
    /// The requested address type is not accepted by the payment code.
    UnsupportedAddressType,
}

/// The hardened purpose constant that roots every derivation path of this
/// protocol: `purpose' / coin' / account'`.
pub const PURPOSE: u32 = 351;

/// The hardened derivation range: child indices must stay below this bound.
pub const HARDENED_BOUND: u32 = 0x8000_0000;

/// The per-index shared secret: the digest of the shared point followed by
/// the big-endian address index. Binding the index into the hash separates
/// the key spaces of distinct indices.
pub open spec fn spec_shared_secret(spoint: Seq<u8>, index: u64) -> Seq<u8> {
    crypto::sha256_of(spoint + util::spec_be64(index))
}

/// The one-time public key at an index: the commitment's base key plus the
/// point of the per-index shared secret. Both sides compute this same value;
/// only the receiver can also compute the matching private scalar.
pub open spec fn spec_index_pubkey(base: Seq<u8>, spoint: Seq<u8>, index: u64) -> Seq<u8> {
    crypto::point_add_of(base, crypto::pubkey_of(spec_shared_secret(spoint, index)))
}

/// Per-index domain separation: for one commitment base, the inputs to the
/// per-index shared-secret hash are pairwise distinct across indices, so no
/// two indices ever share a hash preimage.
pub proof fn lemma_index_domain_separation(spoint: Seq<u8>, i: u64, j: u64)
    requires
        i != j,
    ensures
        spoint + util::spec_be64(i) != spoint + util::spec_be64(j),
{
    util::lemma_be64_injective(i, j);
    let si = spoint + util::spec_be64(i);
    let sj = spoint + util::spec_be64(j);
    if si == sj {
        assert(util::spec_be64(i) =~= util::spec_be64(j)) by {
            assert forall|k: int| 0 <= k < 8 implies util::spec_be64(i)[k] == util::spec_be64(
                j,
            )[k] by {
                assert(si[spoint.len() + k] == sj[spoint.len() + k]);
            }
        }
    }
}

/// The notification payload a sender with relationship key `n_x` publishes
/// for a receiver whose payment code holds `recipient_pk`.
pub open spec fn spec_notification_payload(
    n_x: Seq<u8>,
    recipient_pk: Seq<u8>,
    t: address_type::AddressType,
) -> Seq<u8> {
    notification::Notification::spec_payload(
        crypto::sha256_of(crypto::shared_point_of(n_x, recipient_pk)).subrange(0, 4),
        crypto::pubkey_of(n_x),
        t.spec_tag(),
    )
}

/// When one full two-sided run of the protocol succeeds: the inputs pass
/// their checks, both seeds derive, and the per-index scalars at
/// `address_index` are in range on both sides. Everything beyond the input
/// checks is a statistically unreachable edge case of the curve arithmetic.
pub open spec fn spec_both_sides_derivable(
    receiver_seed: Seq<u8>,
    sender_seed: Seq<u8>,
    network: network::Network,
    account: u32,
    address_types: address_type::AddressTypeSet,
    recipient_index: u32,
    address_type: address_type::AddressType,
    address_index: u64,
) -> bool {
    let p = crypto::hd_account_of(receiver_seed, PURPOSE, network.spec_coin(), account).0;
    let s_acct = crypto::hd_account_of(sender_seed, PURPOSE, network.spec_coin(), account);
    let n_x = crypto::ckd_normal_of(s_acct.0, s_acct.1, recipient_index);
    let base = crypto::pubkey_of(p);
    let sender_secret = spec_shared_secret(crypto::shared_point_of(n_x, base), address_index);
    let receiver_secret = spec_shared_secret(
        crypto::shared_point_of(p, crypto::pubkey_of(n_x)),
        address_index,
    );
    &&& address_types.spec_contains(address_type)
    &&& receiver_seed.len() > 0
    &&& sender_seed.len() > 0
    &&& account < HARDENED_BOUND
    &&& recipient_index < HARDENED_BOUND
    &&& crypto::seed_derivable(receiver_seed)
    &&& crypto::seed_derivable(sender_seed)
    &&& crypto::is_seckey(sender_secret)
    &&& crypto::point_add_defined(base, crypto::pubkey_of(sender_secret))
    &&& crypto::is_seckey(receiver_secret)
    &&& crypto::is_seckey(crypto::scalar_add_of(p, receiver_secret))
}

/// Run the whole protocol once, independently on both sides, and return the
/// one-time address each side computed at `address_index`.
///
/// The receiver derives its identity from `receiver_seed` and publishes a
/// payment code; the sender derives its own identity from `sender_seed`,
/// announces the relationship at `recipient_index` under `address_type`, and
/// computes the address; the receiver detects the announcement from the raw
/// script alone and re-derives. The contract is the symmetry law of the
/// protocol: whenever both pipelines complete, the two addresses are equal —
/// and completion itself is owed exactly on the inputs
/// `spec_both_sides_derivable` names, with detection proved to succeed.
pub fn derive_both_sides(
    receiver_seed: &Vec<u8>,
    sender_seed: &Vec<u8>,
    network: network::Network,
    account: u32,
    address_types: address_type::AddressTypeSet,
    recipient_index: u32,
    address_type: address_type::AddressType,
    address_index: u64,
) -> (r: Option<(String, String)>)
    ensures
        r is Some <==> spec_both_sides_derivable(
            receiver_seed@,
            sender_seed@,
            network,
            account,
            address_types,
            recipient_index,
            address_type,
            address_index,
        ),
        r matches Some(p) ==> p.0@ == p.1@,
{
    if !address_types.contains(address_type) {
        return None;
    }
    let receiver = match recipient::Recipient::from_seed(
        receiver_seed,
        network,
        account,
        address_types,
    ) {
        Ok(x) => x,
        Err(_) => {
            return None;
        },
    };
    let sender = match sender::Sender::from_seed(sender_seed, network, account) {
        Ok(x) => x,
        Err(_) => {
            return None;
        },
    };
    let code = receiver.payment_code();
    let announced = match sender.notify(&code, recipient_index, address_type) {
        Ok(x) => x,
        Err(_) => {
            return None;
        },
    };
    let (note, sender_commitment) = announced;
    let script = note.to_script();
    proof {
        let n_x = crypto::ckd_normal_of(
            sender.spec_key(),
            sender.spec_chain_code(),
            recipient_index,
        );
        assert(receiver.spec_script_addressed_to(script@, n_x, address_type));
    }
    let receiver_commitment = match receiver.detect_notification(&script) {
        Some(c) => c,
        None => {
            proof {
                assert(false);
            }
            return None;
        },
    };
    let sender_address = match sender.address(&sender_commitment, address_index) {
        Ok(a) => a,
        Err(_) => {
            return None;
        },
    };
    let info = match receiver.key_info(&receiver_commitment, address_index) {
        Ok(o) => o,
        Err(_) => {
            return None;
        },
    };
    proof {
        let n_x = crypto::ckd_normal_of(
            sender.spec_key(),
            sender.spec_chain_code(),
            recipient_index,
        );
        assert(info.1@ == spec_index_pubkey(
            receiver.spec_pubkey(),
            crypto::shared_point_of(n_x, receiver.spec_pubkey()),
            address_index,
        ));
        assert(sender_address@ == info.0@);
    }
    Some((sender_address, info.0))
}

} // verus!
