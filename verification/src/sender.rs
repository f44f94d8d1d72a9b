//! The sender side: from a wallet seed, derive the account key once; then,
//! per recipient, derive a relationship key, publish a notification, and
//! compute the recipient's one-time addresses.

use vstd::prelude::*;

use crate::address_type::AddressType;
use crate::crypto;
use crate::network::Network;
use crate::notification::Notification;
use crate::payment_code::PaymentCode;
use crate::util;
use crate::Error;
use crate::spec_index_pubkey;
use crate::spec_notification_payload;
use crate::spec_shared_secret;
use crate::HARDENED_BOUND;
use crate::PURPOSE;

verus! {

/// A sender identity: one hardened account branch of a seed.
#[derive(Debug)]
pub struct Sender {
    /// The account-level secret key.
    key: Vec<u8>,
    /// The account-level chain code, for per-recipient child derivation.
    chain_code: Vec<u8>,
    /// The network this sender operates on.
    network: Network,
}

/// The sender's view of an announced relationship: everything needed to
/// derive the one-time addresses, but no secret of the receiver.
#[derive(Debug)]
pub struct SenderCommitment {
    /// The per-relationship secret key `n_x`.
    sender_key: Vec<u8>,
    /// The receiver's payment-code public key.
    recipient_key: Vec<u8>,
    /// The address type committed to.
    address_type: AddressType,
}

impl SenderCommitment {
    #[verifier::type_invariant]
    spec fn inv(self) -> bool {
        &&& self.sender_key@.len() == 32
        &&& crypto::is_seckey(self.sender_key@)
        &&& self.recipient_key@.len() == 33
        &&& crypto::is_point(self.recipient_key@)
    }

    /// The per-relationship secret key.
    pub closed spec fn spec_sender_key(self) -> Seq<u8> {
        self.sender_key@
    }

    /// The receiver's public key.
    pub closed spec fn spec_recipient_key(self) -> Seq<u8> {
        self.recipient_key@
    }

    /// The committed address type.
    pub closed spec fn spec_address_type(self) -> AddressType {
        self.address_type
    }

    /// The committed address type.
    pub fn address_type(&self) -> (r: AddressType)
        ensures
            r == self.spec_address_type(),
    {
        self.address_type
    }

    /// Whether the one-time address at `index` can be derived: the per-index
    /// shared secret is a valid scalar and adding its point to the
    /// receiver's base key is defined. Both failures are statistically
    /// unreachable, index-local edge cases.
    pub open spec fn spec_derivable_at(self, index: u64) -> bool {
        let secret = spec_shared_secret(
            crypto::shared_point_of(self.spec_sender_key(), self.spec_recipient_key()),
            index,
        );
        &&& crypto::is_seckey(secret)
        &&& crypto::point_add_defined(self.spec_recipient_key(), crypto::pubkey_of(secret))
    }
}

impl Sender {
    #[verifier::type_invariant]
    spec fn inv(self) -> bool {
        &&& self.key@.len() == 32
        &&& crypto::is_seckey(self.key@)
        &&& self.chain_code@.len() == 32
    }

    /// The account-level secret key.
    pub closed spec fn spec_key(self) -> Seq<u8> {
        self.key@
    }

    /// The account-level chain code.
    pub closed spec fn spec_chain_code(self) -> Seq<u8> {
        self.chain_code@
    }

    /// The sender's network.
    pub closed spec fn spec_network(self) -> Network {
        self.network
    }

    /// The sender's network.
    pub fn network(&self) -> (r: Network)
        ensures
            r == self.spec_network(),
    {
        self.network
    }

    /// Derive a sender identity from a seed at the hardened path
    /// `purpose' / coin' / account'`.
    ///
    /// An empty seed and an account outside the hardened range are rejected;
    /// otherwise derivation succeeds up to the statistically unreachable
    /// out-of-range scalars of the underlying derivation.
    pub fn from_seed(seed: &Vec<u8>, network: Network, account: u32) -> (r: Result<Sender, Error>)
        ensures
            r is Ok <==> (seed@.len() > 0 && account < HARDENED_BOUND && crypto::seed_derivable(
                seed@,
            )),
            r == Err::<Sender, Error>(Error::EmptySeed) <==> seed@.len() == 0,
            r == Err::<Sender, Error>(Error::AccountOutOfRange) <==> (seed@.len() > 0 && account
                >= HARDENED_BOUND),
            r matches Ok(s) ==> {
                &&& s.spec_key() == crypto::hd_account_of(
                    seed@,
                    PURPOSE,
                    network.spec_coin(),
                    account,
                ).0
                &&& s.spec_chain_code() == crypto::hd_account_of(
                    seed@,
                    PURPOSE,
                    network.spec_coin(),
                    account,
                ).1
                &&& s.spec_network() == network
            },
            r matches Err(e) ==> (e == Error::EmptySeed || e == Error::AccountOutOfRange || e
                == Error::InvalidScalar),
    {
        if seed.len() == 0 {
            return Err(Error::EmptySeed);
        }
        if account >= HARDENED_BOUND {
            return Err(Error::AccountOutOfRange);
        }
        let coin = network.coin();
        match crypto::derive_account(seed, network.is_mainnet(), PURPOSE, coin, account) {
            Some(kc) => {
                let (key, chain_code) = kc;
                Ok(Sender { key, chain_code, network })
            },
            None => Err(Error::InvalidScalar),
        }
    }

    /// Announce a payment relationship: derive the per-recipient key `n_x`
    /// at the unhardened child `recipient_index`, compute the shared point
    /// with the receiver's key, and build the notification payload plus the
    /// commitment all further derivation runs on.
    ///
    /// The committed address type must be one the payment code accepts; an
    /// index outside the unhardened range is rejected.
    pub fn notify(
        &self,
        payment_code: &PaymentCode,
        recipient_index: u32,
        address_type: AddressType,
    ) -> (r: Result<(Notification, SenderCommitment), Error>)
        requires
            payment_code.pubkey@.len() == 33,
        ensures
            r is Ok <==> (recipient_index < HARDENED_BOUND
                && payment_code.address_types.spec_contains(address_type) && crypto::is_point(
                payment_code.pubkey@,
            )),
            r == Err::<(Notification, SenderCommitment), Error>(Error::AccountOutOfRange)
                <==> recipient_index >= HARDENED_BOUND,
            r == Err::<(Notification, SenderCommitment), Error>(Error::UnsupportedAddressType)
                <==> (recipient_index < HARDENED_BOUND
                && !payment_code.address_types.spec_contains(address_type)),
            r matches Ok(p) ==> {
                let n_x = crypto::ckd_normal_of(
                    self.spec_key(),
                    self.spec_chain_code(),
                    recipient_index,
                );
                &&& payment_code.address_types.spec_contains(address_type)
                &&& p.1.spec_sender_key() == n_x
                &&& p.1.spec_recipient_key() == payment_code.pubkey@
                &&& p.1.spec_address_type() == address_type
                &&& p.0.wf()
                &&& p.0.code@ == crypto::sha256_of(
                    crypto::shared_point_of(n_x, payment_code.pubkey@),
                ).subrange(0, 4)
                &&& p.0.sender_pubkey@ == crypto::pubkey_of(n_x)
                &&& p.0.address_type == address_type
                &&& Notification::spec_payload(
                    p.0.code@,
                    p.0.sender_pubkey@,
                    p.0.address_type.spec_tag(),
                ) == spec_notification_payload(n_x, payment_code.pubkey@, address_type)
                &&& crypto::is_seckey(n_x)
                &&& crypto::pubkey_of(n_x).len() == 33
                &&& crypto::sha256_of(
                    crypto::shared_point_of(n_x, payment_code.pubkey@),
                ).len() == 32
            },
            r == Err::<(Notification, SenderCommitment), Error>(Error::InvalidPoint)
                ==> !crypto::is_point(payment_code.pubkey@),
            r matches Err(e) ==> (e == Error::AccountOutOfRange || e
                == Error::UnsupportedAddressType || e == Error::InvalidScalar || e
                == Error::InvalidPoint),
    {
        proof {
            use_type_invariant(&*self);
        }
        if recipient_index >= HARDENED_BOUND {
            return Err(Error::AccountOutOfRange);
        }
        if !payment_code.address_types.contains(address_type) {
            return Err(Error::UnsupportedAddressType);
        }
        let sender_key = match crypto::ckd_normal(&self.key, &self.chain_code, recipient_index) {
            Some(k) => k,
            None => {
                return Err(Error::InvalidScalar);
            },
        };
        let sender_pubkey = match crypto::pubkey_create(&sender_key) {
            Some(k) => k,
            None => {
                return Err(Error::InvalidScalar);
            },
        };
        let spoint = match crypto::ecdh(&sender_key, &payment_code.pubkey) {
            Some(s) => s,
            None => {
                return Err(Error::InvalidPoint);
            },
        };
        let digest = crypto::sha256(&spoint);
        let code = util::copy_range(&digest, 0, 4);
        let notification = Notification {
            code,
            sender_pubkey,
            address_type,
        };
        let recipient_key = util::copy_range(&payment_code.pubkey, 0, payment_code.pubkey.len());
        proof {
            assert(recipient_key@ =~= payment_code.pubkey@);
        }
        let commitment = SenderCommitment { sender_key, recipient_key, address_type };
        Ok((notification, commitment))
    }

    /// The one-time address at an index, as the sender computes it: the
    /// receiver's base key plus the point of the per-index shared secret,
    /// encoded under the committed address type.
    pub open spec fn spec_address_at(
        self,
        commitment: SenderCommitment,
        index: u64,
    ) -> Seq<char> {
        commitment.spec_address_type().spec_address(
            spec_index_pubkey(
                commitment.spec_recipient_key(),
                crypto::shared_point_of(
                    commitment.spec_sender_key(),
                    commitment.spec_recipient_key(),
                ),
                index,
            ),
            self.spec_network(),
        )
    }

    /// The one-time address at `address_index` for an announced
    /// relationship: the receiver's base key plus the point of the per-index
    /// shared secret, encoded under the committed address type.
    ///
    /// Fails with `InvalidScalar` exactly when the per-index shared secret
    /// falls outside the curve order, and with `InvalidPoint` when the sum
    /// has no valid encoding — both index-local edge cases the caller may
    /// skip.
    pub fn address(&self, commitment: &SenderCommitment, address_index: u64) -> (r: Result<
        String,
        Error,
    >)
        ensures
            r is Ok <==> commitment.spec_derivable_at(address_index),
            r matches Ok(a) ==> a@ == self.spec_address_at(*commitment, address_index),
            r == Err::<String, Error>(Error::InvalidScalar) <==> !crypto::is_seckey(
                spec_shared_secret(
                    crypto::shared_point_of(
                        commitment.spec_sender_key(),
                        commitment.spec_recipient_key(),
                    ),
                    address_index,
                ),
            ),
            r matches Err(e) ==> (e == Error::InvalidScalar || e == Error::InvalidPoint),
    {
        proof {
            use_type_invariant(&*self);
            use_type_invariant(&*commitment);
        }
        let spoint = match crypto::ecdh(&commitment.sender_key, &commitment.recipient_key) {
            Some(s) => s,
            None => {
                proof {
                    assert(false);
                }
                return Err(Error::InvalidPoint);
            },
        };
        let mut buf: Vec<u8> = Vec::new();
        util::push_all(&mut buf, &spoint);
        let index_bytes = util::be64_bytes(address_index);
        util::push_all(&mut buf, &index_bytes);
        let shared_secret = crypto::sha256(&buf);
        let secret_point = match crypto::pubkey_create(&shared_secret) {
            Some(p) => p,
            None => {
                return Err(Error::InvalidScalar);
            },
        };
        let combined = match crypto::point_combine(&commitment.recipient_key, &secret_point) {
            Some(p) => p,
            None => {
                return Err(Error::InvalidPoint);
            },
        };
        match commitment.address_type.encode_address(&combined, self.network) {
            Some(a) => Ok(a),
            None => {
                proof {
                    assert(false);
                }
                Err(Error::InvalidPoint)
            },
        }
    }

    /// Consume this identity and overwrite its secret material.
    pub fn wipe(self) {
        let Sender { mut key, mut chain_code, network: _ } = self;
        util::wipe_bytes(&mut key);
        util::wipe_bytes(&mut chain_code);
    }

    /// The one-time addresses of an announced relationship over an inclusive
    /// index range, with the range default of `index_range`. A derivation
    /// edge case at any index aborts the whole call.
    pub fn addresses(&self, commitment: &SenderCommitment, first: u64, last: Option<u64>) -> (r:
        Result<Vec<(u64, String)>, Error>)
        ensures
            r is Ok <==> (forall|i: u64|
                first <= i <= (match last {
                    Option::Some(l) => if l >= first {
                        l
                    } else {
                        first
                    },
                    Option::None => first,
                }) ==> #[trigger] commitment.spec_derivable_at(i)),
            r matches Ok(v) ==> {
                let (start, end) = (
                    first,
                    match last {
                        Option::Some(l) => if l >= first {
                            l
                        } else {
                            first
                        },
                        Option::None => first,
                    },
                );
                &&& v@.len() == end - start + 1
                &&& forall|k: int|
                    0 <= k < v@.len() ==> (#[trigger] v@[k]).0 == start + k && v@[k].1@
                        == self.spec_address_at(*commitment, (start + k) as u64)
            },
            r matches Err(e) ==> (e == Error::InvalidScalar || e == Error::InvalidPoint),
    {
        let range = util::index_range(first, last);
        let (start, end) = range;
        let mut out: Vec<(u64, String)> = Vec::new();
        let mut c: u64 = start;
        while c < end
            invariant
                start <= c <= end,
                start == first,
                match last {
                    Option::Some(l) => end == if l >= first {
                        l
                    } else {
                        first
                    },
                    Option::None => end == first,
                },
                out@.len() == c - start,
                forall|i: u64| start <= i < c ==> #[trigger] commitment.spec_derivable_at(i),
                forall|k: int|
                    0 <= k < out@.len() ==> (#[trigger] out@[k]).0 == start + k && out@[k].1@
                        == self.spec_address_at(*commitment, (start + k) as u64),
            decreases end - c,
        {
            let a = match self.address(commitment, c) {
                Ok(a) => a,
                Err(e) => {
                    proof {
                        assert(!commitment.spec_derivable_at(c));
                        assert(first <= c <= end);
                        assert(!(forall|i: u64|
                            first <= i <= end ==> #[trigger] commitment.spec_derivable_at(i)));
                    }
                    return Err(e);
                },
            };
            out.push((c, a));
            c += 1;
        }
        let a = match self.address(commitment, end) {
            Ok(a) => a,
            Err(e) => {
                proof {
                    assert(!commitment.spec_derivable_at(end));
                    assert(!(forall|i: u64|
                        first <= i <= end ==> #[trigger] commitment.spec_derivable_at(i)));
                }
                return Err(e);
            },
        };
        out.push((end, a));
        Ok(out)
    }
}

/// Commitments are domain-separated by address type: two sender commitments
/// to different address types are different values, whatever keys they hold.
pub proof fn lemma_commitment_type_separation(c1: SenderCommitment, c2: SenderCommitment)
    requires
        c1.spec_address_type() != c2.spec_address_type(),
    ensures
        c1 != c2,
{
}

} // verus!
