//! The receiver side: from a wallet seed, derive the payment identity once;
//! publish its payment code; detect notifications addressed to it; and for
//! any index recover the one-time address together with its private key.

use vstd::prelude::*;

use crate::address_type::{AddressType, AddressTypeSet};
use crate::crypto;
use crate::network::Network;
use crate::notification::Notification;
use crate::payment_code::PaymentCode;
use crate::util;
use crate::Error;
use crate::spec_index_pubkey;
use crate::spec_notification_payload;
use crate::spec_shared_secret;
use crate::HARDENED_BOUND;
use crate::PURPOSE;

verus! {

/// A receiver identity: one hardened account branch of a seed, plus the
/// address types it accepts.
#[derive(Debug)]
pub struct Recipient {
    /// The account-level secret key `p`.
    key: Vec<u8>,
    /// The public key `P` of `key`: the payment-code key.
    pubkey: Vec<u8>,
    /// The network this receiver operates on.
    network: Network,
    /// The address types this receiver accepts notifications for.
    address_types: AddressTypeSet,
}

/// The receiver's view of a detected relationship: the sender's published
/// contribution key and the committed address type.
#[derive(Debug)]
pub struct RecipientCommitment {
    /// The sender's contribution public key `N_x`.
    sender_key: Vec<u8>,
    /// The committed address type.
    address_type: AddressType,
}

impl RecipientCommitment {
    #[verifier::type_invariant]
    spec fn inv(self) -> bool {
        &&& self.sender_key@.len() == 33
        &&& crypto::is_point(self.sender_key@)
    }

    /// The sender's contribution public key.
    pub closed spec fn spec_sender_key(self) -> Seq<u8> {
        self.sender_key@
    }

    /// The committed address type.
    pub closed spec fn spec_address_type(self) -> AddressType {
        self.address_type
    }

    /// The committed address type.
    pub fn address_type(&self) -> (r: AddressType)
        ensures
            r == self.spec_address_type(),
    {
        self.address_type
    }
}

impl Recipient {
    #[verifier::type_invariant]
    spec fn inv(self) -> bool {
        &&& self.key@.len() == 32
        &&& crypto::is_seckey(self.key@)
        &&& self.pubkey@.len() == 33
        &&& self.pubkey@ == crypto::pubkey_of(self.key@)
        &&& crypto::is_point(self.pubkey@)
    }

    /// The account-level secret key.
    pub closed spec fn spec_key(self) -> Seq<u8> {
        self.key@
    }

    /// The payment-code public key.
    pub closed spec fn spec_pubkey(self) -> Seq<u8> {
        self.pubkey@
    }

    /// The receiver's network.
    pub closed spec fn spec_network(self) -> Network {
        self.network
    }

    /// The accepted address types.
    pub closed spec fn spec_address_types(self) -> AddressTypeSet {
        self.address_types
    }

    /// The receiver's network.
    pub fn network(&self) -> (r: Network)
        ensures
            r == self.spec_network(),
    {
        self.network
    }

    /// The accepted address types.
    pub fn address_types(&self) -> (r: AddressTypeSet)
        ensures
            r == self.spec_address_types(),
    {
        self.address_types
    }

    /// Derive a receiver identity from a seed at the hardened path
    /// `purpose' / coin' / account'`, accepting the given address types.
    ///
    /// An empty seed and an account outside the hardened range are rejected;
    /// otherwise derivation succeeds up to the statistically unreachable
    /// out-of-range scalars of the underlying derivation.
    pub fn from_seed(
        seed: &Vec<u8>,
        network: Network,
        account: u32,
        address_types: AddressTypeSet,
    ) -> (r: Result<Recipient, Error>)
        ensures
            r is Ok <==> (seed@.len() > 0 && account < HARDENED_BOUND && crypto::seed_derivable(
                seed@,
            )),
            r == Err::<Recipient, Error>(Error::EmptySeed) <==> seed@.len() == 0,
            r == Err::<Recipient, Error>(Error::AccountOutOfRange) <==> (seed@.len() > 0 && account
                >= HARDENED_BOUND),
            r matches Ok(p) ==> {
                &&& p.spec_key() == crypto::hd_account_of(
                    seed@,
                    PURPOSE,
                    network.spec_coin(),
                    account,
                ).0
                &&& p.spec_pubkey() == crypto::pubkey_of(p.spec_key())
                &&& p.spec_network() == network
                &&& p.spec_address_types() == address_types
            },
            r matches Err(e) ==> (e == Error::EmptySeed || e == Error::AccountOutOfRange || e
                == Error::InvalidScalar),
    {
        if seed.len() == 0 {
            return Err(Error::EmptySeed);
        }
        if account >= HARDENED_BOUND {
            return Err(Error::AccountOutOfRange);
        }
        let coin = network.coin();
        let kc = match crypto::derive_account(seed, network.is_mainnet(), PURPOSE, coin, account) {
            Some(kc) => kc,
            None => {
                return Err(Error::InvalidScalar);
            },
        };
        let (key, _chain_code) = kc;
        let pubkey = match crypto::pubkey_create(&key) {
            Some(k) => k,
            None => {
                proof {
                    assert(false);
                }
                return Err(Error::InvalidScalar);
            },
        };
        Ok(Recipient { key, pubkey, network, address_types })
    }

    /// The payment code this receiver publishes: its public key, network and
    /// accepted address types.
    pub fn payment_code(&self) -> (r: PaymentCode)
        ensures
            r.pubkey@ == self.spec_pubkey(),
            r.network == self.spec_network(),
            r.address_types == self.spec_address_types(),
            r.wf(),
    {
        proof {
            use_type_invariant(&*self);
        }
        let pubkey = util::copy_range(&self.pubkey, 0, self.pubkey.len());
        proof {
            assert(pubkey@ =~= self.pubkey@);
        }
        PaymentCode { pubkey, network: self.network, address_types: self.address_types }
    }

    /// What it means for a payload to be the notification a sender with
    /// relationship key `n_x` addressed to this receiver under type `t`,
    /// with `t` accepted here. The length facts are those every run of the
    /// derivation establishes.
    pub open spec fn spec_addressed_to(
        self,
        payload: Seq<u8>,
        n_x: Seq<u8>,
        t: AddressType,
    ) -> bool {
        &&& crypto::is_seckey(n_x)
        &&& crypto::pubkey_of(n_x).len() == 33
        &&& crypto::sha256_of(crypto::shared_point_of(n_x, self.spec_pubkey())).len() == 32
        &&& payload == spec_notification_payload(n_x, self.spec_pubkey(), t)
        &&& self.spec_address_types().spec_contains(t)
    }

    /// As `spec_addressed_to`, for a whole script carrying the payload.
    pub open spec fn spec_script_addressed_to(
        self,
        script: Seq<u8>,
        n_x: Seq<u8>,
        t: AddressType,
    ) -> bool {
        &&& self.spec_addressed_to(
            spec_notification_payload(n_x, self.spec_pubkey(), t),
            n_x,
            t,
        )
        &&& script == Notification::spec_script(
            spec_notification_payload(n_x, self.spec_pubkey(), t),
        )
    }

    /// Try to find a notification addressed to this receiver in a candidate
    /// script. `None` — a normal outcome, not an error — means the script is
    /// no data-only push, carries no notification, declares an address type
    /// this receiver does not accept, or was not addressed to this receiver.
    ///
    /// Detection is complete: a script carrying a notification a sender
    /// addressed to this receiver's key, with an accepted type, is always
    /// detected, and the commitment holds that sender's published key.
    pub fn detect_notification(&self, script: &Vec<u8>) -> (r: Option<RecipientCommitment>)
        ensures
            r is Some <==> (Notification::spec_unscript(script@) matches Some(payload)
                && self.spec_detectable(payload)),
            r matches Some(c) ==> (Notification::spec_unscript(script@) matches Some(payload)
                && self.spec_detects(payload, c)),
            forall|n_x: Seq<u8>, t: AddressType|
                #[trigger] self.spec_script_addressed_to(script@, n_x, t) ==> (r matches Some(c)
                    && c.spec_sender_key() == crypto::pubkey_of(n_x) && c.spec_address_type()
                    == t),
    {
        proof {
            assert forall|n_x: Seq<u8>, t: AddressType|
                #[trigger] self.spec_script_addressed_to(script@, n_x, t) implies {
                Notification::spec_unscript(script@) == Some(
                    spec_notification_payload(n_x, self.spec_pubkey(), t),
                )
            } by {
                crate::notification::lemma_script_roundtrip(
                    spec_notification_payload(n_x, self.spec_pubkey(), t),
                );
            }
        }
        let payload = match Notification::unscript(script) {
            Some(p) => p,
            None => {
                return None;
            },
        };
        let r = self.detect_notification_in_payload(&payload);
        proof {
            assert forall|n_x: Seq<u8>, t: AddressType|
                #[trigger] self.spec_script_addressed_to(script@, n_x, t) implies (r matches Some(
                c,
            ) && c.spec_sender_key() == crypto::pubkey_of(n_x) && c.spec_address_type() == t) by {
                assert(self.spec_addressed_to(payload@, n_x, t));
            }
        }
        r
    }

    /// What it means for a payload to carry a notification this receiver
    /// detects: it parses, its declared type is accepted, its sender key is
    /// a valid point, and its code matches the first four digest bytes of
    /// the receiver's shared point with that key.
    pub open spec fn spec_detectable(self, payload: Seq<u8>) -> bool {
        &&& Notification::spec_parse(payload) matches Some(f)
        &&& (AddressType::spec_from_tag(f.2) matches Some(t)
            && self.spec_address_types().spec_contains(t))
        &&& crypto::is_point(f.1)
        &&& crypto::sha256_of(crypto::shared_point_of(self.spec_key(), f.1)).subrange(0, 4) == f.0
    }

    /// What it means for this receiver to detect commitment `c` in a payload:
    /// the payload parses to a notification whose address type the receiver
    /// accepts, whose sender key is a valid point, and whose notification
    /// code matches the hash of the receiver's shared point with that key.
    pub open spec fn spec_detects(self, payload: Seq<u8>, c: RecipientCommitment) -> bool {
        &&& Notification::spec_parse(payload) matches Some(f)
        &&& c.spec_sender_key() == f.1
        &&& crypto::is_point(f.1)
        &&& AddressType::spec_from_tag(f.2) == Some(c.spec_address_type())
        &&& self.spec_address_types().spec_contains(c.spec_address_type())
        &&& crypto::sha256_of(crypto::shared_point_of(self.spec_key(), f.1)).subrange(0, 4) == f.0
    }

    /// Try to find a notification addressed to this receiver in a bare
    /// payload (the script framing already stripped).
    ///
    /// A notification this receiver's payment code was the target of, with
    /// an accepted address type, is always detected, and the commitment then
    /// holds the sender's published key: the two sides go on to derive from
    /// the same shared point.
    pub fn detect_notification_in_payload(&self, payload: &Vec<u8>) -> (r: Option<
        RecipientCommitment,
    >)
        ensures
            r is Some <==> self.spec_detectable(payload@),
            r matches Some(c) ==> self.spec_detects(payload@, c),
            forall|n_x: Seq<u8>, t: AddressType|
                #[trigger] self.spec_addressed_to(payload@, n_x, t) ==> (r matches Some(c)
                    && c.spec_sender_key() == crypto::pubkey_of(n_x) && c.spec_address_type()
                    == t),
            Notification::spec_parse(payload@) matches Some(f)
                && AddressType::spec_from_tag(f.2) matches Some(t)
                && !self.spec_address_types().spec_contains(t) ==> r is None,
    {
        proof {
            use_type_invariant(&*self);
            assert forall|n_x: Seq<u8>, t: AddressType|
                #[trigger] self.spec_addressed_to(payload@, n_x, t) implies Notification::spec_parse(
                payload@,
            ) == Some(
                (
                    crypto::sha256_of(
                        crypto::shared_point_of(n_x, self.spec_pubkey()),
                    ).subrange(0, 4),
                    crypto::pubkey_of(n_x),
                    t.spec_tag(),
                ),
            ) by {
                crate::notification::lemma_notification_roundtrip(
                    crypto::sha256_of(
                        crypto::shared_point_of(n_x, self.spec_pubkey()),
                    ).subrange(0, 4),
                    crypto::pubkey_of(n_x),
                    t.spec_tag(),
                );
            }
        }
        let n = match Notification::decode(payload) {
            Some(n) => n,
            None => {
                return None;
            },
        };
        if !self.address_types.contains(n.address_type) {
            return None;
        }
        if !crypto::check_pubkey(&n.sender_pubkey) {
            return None;
        }
        let spoint = match crypto::ecdh(&self.key, &n.sender_pubkey) {
            Some(s) => s,
            None => {
                proof {
                    assert(false);
                }
                return None;
            },
        };
        let digest = crypto::sha256(&spoint);
        let our_code = util::copy_range(&digest, 0, 4);
        if !util::bytes_eq(&our_code, &n.code) {
            return None;
        }
        Some(RecipientCommitment { sender_key: n.sender_pubkey, address_type: n.address_type })
    }

    /// Whether the one-time key pair at `index` can be derived: the
    /// per-index shared secret and the tweaked private scalar are both valid
    /// scalars. Both failures are statistically unreachable, index-local
    /// edge cases.
    pub open spec fn spec_key_derivable(self, c: RecipientCommitment, index: u64) -> bool {
        let secret = spec_shared_secret(
            crypto::shared_point_of(self.spec_key(), c.spec_sender_key()),
            index,
        );
        &&& crypto::is_seckey(secret)
        &&& crypto::is_seckey(crypto::scalar_add_of(self.spec_key(), secret))
    }

    /// The one-time private scalar at an index, as only the receiver can
    /// compute it: the account key plus the per-index shared secret.
    pub open spec fn spec_privkey_at(self, c: RecipientCommitment, index: u64) -> Seq<u8> {
        crypto::scalar_add_of(
            self.spec_key(),
            spec_shared_secret(
                crypto::shared_point_of(self.spec_key(), c.spec_sender_key()),
                index,
            ),
        )
    }

    /// The one-time public key at an index: the receiver's base key plus the
    /// point of the per-index shared secret — the value the sender also
    /// computes.
    pub open spec fn spec_pubkey_at(self, c: RecipientCommitment, index: u64) -> Seq<u8> {
        spec_index_pubkey(
            self.spec_pubkey(),
            crypto::shared_point_of(self.spec_key(), c.spec_sender_key()),
            index,
        )
    }

    /// The one-time address at an index: the one-time public key encoded
    /// under the committed address type.
    pub open spec fn spec_address_at(self, c: RecipientCommitment, index: u64) -> Seq<char> {
        c.spec_address_type().spec_address(self.spec_pubkey_at(c, index), self.spec_network())
    }

    /// The one-time key information at `address_index` for a detected
    /// relationship: the address, its public key, and — what only the
    /// receiver can compute — the matching private key.
    ///
    /// The returned public key is exactly the public key of the returned
    /// private key, and the address is its encoding under the committed
    /// type. It equals the receiver's base key plus the point of the
    /// per-index shared secret — the same value the sender computes, since
    /// the shared point is symmetric.
    ///
    /// Fails with `InvalidScalar` exactly when the per-index shared secret
    /// or the tweaked private scalar falls outside the curve order — an
    /// index-local edge case the caller may skip.
    pub fn key_info(&self, commitment: &RecipientCommitment, address_index: u64) -> (r: Result<
        (String, Vec<u8>, Vec<u8>),
        Error,
    >)
        ensures
            r is Ok <==> self.spec_key_derivable(*commitment, address_index),
            r matches Ok(o) ==> {
                &&& o.1@ == crypto::pubkey_of(o.2@)
                &&& o.2@.len() == 32
                &&& crypto::is_seckey(o.2@)
                &&& o.1@.len() == 33
                &&& o.2@ == self.spec_privkey_at(*commitment, address_index)
                &&& o.1@ == self.spec_pubkey_at(*commitment, address_index)
                &&& o.0@ == commitment.spec_address_type().spec_address(o.1@, self.spec_network())
                &&& o.0@ == self.spec_address_at(*commitment, address_index)
                &&& forall|n_x: Seq<u8>|
                    commitment.spec_sender_key() == crypto::pubkey_of(n_x) ==> o.1@
                        == spec_index_pubkey(
                        self.spec_pubkey(),
                        #[trigger] crypto::shared_point_of(n_x, self.spec_pubkey()),
                        address_index,
                    )
            },
            r matches Err(e) ==> e == Error::InvalidScalar,
    {
        proof {
            use_type_invariant(&*self);
            use_type_invariant(&*commitment);
        }
        let spoint = match crypto::ecdh(&self.key, &commitment.sender_key) {
            Some(s) => s,
            None => {
                proof {
                    assert(false);
                }
                return Err(Error::InvalidScalar);
            },
        };
        let mut buf: Vec<u8> = Vec::new();
        util::push_all(&mut buf, &spoint);
        let index_bytes = util::be64_bytes(address_index);
        util::push_all(&mut buf, &index_bytes);
        let shared_secret = crypto::sha256(&buf);
        let private_key = match crypto::scalar_add(&self.key, &shared_secret) {
            Some(k) => k,
            None => {
                return Err(Error::InvalidScalar);
            },
        };
        let public_key = match crypto::pubkey_create(&private_key) {
            Some(k) => k,
            None => {
                proof {
                    assert(false);
                }
                return Err(Error::InvalidScalar);
            },
        };
        let address = match commitment.address_type.encode_address(&public_key, self.network) {
            Some(a) => a,
            None => {
                proof {
                    assert(false);
                }
                return Err(Error::InvalidScalar);
            },
        };
        Ok((address, public_key, private_key))
    }

    /// Consume this identity and overwrite its secret material.
    pub fn wipe(self) {
        let Recipient { mut key, pubkey: _, network: _, address_types: _ } = self;
        util::wipe_bytes(&mut key);
    }

    /// The one-time key information of a detected relationship over an
    /// inclusive index range, with the range default of `index_range`. A
    /// derivation edge case at any index aborts the whole call.
    pub fn key_infos(
        &self,
        commitment: &RecipientCommitment,
        first: u64,
        last: Option<u64>,
    ) -> (r: Result<Vec<(u64, String, Vec<u8>, Vec<u8>)>, Error>)
        ensures
            r is Ok <==> (forall|i: u64|
                first <= i <= (match last {
                    Option::Some(l) => if l >= first {
                        l
                    } else {
                        first
                    },
                    Option::None => first,
                }) ==> #[trigger] self.spec_key_derivable(*commitment, i)),
            r matches Ok(v) ==> {
                let (start, end) = (
                    first,
                    match last {
                        Option::Some(l) => if l >= first {
                            l
                        } else {
                            first
                        },
                        Option::None => first,
                    },
                );
                &&& v@.len() == end - start + 1
                &&& forall|k: int|
                    0 <= k < v@.len() ==> {
                        &&& (#[trigger] v@[k]).0 == start + k
                        &&& v@[k].1@ == self.spec_address_at(*commitment, (start + k) as u64)
                        &&& v@[k].2@ == self.spec_pubkey_at(*commitment, (start + k) as u64)
                        &&& v@[k].3@ == self.spec_privkey_at(*commitment, (start + k) as u64)
                        &&& v@[k].2@ == crypto::pubkey_of(v@[k].3@)
                    }
            },
            r matches Err(e) ==> e == Error::InvalidScalar,
    {
        let range = util::index_range(first, last);
        let (start, end) = range;
        let mut out: Vec<(u64, String, Vec<u8>, Vec<u8>)> = Vec::new();
        let mut c: u64 = start;
        while c < end
            invariant
                start <= c <= end,
                start == first,
                match last {
                    Option::Some(l) => end == if l >= first {
                        l
                    } else {
                        first
                    },
                    Option::None => end == first,
                },
                out@.len() == c - start,
                forall|i: u64| start <= i < c ==> #[trigger] self.spec_key_derivable(*commitment, i),
                forall|k: int|
                    0 <= k < out@.len() ==> {
                        &&& (#[trigger] out@[k]).0 == start + k
                        &&& out@[k].1@ == self.spec_address_at(*commitment, (start + k) as u64)
                        &&& out@[k].2@ == self.spec_pubkey_at(*commitment, (start + k) as u64)
                        &&& out@[k].3@ == self.spec_privkey_at(*commitment, (start + k) as u64)
                        &&& out@[k].2@ == crypto::pubkey_of(out@[k].3@)
                    },
            decreases end - c,
        {
            let (address, public_key, private_key) = match self.key_info(commitment, c) {
                Ok(o) => o,
                Err(e) => {
                    proof {
                        assert(!self.spec_key_derivable(*commitment, c));
                        assert(first <= c <= end);
                        assert(!(forall|i: u64|
                            first <= i <= end ==> #[trigger] self.spec_key_derivable(
                                *commitment,
                                i,
                            )));
                    }
                    return Err(e);
                },
            };
            out.push((c, address, public_key, private_key));
            c += 1;
        }
        let (address, public_key, private_key) = match self.key_info(commitment, end) {
            Ok(o) => o,
            Err(e) => {
                proof {
                    assert(!self.spec_key_derivable(*commitment, end));
                    assert(!(forall|i: u64|
                        first <= i <= end ==> #[trigger] self.spec_key_derivable(*commitment, i)));
                }
                return Err(e);
            },
        };
        out.push((end, address, public_key, private_key));
        Ok(out)
    }
}

/// Commitments are domain-separated by address type: two detected
/// commitments with different address types are different values, whatever
/// sender keys they hold.
pub proof fn lemma_commitment_type_separation(c1: RecipientCommitment, c2: RecipientCommitment)
    requires
        c1.spec_address_type() != c2.spec_address_type(),
    ensures
        c1 != c2,
{
}

} // verus!
