//! Trusted wrappers around the outside collaborators: curve arithmetic and
//! hashing (secp256k1), hierarchical key derivation (BIP32), the checksummed
//! payment-code text encoding (bech32m) and the per-type address encoders.
//!
//! Each wrapper makes exactly one outside call chain and its contract names
//! the result; everything that can be said in a few lines (lengths, success
//! conditions) is said, and what would take pages (hash values, curve points)
//! is given an uninterpreted name instead.

use vstd::prelude::*;

use bitcoin::bech32::{FromBase32, ToBase32};
use bitcoin::secp256k1;
use bitcoin::util::bip32;

verus! {

/// The SHA-256 digest of a byte sequence.
pub uninterp spec fn sha256_of(data: Seq<u8>) -> Seq<u8>;

/// Whether 32 bytes are a valid secret key: a scalar in `[1, n-1]` for the
/// curve order `n`.
pub uninterp spec fn is_seckey(sk: Seq<u8>) -> bool;

/// Whether a byte sequence is a valid serialized encoding of a curve point —
/// for the 33-byte values this library passes, the compressed encoding.
pub uninterp spec fn is_point(pk: Seq<u8>) -> bool;

/// The compressed public key of a secret key.
pub uninterp spec fn pubkey_of(sk: Seq<u8>) -> Seq<u8>;

/// The compressed serialization of the point `sk * P` for a secret key `sk`
/// and the point encoded by `pk`: the Diffie-Hellman shared point.
pub uninterp spec fn shared_point_of(sk: Seq<u8>, pk: Seq<u8>) -> Seq<u8>;

/// The sum of two secret scalars modulo the curve order.
pub uninterp spec fn scalar_add_of(a: Seq<u8>, b: Seq<u8>) -> Seq<u8>;

/// The compressed serialization of the sum of two curve points.
pub uninterp spec fn point_add_of(a: Seq<u8>, b: Seq<u8>) -> Seq<u8>;

/// Whether the sum of the two encoded points is defined: it is, unless the
/// points are inverses of each other and the sum would be the point at
/// infinity, which has no encoding.
pub uninterp spec fn point_add_defined(a: Seq<u8>, b: Seq<u8>) -> bool;

/// Whether the master-key derivation of a seed returns normally: it does,
/// unless the seed's keyed digest falls outside the curve order — a
/// statistically unreachable edge.
pub uninterp spec fn seed_derivable(seed: Seq<u8>) -> bool;

/// The (secret key, chain code) pair at the hardened derivation path
/// `purpose' / coin' / account'` below the master key of a seed.
pub uninterp spec fn hd_account_of(seed: Seq<u8>, purpose: u32, coin: u32, account: u32) -> (
    Seq<u8>,
    Seq<u8>,
);

/// The secret key of the unhardened child `index` of an extended key given by
/// its secret key and chain code.
pub uninterp spec fn ckd_normal_of(sk: Seq<u8>, cc: Seq<u8>, index: u32) -> Seq<u8>;

/// The bech32m string with human-readable part `hrp` (ASCII bytes) carrying
/// `data`.
pub uninterp spec fn bech32m_of(hrp: Seq<u8>, data: Seq<u8>) -> Seq<char>;

/// What a string decodes to under the bech32m checksum: the lowercase
/// human-readable part (as ASCII bytes) and the data, or nothing when the
/// string does not pass the checksum.
pub uninterp spec fn bech32m_parse_of(s: Seq<char>) -> Option<(Seq<u8>, Seq<u8>)>;

/// The textual pay-to-public-key-hash address of a compressed public key.
pub uninterp spec fn p2pkh_addr_of(pk: Seq<u8>, mainnet: bool) -> Seq<char>;

/// The textual pay-to-witness-public-key-hash address of a compressed public
/// key.
pub uninterp spec fn p2wpkh_addr_of(pk: Seq<u8>, mainnet: bool) -> Seq<char>;

/// The textual pay-to-taproot address of a compressed public key taken as the
/// internal key, with no script tree.
pub uninterp spec fn p2tr_addr_of(pk: Seq<u8>, mainnet: bool) -> Seq<char>;

/// A human-readable part this library emits: one to 83 lowercase ASCII
/// letters.
pub open spec fn lower_hrp(hrp: Seq<u8>) -> bool {
    &&& 1 <= hrp.len() <= 83
    &&& forall|i: int| 0 <= i < hrp.len() ==> 97 <= #[trigger] hrp[i] <= 122
}

/// Relies on `bitcoin::hashes::sha256::Hash::hash`: the SHA-256 digest, 32
/// bytes, a function of the input alone.
#[verifier::external_body]
pub(crate) fn sha256(data: &Vec<u8>) -> (r: Vec<u8>)
    ensures
        r@ == sha256_of(data@),
        r@.len() == 32,
{
    let digest = <bitcoin::hashes::sha256::Hash as bitcoin::hashes::Hash>::hash(data.as_slice());
    <bitcoin::hashes::sha256::Hash as bitcoin::hashes::Hash>::into_inner(digest).to_vec()
}

/// Relies on `secp256k1::SecretKey::from_slice` (succeeds exactly on scalars
/// in range) and `secp256k1::PublicKey::from_secret_key` followed by
/// `serialize`: the 33-byte compressed public key, a function of the secret
/// key alone.
#[verifier::external_body]
pub(crate) fn pubkey_create(sk: &Vec<u8>) -> (r: Option<Vec<u8>>)
    requires
        sk@.len() == 32,
    ensures
        r is Some <==> is_seckey(sk@),
        r matches Some(k) ==> {
            &&& k@ == pubkey_of(sk@)
            &&& k@.len() == 33
            &&& is_point(k@)
        },
{
    let secp = secp256k1::Secp256k1::new();
    let secret = secp256k1::SecretKey::from_slice(sk).ok()?;
    let public = secp256k1::PublicKey::from_secret_key(&secp, &secret);
    Some(public.serialize().to_vec())
}

/// Relies on `secp256k1::PublicKey::from_slice`: it succeeds exactly on valid
/// encodings of curve points, and every serialized public key of a valid
/// secret key is such an encoding.
#[verifier::external_body]
pub(crate) fn check_pubkey(pk: &Vec<u8>) -> (r: bool)
    ensures
        r <==> is_point(pk@),
        forall|sk: Seq<u8>| is_seckey(sk) && pk@ == pubkey_of(sk) ==> r,
{
    secp256k1::PublicKey::from_slice(pk).is_ok()
}

/// Relies on `secp256k1::PublicKey::mul_tweak` and `serialize`: the
/// Diffie-Hellman shared point `sk * P`, a function of the two keys alone.
/// Succeeds for every valid scalar and point, since the curve has prime order
/// and a nonzero multiple of a group element is never the point at infinity.
/// Because scalar multiplication commutes, `x * (y * G) == y * (x * G)`: when
/// the point is itself the public key of some secret key `x`, the shared
/// point equals the one `x` computes from this key's public key.
#[verifier::external_body]
pub(crate) fn ecdh(sk: &Vec<u8>, pk: &Vec<u8>) -> (r: Option<Vec<u8>>)
    requires
        sk@.len() == 32,
        pk@.len() == 33,
    ensures
        is_seckey(sk@) && is_point(pk@) ==> r is Some,
        r is Some ==> is_seckey(sk@) && is_point(pk@),
        r matches Some(s) ==> {
            &&& s@ == shared_point_of(sk@, pk@)
            &&& s@.len() == 33
            &&& forall|x: Seq<u8>| pk@ == pubkey_of(x) ==> s@ == shared_point_of(
                x,
                pubkey_of(sk@),
            )
        },
{
    let secp = secp256k1::Secp256k1::new();
    let secret = secp256k1::SecretKey::from_slice(sk).ok()?;
    let point = secp256k1::PublicKey::from_slice(pk).ok()?;
    let shared = point.mul_tweak(&secp, &secret.into()).ok()?;
    Some(shared.serialize().to_vec())
}

/// Relies on `secp256k1::SecretKey::add_tweak`: the sum of two secret scalars
/// modulo the curve order. It fails exactly when an input is out of range or
/// the sum is — the sum only by being zero. Because the map from scalars to
/// points is a group homomorphism, `(a + b) * G == a * G + b * G`: the public
/// key of the sum is the sum of the public keys.
#[verifier::external_body]
pub(crate) fn scalar_add(sk: &Vec<u8>, tweak: &Vec<u8>) -> (r: Option<Vec<u8>>)
    requires
        sk@.len() == 32,
        tweak@.len() == 32,
    ensures
        r is Some <==> (is_seckey(sk@) && is_seckey(tweak@)
            && is_seckey(scalar_add_of(sk@, tweak@))),
        r matches Some(k) ==> {
            &&& k@ == scalar_add_of(sk@, tweak@)
            &&& k@.len() == 32
            &&& is_seckey(k@)
            &&& pubkey_of(k@) == point_add_of(pubkey_of(sk@), pubkey_of(tweak@))
        },
{
    let secret = secp256k1::SecretKey::from_slice(sk).ok()?;
    let t = secp256k1::SecretKey::from_slice(tweak).ok()?;
    let sum = secret.add_tweak(&t.into()).ok()?;
    Some(sum.secret_bytes().to_vec())
}

/// Relies on `secp256k1::PublicKey::combine`: the sum of two curve points.
/// It fails exactly when an input is no valid point or the sum is the point
/// at infinity.
#[verifier::external_body]
pub(crate) fn point_combine(a: &Vec<u8>, b: &Vec<u8>) -> (r: Option<Vec<u8>>)
    requires
        a@.len() == 33,
        b@.len() == 33,
    ensures
        r is Some <==> (is_point(a@) && is_point(b@) && point_add_defined(a@, b@)),
        r matches Some(k) ==> {
            &&& k@ == point_add_of(a@, b@)
            &&& k@.len() == 33
            &&& is_point(k@)
        },
{
    let pa = secp256k1::PublicKey::from_slice(a).ok()?;
    let pb = secp256k1::PublicKey::from_slice(b).ok()?;
    let sum = pa.combine(&pb).ok()?;
    Some(sum.serialize().to_vec())
}

/// Relies on `bip32::ExtendedPrivKey::new_master` and `derive_priv` over the
/// three hardened steps `purpose' / coin' / account'`: the derived secret key
/// and chain code are a function of the seed and the path alone — the network
/// tag enters only the metadata of the extended key, not the key material.
/// It returns nothing exactly when the master scalar falls out of range —
/// the hardened child steps either return normally or, on their equally
/// statistically unreachable out-of-range scalars, abort inside the outside
/// crate instead of returning.
#[verifier::external_body]
pub(crate) fn derive_account(
    seed: &Vec<u8>,
    mainnet: bool,
    purpose: u32,
    coin: u32,
    account: u32,
) -> (r: Option<(Vec<u8>, Vec<u8>)>)
    requires
        purpose < 0x8000_0000,
        coin < 0x8000_0000,
        account < 0x8000_0000,
    ensures
        r is Some <==> seed_derivable(seed@),
        r matches Some(kc) ==> {
            &&& kc.0@ == hd_account_of(seed@, purpose, coin, account).0
            &&& kc.1@ == hd_account_of(seed@, purpose, coin, account).1
            &&& kc.0@.len() == 32
            &&& kc.1@.len() == 32
            &&& is_seckey(kc.0@)
        },
{
    let secp = secp256k1::Secp256k1::new();
    let network = if mainnet {
        bitcoin::Network::Bitcoin
    } else {
        bitcoin::Network::Testnet
    };
    let master = bip32::ExtendedPrivKey::new_master(network, seed).ok()?;
    let path = [
        bip32::ChildNumber::Hardened { index: purpose },
        bip32::ChildNumber::Hardened { index: coin },
        bip32::ChildNumber::Hardened { index: account },
    ];
    let node = master.derive_priv(&secp, &path).ok()?;
    Some((node.private_key.secret_bytes().to_vec(), node.chain_code.to_bytes().to_vec()))
}

/// Relies on `bip32::ExtendedPrivKey::ckd_priv` with an unhardened child
/// number: the child secret key is a function of the parent secret key, the
/// chain code and the index alone — depth, fingerprint and network are
/// metadata that do not enter the derivation. It returns nothing exactly
/// when the parent key bytes are out of range — the child step either
/// returns normally or, on its statistically unreachable out-of-range
/// scalars, aborts inside the outside crate instead of returning.
#[verifier::external_body]
pub(crate) fn ckd_normal(sk: &Vec<u8>, cc: &Vec<u8>, index: u32) -> (r: Option<Vec<u8>>)
    requires
        sk@.len() == 32,
        cc@.len() == 32,
        index < 0x8000_0000,
    ensures
        r is Some <==> is_seckey(sk@),
        r matches Some(k) ==> {
            &&& k@ == ckd_normal_of(sk@, cc@, index)
            &&& k@.len() == 32
            &&& is_seckey(k@)
        },
{
    let secp = secp256k1::Secp256k1::new();
    let node = bip32::ExtendedPrivKey {
        network: bitcoin::Network::Bitcoin,
        depth: 0,
        parent_fingerprint: Default::default(),
        child_number: bip32::ChildNumber::Normal { index: 0 },
        private_key: secp256k1::SecretKey::from_slice(sk).ok()?,
        chain_code: bip32::ChainCode::from(&cc[..]),
    };
    let child = node.ckd_priv(&secp, bip32::ChildNumber::Normal { index }).ok()?;
    Some(child.private_key.secret_bytes().to_vec())
}

/// Relies on `bech32::encode` with the bech32m checksum variant: for a valid
/// lowercase human-readable part it always succeeds, and the string is a
/// function of the part and the data alone.
#[verifier::external_body]
pub(crate) fn bech32m_encode(hrp: &Vec<u8>, data: &Vec<u8>) -> (r: String)
    requires
        lower_hrp(hrp@),
    ensures
        r@ == bech32m_of(hrp@, data@),
{
    let hrp_str = std::str::from_utf8(hrp).unwrap();
    bitcoin::bech32::encode(hrp_str, data.to_base32(), bitcoin::bech32::Variant::Bech32m).unwrap()
}

/// Relies on `bech32::decode` and `Vec::from_base32`: decoding verifies the
/// bech32m checksum and inverts the encoding, so on any string that
/// `bech32::encode` produced for a lowercase human-readable part it returns
/// exactly the part and data that were encoded.
#[verifier::external_body]
pub(crate) fn bech32m_decode(s: &str) -> (r: Option<(Vec<u8>, Vec<u8>)>)
    ensures
        r is Some <==> bech32m_parse_of(s@) is Some,
        r matches Some(p) ==> bech32m_parse_of(s@) == Some((p.0@, p.1@)),
        r is None ==> forall|h: Seq<u8>, d: Seq<u8>|
            lower_hrp(h) ==> s@ != bech32m_of(h, d),
        r matches Some(p) ==> forall|h: Seq<u8>, d: Seq<u8>|
            lower_hrp(h) && s@ == bech32m_of(h, d) ==> p.0@ == h && p.1@ == d,
{
    match bitcoin::bech32::decode(s) {
        Ok((hrp, data, bitcoin::bech32::Variant::Bech32m)) => {
            match Vec::<u8>::from_base32(&data) {
                Ok(bytes) => Some((hrp.into_bytes(), bytes)),
                Err(_) => None,
            }
        },
        _ => None,
    }
}

/// Relies on `bitcoin::PublicKey::from_slice` and `Address::p2pkh`: the
/// legacy address is a function of the key and the network alone.
#[verifier::external_body]
pub(crate) fn p2pkh_address(pk: &Vec<u8>, mainnet: bool) -> (r: Option<String>)
    requires
        pk@.len() == 33,
    ensures
        is_point(pk@) ==> r is Some,
        r matches Some(a) ==> a@ == p2pkh_addr_of(pk@, mainnet),
{
    let key = bitcoin::PublicKey::from_slice(pk).ok()?;
    let network = if mainnet {
        bitcoin::Network::Bitcoin
    } else {
        bitcoin::Network::Testnet
    };
    Some(format!("{}", bitcoin::Address::p2pkh(&key, network)))
}

/// Relies on `bitcoin::PublicKey::from_slice` and `Address::p2wpkh`: the
/// segwit address is a function of the key and the network alone; a 33-byte
/// key is compressed, so the encoding cannot fail on it.
#[verifier::external_body]
pub(crate) fn p2wpkh_address(pk: &Vec<u8>, mainnet: bool) -> (r: Option<String>)
    requires
        pk@.len() == 33,
    ensures
        is_point(pk@) ==> r is Some,
        r matches Some(a) ==> a@ == p2wpkh_addr_of(pk@, mainnet),
{
    let key = bitcoin::PublicKey::from_slice(pk).ok()?;
    let network = if mainnet {
        bitcoin::Network::Bitcoin
    } else {
        bitcoin::Network::Testnet
    };
    Some(format!("{}", bitcoin::Address::p2wpkh(&key, network).ok()?))
}

/// Relies on `bitcoin::PublicKey::from_slice` and `Address::p2tr` with the
/// key as the internal key and no script tree: the taproot address is a
/// function of the key and the network alone. On the statistically
/// unreachable out-of-range tweak of the internal key, the outside crate
/// aborts instead of returning.
#[verifier::external_body]
pub(crate) fn p2tr_address(pk: &Vec<u8>, mainnet: bool) -> (r: Option<String>)
    requires
        pk@.len() == 33,
    ensures
        is_point(pk@) ==> r is Some,
        r matches Some(a) ==> a@ == p2tr_addr_of(pk@, mainnet),
{
    let secp = secp256k1::Secp256k1::new();
    let key = bitcoin::PublicKey::from_slice(pk).ok()?;
    let network = if mainnet {
        bitcoin::Network::Bitcoin
    } else {
        bitcoin::Network::Testnet
    };
    Some(format!("{}", bitcoin::Address::p2tr(&secp, key.inner.into(), None, network)))
}

} // verus!
