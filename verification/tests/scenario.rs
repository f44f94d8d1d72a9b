//! The reference walk-through: a 32-byte seed of ascending bytes, account
//! zero, recipient index seven, segwit addresses.

use privpay::address_type::{AddressType, AddressTypeSet};
use privpay::network::Network;
use privpay::recipient::Recipient;
use privpay::sender::Sender;

#[test]
fn ascending_seed_walkthrough() {
    let seed: Vec<u8> = (0..32).collect();
    let segwit_only = AddressTypeSet {
        p2pkh: false,
        p2wpkh: true,
        p2tr: false,
    };

    let receiver = Recipient::from_seed(&seed, Network::Mainnet, 0, segwit_only).unwrap();
    let sender = Sender::from_seed(&seed, Network::Mainnet, 0).unwrap();

    let code = receiver.payment_code();
    let (note, sender_commitment) = sender.notify(&code, 7, AddressType::P2wpkh).unwrap();

    // The payload opens with the fixed magic tag.
    let payload = note.encode();
    assert_eq!(&payload[0..2], b"PP");

    // The receiver, configured to accept segwit, decodes the same script and
    // re-derives the commitment.
    let script = note.to_script();
    let receiver_commitment = receiver.detect_notification(&script).unwrap();
    assert_eq!(receiver_commitment.address_type(), AddressType::P2wpkh);

    // Index zero on both sides yields the same address; only the receiver
    // additionally recovers the matching private key.
    let sender_addr = sender.address(&sender_commitment, 0).unwrap();
    let (receiver_addr, pubkey, privkey) = receiver.key_info(&receiver_commitment, 0).unwrap();
    assert_eq!(sender_addr, receiver_addr);
    assert!(receiver_addr.starts_with("bc1q"));

    let secp = bitcoin::secp256k1::Secp256k1::new();
    let sk = bitcoin::secp256k1::SecretKey::from_slice(&privkey).unwrap();
    let pk = bitcoin::secp256k1::PublicKey::from_secret_key(&secp, &sk);
    assert_eq!(pk.serialize().to_vec(), pubkey);
}
