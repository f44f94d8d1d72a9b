//! Interoperability: this engine and the bip351 crate accept each other's
//! payment codes, notifications and addresses bit for bit.

use std::collections::HashSet;
use std::str::FromStr;

use privpay::address_type::{AddressType, AddressTypeSet};
use privpay::network::Network;

fn reference_recipient() -> bip351::Recipient {
    let accepted: HashSet<bip351::AddressType> =
        [bip351::AddressType::P2pkh, bip351::AddressType::P2wpkh]
            .into_iter()
            .collect();
    bip351::Recipient::from_seed(
        &bitcoin::secp256k1::Secp256k1::new(),
        &[0xFF],
        bitcoin::Network::Bitcoin,
        0,
        accepted,
    )
    .unwrap()
}

fn our_recipient() -> privpay::recipient::Recipient {
    privpay::recipient::Recipient::from_seed(
        &vec![0xFF],
        Network::Mainnet,
        0,
        AddressTypeSet {
            p2pkh: true,
            p2wpkh: true,
            p2tr: false,
        },
    )
    .unwrap()
}

#[test]
fn payment_codes_cross_parse() {
    let ours = our_recipient().payment_code().to_text();
    let theirs = reference_recipient().payment_code().to_string();
    assert_eq!(ours, theirs);

    let reparsed_by_reference = bip351::PaymentCode::from_str(&ours).unwrap();
    assert_eq!(reparsed_by_reference, reference_recipient().payment_code());

    let reparsed_by_us = privpay::payment_code::PaymentCode::from_text(&theirs).unwrap();
    assert_eq!(reparsed_by_us.network, Network::Mainnet);
    assert!(reparsed_by_us.address_types.p2pkh);
    assert!(reparsed_by_us.address_types.p2wpkh);
    assert!(!reparsed_by_us.address_types.p2tr);
}

#[test]
fn reference_detects_our_notification() {
    let secp = bitcoin::secp256k1::Secp256k1::new();
    let our_sender = privpay::sender::Sender::from_seed(&vec![0xFE], Network::Mainnet, 0).unwrap();
    let code = our_recipient().payment_code();
    let (note, our_commitment) = our_sender.notify(&code, 0, AddressType::P2wpkh).unwrap();
    let script_bytes = note.to_script();

    let script = bitcoin::Script::from(script_bytes.clone());
    let them = reference_recipient();
    let their_commitment = them.detect_notification(&secp, &script).unwrap();
    let (their_addr, _, _) = them.key_info(&secp, &their_commitment, 0).unwrap();
    let our_addr = our_sender.address(&our_commitment, 0).unwrap();
    assert_eq!(their_addr.to_string(), our_addr);
}

#[test]
fn we_detect_reference_notification() {
    let secp = bitcoin::secp256k1::Secp256k1::new();
    let their_sender = bip351::Sender::from_seed(&secp, &[0xFE], bitcoin::Network::Bitcoin, 0)
        .unwrap();
    let their_code = reference_recipient().payment_code();
    let (txout, their_commitment) = their_sender
        .notify(&secp, &their_code, 0, bip351::AddressType::P2wpkh)
        .unwrap();

    let us = our_recipient();
    let script_bytes = txout.script_pubkey.to_bytes();
    let our_commitment = us.detect_notification(&script_bytes).unwrap();
    assert_eq!(our_commitment.address_type(), AddressType::P2wpkh);

    let (our_addr, _, _) = us.key_info(&our_commitment, 5).unwrap();
    let their_addr = their_sender.address(&secp, &their_commitment, 5).unwrap();
    assert_eq!(our_addr, their_addr.to_string());
}
