//! End-to-end protocol tests against known test vectors.

use privpay::address_type::{AddressType, AddressTypeSet};
use privpay::network::Network;
use privpay::recipient::Recipient;
use privpay::sender::Sender;
use privpay::Error;

fn hex(data: &Vec<u8>) -> String {
    String::from_utf8(privpay::hexstr::hex_encode(data)).unwrap()
}

fn both() -> AddressTypeSet {
    AddressTypeSet {
        p2pkh: true,
        p2wpkh: true,
        p2tr: false,
    }
}

fn test_recipient() -> Recipient {
    Recipient::from_seed(&vec![0xFF], Network::Mainnet, 0, both()).unwrap()
}

fn test_sender() -> Sender {
    Sender::from_seed(&vec![0xFE], Network::Mainnet, 0).unwrap()
}

#[test]
fn recipient_payment_code_matches_vector() {
    let recipient = test_recipient();
    let code = recipient.payment_code();
    assert_eq!(
        "pay1qqpsxq4730l4yre4lt3588eyt3f2lwggtfalvtgfns04a8smzkn7yys6xv2gs8",
        code.to_text()
    );
    assert_eq!(
        "0302be8bff520f35fae3439f245c52afb9085a7bf62d099c1f5e9e1b15a7e2121a",
        hex(&code.pubkey)
    );
}

#[test]
fn notification_and_addresses_match_vector() {
    let sender = test_sender();
    let recipient = test_recipient();
    let code = recipient.payment_code();

    let (note, sender_commitment) = sender.notify(&code, 0, AddressType::P2wpkh).unwrap();
    let script = note.to_script();
    assert_eq!(
        "6a28505049cb55bb02e3217349724307eed5514b53b1f53f0802672a9913d9bbb76afecc86be23f46401",
        hex(&script)
    );
    assert_eq!(AddressType::P2wpkh, sender_commitment.address_type());

    let addr_0_by_sender = sender.address(&sender_commitment, 0).unwrap();
    assert_eq!("bc1qw7ld5h9tj2ruwxqvetznjfq9g5jyp0gjhrs30w", addr_0_by_sender);

    let receiver_commitment = recipient.detect_notification(&script).unwrap();
    assert_eq!(AddressType::P2wpkh, receiver_commitment.address_type());

    let (r_addr, r_pubkey, r_privkey) = recipient.key_info(&receiver_commitment, 0).unwrap();
    assert_eq!(
        "84846fe6b592fd7531af88a58ccc92a88faa1c8bbdbe3de5810d3acebc7d6d33",
        hex(&r_privkey)
    );
    assert_eq!(r_addr, addr_0_by_sender);

    // The private key really is the discrete log of the returned public key.
    let secp = bitcoin::secp256k1::Secp256k1::new();
    let sk = bitcoin::secp256k1::SecretKey::from_slice(&r_privkey).unwrap();
    let pk = bitcoin::secp256k1::PublicKey::from_secret_key(&secp, &sk);
    assert_eq!(pk.serialize().to_vec(), r_pubkey);
}

#[test]
fn payment_code_text_round_trip() {
    let recipient = test_recipient();
    let code = recipient.payment_code();
    let text = code.to_text();
    let parsed = privpay::payment_code::PaymentCode::from_text(&text).unwrap();
    assert_eq!(parsed.pubkey, code.pubkey);
    assert_eq!(parsed.network, code.network);
    assert_eq!(parsed.address_types, code.address_types);
}

#[test]
fn notification_payload_round_trip() {
    let sender = test_sender();
    let recipient = test_recipient();
    let code = recipient.payment_code();
    let (note, _) = sender.notify(&code, 3, AddressType::P2pkh).unwrap();
    let payload = note.encode();
    assert_eq!(payload[0], b'P');
    assert_eq!(payload[1], b'P');
    let decoded = privpay::notification::Notification::decode(&payload).unwrap();
    assert_eq!(decoded.code, note.code);
    assert_eq!(decoded.sender_pubkey, note.sender_pubkey);
    assert_eq!(decoded.address_type, note.address_type);
}

#[test]
fn detection_rejects_unaccepted_address_type() {
    let sender = test_sender();
    let recipient = test_recipient();  // accepts p2pkh and p2wpkh only
    let code = recipient.payment_code();
    // A payment code claiming the same key but accepting taproot as well.
    let taproot_code = privpay::payment_code::PaymentCode::new(
        code.pubkey.clone(),
        Network::Mainnet,
        AddressTypeSet {
            p2pkh: false,
            p2wpkh: false,
            p2tr: true,
        },
    )
    .unwrap();
    let (note, _) = sender.notify(&taproot_code, 0, AddressType::P2tr).unwrap();
    let script = note.to_script();
    assert!(recipient.detect_notification(&script).is_none());
}

#[test]
fn detection_ignores_foreign_scripts() {
    let recipient = test_recipient();
    assert!(recipient.detect_notification(&vec![]).is_none());
    assert!(recipient.detect_notification(&vec![0x51]).is_none());
    // OP_RETURN with the wrong push width.
    assert!(recipient.detect_notification(&vec![0x6a, 0x02, 0x50, 0x50]).is_none());
    // Right framing, wrong magic.
    let mut script = vec![0x6a, 0x28];
    script.extend(std::iter::repeat(0u8).take(40));
    assert!(recipient.detect_notification(&script).is_none());
}

#[test]
fn detection_ignores_notification_for_other_receiver() {
    let sender = test_sender();
    let recipient = test_recipient();
    let other = Recipient::from_seed(&vec![0xAB, 0xCD], Network::Mainnet, 0, both()).unwrap();
    let (note, _) = sender.notify(&other.payment_code(), 0, AddressType::P2wpkh).unwrap();
    let script = note.to_script();
    assert!(recipient.detect_notification(&script).is_none());
}

#[test]
fn distinct_indices_give_distinct_addresses() {
    let sender = test_sender();
    let recipient = test_recipient();
    let (_, commitment) = sender
        .notify(&recipient.payment_code(), 0, AddressType::P2wpkh)
        .unwrap();
    let a0 = sender.address(&commitment, 0).unwrap();
    let a1 = sender.address(&commitment, 1).unwrap();
    let a2 = sender.address(&commitment, 2).unwrap();
    assert_ne!(a0, a1);
    assert_ne!(a1, a2);
    assert_ne!(a0, a2);
}

#[test]
fn distinct_recipient_indices_give_distinct_notifications() {
    let sender = test_sender();
    let recipient = test_recipient();
    let code = recipient.payment_code();
    let (n0, _) = sender.notify(&code, 0, AddressType::P2wpkh).unwrap();
    let (n1, _) = sender.notify(&code, 1, AddressType::P2wpkh).unwrap();
    assert_ne!(n0.encode(), n1.encode());
}

#[test]
fn address_range_defaults() {
    let sender = test_sender();
    let recipient = test_recipient();
    let (_, commitment) = sender
        .notify(&recipient.payment_code(), 0, AddressType::P2wpkh)
        .unwrap();
    // end < start collapses to the single start index
    let v = sender.addresses(&commitment, 5, Some(2)).unwrap();
    assert_eq!(v.len(), 1);
    assert_eq!(v[0].0, 5);
    // absent end collapses to the single start index
    let v = sender.addresses(&commitment, 7, None).unwrap();
    assert_eq!(v.len(), 1);
    assert_eq!(v[0].0, 7);
    // a proper range is inclusive on both ends
    let v = sender.addresses(&commitment, 2, Some(4)).unwrap();
    assert_eq!(v.len(), 3);
    assert_eq!(v[0].0, 2);
    assert_eq!(v[2].0, 4);
    assert_eq!(v[0].1, sender.address(&commitment, 2).unwrap());
}

#[test]
fn key_info_range_matches_single_calls() {
    let sender = test_sender();
    let recipient = test_recipient();
    let (note, _) = sender
        .notify(&recipient.payment_code(), 1, AddressType::P2pkh)
        .unwrap();
    let commitment = recipient.detect_notification(&note.to_script()).unwrap();
    let v = recipient.key_infos(&commitment, 0, Some(2)).unwrap();
    assert_eq!(v.len(), 3);
    for (i, addr, pubkey, privkey) in &v {
        let (a, pk, sk) = recipient.key_info(&commitment, *i).unwrap();
        assert_eq!(addr, &a);
        assert_eq!(pubkey, &pk);
        assert_eq!(privkey, &sk);
    }
}

#[test]
fn error_variants() {
    assert_eq!(
        Sender::from_seed(&vec![], Network::Mainnet, 0).unwrap_err(),
        Error::EmptySeed
    );
    assert_eq!(
        Sender::from_seed(&vec![1], Network::Mainnet, 0x8000_0000).unwrap_err(),
        Error::AccountOutOfRange
    );
    assert_eq!(
        Recipient::from_seed(&vec![], Network::Mainnet, 0, both()).unwrap_err(),
        Error::EmptySeed
    );
    let sender = test_sender();
    let recipient = test_recipient();
    let code = recipient.payment_code();
    assert_eq!(
        sender.notify(&code, 0, AddressType::P2tr).unwrap_err(),
        Error::UnsupportedAddressType
    );
    assert_eq!(
        sender.notify(&code, 0x8000_0000, AddressType::P2wpkh).unwrap_err(),
        Error::AccountOutOfRange
    );
}

#[test]
fn both_sides_agree_for_every_type() {
    let seed_r: Vec<u8> = (0..32).collect();
    let seed_s = vec![0xFE];
    let all = AddressTypeSet {
        p2pkh: true,
        p2wpkh: true,
        p2tr: true,
    };
    for t in [AddressType::P2pkh, AddressType::P2wpkh, AddressType::P2tr] {
        let (a, b) = privpay::derive_both_sides(
            &seed_r,
            &seed_s,
            Network::Mainnet,
            0,
            all,
            9,
            t,
            4,
        )
        .unwrap();
        assert_eq!(a, b);
    }
}

#[test]
fn wipe_consumes_identities() {
    let sender = test_sender();
    let recipient = test_recipient();
    sender.wipe();
    recipient.wipe();
}
