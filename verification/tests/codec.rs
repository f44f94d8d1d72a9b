//! Unit tests for the codecs and small helpers.

use bitcoin::bech32::ToBase32;

use privpay::address_type::AddressTypeSet;
use privpay::hexstr::{hex_decode, hex_encode};
use privpay::notification::Notification;
use privpay::payment_code::PaymentCode;
use privpay::util::index_range;
use privpay::Error;

#[test]
fn hex_round_trip() {
    let data: Vec<u8> = vec![0x00, 0x01, 0x0f, 0x10, 0xab, 0xff];
    let encoded = hex_encode(&data);
    assert_eq!(String::from_utf8(encoded.clone()).unwrap(), "00010f10abff");
    assert_eq!(hex_decode(&encoded).unwrap(), data);
}

#[test]
fn hex_accepts_upper_case() {
    let decoded = hex_decode(&b"00FFab".to_vec()).unwrap();
    assert_eq!(decoded, vec![0x00, 0xFF, 0xAB]);
}

#[test]
fn hex_rejects_bad_input() {
    assert_eq!(hex_decode(&b"abc".to_vec()).unwrap_err(), Error::InvalidHex);
    assert_eq!(hex_decode(&b"zz".to_vec()).unwrap_err(), Error::InvalidHex);
    assert_eq!(hex_decode(&b"0g".to_vec()).unwrap_err(), Error::InvalidHex);
    assert_eq!(hex_decode(&vec![]).unwrap(), Vec::<u8>::new());
}

#[test]
fn index_range_defaulting() {
    assert_eq!(index_range(0, Some(5)), (0, 5));
    assert_eq!(index_range(3, Some(3)), (3, 3));
    assert_eq!(index_range(5, Some(2)), (5, 5));
    assert_eq!(index_range(5, None), (5, 5));
    assert_eq!(index_range(u64::MAX, None), (u64::MAX, u64::MAX));
}

#[test]
fn flags_round_trip() {
    for p in [false, true] {
        for w in [false, true] {
            for t in [false, true] {
                let s = AddressTypeSet {
                    p2pkh: p,
                    p2wpkh: w,
                    p2tr: t,
                };
                assert_eq!(AddressTypeSet::from_flags(s.to_flags()), s);
            }
        }
    }
    // bits above the known types are ignored
    let s = AddressTypeSet::from_flags(0xFFF8);
    assert_eq!(s, AddressTypeSet::empty());
}

#[test]
fn notification_decode_rejects_malformed() {
    assert!(Notification::decode(&vec![]).is_none());
    assert!(Notification::decode(&vec![b'P'; 39]).is_none());
    // wrong magic
    let mut payload = vec![b'Q', b'P'];
    payload.extend(std::iter::repeat(0u8).take(38));
    assert!(Notification::decode(&payload).is_none());
    // unknown address type tag
    let mut payload = vec![b'P', b'P'];
    payload.extend(std::iter::repeat(0u8).take(37));
    payload.push(3);
    assert!(Notification::decode(&payload).is_none());
}

#[test]
fn payment_code_decode_rejects_corruption() {
    let recipient = privpay::recipient::Recipient::from_seed(
        &vec![0xFF],
        privpay::network::Network::Mainnet,
        0,
        AddressTypeSet {
            p2pkh: true,
            p2wpkh: true,
            p2tr: false,
        },
    )
    .unwrap();
    let text = recipient.payment_code().to_text();

    // checksum broken by flipping the last character
    let mut corrupted = text.clone();
    let last = corrupted.pop().unwrap();
    corrupted.push(if last == 'q' { 'p' } else { 'q' });
    assert_eq!(
        PaymentCode::from_text(&corrupted).unwrap_err(),
        Error::NotBech32m
    );

    // truncation breaks the checksum too
    assert_eq!(
        PaymentCode::from_text(&text[..text.len() - 2]).unwrap_err(),
        Error::NotBech32m
    );

    assert_eq!(
        PaymentCode::from_text("not a payment code").unwrap_err(),
        Error::NotBech32m
    );

    // a valid bech32m string under a foreign prefix names no network
    let foreign = bitcoin::bech32::encode(
        "foo",
        vec![0u8; 35].to_base32(),
        bitcoin::bech32::Variant::Bech32m,
    )
    .unwrap();
    assert_eq!(
        PaymentCode::from_text(&foreign).unwrap_err(),
        Error::UnknownNetwork
    );

    // the right prefix but a truncated payload
    let short = bitcoin::bech32::encode(
        "pay",
        vec![0u8; 10].to_base32(),
        bitcoin::bech32::Variant::Bech32m,
    )
    .unwrap();
    assert_eq!(
        PaymentCode::from_text(&short).unwrap_err(),
        Error::WrongPayloadLength
    );

    // a full-width payload whose key bytes are no curve point
    let junk = bitcoin::bech32::encode(
        "pay",
        vec![0u8; 35].to_base32(),
        bitcoin::bech32::Variant::Bech32m,
    )
    .unwrap();
    assert_eq!(
        PaymentCode::from_text(&junk).unwrap_err(),
        Error::InvalidPublicKey
    );
}

#[test]
fn payment_code_new_validates_key() {
    assert_eq!(
        PaymentCode::new(
            vec![0u8; 33],
            privpay::network::Network::Mainnet,
            AddressTypeSet::empty()
        )
        .unwrap_err(),
        Error::InvalidPublicKey
    );
    assert_eq!(
        PaymentCode::new(
            vec![2u8; 10],
            privpay::network::Network::Mainnet,
            AddressTypeSet::empty()
        )
        .unwrap_err(),
        Error::InvalidPublicKey
    );
}
