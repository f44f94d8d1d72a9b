//! The on-chain notification payload: a tagged binary blob a sender embeds
//! in a data-only output to announce a payment relationship.
//!
//! Layout, 40 bytes: the two magic bytes `PP`, four bytes of notification
//! code, the sender's 33-byte compressed contribution key, and one
//! address-type tag byte. On chain the payload sits behind the two script
//! bytes of a provably unspendable data output.

use vstd::prelude::*;

use crate::address_type::AddressType;
use crate::util;

verus! {

/// The first magic byte: ASCII `P`.
pub const MAGIC0: u8 = 80;

/// The second magic byte: ASCII `P`.
pub const MAGIC1: u8 = 80;

/// The script opcode that opens a data-only output.
pub const OP_RETURN: u8 = 106;

/// The script opcode that pushes the 40 payload bytes.
pub const PUSH_40: u8 = 40;

/// A decoded notification.
#[derive(Clone, Debug)]
pub struct Notification {
    /// The first four bytes of the hash of the shared point: lets the
    /// receiver recognize a notification addressed to it.
    pub code: Vec<u8>,
    /// The sender's compressed contribution public key.
    pub sender_pubkey: Vec<u8>,
    /// The address type the sender commits to pay to.
    pub address_type: AddressType,
}

impl Notification {
    /// Structural well-formedness: the fields have their wire widths.
    pub open spec fn wf(self) -> bool {
        &&& self.code@.len() == 4
        &&& self.sender_pubkey@.len() == 33
    }

    /// The 40-byte payload carrying `code`, `pk` and the tag byte.
    pub open spec fn spec_payload(code: Seq<u8>, pk: Seq<u8>, tag: u8) -> Seq<u8> {
        seq![MAGIC0, MAGIC1] + code + pk + seq![tag]
    }

    /// What a payload parses to: the code, key and tag fields, if the magic
    /// bytes open it, it is long enough, and the tag names a known type.
    /// Trailing bytes beyond the forty are ignored.
    pub open spec fn spec_parse(payload: Seq<u8>) -> Option<(Seq<u8>, Seq<u8>, u8)> {
        if payload.len() >= 40 && payload[0] == MAGIC0 && payload[1] == MAGIC1
            && AddressType::spec_from_tag(payload[39]) is Some {
            Some((payload.subrange(2, 6), payload.subrange(6, 39), payload[39]))
        } else {
            None
        }
    }

    /// Encode this notification as its 40-byte payload.
    pub fn encode(&self) -> (r: Vec<u8>)
        requires
            self.wf(),
        ensures
            r@ == Self::spec_payload(self.code@, self.sender_pubkey@, self.address_type.spec_tag()),
            r@.len() == 40,
    {
        let mut r: Vec<u8> = Vec::new();
        r.push(MAGIC0);
        r.push(MAGIC1);
        util::push_all(&mut r, &self.code);
        util::push_all(&mut r, &self.sender_pubkey);
        r.push(self.address_type.tag());
        proof {
            assert(r@ =~= Self::spec_payload(
                self.code@,
                self.sender_pubkey@,
                self.address_type.spec_tag(),
            ));
        }
        r
    }

    /// Decode a payload. `None` is the normal outcome for bytes that are not
    /// a notification; it is not an error.
    pub fn decode(payload: &Vec<u8>) -> (r: Option<Notification>)
        ensures
            r matches Some(n) ==> {
                &&& n.wf()
                &&& Self::spec_parse(payload@) == Some(
                    (n.code@, n.sender_pubkey@, n.address_type.spec_tag()),
                )
            },
            r is None ==> Self::spec_parse(payload@) is None,
    {
        if payload.len() < 40 {
            return None;
        }
        if payload[0] != MAGIC0 || payload[1] != MAGIC1 {
            return None;
        }
        let tag = payload[39];
        let address_type = match AddressType::from_tag(tag) {
            Some(t) => t,
            None => {
                return None;
            },
        };
        let code = util::copy_range(payload, 2, 6);
        let sender_pubkey = util::copy_range(payload, 6, 39);
        Some(Notification { code, sender_pubkey, address_type })
    }

    /// The data-only script that carries a 40-byte payload on chain.
    pub open spec fn spec_script(payload: Seq<u8>) -> Seq<u8> {
        seq![OP_RETURN, PUSH_40] + payload
    }

    /// Wrap this notification's payload in its data-only script.
    pub fn to_script(&self) -> (r: Vec<u8>)
        requires
            self.wf(),
        ensures
            r@ == Self::spec_script(
                Self::spec_payload(self.code@, self.sender_pubkey@, self.address_type.spec_tag()),
            ),
            r@.len() == 42,
    {
        let payload = self.encode();
        let mut r: Vec<u8> = Vec::new();
        r.push(OP_RETURN);
        r.push(PUSH_40);
        util::push_all(&mut r, &payload);
        proof {
            assert(r@ =~= Self::spec_script(payload@));
        }
        r
    }

    /// The payload a data-only script carries, if it is one.
    pub open spec fn spec_unscript(script: Seq<u8>) -> Option<Seq<u8>> {
        if script.len() >= 2 && script[0] == OP_RETURN && script[1] == PUSH_40 {
            Some(script.subrange(2, script.len() as int))
        } else {
            None
        }
    }

    /// Strip the script framing from a candidate script. `None` means the
    /// script is no data-only push of the right width — a normal outcome.
    pub fn unscript(script: &Vec<u8>) -> (r: Option<Vec<u8>>)
        ensures
            r matches Some(p) ==> Self::spec_unscript(script@) == Some(p@),
            r is None ==> Self::spec_unscript(script@) is None,
    {
        if script.len() < 2 || script[0] != OP_RETURN || script[1] != PUSH_40 {
            return None;
        }
        Some(util::copy_range(script, 2, script.len()))
    }
}

/// Round trip: a well-formed notification's payload parses back to exactly
/// its own fields.
pub proof fn lemma_notification_roundtrip(code: Seq<u8>, pk: Seq<u8>, tag: u8)
    requires
        code.len() == 4,
        pk.len() == 33,
        AddressType::spec_from_tag(tag) is Some,
    ensures
        Notification::spec_parse(Notification::spec_payload(code, pk, tag)) == Some(
            (code, pk, tag),
        ),
{
    let payload = Notification::spec_payload(code, pk, tag);
    assert(payload.len() == 40);
    assert(payload[0] == MAGIC0 && payload[1] == MAGIC1);
    assert(payload[39] == tag);
    assert(payload.subrange(2, 6) =~= code);
    assert(payload.subrange(6, 39) =~= pk);
}

/// Round trip: the script framing strips back to exactly the payload it
/// wrapped.
pub proof fn lemma_script_roundtrip(payload: Seq<u8>)
    requires
        payload.len() == 40,
    ensures
        Notification::spec_unscript(Notification::spec_script(payload)) == Some(payload),
{
    let script = Notification::spec_script(payload);
    assert(script.subrange(2, script.len() as int) =~= payload);
}

} // verus!
