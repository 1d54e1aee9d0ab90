//! Identities: a signed self-statement of who a host is for a bounded time.
//!
//! An identity carries a human-readable name, the second it was generated,
//! how long it stays valid, a tag naming the key scheme, the verifying-key
//! bytes, and a signature by the paired private key over the canonical
//! serialization of all the other fields.  Receivers re-validate the
//! statement on every receipt: the signature must verify, the generation
//! time must not sit further in the future than an allowed skew, and the
//! validity window must not have passed.

use vstd::bytes::*;
use vstd::prelude::*;
use vstd::string::StringExecFns;
use vstd::utf8::{decode_utf8, encode_utf8, valid_utf8};

use crate::crypto_utils::{
    ed25519_pub_of, ed25519_public_key, ed25519_sig_of, ed25519_verifies, sign_bytes,
    signature_is_valid,
};
use crate::wire::{
    lemma_parse_lp_exact, lemma_parse_lp_round_trip, lemma_parse_u16_exact,
    lemma_parse_u16_round_trip, lemma_parse_u64_exact, lemma_parse_u64_round_trip, spec_lp,
    spec_parse_lp, spec_parse_u16, spec_parse_u64, write_lp, write_u16, write_u64,
};

verus! {

/// The one key scheme currently defined: 32-byte edwards-curve keys.
pub open spec fn spec_key_fmt_ed25519() -> Seq<char> {
    "ed25519"@
}

/// A signed self-statement: who the holder of a key pair claims to be, and
/// for how long the claim is offered.
pub struct IdentityData {
    /// Advisory display name; signed, but any UTF-8 up to 256 bytes goes.
    pub human_name: String,
    /// Seconds since 1970-01-01 UTC when this statement was generated and
    /// signed.  A receiver treats a generation time from the future as
    /// invalid beyond a small skew.
    pub generated_at_utc0_epoch_s: u64,
    /// How many seconds past the generation time the statement stays valid;
    /// at most about eighteen hours, so that identities are re-signed often.
    pub validity_s: u16,
    /// Short tag naming how `encoded_public_key` is to be read.
    pub encoded_public_key_fmt: String,
    /// The verifying-key material, in the form the tag names.
    pub encoded_public_key: Vec<u8>,
    /// Signature over the canonical serialization of the fields above, in
    /// declared order, by the private key paired with `encoded_public_key`.
    pub signature: Vec<u8>,
}

/// The mathematical content of an [`IdentityData`].
#[verifier::ext_equal]
pub struct IdentityModel {
    pub human_name: Seq<char>,
    pub generated_at_utc0_epoch_s: u64,
    pub validity_s: u16,
    pub encoded_public_key_fmt: Seq<char>,
    pub encoded_public_key: Seq<u8>,
    pub signature: Seq<u8>,
}

impl View for IdentityData {
    type V = IdentityModel;

    open spec fn view(&self) -> IdentityModel {
        IdentityModel {
            human_name: self.human_name@,
            generated_at_utc0_epoch_s: self.generated_at_utc0_epoch_s,
            validity_s: self.validity_s,
            encoded_public_key_fmt: self.encoded_public_key_fmt@,
            encoded_public_key: self.encoded_public_key@,
            signature: self.signature@,
        }
    }
}

/// The canonical bytes an identity's signature is computed over: every field
/// but the signature itself, in declared order, strings as length-prefixed
/// UTF-8 and integers little-endian.
pub open spec fn spec_identity_signed_input(id: IdentityModel) -> Seq<u8> {
    spec_lp(encode_utf8(id.human_name)) + spec_u64_to_le_bytes(id.generated_at_utc0_epoch_s)
        + spec_u16_to_le_bytes(id.validity_s) + spec_lp(encode_utf8(id.encoded_public_key_fmt))
        + spec_lp(id.encoded_public_key)
}

/// An identity as it travels on the wire: its signed input followed by the
/// signature.
pub open spec fn spec_identity_wire(id: IdentityModel) -> Seq<u8> {
    spec_identity_signed_input(id) + spec_lp(id.signature)
}

/// Whether each variable-length field is small enough for its 64-bit length
/// prefix.  Every identity held in real memory satisfies this.
pub open spec fn spec_identity_fits(id: IdentityModel) -> bool {
    &&& encode_utf8(id.human_name).len() <= u64::MAX
    &&& encode_utf8(id.encoded_public_key_fmt).len() <= u64::MAX
    &&& id.encoded_public_key.len() <= u64::MAX
    &&& id.signature.len() <= u64::MAX
}

/// Parses the wire form of an identity from the front of the input.
pub open spec fn spec_parse_identity(b: Seq<u8>) -> Option<(IdentityModel, Seq<u8>)> {
    match spec_parse_lp(b) {
        None => None,
        Some((name_bytes, r1)) => {
            if !valid_utf8(name_bytes) {
                None
            } else {
                match spec_parse_u64(r1) {
                    None => None,
                    Some((generated_at, r2)) => match spec_parse_u16(r2) {
                        None => None,
                        Some((validity, r3)) => match spec_parse_lp(r3) {
                            None => None,
                            Some((fmt_bytes, r4)) => {
                                if !valid_utf8(fmt_bytes) {
                                    None
                                } else {
                                    match spec_parse_lp(r4) {
                                        None => None,
                                        Some((public_key, r5)) => match spec_parse_lp(r5) {
                                            None => None,
                                            Some((signature, r6)) => Some(
                                                (
                                                    IdentityModel {
                                                        human_name: decode_utf8(name_bytes),
                                                        generated_at_utc0_epoch_s: generated_at,
                                                        validity_s: validity,
                                                        encoded_public_key_fmt: decode_utf8(
                                                            fmt_bytes,
                                                        ),
                                                        encoded_public_key: public_key,
                                                        signature: signature,
                                                    },
                                                    r6,
                                                ),
                                            ),
                                        },
                                    }
                                }
                            },
                        },
                    },
                }
            }
        },
    }
}

/// Parsing the wire form of an identity yields the identity back.
pub proof fn lemma_parse_identity_round_trip(id: IdentityModel, rest: Seq<u8>)
    requires
        spec_identity_fits(id),
    ensures
        spec_parse_identity(spec_identity_wire(id) + rest) == Some((id, rest)),
{
    broadcast use vstd::utf8::encode_utf8_valid_utf8;
    broadcast use vstd::utf8::encode_utf8_decode_utf8;

    let name_bytes = encode_utf8(id.human_name);
    let fmt_bytes = encode_utf8(id.encoded_public_key_fmt);
    let b = spec_identity_wire(id) + rest;
    let r1 = spec_u64_to_le_bytes(id.generated_at_utc0_epoch_s) + (spec_u16_to_le_bytes(
        id.validity_s,
    ) + (spec_lp(fmt_bytes) + (spec_lp(id.encoded_public_key) + (spec_lp(id.signature) + rest))));
    assert(b =~= spec_lp(name_bytes) + r1);
    lemma_parse_lp_round_trip(name_bytes, r1);
    let r2 = spec_u16_to_le_bytes(id.validity_s) + (spec_lp(fmt_bytes) + (spec_lp(
        id.encoded_public_key,
    ) + (spec_lp(id.signature) + rest)));
    lemma_parse_u64_round_trip(id.generated_at_utc0_epoch_s, r2);
    let r3 = spec_lp(fmt_bytes) + (spec_lp(id.encoded_public_key) + (spec_lp(id.signature)
        + rest));
    lemma_parse_u16_round_trip(id.validity_s, r3);
    let r4 = spec_lp(id.encoded_public_key) + (spec_lp(id.signature) + rest);
    lemma_parse_lp_round_trip(fmt_bytes, r4);
    let r5 = spec_lp(id.signature) + rest;
    lemma_parse_lp_round_trip(id.encoded_public_key, r5);
    lemma_parse_lp_round_trip(id.signature, rest);
    assert(spec_parse_identity(b) == Some((id, rest)));
}

/// A successful parse pins the input down to the wire form of its result.
pub proof fn lemma_parse_identity_exact(b: Seq<u8>, id: IdentityModel, rest: Seq<u8>)
    requires
        spec_parse_identity(b) == Some((id, rest)),
    ensures
        b == spec_identity_wire(id) + rest,
        spec_identity_fits(id),
{
    broadcast use vstd::utf8::decode_utf8_encode_utf8;

    let (name_bytes, r1) = spec_parse_lp(b).unwrap();
    lemma_parse_lp_exact(b, name_bytes, r1);
    let (generated_at, r2) = spec_parse_u64(r1).unwrap();
    lemma_parse_u64_exact(r1, generated_at, r2);
    let (validity, r3) = spec_parse_u16(r2).unwrap();
    lemma_parse_u16_exact(r2, validity, r3);
    let (fmt_bytes, r4) = spec_parse_lp(r3).unwrap();
    lemma_parse_lp_exact(r3, fmt_bytes, r4);
    let (public_key, r5) = spec_parse_lp(r4).unwrap();
    lemma_parse_lp_exact(r4, public_key, r5);
    let (signature, r6) = spec_parse_lp(r5).unwrap();
    lemma_parse_lp_exact(r5, signature, r6);
    assert(encode_utf8(id.human_name) == name_bytes);
    assert(encode_utf8(id.encoded_public_key_fmt) == fmt_bytes);
    assert(b =~= spec_identity_wire(id) + rest);
}

/// Serializes the canonical signed input of an identity.
pub fn identity_signing_bytes(id: &IdentityData) -> (out: Vec<u8>)
    ensures
        out@ == spec_identity_signed_input(id@),
{
    let mut out: Vec<u8> = Vec::new();
    write_lp(&mut out, id.human_name.as_str().as_bytes());
    write_u64(&mut out, id.generated_at_utc0_epoch_s);
    write_u16(&mut out, id.validity_s);
    write_lp(&mut out, id.encoded_public_key_fmt.as_str().as_bytes());
    write_lp(&mut out, id.encoded_public_key.as_slice());
    assert(out@ =~= spec_identity_signed_input(id@));
    out
}

/// Serializes the wire form of an identity: its signed input, then the
/// signature.
pub fn identity_wire_bytes(id: &IdentityData) -> (out: Vec<u8>)
    ensures
        out@ == spec_identity_wire(id@),
{
    let mut out = identity_signing_bytes(id);
    write_lp(&mut out, id.signature.as_slice());
    assert(out@ =~= spec_identity_wire(id@));
    out
}

/// Parses the wire form of an identity out of the input, starting at the
/// cursor; mirrors `spec_parse_identity` on the suffix from there.
pub fn read_identity(b: &[u8], pos: usize) -> (r: Option<(IdentityData, usize)>)
    requires
        pos <= b@.len(),
    ensures
        match r {
            Some(parsed) => {
                &&& parsed.1 <= b@.len()
                &&& spec_parse_identity(b@.skip(pos as int)) == Some(
                    (parsed.0@, b@.skip(parsed.1 as int)),
                )
            },
            None => spec_parse_identity(b@.skip(pos as int)) is None,
        },
{
    let (name_bytes, p1) = match crate::wire::read_lp(b, pos) {
        Some(v) => v,
        None => {
            return None;
        },
    };
    let human_name = match crate::wire::bytes_to_string(name_bytes) {
        Some(s) => s,
        None => {
            return None;
        },
    };
    let (generated_at, p2) = match crate::wire::read_u64(b, p1) {
        Some(v) => v,
        None => {
            return None;
        },
    };
    let (validity, p3) = match crate::wire::read_u16(b, p2) {
        Some(v) => v,
        None => {
            return None;
        },
    };
    let (fmt_bytes, p4) = match crate::wire::read_lp(b, p3) {
        Some(v) => v,
        None => {
            return None;
        },
    };
    let fmt = match crate::wire::bytes_to_string(fmt_bytes) {
        Some(s) => s,
        None => {
            return None;
        },
    };
    let (public_key, p5) = match crate::wire::read_lp(b, p4) {
        Some(v) => v,
        None => {
            return None;
        },
    };
    let (signature, p6) = match crate::wire::read_lp(b, p5) {
        Some(v) => v,
        None => {
            return None;
        },
    };
    let id = IdentityData {
        human_name: human_name,
        generated_at_utc0_epoch_s: generated_at,
        validity_s: validity,
        encoded_public_key_fmt: fmt,
        encoded_public_key: public_key,
        signature: signature,
    };
    Some((id, p6))
}

/// Why an identity was rejected.
#[derive(Clone, Copy, Debug, PartialEq, Eq, Structural)]
pub enum IdentityError {
    /// The signature does not verify under the stated key.
    BadSignature,
    /// The generation time sits further in the future than the allowed skew.
    NotYetValid,
    /// The validity window has passed.
    Expired,
    /// The key-scheme tag is not one this library knows.
    UnknownKeyFmt,
}

/// Whether the identity's signature verifies under its own stated key: the
/// key is 32 bytes, the signature 64, and ed25519 verification passes over
/// the canonical signed input.
pub open spec fn spec_identity_sig_ok(id: IdentityModel) -> bool {
    &&& id.encoded_public_key.len() == 32
    &&& id.signature.len() == 64
    &&& ed25519_verifies(id.encoded_public_key, spec_identity_signed_input(id), id.signature)
}

/// Whether the identity claims a generation time further in the future than
/// the receiver's clock plus the allowed skew.
pub open spec fn spec_identity_not_yet_valid(id: IdentityModel, now: u64, skew_s: u64) -> bool {
    id.generated_at_utc0_epoch_s > now + skew_s
}

/// Whether the receiver's clock sits past the end of the validity window.
pub open spec fn spec_identity_expired(id: IdentityModel, now: u64) -> bool {
    now > id.generated_at_utc0_epoch_s + id.validity_s
}

/// What `verify_identity` decides for an identity under a given clock: the
/// first failed check in declared order, or acceptance.
pub open spec fn spec_verify_identity(id: IdentityModel, now: u64, skew_s: u64) -> Result<
    (),
    IdentityError,
> {
    if id.encoded_public_key_fmt != spec_key_fmt_ed25519() {
        Err(IdentityError::UnknownKeyFmt)
    } else if spec_identity_not_yet_valid(id, now, skew_s) {
        Err(IdentityError::NotYetValid)
    } else if spec_identity_expired(id, now) {
        Err(IdentityError::Expired)
    } else if !spec_identity_sig_ok(id) {
        Err(IdentityError::BadSignature)
    } else {
        Ok(())
    }
}

/// Validates an identity against the receiver's clock: the key scheme must
/// be known, the generation time must not sit more than `max_future_skew_s`
/// in the future, the validity window must not have passed, and the
/// self-signature must verify.
///
/// Any identity whose generation time exceeds `now + max_future_skew_s`, or
/// whose window `generated_at + validity_s` lies before `now`, is rejected.
pub fn verify_identity(id: &IdentityData, now: u64, max_future_skew_s: u64) -> (r: Result<
    (),
    IdentityError,
>)
    ensures
        r == spec_verify_identity(id@, now, max_future_skew_s),
        spec_identity_not_yet_valid(id@, now, max_future_skew_s) || spec_identity_expired(id@, now)
            ==> r is Err,
{
    if !(id.encoded_public_key_fmt == String::from_str("ed25519")) {
        return Err(IdentityError::UnknownKeyFmt);
    }
    if id.generated_at_utc0_epoch_s > now && id.generated_at_utc0_epoch_s - now
        > max_future_skew_s {
        return Err(IdentityError::NotYetValid);
    }
    if now > id.generated_at_utc0_epoch_s && now - id.generated_at_utc0_epoch_s > (
    id.validity_s as u64) {
        return Err(IdentityError::Expired);
    }
    if id.encoded_public_key.len() != 32 || id.signature.len() != 64 {
        return Err(IdentityError::BadSignature);
    }
    let message = identity_signing_bytes(id);
    if signature_is_valid(
        id.encoded_public_key.as_slice(),
        message.as_slice(),
        id.signature.as_slice(),
    ) {
        Ok(())
    } else {
        Err(IdentityError::BadSignature)
    }
}

/// Signs a fresh identity statement: fills the fields, serializes the
/// canonical input, and signs it with the given 32-byte ed25519 private key.
/// The result verifies under its own stated key.
pub fn sign_identity(private_key: &[u8], human_name: &str, now: u64, validity_s: u16) -> (id:
    IdentityData)
    requires
        private_key@.len() == 32,
    ensures
        id@.human_name == human_name@,
        id@.generated_at_utc0_epoch_s == now,
        id@.validity_s == validity_s,
        id@.encoded_public_key_fmt == spec_key_fmt_ed25519(),
        id@.encoded_public_key == ed25519_pub_of(private_key@),
        id@.signature == ed25519_sig_of(private_key@, spec_identity_signed_input(id@)),
        spec_identity_sig_ok(id@),
        forall|t: u64, skew_s: u64|
            now <= t + skew_s && t <= now + validity_s ==> #[trigger] spec_verify_identity(
                id@,
                t,
                skew_s,
            ) == Ok::<(), IdentityError>(()),
{
    let public_key = ed25519_public_key(private_key);
    let mut id = IdentityData {
        human_name: String::from_str(human_name),
        generated_at_utc0_epoch_s: now,
        validity_s: validity_s,
        encoded_public_key_fmt: String::from_str("ed25519"),
        encoded_public_key: public_key,
        signature: Vec::new(),
    };
    let message = identity_signing_bytes(&id);
    let signature = sign_bytes(private_key, message.as_slice());
    id.signature = signature;
    assert(spec_identity_signed_input(id@) == message@);
    id
}

} // verus!
