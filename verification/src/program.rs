//! Program bundles: a signed authorization to execute a WASM module.
//!
//! A bundle carries the sender's identity, an advisory program name, the
//! module bytes, and a signature by the identity's key over the canonical
//! concatenation of the identity's signed fields (without the identity's own
//! signature), the name, and the module bytes.  A receiver admits a bundle
//! only after validating the identity and this outer signature.

use vstd::prelude::*;
use vstd::string::StringExecFns;
use vstd::utf8::{decode_utf8, encode_utf8, valid_utf8};

use crate::crypto_utils::{ed25519_pub_of, ed25519_sig_of, ed25519_verifies, sign_bytes,
    signature_is_valid};
use crate::identity::{
    lemma_parse_identity_exact, lemma_parse_identity_round_trip, spec_identity_fits,
    spec_identity_signed_input, spec_identity_wire, spec_parse_identity, spec_verify_identity,
    identity_signing_bytes, identity_wire_bytes, verify_identity, IdentityData, IdentityError,
    IdentityModel,
};
use crate::wire::{
    lemma_parse_lp_exact, lemma_parse_lp_round_trip, spec_lp, spec_parse_lp, write_lp,
};

verus! {

/// A signed execution authorization: this identity authorizes execution of
/// these module bytes under this name.
pub struct ProgramData {
    /// Who signed the bundle; determines the trust a receiver gives it.
    pub source: IdentityData,
    /// Advisory label; signed all the same, any UTF-8 up to 256 bytes.
    pub human_name: String,
    /// The executable material.
    pub wasm_program_bytes: Vec<u8>,
    /// Signature over the source's signed fields (without the source's own
    /// signature), the name, and the module bytes, in that order, by the
    /// key the source states.
    pub signature: Vec<u8>,
}

/// The mathematical content of a [`ProgramData`].
#[verifier::ext_equal]
pub struct ProgramModel {
    pub source: IdentityModel,
    pub human_name: Seq<char>,
    pub wasm_program_bytes: Seq<u8>,
    pub signature: Seq<u8>,
}

impl View for ProgramData {
    type V = ProgramModel;

    open spec fn view(&self) -> ProgramModel {
        ProgramModel {
            source: self.source@,
            human_name: self.human_name@,
            wasm_program_bytes: self.wasm_program_bytes@,
            signature: self.signature@,
        }
    }
}

/// The canonical bytes a bundle's signature is computed over: the source's
/// signed fields without the source's own signature, then the name, then the
/// module bytes.
pub open spec fn spec_bundle_signed_input(pd: ProgramModel) -> Seq<u8> {
    spec_identity_signed_input(pd.source) + spec_lp(encode_utf8(pd.human_name)) + spec_lp(
        pd.wasm_program_bytes,
    )
}

/// A bundle as it travels on the wire: the full source identity (signature
/// included), the name, the module bytes, and the outer signature.
pub open spec fn spec_bundle_wire(pd: ProgramModel) -> Seq<u8> {
    spec_identity_wire(pd.source) + spec_lp(encode_utf8(pd.human_name)) + spec_lp(
        pd.wasm_program_bytes,
    ) + spec_lp(pd.signature)
}

/// Whether each variable-length field is small enough for its 64-bit length
/// prefix.
pub open spec fn spec_bundle_fits(pd: ProgramModel) -> bool {
    &&& spec_identity_fits(pd.source)
    &&& encode_utf8(pd.human_name).len() <= u64::MAX
    &&& pd.wasm_program_bytes.len() <= u64::MAX
    &&& pd.signature.len() <= u64::MAX
}

/// Parses the wire form of a bundle from the front of the input.
pub open spec fn spec_parse_bundle(b: Seq<u8>) -> Option<(ProgramModel, Seq<u8>)> {
    match spec_parse_identity(b) {
        None => None,
        Some((source, r1)) => match spec_parse_lp(r1) {
            None => None,
            Some((name_bytes, r2)) => {
                if !valid_utf8(name_bytes) {
                    None
                } else {
                    match spec_parse_lp(r2) {
                        None => None,
                        Some((wasm, r3)) => match spec_parse_lp(r3) {
                            None => None,
                            Some((signature, r4)) => Some(
                                (
                                    ProgramModel {
                                        source: source,
                                        human_name: decode_utf8(name_bytes),
                                        wasm_program_bytes: wasm,
                                        signature: signature,
                                    },
                                    r4,
                                ),
                            ),
                        },
                    }
                }
            },
        },
    }
}

/// Parsing the wire form of a bundle yields the bundle back.
pub proof fn lemma_parse_bundle_round_trip(pd: ProgramModel, rest: Seq<u8>)
    requires
        spec_bundle_fits(pd),
    ensures
        spec_parse_bundle(spec_bundle_wire(pd) + rest) == Some((pd, rest)),
{
    broadcast use vstd::utf8::encode_utf8_valid_utf8;
    broadcast use vstd::utf8::encode_utf8_decode_utf8;

    let name_bytes = encode_utf8(pd.human_name);
    let b = spec_bundle_wire(pd) + rest;
    let r1 = spec_lp(name_bytes) + (spec_lp(pd.wasm_program_bytes) + (spec_lp(pd.signature)
        + rest));
    assert(b =~= spec_identity_wire(pd.source) + r1);
    lemma_parse_identity_round_trip(pd.source, r1);
    let r2 = spec_lp(pd.wasm_program_bytes) + (spec_lp(pd.signature) + rest);
    lemma_parse_lp_round_trip(name_bytes, r2);
    let r3 = spec_lp(pd.signature) + rest;
    lemma_parse_lp_round_trip(pd.wasm_program_bytes, r3);
    lemma_parse_lp_round_trip(pd.signature, rest);
    assert(spec_parse_bundle(b) == Some((pd, rest)));
}

/// A successful parse pins the input down to the wire form of its result.
#[verifier::rlimit(50)]
pub proof fn lemma_parse_bundle_exact(b: Seq<u8>, pd: ProgramModel, rest: Seq<u8>)
    requires
        spec_parse_bundle(b) == Some((pd, rest)),
    ensures
        b == spec_bundle_wire(pd) + rest,
        spec_bundle_fits(pd),
{
    broadcast use vstd::utf8::decode_utf8_encode_utf8;

    let (source, r1) = spec_parse_identity(b).unwrap();
    lemma_parse_identity_exact(b, source, r1);
    let (name_bytes, r2) = spec_parse_lp(r1).unwrap();
    lemma_parse_lp_exact(r1, name_bytes, r2);
    let (wasm, r3) = spec_parse_lp(r2).unwrap();
    lemma_parse_lp_exact(r2, wasm, r3);
    let (signature, r4) = spec_parse_lp(r3).unwrap();
    lemma_parse_lp_exact(r3, signature, r4);
    assert(encode_utf8(pd.human_name) == name_bytes);
    assert(b =~= spec_bundle_wire(pd) + rest);
}

/// Serializes the canonical signed input of a bundle.
pub fn bundle_signing_bytes(pd: &ProgramData) -> (out: Vec<u8>)
    ensures
        out@ == spec_bundle_signed_input(pd@),
{
    let mut out = identity_signing_bytes(&pd.source);
    write_lp(&mut out, pd.human_name.as_str().as_bytes());
    write_lp(&mut out, pd.wasm_program_bytes.as_slice());
    assert(out@ =~= spec_bundle_signed_input(pd@));
    out
}

/// Serializes the wire form of a bundle.
pub fn bundle_wire_bytes(pd: &ProgramData) -> (out: Vec<u8>)
    ensures
        out@ == spec_bundle_wire(pd@),
{
    let mut out = identity_wire_bytes(&pd.source);
    write_lp(&mut out, pd.human_name.as_str().as_bytes());
    write_lp(&mut out, pd.wasm_program_bytes.as_slice());
    write_lp(&mut out, pd.signature.as_slice());
    assert(out@ =~= spec_bundle_wire(pd@));
    out
}

/// Parses the wire form of a bundle out of the input, starting at the
/// cursor; mirrors `spec_parse_bundle` on the suffix from there.
pub fn read_bundle(b: &[u8], pos: usize) -> (r: Option<(ProgramData, usize)>)
    requires
        pos <= b@.len(),
    ensures
        match r {
            Some(parsed) => {
                &&& parsed.1 <= b@.len()
                &&& spec_parse_bundle(b@.skip(pos as int)) == Some(
                    (parsed.0@, b@.skip(parsed.1 as int)),
                )
            },
            None => spec_parse_bundle(b@.skip(pos as int)) is None,
        },
{
    let (source, p1) = match crate::identity::read_identity(b, pos) {
        Some(v) => v,
        None => {
            return None;
        },
    };
    let (name_bytes, p2) = match crate::wire::read_lp(b, p1) {
        Some(v) => v,
        None => {
            return None;
        },
    };
    let human_name = match crate::wire::bytes_to_string(name_bytes) {
        Some(s) => s,
        None => {
            return None;
        },
    };
    let (wasm, p3) = match crate::wire::read_lp(b, p2) {
        Some(v) => v,
        None => {
            return None;
        },
    };
    let (signature, p4) = match crate::wire::read_lp(b, p3) {
        Some(v) => v,
        None => {
            return None;
        },
    };
    let pd = ProgramData {
        source: source,
        human_name: human_name,
        wasm_program_bytes: wasm,
        signature: signature,
    };
    Some((pd, p4))
}

/// Why a bundle was refused admission.
#[derive(Clone, Copy, Debug, PartialEq, Eq, Structural)]
pub enum AdmitError {
    /// The identity's self-signature or the bundle's outer signature does
    /// not verify.
    BadSignature,
    /// The identity's generation time sits too far in the future.
    NotYetValid,
    /// The identity's validity window has passed.
    Expired,
    /// The identity names a key scheme this library does not know.
    UnknownKeyFmt,
    /// The module bytes exceed the configured maximum.
    BundleTooLarge,
    /// The datagram did not decode to a message at all.
    DecodeFailed,
}

/// The admission error that corresponds to an identity error.
pub open spec fn spec_admit_error_of_identity(e: IdentityError) -> AdmitError {
    match e {
        IdentityError::BadSignature => AdmitError::BadSignature,
        IdentityError::NotYetValid => AdmitError::NotYetValid,
        IdentityError::Expired => AdmitError::Expired,
        IdentityError::UnknownKeyFmt => AdmitError::UnknownKeyFmt,
    }
}

/// Whether the bundle's outer signature verifies under the key its source
/// states.
pub open spec fn spec_bundle_sig_ok(pd: ProgramModel) -> bool {
    &&& pd.source.encoded_public_key.len() == 32
    &&& pd.signature.len() == 64
    &&& ed25519_verifies(pd.source.encoded_public_key, spec_bundle_signed_input(pd), pd.signature)
}

/// What `verify_bundle` decides: the source identity is validated first,
/// then the module size, then the outer signature.
pub open spec fn spec_verify_bundle(
    pd: ProgramModel,
    now: u64,
    skew_s: u64,
    max_wasm_bytes: u64,
) -> Result<(), AdmitError> {
    match spec_verify_identity(pd.source, now, skew_s) {
        Err(e) => Err(spec_admit_error_of_identity(e)),
        Ok(()) => {
            if pd.wasm_program_bytes.len() > max_wasm_bytes {
                Err(AdmitError::BundleTooLarge)
            } else if !spec_bundle_sig_ok(pd) {
                Err(AdmitError::BadSignature)
            } else {
                Ok(())
            }
        },
    }
}

/// Validates a bundle under the receiver's clock: its source identity, the
/// module size against the configured maximum, and the outer signature under
/// the source's stated key.
pub fn verify_bundle(pd: &ProgramData, now: u64, skew_s: u64, max_wasm_bytes: u64) -> (r: Result<
    (),
    AdmitError,
>)
    ensures
        r == spec_verify_bundle(pd@, now, skew_s, max_wasm_bytes),
{
    match verify_identity(&pd.source, now, skew_s) {
        Err(IdentityError::BadSignature) => Err(AdmitError::BadSignature),
        Err(IdentityError::NotYetValid) => Err(AdmitError::NotYetValid),
        Err(IdentityError::Expired) => Err(AdmitError::Expired),
        Err(IdentityError::UnknownKeyFmt) => Err(AdmitError::UnknownKeyFmt),
        Ok(()) => {
            if pd.wasm_program_bytes.len() as u64 > max_wasm_bytes {
                Err(AdmitError::BundleTooLarge)
            } else if pd.source.encoded_public_key.len() != 32 || pd.signature.len() != 64 {
                Err(AdmitError::BadSignature)
            } else {
                let message = bundle_signing_bytes(pd);
                if signature_is_valid(
                    pd.source.encoded_public_key.as_slice(),
                    message.as_slice(),
                    pd.signature.as_slice(),
                ) {
                    Ok(())
                } else {
                    Err(AdmitError::BadSignature)
                }
            }
        },
    }
}

/// Signs a bundle: fills the fields and signs the canonical input with the
/// given 32-byte ed25519 private key.  When the source identity states the
/// verifying key of that same private key, the outer signature verifies.
pub fn sign_bundle(
    private_key: &[u8],
    source: IdentityData,
    human_name: &str,
    wasm_bytes: Vec<u8>,
) -> (pd: ProgramData)
    requires
        private_key@.len() == 32,
    ensures
        pd@.source == source@,
        pd@.human_name == human_name@,
        pd@.wasm_program_bytes == wasm_bytes@,
        pd@.signature == ed25519_sig_of(private_key@, spec_bundle_signed_input(pd@)),
        source@.encoded_public_key == ed25519_pub_of(private_key@)
            && source@.encoded_public_key.len() == 32 ==> spec_bundle_sig_ok(pd@),
        source@.encoded_public_key == ed25519_pub_of(private_key@)
            && source@.encoded_public_key.len() == 32 ==> forall|t: u64, skew_s: u64, max: u64|
            spec_verify_identity(pd@.source, t, skew_s) == Ok::<(), IdentityError>(())
                && pd@.wasm_program_bytes.len() <= max ==> #[trigger] spec_verify_bundle(
                pd@,
                t,
                skew_s,
                max,
            ) == Ok::<(), AdmitError>(()),
{
    let mut pd = ProgramData {
        source: source,
        human_name: String::from_str(human_name),
        wasm_program_bytes: wasm_bytes,
        signature: Vec::new(),
    };
    let message = bundle_signing_bytes(&pd);
    let signature = sign_bytes(private_key, message.as_slice());
    pd.signature = signature;
    assert(spec_bundle_signed_input(pd@) == message@);
    pd
}

/// Step-by-step construction of a [`ProgramData`], as submitters assemble
/// one before signing or transmission.
pub struct ProgramDataBuilder {
    pub source: Option<IdentityData>,
    pub human_name: String,
    pub wasm_program_bytes: Vec<u8>,
    pub signature: Vec<u8>,
}

/// Why a builder could not produce a bundle.
#[derive(Clone, Copy, Debug, PartialEq, Eq, Structural)]
pub enum ProgramBuildError {
    /// No source identity was set.
    NoSource,
}

impl ProgramDataBuilder {
    /// An empty builder: a placeholder name, no source, no bytes.
    pub fn new() -> (b: ProgramDataBuilder)
        ensures
            b.source is None,
            b.human_name@ == "UNSET_NAME"@,
            b.wasm_program_bytes@ == Seq::<u8>::empty(),
            b.signature@ == Seq::<u8>::empty(),
    {
        ProgramDataBuilder {
            source: None,
            human_name: String::from_str("UNSET_NAME"),
            wasm_program_bytes: Vec::new(),
            signature: Vec::new(),
        }
    }

    /// Sets the source identity, replacing any previous one.
    pub fn set_source(self, source: &IdentityData) -> (b: ProgramDataBuilder)
        ensures
            b.source matches Some(s) && s@ == source@,
            b.human_name == self.human_name,
            b.wasm_program_bytes == self.wasm_program_bytes,
            b.signature == self.signature,
    {
        ProgramDataBuilder {
            source: Some(source.clone_data()),
            human_name: self.human_name,
            wasm_program_bytes: self.wasm_program_bytes,
            signature: self.signature,
        }
    }

    /// Sets the advisory program name.
    pub fn set_human_name(self, name: &str) -> (b: ProgramDataBuilder)
        ensures
            b.human_name@ == name@,
            b.source == self.source,
            b.wasm_program_bytes == self.wasm_program_bytes,
            b.signature == self.signature,
    {
        ProgramDataBuilder {
            source: self.source,
            human_name: String::from_str(name),
            wasm_program_bytes: self.wasm_program_bytes,
            signature: self.signature,
        }
    }

    /// Sets the module bytes, replacing any previous ones.
    pub fn set_wasm_program_bytes(self, wasm_program_bytes: &[u8]) -> (b: ProgramDataBuilder)
        ensures
            b.wasm_program_bytes@ == wasm_program_bytes@,
            b.source == self.source,
            b.human_name == self.human_name,
            b.signature == self.signature,
    {
        ProgramDataBuilder {
            source: self.source,
            human_name: self.human_name,
            wasm_program_bytes: vstd::slice::slice_to_vec(wasm_program_bytes),
            signature: self.signature,
        }
    }

    /// Sets the signature bytes, replacing any previous ones.
    pub fn set_signature(self, signature: &[u8]) -> (b: ProgramDataBuilder)
        ensures
            b.signature@ == signature@,
            b.source == self.source,
            b.human_name == self.human_name,
            b.wasm_program_bytes == self.wasm_program_bytes,
    {
        ProgramDataBuilder {
            source: self.source,
            human_name: self.human_name,
            wasm_program_bytes: self.wasm_program_bytes,
            signature: vstd::slice::slice_to_vec(signature),
        }
    }

    /// Produces the bundle; fails exactly when no source was set.
    pub fn build(self) -> (r: Result<ProgramData, ProgramBuildError>)
        ensures
            match r {
                Ok(pd) => {
                    &&& self.source matches Some(s) && pd.source == s
                    &&& pd.human_name == self.human_name
                    &&& pd.wasm_program_bytes == self.wasm_program_bytes
                    &&& pd.signature == self.signature
                },
                Err(e) => self.source is None && e == ProgramBuildError::NoSource,
            },
    {
        match self.source {
            Some(source) => Ok(
                ProgramData {
                    source: source,
                    human_name: self.human_name,
                    wasm_program_bytes: self.wasm_program_bytes,
                    signature: self.signature,
                },
            ),
            None => Err(ProgramBuildError::NoSource),
        }
    }
}

impl IdentityData {
    /// A copy with the same content, used where a caller keeps the original.
    pub fn clone_data(&self) -> (r: IdentityData)
        ensures
            r@ == self@,
    {
        IdentityData {
            human_name: self.human_name.clone(),
            generated_at_utc0_epoch_s: self.generated_at_utc0_epoch_s,
            validity_s: self.validity_s,
            encoded_public_key_fmt: self.encoded_public_key_fmt.clone(),
            encoded_public_key: vstd::slice::slice_to_vec(self.encoded_public_key.as_slice()),
            signature: vstd::slice::slice_to_vec(self.signature.as_slice()),
        }
    }
}

impl ProgramData {
    /// A copy with the same content.
    pub fn clone_data(&self) -> (r: ProgramData)
        ensures
            r@ == self@,
    {
        ProgramData {
            source: self.source.clone_data(),
            human_name: self.human_name.clone(),
            wasm_program_bytes: vstd::slice::slice_to_vec(self.wasm_program_bytes.as_slice()),
            signature: vstd::slice::slice_to_vec(self.signature.as_slice()),
        }
    }
}

} // verus!
