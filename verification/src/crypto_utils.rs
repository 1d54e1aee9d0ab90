//! Signatures and key material.
//!
//! All cryptography is done by outside libraries; this module declares what
//! the library relies on.  Signing, verification, and the key-file parsing
//! steps each get a trusted item whose contract names the outside function
//! it stands for; everything built from them (the key-file readers, the
//! OpenSSH text form of a public key) is verified against those names.

use vstd::prelude::*;
use vstd::string::StrSliceExecFns;
use vstd::string::StringExecFns;

verus! {

/// The signature that `ed25519_dalek::SigningKey::sign` produces for a
/// private key and a message.  RFC 8032 signing is deterministic, so the
/// result is a function of the two arguments alone.
pub uninterp spec fn ed25519_sig_of(private_key: Seq<u8>, message: Seq<u8>) -> Seq<u8>;

/// The verifying key that `ed25519_dalek::SigningKey::verifying_key`
/// derives from a private key, as its 32 raw bytes.
pub uninterp spec fn ed25519_pub_of(private_key: Seq<u8>) -> Seq<u8>;

/// Whether `ed25519_dalek::VerifyingKey::from_bytes` accepts a public key's
/// 32 bytes and `verify_strict` then accepts the signature for the message.
pub uninterp spec fn ed25519_verifies(public_key: Seq<u8>, message: Seq<u8>, signature: Seq<u8>) -> bool;

/// Signs a message with an ed25519 private key given as its 32 raw bytes.
///
/// Relies on `ed25519_dalek::SigningKey::sign`: the signature is 64 bytes,
/// is deterministic (RFC 8032), and `verify_strict` accepts it under the
/// verifying key derived from the same private key (the crate documents that
/// `verify_strict` rejects only signatures an honest signer never produces).
#[verifier::external_body]
pub fn sign_bytes(priv_key: &[u8], bytes: &[u8]) -> (signature: Vec<u8>)
    requires
        priv_key@.len() == 32,
    ensures
        signature@ == ed25519_sig_of(priv_key@, bytes@),
        signature@.len() == 64,
        ed25519_verifies(ed25519_pub_of(priv_key@), bytes@, signature@),
{
    let key_array: [u8; 32] = priv_key.try_into().unwrap();
    let signing_key = ed25519_dalek::SigningKey::from_bytes(&key_array);
    let signature = ed25519_dalek::Signer::sign(&signing_key, bytes);
    signature.to_bytes().to_vec()
}

/// Checks a signature against a message under a public key given as its 32
/// raw bytes.
///
/// Relies on `ed25519_dalek::VerifyingKey::from_bytes` and `verify_strict`:
/// the check passes exactly when the bytes are a valid verifying key and the
/// signature verifies for the message; both are functions of the inputs
/// alone.
#[verifier::external_body]
pub fn signature_is_valid(verifying_key: &[u8], message_bytes: &[u8], signature_bytes: &[u8]) -> (valid: bool)
    requires
        verifying_key@.len() == 32,
        signature_bytes@.len() == 64,
    ensures
        valid == ed25519_verifies(verifying_key@, message_bytes@, signature_bytes@),
{
    let key_array: [u8; 32] = verifying_key.try_into().unwrap();
    let sig_array: [u8; 64] = signature_bytes.try_into().unwrap();
    match ed25519_dalek::VerifyingKey::from_bytes(&key_array) {
        Ok(vk) => vk.verify_strict(
            message_bytes,
            &ed25519_dalek::Signature::from_bytes(&sig_array),
        ).is_ok(),
        Err(_) => false,
    }
}

/// Derives the 32-byte verifying key of an ed25519 private key.
///
/// Relies on `ed25519_dalek::SigningKey::verifying_key`, a function of the
/// private key alone.
#[verifier::external_body]
pub(crate) fn ed25519_public_key(priv_key: &[u8]) -> (public_key: Vec<u8>)
    requires
        priv_key@.len() == 32,
    ensures
        public_key@ == ed25519_pub_of(priv_key@),
        public_key@.len() == 32,
{
    let key_array: [u8; 32] = priv_key.try_into().unwrap();
    let signing_key = ed25519_dalek::SigningKey::from_bytes(&key_array);
    signing_key.verifying_key().to_bytes().to_vec()
}

/// The text that base64's standard padded alphabet encodes a byte string to.
pub uninterp spec fn base64_of(bytes: Seq<u8>) -> Seq<char>;

/// Relies on base64's `STANDARD` engine: the output is a function of the
/// input bytes alone, four characters for every started group of three
/// bytes (the last group padded with `=`).
#[verifier::external_body]
pub(crate) fn base64_encode(bytes: &[u8]) -> (encoded: String)
    ensures
        encoded@ == base64_of(bytes@),
        encoded@.len() == 4 * ((bytes@.len() + 2) / 3),
{
    base64::engine::Engine::encode(&base64::engine::general_purpose::STANDARD, bytes)
}

/// The ed25519 public key bytes inside an OpenSSH-format public key line,
/// if `ssh_key` parses the line and it carries an ed25519 key.
pub uninterp spec fn ssh_ed25519_pk_of(line: Seq<char>) -> Option<Seq<u8>>;

/// Relies on `ssh_key::PublicKey::from_openssh` and
/// `ssh_key::public::KeyData::Ed25519`: parsing is a function of the text
/// alone, and an ed25519 entry holds exactly 32 key bytes.
#[verifier::external_body]
pub(crate) fn parse_openssh_ed25519(line: &str) -> (key: Option<Vec<u8>>)
    ensures
        match key {
            Some(k) => ssh_ed25519_pk_of(line@) == Some(k@) && k@.len() == 32,
            None => ssh_ed25519_pk_of(line@) is None,
        },
{
    match ssh_key::PublicKey::from_openssh(line) {
        Ok(public_key) => match public_key.key_data() {
            ssh_key::public::KeyData::Ed25519(ed25519_key) => Some(ed25519_key.0.to_vec()),
            _ => None,
        },
        Err(_) => None,
    }
}

/// The tag and the decoded body of the first PEM block in a text, if the
/// `pem` crate parses it.
pub uninterp spec fn pem_of(text: Seq<char>) -> Option<(Seq<char>, Seq<u8>)>;

/// Relies on `pem::parse` and the `tag`/`contents` accessors of `pem::Pem`:
/// parsing is a function of the text alone.
#[verifier::external_body]
pub(crate) fn pem_parse(text: &str) -> (block: Option<(String, Vec<u8>)>)
    ensures
        match block {
            Some(b) => pem_of(text@) == Some((b.0@, b.1@)),
            None => pem_of(text@) is None,
        },
{
    match pem::parse(text) {
        Ok(p) => {
            let tag = p.tag().to_string();
            Some((tag, p.into_contents()))
        },
        Err(_) => None,
    }
}

/// The `privateKey` field of a DER-encoded PKCS#8 `PrivateKeyInfo`, if the
/// `pkcs8` crate parses the bytes.
pub uninterp spec fn pkcs8_private_key_of(der_bytes: Seq<u8>) -> Option<Seq<u8>>;

/// Relies on `pkcs8::PrivateKeyInfoRef::from_der` and its `private_key`
/// field: parsing is a function of the bytes alone.
#[verifier::external_body]
pub(crate) fn pkcs8_private_key(der_bytes: &[u8]) -> (key: Option<Vec<u8>>)
    ensures
        match key {
            Some(k) => pkcs8_private_key_of(der_bytes@) == Some(k@),
            None => pkcs8_private_key_of(der_bytes@) is None,
        },
{
    match <pkcs8::PrivateKeyInfoRef<'_> as pkcs8::der::Decode>::from_der(der_bytes) {
        Ok(info) => Some(info.private_key.as_bytes().to_vec()),
        Err(_) => None,
    }
}

/// The contents of a DER-encoded OCTET STRING, if the `der` crate parses
/// the bytes as one.
pub uninterp spec fn der_octet_string_of(der_bytes: Seq<u8>) -> Option<Seq<u8>>;

/// Relies on `der::asn1::OctetStringRef`'s DER decoding: parsing is a
/// function of the bytes alone.
#[verifier::external_body]
pub(crate) fn der_octet_string(der_bytes: &[u8]) -> (contents: Option<Vec<u8>>)
    ensures
        match contents {
            Some(c) => der_octet_string_of(der_bytes@) == Some(c@),
            None => der_octet_string_of(der_bytes@) is None,
        },
{
    match <&der::asn1::OctetStringRef as der::Decode>::from_der(der_bytes) {
        Ok(octets) => Some(octets.as_bytes().to_vec()),
        Err(_) => None,
    }
}

/// Why a PEM key file or an OpenSSH public-key line was rejected.
#[derive(Clone, Copy, Debug, PartialEq, Eq, Structural)]
pub enum KeyParseError {
    /// The text is not a PEM block.
    Pem,
    /// The PEM block's tag is not `PRIVATE KEY`.
    WrongTag,
    /// The block's body is not a PKCS#8 `PrivateKeyInfo`.
    Pkcs8,
    /// The private-key field does not hold an OCTET STRING.
    InnerDer,
    /// The inner key is not exactly 32 bytes.
    WrongLength,
    /// The text is not an OpenSSH line carrying an ed25519 key.
    NotSshEd25519,
}

/// What `parse_private_key_ed25519_pem` returns for a given text: the chain
/// of PEM, PKCS#8 and inner OCTET STRING parsing, each step's failure mapped
/// to its error.
pub open spec fn spec_parse_private_key_pem(text: Seq<char>) -> Result<Seq<u8>, KeyParseError> {
    match pem_of(text) {
        None => Err(KeyParseError::Pem),
        Some((tag, body)) => {
            if tag != "PRIVATE KEY"@ {
                Err(KeyParseError::WrongTag)
            } else {
                match pkcs8_private_key_of(body) {
                    None => Err(KeyParseError::Pkcs8),
                    Some(wrapped) => match der_octet_string_of(wrapped) {
                        None => Err(KeyParseError::InnerDer),
                        Some(key) => {
                            if key.len() == 32 {
                                Ok(key)
                            } else {
                                Err(KeyParseError::WrongLength)
                            }
                        },
                    },
                }
            }
        },
    }
}

/// Reads an ed25519 private key out of the text of a PEM `PRIVATE KEY`
/// file: the PEM body must be a PKCS#8 `PrivateKeyInfo` whose private-key
/// field wraps the raw 32 key bytes in an OCTET STRING.
pub fn parse_private_key_ed25519_pem(contents: &str) -> (key: Result<Vec<u8>, KeyParseError>)
    ensures
        match key {
            Ok(k) => spec_parse_private_key_pem(contents@) == Ok::<Seq<u8>, KeyParseError>(k@)
                && k@.len() == 32,
            Err(e) => spec_parse_private_key_pem(contents@) == Err::<Seq<u8>, KeyParseError>(e),
        },
{
    match pem_parse(contents) {
        None => Err(KeyParseError::Pem),
        Some((tag, body)) => {
            if tag != String::from_str("PRIVATE KEY") {
                Err(KeyParseError::WrongTag)
            } else {
                match pkcs8_private_key(body.as_slice()) {
                    None => Err(KeyParseError::Pkcs8),
                    Some(wrapped) => match der_octet_string(wrapped.as_slice()) {
                        None => Err(KeyParseError::InnerDer),
                        Some(key) => {
                            if key.len() == 32 {
                                Ok(key)
                            } else {
                                Err(KeyParseError::WrongLength)
                            }
                        },
                    },
                }
            }
        },
    }
}

/// Reads the private key of a PEM `PRIVATE KEY` file and derives its
/// verifying key from it; key files carry only the private half.
pub fn parse_public_key_ed25519_pem(contents: &str) -> (key: Result<Vec<u8>, KeyParseError>)
    ensures
        match key {
            Ok(k) => {
                &&& spec_parse_private_key_pem(contents@) is Ok
                &&& k@ == ed25519_pub_of(spec_parse_private_key_pem(contents@).unwrap())
                &&& k@.len() == 32
            },
            Err(e) => spec_parse_private_key_pem(contents@) == Err::<Seq<u8>, KeyParseError>(e),
        },
{
    match parse_private_key_ed25519_pem(contents) {
        Ok(private_key) => Ok(ed25519_public_key(private_key.as_slice())),
        Err(e) => Err(e),
    }
}

/// The binary blob inside an OpenSSH ed25519 public-key line: the algorithm
/// name and the key, each length-prefixed with a big-endian `u32`.
pub open spec fn spec_ssh_wire(public_key: Seq<u8>) -> Seq<u8> {
    seq![0u8, 0u8, 0u8, 11u8] + vstd::utf8::encode_utf8("ssh-ed25519"@) + seq![
        0u8,
        0u8,
        0u8,
        32u8,
    ] + public_key
}

/// Formats the verifying key of an ed25519 private key as an OpenSSH
/// public-key line: the algorithm name, a space, and the base64 of the
/// length-prefixed wire blob.
pub fn format_public_key(priv_key: &[u8]) -> (line: String)
    requires
        priv_key@.len() == 32,
    ensures
        line@ == "ssh-ed25519 "@ + base64_of(spec_ssh_wire(ed25519_pub_of(priv_key@))),
{
    let public_key = ed25519_public_key(priv_key);
    let mut wire: Vec<u8> = Vec::new();
    wire.push(0);
    wire.push(0);
    wire.push(0);
    wire.push(11);
    let mut name_bytes = "ssh-ed25519".as_bytes_vec();
    wire.append(&mut name_bytes);
    wire.push(0);
    wire.push(0);
    wire.push(0);
    wire.push(32);
    let mut key_bytes = vstd::slice::slice_to_vec(public_key.as_slice());
    wire.append(&mut key_bytes);
    assert(wire@ =~= spec_ssh_wire(ed25519_pub_of(priv_key@)));
    let encoded = base64_encode(wire.as_slice());
    String::from_str("ssh-ed25519 ").concat(encoded.as_str())
}

/// Reads the 32 ed25519 public-key bytes out of an OpenSSH public-key line.
pub fn public_key_to_ed25519_vk(public_key: &str) -> (key: Result<Vec<u8>, KeyParseError>)
    ensures
        match key {
            Ok(k) => ssh_ed25519_pk_of(public_key@) == Some(k@) && k@.len() == 32,
            Err(e) => ssh_ed25519_pk_of(public_key@) is None && e == KeyParseError::NotSshEd25519,
        },
{
    match parse_openssh_ed25519(public_key) {
        Some(k) => Ok(k),
        None => Err(KeyParseError::NotSshEd25519),
    }
}

/// Whether two byte strings hold the same bytes.
pub fn bytes_eq(a: &[u8], b: &[u8]) -> (eq: bool)
    ensures
        eq == (a@ == b@),
{
    if a.len() != b.len() {
        return false;
    }
    let n = a.len();
    let mut i: usize = 0;
    while i < n
        invariant
            n == a@.len() == b@.len(),
            0 <= i <= n,
            forall|j: int| 0 <= j < i ==> a@[j] == b@[j],
        decreases n - i,
    {
        if a[i] != b[i] {
            return false;
        }
        i = i + 1;
    }
    proof {
        assert(a@ =~= b@);
    }
    true
}

} // verus!
