//! The generation strategies: from a specification kind to generated
//! material. Entropy comes from the operating system's secure source through
//! the `rand` crate; RSA key material and its PEM envelopes come from the
//! `rsa` crate. No I/O happens here.
use crate::codec::{hex_encode, hex_encoded};
use crate::secrets::{
    GeneratedMaterial, GenerationError, SecretKind, material_wf, RANDOM_BYTE_COUNT,
};
use vstd::prelude::*;

verus! {

/// The modulus size of every generated RSA keypair, in bits.
pub const RSA_MODULUS_BITS: usize = 2048;

#[verifier::external_type_specification]
#[verifier::external_body]
pub struct ExRsaPrivateKey(rsa::RsaPrivateKey);

#[verifier::external_type_specification]
#[verifier::external_body]
pub struct ExRsaPublicKey(rsa::RsaPublicKey);

/// Relies on rsa::RsaPrivateKey::new: generates a fresh private key with a
/// modulus of the requested bit size, drawing randomness from the operating
/// system's secure source. The key is opaque here; nothing is promised of it.
#[verifier::external_body]
fn rsa_generate_private_key(bits: usize) -> (r: Result<rsa::RsaPrivateKey, String>) {
    match rsa::RsaPrivateKey::new(&mut rand::rngs::OsRng, bits) {
        Ok(key) => Ok(key),
        Err(e) => Err(e.to_string()),
    }
}

/// Relies on rsa::RsaPrivateKey::to_public_key: returns the public half that
/// is mathematically paired with the private key.
#[verifier::external_body]
fn rsa_public_key_of(key: &rsa::RsaPrivateKey) -> (r: rsa::RsaPublicKey) {
    key.to_public_key()
}

/// Relies on pkcs8::EncodePrivateKey::to_pkcs8_pem: encodes the private key
/// as a PEM-armored document, which is never empty text.
#[verifier::external_body]
fn rsa_private_key_pem(key: &rsa::RsaPrivateKey) -> (r: Result<Vec<u8>, String>)
    ensures
        r is Ok ==> r->Ok_0@.len() > 0,
{
    match rsa::pkcs8::EncodePrivateKey::to_pkcs8_pem(key, rsa::pkcs8::LineEnding::LF) {
        Ok(pem) => Ok(pem.as_bytes().to_vec()),
        Err(e) => Err(e.to_string()),
    }
}

/// Relies on pkcs8::EncodePublicKey::to_public_key_pem: encodes the public
/// key as a PEM-armored document, which is never empty text.
#[verifier::external_body]
fn rsa_public_key_pem(key: &rsa::RsaPublicKey) -> (r: Result<Vec<u8>, String>)
    ensures
        r is Ok ==> r->Ok_0@.len() > 0,
{
    match rsa::pkcs8::EncodePublicKey::to_public_key_pem(key, rsa::pkcs8::LineEnding::LF) {
        Ok(pem) => Ok(pem.into_bytes()),
        Err(e) => Err(e.to_string()),
    }
}

/// Relies on rand::rngs::OsRng through rand::RngCore::try_fill_bytes: fills a
/// buffer of the requested length from the operating system's
/// cryptographically secure entropy source. The contents are unpredictable by
/// design, so only the length is promised.
#[verifier::external_body]
fn os_random_bytes(n: usize) -> (r: Result<Vec<u8>, String>)
    ensures
        r is Ok ==> r->Ok_0@.len() == n,
{
    let mut buf = vec![0u8; n];
    match rand::RngCore::try_fill_bytes(&mut rand::rngs::OsRng, &mut buf) {
        Ok(()) => Ok(buf),
        Err(e) => Err(e.to_string()),
    }
}

/// Lays out keypair material: exactly the given PEM documents, the private
/// one under `private_key` and the public one under `public_key`, in that
/// order, whatever the documents hold.
pub fn rsa_material_of(private_pem: Vec<u8>, public_pem: Vec<u8>) -> (m: GeneratedMaterial)
    ensures
        m@ =~= seq![("private_key"@, private_pem@), ("public_key"@, public_pem@)],
{
    let mut entries: Vec<(String, Vec<u8>)> = Vec::new();
    entries.push(("private_key".to_owned(), private_pem));
    entries.push(("public_key".to_owned(), public_pem));
    GeneratedMaterial { entries }
}

/// Lays out random-string material: exactly one `value` field holding the hex
/// text of the given bytes, whatever the bytes are.
pub fn random_string_material_of(raw: Vec<u8>) -> (m: GeneratedMaterial)
    ensures
        m@ =~= seq![("value"@, hex_encoded(raw@))],
{
    let value = hex_encode(&raw);
    let mut entries: Vec<(String, Vec<u8>)> = Vec::new();
    entries.push(("value".to_owned(), value));
    GeneratedMaterial { entries }
}

/// Generates the material of a fresh RSA keypair: the PEM-armored private key
/// under `private_key` and its paired public key under `public_key`.
fn generate_rsa_material() -> (r: Result<GeneratedMaterial, GenerationError>)
    ensures
        r is Ok ==> material_wf(SecretKind::RsaKeypair, r->Ok_0@),
{
    let private = match rsa_generate_private_key(RSA_MODULUS_BITS) {
        Ok(key) => key,
        Err(detail) => {
            return Err(GenerationError { detail });
        },
    };
    let private_pem = match rsa_private_key_pem(&private) {
        Ok(pem) => pem,
        Err(detail) => {
            return Err(GenerationError { detail });
        },
    };
    let public = rsa_public_key_of(&private);
    let public_pem = match rsa_public_key_pem(&public) {
        Ok(pem) => pem,
        Err(detail) => {
            return Err(GenerationError { detail });
        },
    };
    Ok(rsa_material_of(private_pem, public_pem))
}

/// Generates the material of a random string secret: a single `value` field
/// holding the hex text of freshly drawn random bytes, of the documented
/// fixed length.
fn generate_random_string_material() -> (r: Result<GeneratedMaterial, GenerationError>)
    ensures
        r is Ok ==> material_wf(SecretKind::RandomString, r->Ok_0@),
{
    let raw = match os_random_bytes(RANDOM_BYTE_COUNT) {
        Ok(bytes) => bytes,
        Err(detail) => {
            return Err(GenerationError { detail });
        },
    };
    proof {
        crate::codec::lemma_hex_round_trip(raw@);
    }
    Ok(random_string_material_of(raw))
}

/// The Generator: dispatches a specification kind to its strategy. On success
/// the material holds exactly the fields `material_wf` prescribes for the
/// kind; on failure the error names the failing step and nothing was written
/// anywhere. The only side effect is consuming entropy.
pub fn generate(kind: SecretKind) -> (r: Result<GeneratedMaterial, GenerationError>)
    ensures
        r is Ok ==> material_wf(kind, r->Ok_0@),
{
    match kind {
        SecretKind::RsaKeypair => generate_rsa_material(),
        SecretKind::RandomString => generate_random_string_material(),
    }
}

} // verus!
