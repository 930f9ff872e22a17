//! The encryption envelope: a key derived from a passphrase, and
//! authenticated encryption of text into a self-contained, text-safe
//! envelope of nonce, ciphertext and tag.
//!
//! The hash, the cipher and the random nonce come from the `sha2`, `aes-gcm`
//! and `rand` crates; what they compute is named here, not restated.

use crate::error::{failure, text_outcome_model, ErrorKind, ErrorModel, SidecarError};
use crate::text_safe::{
    base64_decoding, base64_encoding, decode, decoded_model, encodable, encode, encoded_len,
    is_encodable,
};
use aes_gcm::aead::Aead;
use aes_gcm::KeyInit;
use rand::Rng;
use sha2::Digest;
use vstd::prelude::*;
use vstd::slice::slice_to_vec;
use vstd::string::{StringExecFns, StringSliceAdditionalSpecFns};
use vstd::utf8::{decode_utf8, encode_utf8, group_utf8_lib, valid_utf8};

verus! {

/// The length of a nonce in bytes.
pub const NONCE_LEN: usize = 12;

/// The length of the authentication tag in bytes.
pub const TAG_LEN: usize = 16;

/// The longest plaintext, in bytes, that the cipher takes under one nonce.
pub const MAX_PLAINTEXT: u64 = 0x10_0000_0000;

/// The fixed context that is hashed after the passphrase.
pub const KEY_CONTEXT: &'static str = "sidecar-encryption-salt-v1";

/// The SHA-256 digest of `data`.
pub uninterp spec fn sha256_digest(data: Seq<u8>) -> Seq<u8>;

/// What AES-256-GCM encryption under `key` and `nonce`, with no associated
/// data, makes of `plaintext`: the ciphertext followed by the tag, or the
/// cipher's message.
pub uninterp spec fn aes_gcm_sealing(key: Seq<u8>, nonce: Seq<u8>, plaintext: Seq<u8>) -> Result<
    Seq<u8>,
    Seq<char>,
>;

/// What AES-256-GCM decryption under `key` and `nonce`, with no associated
/// data, makes of ciphertext and tag: the plaintext, or the cipher's message
/// where the tag does not verify.
pub uninterp spec fn aes_gcm_opening(key: Seq<u8>, nonce: Seq<u8>, sealed: Seq<u8>) -> Result<
    Seq<u8>,
    Seq<char>,
>;

/// The message with which the standard library refuses bytes that are not
/// UTF-8.
pub uninterp spec fn utf8_refusal(bytes: Seq<u8>) -> Seq<char>;

/// Calls `sha2::Sha256` on `data`: `new`, `update`, `finalize`.
///
/// Trusted: the result is the SHA-256 digest of `data`.
#[verifier::external_body]
pub(crate) fn sha256(data: &[u8]) -> (digest: [u8; 32])
    ensures
        digest@ == sha256_digest(data@),
{
    let mut hasher = sha2::Sha256::new();
    hasher.update(data);
    hasher.finalize().into()
}

/// Calls `aes_gcm::Aes256Gcm::encrypt` on a cipher made by `new_from_slice`.
///
/// Trusted: the outcome depends on the arguments alone; the cipher refuses a
/// plaintext of more than 2^36 bytes and nothing else; the sealed bytes are
/// the plaintext's length plus a 16-byte tag; and the same key and nonce open
/// them to the plaintext again.
#[verifier::external_body]
pub(crate) fn aes_gcm_seal(key: &[u8; 32], nonce: &[u8; 12], plaintext: &[u8]) -> (outcome: Result<
    Vec<u8>,
    String,
>)
    ensures
        decoded_model(outcome) == aes_gcm_sealing(key@, nonce@, plaintext@),
        outcome is Ok <==> plaintext@.len() <= MAX_PLAINTEXT,
        outcome matches Ok(sealed) ==> sealed@.len() == plaintext@.len() + TAG_LEN,
        outcome matches Ok(sealed) ==> aes_gcm_opening(key@, nonce@, sealed@) == (Ok::<
            Seq<u8>,
            Seq<char>,
        >(plaintext@)),
{
    let cipher = aes_gcm::Aes256Gcm::new_from_slice(key).map_err(|e| e.to_string())?;
    cipher.encrypt(aes_gcm::Nonce::from_slice(nonce), plaintext).map_err(|e| e.to_string())
}

/// Calls `aes_gcm::Aes256Gcm::decrypt` on a cipher made by `new_from_slice`.
///
/// Trusted: the outcome depends on the arguments alone, and bytes too few to
/// hold a tag are refused. The crate panics on a nonce that is not 12 bytes
/// long, which the precondition excludes.
#[verifier::external_body]
pub(crate) fn aes_gcm_open(key: &[u8; 32], nonce: &[u8], sealed: &[u8]) -> (outcome: Result<
    Vec<u8>,
    String,
>)
    requires
        nonce@.len() == NONCE_LEN,
    ensures
        decoded_model(outcome) == aes_gcm_opening(key@, nonce@, sealed@),
        sealed@.len() < TAG_LEN ==> outcome is Err,
{
    let cipher = aes_gcm::Aes256Gcm::new_from_slice(key).map_err(|e| e.to_string())?;
    cipher.decrypt(aes_gcm::Nonce::from_slice(nonce), sealed).map_err(|e| e.to_string())
}

/// Calls `rand::thread_rng().fill` on twelve bytes.
///
/// Trusted: nothing is claimed of the bytes. The call panics where the
/// operating system's random source fails.
#[verifier::external_body]
pub(crate) fn random_nonce() -> (nonce: [u8; 12]) {
    let mut nonce: [u8; 12] = [0u8; 12];
    rand::thread_rng().fill(&mut nonce);
    nonce
}

/// Calls `String::from_utf8`.
///
/// Trusted: well-formed UTF-8 is accepted and decoded; anything else is
/// refused with a message that depends on the bytes alone.
#[verifier::external_body]
pub(crate) fn text_from_utf8(bytes: Vec<u8>) -> (outcome: Result<String, String>)
    ensures
        match outcome {
            Ok(text) => valid_utf8(bytes@) && text@ == decode_utf8(bytes@),
            Err(message) => !valid_utf8(bytes@) && message@ == utf8_refusal(bytes@),
        },
{
    String::from_utf8(bytes).map_err(|e| e.to_string())
}

/// An `Encryption` error with the given detail.
pub open spec fn encryption_failure(detail: Seq<char>) -> ErrorModel {
    failure(ErrorKind::Encryption, detail)
}

/// The error of an operation that needs the key and finds none.
pub open spec fn key_missing() -> ErrorModel {
    encryption_failure("Encryption not initialized"@)
}

/// The key that a passphrase yields: the digest of the passphrase's bytes
/// followed by the fixed context.
pub open spec fn derived_key(passphrase: Seq<char>) -> Seq<u8> {
    sha256_digest(encode_utf8(passphrase) + encode_utf8(KEY_CONTEXT@))
}

/// The envelope for `plaintext` under `key` and `nonce`: the text-safe
/// encoding of the nonce followed by ciphertext and tag, or the cipher's
/// refusal.
pub open spec fn sealed_envelope(key: Seq<u8>, nonce: Seq<u8>, plaintext: Seq<char>) -> Result<
    Seq<char>,
    ErrorModel,
> {
    match aes_gcm_sealing(key, nonce, encode_utf8(plaintext)) {
        Ok(sealed) => Ok(base64_encoding(nonce + sealed)),
        Err(message) => Err(encryption_failure(message)),
    }
}

/// What the caller receives for the cipher's answer to an opening: the
/// opened bytes as text, or an `Encryption` error where the cipher refused or
/// the bytes are not text.
pub open spec fn plaintext_model(opened: Result<Seq<u8>, Seq<char>>) -> Result<
    Seq<char>,
    ErrorModel,
> {
    match opened {
        Err(message) => Err(encryption_failure(message)),
        Ok(plain) => if valid_utf8(plain) {
            Ok(decode_utf8(plain))
        } else {
            Err(encryption_failure(utf8_refusal(plain)))
        },
    }
}

/// What the bytes of an envelope open to under `key`: fewer bytes than a
/// nonce are refused; otherwise the first twelve are the nonce and the rest
/// is handed to the cipher.
pub open spec fn opened_bytes(key: Seq<u8>, bytes: Seq<u8>) -> Result<Seq<char>, ErrorModel> {
    if bytes.len() < NONCE_LEN {
        Err(encryption_failure("Invalid ciphertext"@))
    } else {
        plaintext_model(
            aes_gcm_opening(
                key,
                bytes.subrange(0, NONCE_LEN as int),
                bytes.subrange(NONCE_LEN as int, bytes.len() as int),
            ),
        )
    }
}

/// What opening `envelope` under `key` yields: the plaintext, or an
/// `Encryption` error where the text does not decode, holds fewer bytes than
/// a nonce, fails authentication, or hides bytes that are not text.
pub open spec fn opened_envelope(key: Seq<u8>, envelope: Seq<char>) -> Result<
    Seq<char>,
    ErrorModel,
> {
    match base64_decoding(envelope) {
        Err(message) => Err(encryption_failure(message)),
        Ok(bytes) => opened_bytes(key, bytes),
    }
}

/// Opening never fails with anything but an `Encryption` error.
pub proof fn lemma_opening_fails_closed(key: Seq<u8>, envelope: Seq<char>)
    ensures
        opened_envelope(key, envelope) matches Err(error) ==> error.kind == ErrorKind::Encryption,
{
}

/// Whether the cipher takes `plaintext`: its bytes are no more than
/// [`MAX_PLAINTEXT`].
pub open spec fn sealable(plaintext: Seq<char>) -> bool {
    encode_utf8(plaintext).len() <= MAX_PLAINTEXT
}

/// Whether the envelope of `plaintext` has an encoded length that the
/// machine can represent.
pub open spec fn envelope_fits(plaintext: Seq<char>) -> bool {
    encodable(envelope_len(plaintext))
}

/// The bytes inside the envelope of a plaintext: nonce, ciphertext, tag.
pub open spec fn envelope_len(plaintext: Seq<char>) -> nat {
    encode_utf8(plaintext).len() + NONCE_LEN as nat + TAG_LEN as nat
}

/// Decides [`envelope_fits`] for a plaintext at hand.
pub fn fits_envelope(plaintext: &str) -> (fits: bool)
    ensures
        fits == envelope_fits(plaintext@),
{
    let len = plaintext.as_bytes().len();
    len <= usize::MAX - (NONCE_LEN + TAG_LEN) && is_encodable(len + (NONCE_LEN + TAG_LEN))
}

/// An envelope opens to its plaintext: where the cipher opens what it
/// sealed and the text-safe encoding decodes to what was encoded, opening the
/// sealed envelope under the same key returns the plaintext.
pub proof fn lemma_envelope_opens(
    key: Seq<u8>,
    nonce: Seq<u8>,
    plaintext: Seq<char>,
    sealed: Seq<u8>,
)
    requires
        nonce.len() == NONCE_LEN,
        aes_gcm_sealing(key, nonce, encode_utf8(plaintext)) == Ok::<Seq<u8>, Seq<char>>(sealed),
        aes_gcm_opening(key, nonce, sealed) == Ok::<Seq<u8>, Seq<char>>(encode_utf8(plaintext)),
        base64_decoding(base64_encoding(nonce + sealed)) == Ok::<Seq<u8>, Seq<char>>(
            nonce + sealed,
        ),
    ensures
        sealed_envelope(key, nonce, plaintext) == Ok::<Seq<char>, ErrorModel>(
            base64_encoding(nonce + sealed),
        ),
        opened_envelope(key, base64_encoding(nonce + sealed)) == Ok::<Seq<char>, ErrorModel>(
            plaintext,
        ),
{
    broadcast use group_utf8_lib;

    let bytes = nonce + sealed;
    assert(bytes.subrange(0, NONCE_LEN as int) =~= nonce);
    assert(bytes.subrange(NONCE_LEN as int, bytes.len() as int) =~= sealed);
}

/// The same passphrase always yields the same key.
pub proof fn lemma_key_is_determined(first: Seq<char>, second: Seq<char>)
    requires
        first == second,
    ensures
        derived_key(first) == derived_key(second),
{
}

/// Derives the 32-byte key of a passphrase. Nothing random enters: the key
/// is a function of the passphrase.
pub fn derive_key(passphrase: &str) -> (key: [u8; 32])
    ensures
        key@ == derived_key(passphrase@),
{
    let mut material: Vec<u8> = slice_to_vec(passphrase.as_bytes());
    let mut context: Vec<u8> = slice_to_vec(KEY_CONTEXT.as_bytes());
    material.append(&mut context);
    sha256(material.as_slice())
}

/// Derives the key of `password` and installs it, replacing any earlier key.
pub fn init_encryption(encryption_key: &mut Option<[u8; 32]>, password: &str) -> (result: Result<
    (),
    SidecarError,
>)
    ensures
        result is Ok,
        *final(encryption_key) matches Some(key) && key@ == derived_key(password@),
{
    *encryption_key = Some(derive_key(password));
    Ok(())
}

/// Seals `plaintext` under `key` with the given nonce. A nonce must never
/// serve twice under one key.
pub fn seal_envelope(key: &[u8; 32], nonce: &[u8; 12], plaintext: &str) -> (result: Result<
    String,
    SidecarError,
>)
    requires
        sealable(plaintext@) ==> envelope_fits(plaintext@),
    ensures
        text_outcome_model(result) == sealed_envelope(key@, nonce@, plaintext@),
        result is Ok <==> sealable(plaintext@),
        result matches Ok(envelope) ==> {
            &&& opened_envelope(key@, envelope@) == Ok::<Seq<char>, ErrorModel>(plaintext@)
            &&& base64_decoding(envelope@) matches Ok(bytes) && bytes.len() == envelope_len(
                plaintext@,
            ) && bytes.len() >= NONCE_LEN + TAG_LEN
            &&& envelope@.len() == encoded_len(envelope_len(plaintext@))
        },
{
    match aes_gcm_seal(key, nonce, plaintext.as_bytes()) {
        Ok(sealed) => {
            let ghost tail = sealed@;
            let mut sealed = sealed;
            let mut combined: Vec<u8> = slice_to_vec(nonce.as_slice());
            combined.append(&mut sealed);
            assert(combined@ == nonce@ + tail);
            let envelope = encode(combined.as_slice());
            proof {
                lemma_envelope_opens(key@, nonce@, plaintext@, tail);
            }
            Ok(envelope)
        },
        Err(message) => Err(SidecarError::Encryption(message)),
    }
}

/// Turns the cipher's answer to an opening into the caller's result.
pub fn plaintext_of(opened: Result<Vec<u8>, String>) -> (result: Result<String, SidecarError>)
    ensures
        text_outcome_model(result) == plaintext_model(decoded_model(opened)),
{
    match opened {
        Ok(plain) => match text_from_utf8(plain) {
            Ok(text) => Ok(text),
            Err(message) => Err(SidecarError::Encryption(message)),
        },
        Err(message) => Err(SidecarError::Encryption(message)),
    }
}

/// Opens the bytes of an envelope under `key`: the nonce, then ciphertext
/// and tag. Bytes too few to hold nonce and tag never open.
pub fn open_bytes(key: &[u8; 32], bytes: &[u8]) -> (result: Result<String, SidecarError>)
    ensures
        text_outcome_model(result) == opened_bytes(key@, bytes@),
        bytes@.len() < NONCE_LEN + TAG_LEN ==> result is Err,
        result matches Err(error) ==> error@.kind == ErrorKind::Encryption,
{
    if bytes.len() < NONCE_LEN {
        return Err(SidecarError::Encryption(String::from_str("Invalid ciphertext")));
    }
    let (nonce, sealed) = bytes.split_at(NONCE_LEN);
    plaintext_of(aes_gcm_open(key, nonce, sealed))
}

/// Opens `envelope` under `key`. Nothing of the plaintext is returned unless
/// the whole envelope verifies.
pub fn open_envelope(key: &[u8; 32], envelope: &str) -> (result: Result<String, SidecarError>)
    ensures
        text_outcome_model(result) == opened_envelope(key@, envelope@),
        result matches Err(error) ==> error@.kind == ErrorKind::Encryption,
{
    match decode(envelope) {
        Ok(bytes) => open_bytes(key, bytes.as_slice()),
        Err(message) => Err(SidecarError::Encryption(message)),
    }
}

/// Encrypts `plaintext` for storage under the installed key, with a fresh
/// random nonce.
pub fn encrypt_data(encryption_key: &Option<[u8; 32]>, plaintext: &str) -> (result: Result<
    String,
    SidecarError,
>)
    requires
        encryption_key is Some && sealable(plaintext@) ==> envelope_fits(plaintext@),
    ensures
        encryption_key is None ==> text_outcome_model(result) == Err::<Seq<char>, ErrorModel>(
            key_missing(),
        ),
        encryption_key matches Some(key) ==> exists|nonce: Seq<u8>|
            nonce.len() == NONCE_LEN && text_outcome_model(result) == #[trigger] sealed_envelope(
                key@,
                nonce,
                plaintext@,
            ),
        result is Ok <==> encryption_key is Some && sealable(plaintext@),
        result matches Ok(envelope) ==> {
            &&& encryption_key matches Some(key) && opened_envelope(key@, envelope@) == Ok::<
                Seq<char>,
                ErrorModel,
            >(plaintext@)
            &&& base64_decoding(envelope@) matches Ok(bytes) && bytes.len() == envelope_len(
                plaintext@,
            ) && bytes.len() >= NONCE_LEN + TAG_LEN
            &&& envelope@.len() == encoded_len(envelope_len(plaintext@))
        },
{
    match encryption_key {
        None => Err(SidecarError::Encryption(String::from_str("Encryption not initialized"))),
        Some(key) => {
            let nonce = random_nonce();
            seal_envelope(key, &nonce, plaintext)
        },
    }
}

/// Decrypts an envelope from storage under the installed key.
pub fn decrypt_data(encryption_key: &Option<[u8; 32]>, ciphertext: &str) -> (result: Result<
    String,
    SidecarError,
>)
    ensures
        text_outcome_model(result) == match *encryption_key {
            None => Err(key_missing()),
            Some(key) => opened_envelope(key@, ciphertext@),
        },
        result matches Err(error) ==> error@.kind == ErrorKind::Encryption,
{
    match encryption_key {
        None => Err(SidecarError::Encryption(String::from_str("Encryption not initialized"))),
        Some(key) => open_envelope(key, ciphertext),
    }
}

} // verus!
