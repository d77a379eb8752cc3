//! Authenticated encryption of a secret under a PIN.
//!
//! A key is derived from the PIN and a fresh salt, and the secret is sealed
//! with AES-256-GCM under that key and a fresh nonce. The envelope keeps the
//! salt and the nonce beside the ciphertext, since opening needs both.
use aes_gcm::aead::{Aead, AeadCore, KeyInit, OsRng};
use aes_gcm::{Aes256Gcm, Nonce};
use rand::RngCore;
use vstd::array::*;
use vstd::prelude::*;
use vstd::slice::*;
use vstd::utf8::*;

use crate::error::WalletError;
use crate::kdf::{derive_key_from_pin, derived_key, is_usable_pin, Key};
use crate::record::{record_text, text_record, Record, WalletData};

verus! {

/// Length of the salt of a fresh envelope.
pub const SALT_LEN: usize = 16;

/// Length of an AES-GCM nonce.
pub const NONCE_LEN: usize = 12;

/// Length of the authentication tag that ends a ciphertext.
pub const TAG_LEN: usize = 16;

/// Longest plaintext, in bytes, that AES-GCM seals.
pub const MAX_PLAINTEXT: u64 = 0x10_0000_0000;

/// A sealed secret with what is needed to open it again.
#[derive(Debug, Clone, PartialEq, Eq)]
pub struct EncryptedWallet {
    /// Ciphertext followed by the authentication tag.
    pub encrypted_data: Vec<u8>,
    /// Nonce of this encryption.
    pub nonce: Vec<u8>,
    /// Salt from which the key of this envelope was derived.
    pub salt: Vec<u8>,
}

/// An envelope as plain sequences.
pub struct Envelope {
    pub ciphertext: Seq<u8>,
    pub nonce: Seq<u8>,
    pub salt: Seq<u8>,
}

impl View for EncryptedWallet {
    type V = Envelope;

    open spec fn view(&self) -> Envelope {
        Envelope { ciphertext: self.encrypted_data@, nonce: self.nonce@, salt: self.salt@ }
    }
}

/// AES-256-GCM ciphertext and tag of `plaintext` under `key` and `nonce`,
/// without associated data.
pub uninterp spec fn aes256_gcm_seal(key: Seq<u8>, nonce: Seq<u8>, plaintext: Seq<u8>) -> Seq<u8>;

/// What AES-256-GCM opens `ciphertext` to under `key` and `nonce`, or `None`
/// where it does not authenticate.
pub uninterp spec fn aes256_gcm_open(key: Seq<u8>, nonce: Seq<u8>, ciphertext: Seq<u8>) -> Option<
    Seq<u8>,
>;

/// `ciphertext` is what sealing `plaintext` gives, it is one tag longer, and
/// it opens to `plaintext` again.
pub open spec fn is_sealed(key: Seq<u8>, nonce: Seq<u8>, plaintext: Seq<u8>, ciphertext: Seq<u8>)
    -> bool {
    &&& ciphertext == aes256_gcm_seal(key, nonce, plaintext)
    &&& ciphertext.len() == plaintext.len() + TAG_LEN
    &&& aes256_gcm_open(key, nonce, ciphertext) == Some(plaintext)
}

/// A ciphertext long enough to end in a tag: one of at least 16 bytes.
pub open spec fn holds_tag(ciphertext: Seq<u8>) -> bool {
    ciphertext.len() >= TAG_LEN
}

/// A plaintext that AES-GCM seals: at most 2^36 bytes.
pub open spec fn fits_cipher(plaintext: Seq<u8>) -> bool {
    plaintext.len() <= MAX_PLAINTEXT
}

/// `e` is an envelope that encrypting `plaintext` under `pin` may give: its
/// key is derived from the PIN and its own salt, and its ciphertext is the
/// plaintext sealed under that key and its own nonce.
pub open spec fn seals(e: Envelope, plaintext: Seq<u8>, pin: Seq<char>) -> bool {
    &&& e.nonce.len() == NONCE_LEN
    &&& fits_cipher(plaintext)
    &&& derived_key(pin, e.salt) matches Some(key)
    &&& is_sealed(key, e.nonce, plaintext, e.ciphertext)
}

/// What opening `e` under `pin` gives.
pub open spec fn opened(e: Envelope, pin: Seq<char>) -> Result<Seq<u8>, WalletError> {
    match derived_key(pin, e.salt) {
        None => Err(WalletError::KeyDerivation),
        Some(key) => if e.nonce.len() != NONCE_LEN {
            Err(WalletError::Authentication)
        } else {
            match aes256_gcm_open(key, e.nonce, e.ciphertext) {
                None => Err(WalletError::Authentication),
                Some(plaintext) => Ok(plaintext),
            }
        },
    }
}

/// The bytes that are sealed for a record: its canonical text in UTF-8.
pub open spec fn record_bytes(r: Record) -> Seq<u8> {
    encode_utf8(record_text(r))
}

/// The record that plaintext bytes hold: they must be UTF-8, and the text a
/// record's.
pub open spec fn bytes_record(bytes: Seq<u8>) -> Option<Record> {
    if valid_utf8(bytes) {
        text_record(decode_utf8(bytes))
    } else {
        None
    }
}

/// `e` is an envelope that encrypting the record `r` under `pin` may give.
pub open spec fn seals_record(e: Envelope, r: Record, pin: Seq<char>) -> bool {
    &&& seals(e, record_bytes(r), pin)
    &&& text_record(record_text(r)) == Some(r)
}

/// What decrypting `e` under `pin` gives: the record in what `e` opens to,
/// or `Format` where that holds none.
pub open spec fn decrypted(e: Envelope, pin: Seq<char>) -> Result<Record, WalletError> {
    match opened(e, pin) {
        Err(err) => Err(err),
        Ok(plaintext) => match bytes_record(plaintext) {
            None => Err(WalletError::Format),
            Some(r) => Ok(r),
        },
    }
}

/// The error of the aead crate. It is carried, never read.
#[verifier::external_type_specification]
#[verifier::external_body]
pub struct ExAeadError(aes_gcm::Error);

/// The error of `String::from_utf8`. It is carried, never read.
#[verifier::external_type_specification]
#[verifier::external_body]
pub struct ExFromUtf8Error(std::string::FromUtf8Error);

/// `String::from_utf8`. Claimed: it succeeds exactly on valid UTF-8, and the
/// string then has the given bytes as its encoding.
#[verifier::external_body]
fn utf8_string(bytes: Vec<u8>) -> (res: Result<String, std::string::FromUtf8Error>)
    ensures
        res is Ok <==> valid_utf8(bytes@),
        res matches Ok(s) ==> encode_utf8(s@) == bytes@,
{
    String::from_utf8(bytes)
}

/// `RngCore::fill_bytes` on `rand::thread_rng()`, into 16 bytes. Nothing is
/// claimed of the bytes.
#[verifier::external_body]
fn random_salt() -> [u8; SALT_LEN] {
    let mut salt = [0u8; SALT_LEN];
    rand::thread_rng().fill_bytes(&mut salt);
    salt
}

/// `AeadCore::generate_nonce` of `Aes256Gcm` on the operating system's
/// generator. Nothing is claimed of the bytes.
#[verifier::external_body]
fn random_nonce() -> [u8; NONCE_LEN] {
    Aes256Gcm::generate_nonce(&mut OsRng).into()
}

/// `Aead::encrypt` of `Aes256Gcm` made with `KeyInit::new` from `key`.
/// Claimed: it fails exactly on a plaintext of more than 2^36 bytes; the
/// ciphertext is a function of key, nonce and plaintext, is 16 bytes longer
/// than the plaintext, and `Aead::decrypt` under the same key and nonce gives
/// the plaintext back.
#[verifier::external_body]
fn aes_seal(key: &Key, nonce: &[u8; NONCE_LEN], plaintext: &[u8]) -> (res: Result<
    Vec<u8>,
    aes_gcm::Error,
>)
    ensures
        res is Ok <==> fits_cipher(plaintext@),
        res matches Ok(ciphertext) ==> ciphertext@ == aes256_gcm_seal(key@, nonce@, plaintext@),
        res matches Ok(ciphertext) ==> ciphertext@.len() == plaintext@.len() + TAG_LEN,
        res matches Ok(ciphertext) ==> aes256_gcm_open(key@, nonce@, ciphertext@) == Some(
            plaintext@,
        ),
{
    Aes256Gcm::new(key.into()).encrypt(Nonce::from_slice(nonce), plaintext)
}

/// `Aead::decrypt` of `Aes256Gcm` made with `KeyInit::new` from `key`.
/// Claimed: whether it succeeds, and the plaintext, are a function of key,
/// nonce and ciphertext; it fails on a ciphertext of less than 16 bytes, and
/// the plaintext is the ciphertext's length less the 16 bytes of the tag.
/// `Nonce::from_slice` panics on a nonce that is not 12 bytes long.
#[verifier::external_body]
fn aes_open(key: &Key, nonce: &[u8], ciphertext: &[u8]) -> (res: Result<Vec<u8>, aes_gcm::Error>)
    requires
        nonce@.len() == NONCE_LEN,
    ensures
        res is Ok <==> aes256_gcm_open(key@, nonce@, ciphertext@) is Some,
        res matches Ok(plaintext) ==> aes256_gcm_open(key@, nonce@, ciphertext@) == Some(
            plaintext@,
        ),
        res is Ok ==> holds_tag(ciphertext@),
        res matches Ok(plaintext) ==> plaintext@.len() + TAG_LEN == ciphertext@.len(),
{
    Aes256Gcm::new(key.into()).decrypt(Nonce::from_slice(nonce), ciphertext)
}

/// Seals `plaintext` under `pin` with the given salt and nonce.
///
/// Fails with `KeyDerivation` where no key can be derived from the PIN and
/// the salt, else with `Encryption` where the plaintext is too long for the
/// cipher; otherwise the envelope holds the salt, the nonce and the
/// ciphertext under the derived key.
pub fn seal_with(plaintext: &[u8], pin: &str, salt: &[u8], nonce: &[u8; NONCE_LEN]) -> (res: Result<
    EncryptedWallet,
    WalletError,
>)
    ensures
        res is Ok <==> derived_key(pin@, salt@) is Some && fits_cipher(plaintext@),
        res matches Ok(e) ==> e@.salt == salt@ && e@.nonce == nonce@ && seals(
            e@,
            plaintext@,
            pin@,
        ),
        res matches Err(err) ==> err == (if derived_key(pin@, salt@) is None {
            WalletError::KeyDerivation
        } else {
            WalletError::Encryption
        }),
{
    let key = match derive_key_from_pin(pin, salt) {
        Ok(key) => key,
        Err(_) => {
            return Err(WalletError::KeyDerivation);
        },
    };
    match aes_seal(&key, nonce, plaintext) {
        Ok(ciphertext) => Ok(
            EncryptedWallet {
                encrypted_data: ciphertext,
                nonce: slice_to_vec(array_as_slice(nonce)),
                salt: slice_to_vec(salt),
            },
        ),
        Err(_) => Err(WalletError::Encryption),
    }
}

/// Seals `plaintext` under `pin` with a fresh 16-byte salt and a fresh nonce.
///
/// Succeeds exactly for a PIN of at most 2^32 - 1 bytes and a plaintext of at
/// most 2^36 bytes. What it returns opens to `plaintext` under `pin`.
pub fn encrypt_bytes(plaintext: &[u8], pin: &str) -> (res: Result<EncryptedWallet, WalletError>)
    ensures
        res is Ok <==> is_usable_pin(pin@) && fits_cipher(plaintext@),
        res matches Ok(e) ==> e@.salt.len() == SALT_LEN && seals(e@, plaintext@, pin@) && opened(
            e@,
            pin@,
        ) == Ok::<Seq<u8>, WalletError>(plaintext@),
        res matches Err(err) ==> err == (if !is_usable_pin(pin@) {
            WalletError::KeyDerivation
        } else {
            WalletError::Encryption
        }),
{
    let salt = random_salt();
    let nonce = random_nonce();
    seal_with(plaintext, pin, array_as_slice(&salt), &nonce)
}

/// Opens `envelope` under `pin`.
///
/// Fails with `KeyDerivation` where no key can be derived from the PIN and
/// the envelope's salt; else with `Authentication` where the nonce is not 12
/// bytes long or the ciphertext does not authenticate under the derived key,
/// as none of less than 16 bytes does. The plaintext is 16 bytes shorter than
/// the ciphertext.
pub fn decrypt_bytes(envelope: &EncryptedWallet, pin: &str) -> (res: Result<Vec<u8>, WalletError>)
    ensures
        res is Ok <==> opened(envelope@, pin@) is Ok,
        res is Ok ==> holds_tag(envelope@.ciphertext),
        res matches Ok(plaintext) ==> plaintext@.len() + TAG_LEN == envelope@.ciphertext.len(),
        res matches Ok(plaintext) ==> opened(envelope@, pin@) == Ok::<Seq<u8>, WalletError>(
            plaintext@,
        ),
        res matches Err(err) ==> opened(envelope@, pin@) == Err::<Seq<u8>, WalletError>(err),
{
    let key = match derive_key_from_pin(pin, envelope.salt.as_slice()) {
        Ok(key) => key,
        Err(_) => {
            return Err(WalletError::KeyDerivation);
        },
    };
    if envelope.nonce.len() != NONCE_LEN {
        return Err(WalletError::Authentication);
    }
    match aes_open(&key, envelope.nonce.as_slice(), envelope.encrypted_data.as_slice()) {
        Ok(plaintext) => Ok(plaintext),
        Err(_) => Err(WalletError::Authentication),
    }
}

/// Encrypts the record under `pin` with a fresh salt and a fresh nonce.
///
/// Succeeds exactly for a PIN of at most 2^32 - 1 bytes and a record whose
/// text has at most 2^36 bytes. What it returns decrypts to the record under
/// the same PIN.
pub fn encrypt_wallet(wallet: &WalletData, pin: &str) -> (res: Result<EncryptedWallet, WalletError>)
    ensures
        res is Ok <==> is_usable_pin(pin@) && fits_cipher(
            record_bytes(wallet@),
        ),
        res matches Ok(e) ==> e@.salt.len() == SALT_LEN && seals_record(e@, wallet@, pin@)
            && decrypted(e@, pin@) == Ok::<Record, WalletError>(wallet@),
        res matches Err(err) ==> err == (if !is_usable_pin(pin@) {
            WalletError::KeyDerivation
        } else {
            WalletError::Encryption
        }),
{
    let text = wallet.to_json();
    let res = encrypt_bytes(text.as_str().as_bytes(), pin);
    proof {
        if res is Ok {
            lemma_record_round_trip(res->Ok_0@, wallet@, pin@);
        }
    }
    res
}

/// Decrypts the record in `envelope` under `pin`.
///
/// Fails as `decrypt_bytes` does, and with `Format` where the plaintext is
/// not the text of a record.
pub fn decrypt_wallet(envelope: &EncryptedWallet, pin: &str) -> (res: Result<
    WalletData,
    WalletError,
>)
    ensures
        res matches Ok(w) ==> decrypted(envelope@, pin@) == Ok::<Record, WalletError>(w@),
        res matches Err(err) ==> decrypted(envelope@, pin@) == Err::<Record, WalletError>(err),
        res is Ok ==> holds_tag(envelope@.ciphertext),
{
    let plaintext = match decrypt_bytes(envelope, pin) {
        Ok(plaintext) => plaintext,
        Err(err) => {
            return Err(err);
        },
    };
    let text = match utf8_string(plaintext) {
        Ok(text) => text,
        Err(_) => {
            return Err(WalletError::Format);
        },
    };
    proof {
        encode_utf8_decode_utf8(text@);
    }
    WalletData::from_json(text.as_str())
}

/// Round trip: an envelope that encrypting `plaintext` under `pin` may give
/// opens, under the same PIN, to `plaintext`.
pub proof fn lemma_round_trip(e: Envelope, plaintext: Seq<u8>, pin: Seq<char>)
    requires
        seals(e, plaintext, pin),
    ensures
        opened(e, pin) == Ok::<Seq<u8>, WalletError>(plaintext),
{
}

/// Rejection: an envelope that does not authenticate under the key derived
/// from `pin` and its salt is refused with `Authentication`, and gives no
/// plaintext and no record.
pub proof fn lemma_unauthentic_is_rejected(e: Envelope, pin: Seq<char>)
    requires
        derived_key(pin, e.salt) matches Some(key) && aes256_gcm_open(key, e.nonce, e.ciphertext)
            is None,
    ensures
        opened(e, pin) == Err::<Seq<u8>, WalletError>(WalletError::Authentication),
        decrypted(e, pin) == Err::<Record, WalletError>(WalletError::Authentication),
{
}

/// Round trip of records: an envelope that encrypting the record `r` under
/// `pin` may give decrypts, under the same PIN, to `r`.
pub proof fn lemma_record_round_trip(e: Envelope, r: Record, pin: Seq<char>)
    requires
        seals_record(e, r, pin),
    ensures
        decrypted(e, pin) == Ok::<Record, WalletError>(r),
{
    lemma_round_trip(e, record_bytes(r), pin);
    encode_utf8_valid_utf8(record_text(r));
    encode_utf8_decode_utf8(record_text(r));
}

} // verus!
