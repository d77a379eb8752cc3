//! Key derivation: from a PIN and a salt to a 256-bit key.
//!
//! The salt is written as unpadded base64 text, checked as a PHC salt string,
//! and the bytes of that text are what Argon2id (default costs) is salted with.
use argon2::password_hash::SaltString;
use base64::Engine;
use vstd::prelude::*;
use vstd::utf8::*;

use crate::error::WalletError;

verus! {

/// Length of a derived key in bytes.
pub const KEY_LEN: usize = 32;

/// A derived key.
pub type Key = [u8; KEY_LEN];

/// Fewest salt bytes that key derivation accepts.
pub const MIN_SALT_LEN: usize = 6;

/// Most salt bytes that key derivation accepts.
pub const MAX_SALT_LEN: usize = 48;

/// Longest password or salt, in bytes, that Argon2 takes.
pub const ARGON2_MAX_INPUT: u64 = 0xFFFF_FFFF;

/// Fewest salt bytes that Argon2 takes.
pub const ARGON2_MIN_SALT: usize = 8;

/// The unpadded standard base64 text of `bytes`.
pub uninterp spec fn base64_text(bytes: Seq<u8>) -> Seq<char>;

/// The Argon2id hash (version 0x13, 19 MiB, 2 passes, 1 lane, 32 bytes out)
/// of `password` under `salt`.
pub uninterp spec fn argon2id_key(password: Seq<u8>, salt: Seq<u8>) -> Seq<u8>;

/// How many characters unpadded base64 takes for `n` bytes.
pub open spec fn base64_len(n: nat) -> nat {
    (n / 3) * 4 + if n % 3 == 0 {
        0nat
    } else if n % 3 == 1 {
        2nat
    } else {
        3nat
    }
}

/// A character of the standard base64 alphabet.
pub open spec fn is_base64_char(c: char) -> bool {
    ('A' <= c <= 'Z') || ('a' <= c <= 'z') || ('0' <= c <= '9') || c == '+' || c == '/'
}

/// A character that a PHC salt string may hold.
pub open spec fn is_salt_char(c: char) -> bool {
    ('A' <= c <= 'Z') || ('a' <= c <= 'z') || ('0' <= c <= '9') || c == '/' || c == '+'
        || c == '.' || c == '-'
}

/// A text that is accepted as a PHC salt string: 4 to 64 characters of the
/// salt alphabet.
pub open spec fn is_salt_text(text: Seq<char>) -> bool {
    &&& 4 <= text.len() <= 64
    &&& forall|i: int| 0 <= i < text.len() ==> is_salt_char(#[trigger] text[i])
}

/// A PIN that key derivation accepts: one of at most 2^32 - 1 bytes in UTF-8.
pub open spec fn is_usable_pin(pin: Seq<char>) -> bool {
    encode_utf8(pin).len() <= ARGON2_MAX_INPUT
}

/// A salt that key derivation accepts: one of 6 to 48 bytes.
pub open spec fn is_usable_salt(salt: Seq<u8>) -> bool {
    MIN_SALT_LEN <= salt.len() <= MAX_SALT_LEN
}

/// The key derived from `pin` and `salt`, or `None` where derivation fails.
pub open spec fn derived_key(pin: Seq<char>, salt: Seq<u8>) -> Option<Seq<u8>> {
    if is_usable_salt(salt) && is_usable_pin(pin) {
        Some(argon2id_key(encode_utf8(pin), encode_utf8(base64_text(salt))))
    } else {
        None
    }
}

/// Inputs that Argon2 takes: a password of at most 2^32 - 1 bytes and a salt
/// of 8 to 2^32 - 1 bytes.
pub open spec fn argon2_takes(password: Seq<u8>, salt: Seq<u8>) -> bool {
    password.len() <= ARGON2_MAX_INPUT && ARGON2_MIN_SALT <= salt.len() <= ARGON2_MAX_INPUT
}

/// The error of the password-hash crate. It is carried, never read.
#[verifier::external_type_specification]
#[verifier::external_body]
pub struct ExSaltError(argon2::password_hash::Error);

/// The error of the argon2 crate. It is carried, never read.
#[verifier::external_type_specification]
#[verifier::external_body]
pub struct ExArgon2Error(argon2::Error);

/// `Engine::encode` of the base64 crate, on the engine `STANDARD_NO_PAD`.
/// Claimed: the text is a function of the bytes, it has the length that the
/// crate's `encoded_len` gives without padding, and every character is of the
/// standard alphabet. The call panics where that length overflows `usize`.
#[verifier::external_body]
fn base64_encode(bytes: &[u8]) -> (text: String)
    requires
        base64_len(bytes@.len()) <= usize::MAX,
    ensures
        text@ == base64_text(bytes@),
        text@.len() == base64_len(bytes@.len()),
        forall|i: int| 0 <= i < text@.len() ==> is_base64_char(#[trigger] text@[i]),
{
    base64::engine::general_purpose::STANDARD_NO_PAD.encode(bytes)
}

/// `SaltString::from_b64` of the password-hash crate, handing back the text
/// that the salt string holds. Claimed: it accepts exactly the texts of 4 to
/// 64 characters drawn from `[A-Za-z0-9/+.-]`, and holds the text unchanged.
#[verifier::external_body]
fn salt_string(text: &str) -> (res: Result<String, argon2::password_hash::Error>)
    ensures
        res is Ok <==> is_salt_text(text@),
        res matches Ok(held) ==> held@ == text@,
{
    SaltString::from_b64(text).map(|s| s.as_salt().as_str().to_owned())
}

/// `Argon2::hash_password_into` on `Argon2::default()` with a 32-byte output.
/// Claimed: it fails exactly where the password is longer than 2^32 - 1 bytes
/// or the salt is shorter than 8 or longer than 2^32 - 1 bytes, and the key
/// is a function of password and salt.
#[verifier::external_body]
fn argon2_hash(password: &[u8], salt: &[u8]) -> (res: Result<Key, argon2::Error>)
    ensures
        res is Ok <==> argon2_takes(password@, salt@),
        res matches Ok(key) ==> key@ == argon2id_key(password@, salt@),
{
    let mut key = [0u8; KEY_LEN];
    argon2::Argon2::default().hash_password_into(password, salt, &mut key).map(|_| key)
}

/// Base64 needs at least 4 characters from 3 bytes on, at least 8 from 6 on,
/// and at most 64 up to 48 bytes.
pub proof fn lemma_base64_len_bounds(n: nat)
    ensures
        4 <= base64_len(n) <==> 3 <= n,
        8 <= base64_len(n) <==> 6 <= n,
        base64_len(n) <= 64 <==> n <= 48,
        n <= base64_len(n) <= 2 * n,
{
}

/// Derives the 32-byte key for `pin` under `salt`.
///
/// Succeeds exactly for a salt of 6 to 48 bytes and a PIN of at most
/// 2^32 - 1 bytes; the same PIN and salt always give the same key.
pub fn derive_key_from_pin(pin: &str, salt: &[u8]) -> (res: Result<Key, WalletError>)
    ensures
        res is Ok <==> derived_key(pin@, salt@) is Some,
        res matches Ok(key) ==> Some(key@) == derived_key(pin@, salt@),
        res matches Err(e) ==> e == WalletError::KeyDerivation,
{
    if salt.len() > MAX_SALT_LEN {
        // The text of a longer salt has more than 64 characters, and no salt
        // string holds that many.
        return Err(WalletError::KeyDerivation);
    }
    proof {
        lemma_base64_len_bounds(salt@.len());
    }
    let text = base64_encode(salt);
    let held = match salt_string(text.as_str()) {
        Ok(held) => held,
        Err(_) => {
            return Err(WalletError::KeyDerivation);
        },
    };
    proof {
        assert(is_ascii_chars(held@));
        is_ascii_chars_encode_utf8(held@);
    }
    match argon2_hash(pin.as_bytes(), held.as_str().as_bytes()) {
        Ok(key) => Ok(key),
        Err(_) => Err(WalletError::KeyDerivation),
    }
}

} // verus!
