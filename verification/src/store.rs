//! The single slot that keeps the envelope: the text it is kept as, what each
//! operation of the store does to the slot, and where the slot lies.
//!
//! The slot is a file. This module holds its content as the caller found it;
//! the caller reads the file before an operation and carries out on the file
//! what the operation did to the slot.
use serde_json::Value;
use vstd::prelude::*;

use crate::cipher::{EncryptedWallet, Envelope};
use crate::error::WalletError;
use crate::json;
use crate::json::{
    document, documents, json_parsed, json_printed, member, reads_back, Json, Members,
};

verus! {

/// The document of a byte string: the array of its bytes as numbers.
pub open spec fn bytes_document(bytes: Seq<u8>) -> Json {
    Json::Array(bytes.map_values(|b: u8| Json::Integer(b as int)))
}

/// A document that is a number from 0 to 255.
pub open spec fn is_byte(doc: Json) -> bool {
    doc matches Json::Integer(n) && 0 <= n <= 255
}

/// The byte that a document holds.
pub open spec fn byte_of(doc: Json) -> u8 {
    match doc {
        Json::Integer(n) => n as u8,
        _ => 0u8,
    }
}

/// The byte string that a document holds: it must be an array of numbers from
/// 0 to 255.
pub open spec fn document_bytes(doc: Json) -> Option<Seq<u8>> {
    match doc {
        Json::Array(items) => if forall|i: int|
            0 <= i < items.len() ==> is_byte(#[trigger] items[i]) {
            Some(items.map_values(|d: Json| byte_of(d)))
        } else {
            None
        },
        _ => None,
    }
}

/// The document of an envelope: an object with the members `encrypted_data`,
/// `nonce` and `salt`, each an array of bytes.
pub open spec fn envelope_document(e: Envelope) -> Json {
    Json::Object(
        map![
            "encrypted_data"@ => bytes_document(e.ciphertext),
            "nonce"@ => bytes_document(e.nonce),
            "salt"@ => bytes_document(e.salt),
        ],
    )
}

/// The envelope that a document holds: the three members must be there and
/// be arrays of bytes; other members are passed over.
pub open spec fn document_envelope(doc: Json) -> Option<Envelope> {
    match (member(doc, "encrypted_data"@), member(doc, "nonce"@), member(doc, "salt"@)) {
        (Some(ciphertext), Some(nonce), Some(salt)) => match (
            document_bytes(ciphertext),
            document_bytes(nonce),
            document_bytes(salt),
        ) {
            (Some(ciphertext), Some(nonce), Some(salt)) => Some(
                Envelope { ciphertext, nonce, salt },
            ),
            _ => None,
        },
        _ => None,
    }
}

/// The text that an envelope is kept as.
pub open spec fn envelope_text(e: Envelope) -> Seq<char> {
    json_printed(envelope_document(e))
}

/// The envelope that a text holds.
pub open spec fn text_envelope(text: Seq<char>) -> Option<Envelope> {
    match json_parsed(text) {
        Some(doc) => document_envelope(doc),
        None => None,
    }
}

/// The document of a byte string holds that byte string.
pub proof fn lemma_bytes_document(bytes: Seq<u8>)
    ensures
        document_bytes(bytes_document(bytes)) == Some(bytes),
        json::is_exact(bytes_document(bytes), 1),
{
    let items = bytes.map_values(|b: u8| Json::Integer(b as int));
    assert forall|i: int| 0 <= i < items.len() implies is_byte(#[trigger] items[i]) by {}
    assert(items.map_values(|d: Json| byte_of(d)) =~= bytes);
    reveal_with_fuel(json::is_exact, 2);
}

/// The document of an envelope holds that envelope, and is read back from
/// its text as it was.
pub proof fn lemma_envelope_document(e: Envelope)
    ensures
        document_envelope(envelope_document(e)) == Some(e),
        reads_back(envelope_document(e)),
{
    reveal_strlit("encrypted_data");
    reveal_strlit("nonce");
    reveal_strlit("salt");
    assert("encrypted_data"@.len() == 14 && "nonce"@.len() == 5 && "salt"@.len() == 4);
    lemma_bytes_document(e.ciphertext);
    lemma_bytes_document(e.nonce);
    lemma_bytes_document(e.salt);
    reveal_with_fuel(json::is_exact, 3);
    let members = envelope_document(e)->Object_0;
    assert forall|k: Seq<char>| members.contains_key(k) implies json::is_exact(
        #[trigger] members[k],
        126,
    ) by {
        assert(k == "encrypted_data"@ || k == "nonce"@ || k == "salt"@);
    }
}

/// The value that holds a byte string.
fn bytes_value(bytes: &Vec<u8>) -> (v: Value)
    ensures
        document(v) == bytes_document(bytes@),
{
    let mut items: Vec<Value> = Vec::new();
    let mut i: usize = 0;
    while i < bytes.len()
        invariant
            i <= bytes.len(),
            items@.len() == i,
            forall|j: int|
                0 <= j < i ==> document(#[trigger] items@[j]) == Json::Integer(bytes@[j] as int),
        decreases bytes.len() - i,
    {
        items.push(json::integer(bytes[i] as u64));
        i += 1;
    }
    assert(documents(items@) =~= bytes@.map_values(|b: u8| Json::Integer(b as int)));
    json::array(items)
}

/// The byte string that a value holds.
fn value_bytes(v: &Value) -> (r: Option<Vec<u8>>)
    ensures
        r matches Some(bytes) ==> document_bytes(document(*v)) == Some(bytes@),
        r is None ==> document_bytes(document(*v)) is None,
{
    let items = match json::get_items(v) {
        Some(items) => items,
        None => {
            return None;
        },
    };
    let mut bytes: Vec<u8> = Vec::new();
    let mut i: usize = 0;
    while i < items.len()
        invariant
            i <= items.len(),
            bytes@.len() == i,
            json::as_items(document(*v)) == Some(documents(items@)),
            forall|j: int| 0 <= j < i ==> is_byte(#[trigger] documents(items@)[j]),
            forall|j: int| 0 <= j < i ==> bytes@[j] == byte_of(#[trigger] documents(items@)[j]),
        decreases items.len() - i,
    {
        match json::get_u64(&items[i]) {
            Some(n) => {
                if n > 255 {
                    assert(!is_byte(documents(items@)[i as int]));
                    return None;
                }
                bytes.push(n as u8);
            },
            None => {
                assert(!is_byte(documents(items@)[i as int]));
                return None;
            },
        }
        i += 1;
    }
    assert(bytes@ =~= documents(items@).map_values(|d: Json| byte_of(d)));
    Some(bytes)
}

/// The byte string under `key` in an object.
fn member_bytes(v: &Value, key: &str) -> (r: Option<Vec<u8>>)
    ensures
        r matches Some(bytes) ==> member(document(*v), key@) matches Some(m) && document_bytes(m)
            == Some(bytes@),
        r is None ==> (member(document(*v), key@) matches Some(m) ==> document_bytes(m) is None),
{
    match json::get(v, key) {
        Some(m) => value_bytes(&m),
        None => None,
    }
}

impl EncryptedWallet {
    /// The text that the envelope is kept as. Reading that text gives the
    /// envelope back.
    pub fn to_json(&self) -> (text: String)
        ensures
            text@ == envelope_text(self@),
            text_envelope(text@) == Some(self@),
    {
        proof {
            reveal_strlit("encrypted_data");
            reveal_strlit("nonce");
            reveal_strlit("salt");
            assert("encrypted_data"@.len() == 14 && "nonce"@.len() == 5 && "salt"@.len() == 4);
            lemma_envelope_document(self@);
        }
        let members = Members::new().with("encrypted_data", bytes_value(&self.encrypted_data));
        let members = members.with("nonce", bytes_value(&self.nonce));
        let members = members.with("salt", bytes_value(&self.salt));
        json::print(&members.into_value())
    }

    /// Reads an envelope from a text. Fails with `Format` where the text is
    /// not JSON, or holds no object whose members `encrypted_data`, `nonce`
    /// and `salt` are arrays of bytes.
    pub fn from_json(text: &str) -> (res: Result<EncryptedWallet, WalletError>)
        ensures
            res matches Ok(e) ==> text_envelope(text@) == Some(e@),
            res matches Err(err) ==> err == WalletError::Format && text_envelope(text@) is None,
    {
        let value = match json::parse(text) {
            Ok(value) => value,
            Err(_) => {
                return Err(WalletError::Format);
            },
        };
        let encrypted_data = match member_bytes(&value, "encrypted_data") {
            Some(bytes) => bytes,
            None => {
                return Err(WalletError::Format);
            },
        };
        let nonce = match member_bytes(&value, "nonce") {
            Some(bytes) => bytes,
            None => {
                return Err(WalletError::Format);
            },
        };
        let salt = match member_bytes(&value, "salt") {
            Some(bytes) => bytes,
            None => {
                return Err(WalletError::Format);
            },
        };
        Ok(EncryptedWallet { encrypted_data, nonce, salt })
    }
}

/// An envelope whose text reads back as the envelope. `to_json` shows this
/// of every envelope that it prints.
pub open spec fn is_kept(e: Envelope) -> bool {
    text_envelope(envelope_text(e)) == Some(e)
}

/// The content of a slot after `e` was stored into it: the text of `e`,
/// whatever the slot held before.
pub open spec fn stored(before: Option<Seq<char>>, e: Envelope) -> Option<Seq<char>> {
    Some(envelope_text(e))
}

/// The content of a slot after it was emptied: none.
pub open spec fn deleted(before: Option<Seq<char>>) -> Option<Seq<char>> {
    None
}

/// What loading gives from a slot with the content `content`: nothing from an
/// empty slot, else the envelope in the content, or `Format` where it holds
/// none.
pub open spec fn loaded(content: Option<Seq<char>>) -> Result<Option<Envelope>, WalletError> {
    match content {
        None => Ok(None),
        Some(text) => match text_envelope(text) {
            Some(e) => Ok(Some(e)),
            None => Err(WalletError::Format),
        },
    }
}

/// The slot of the store: the content of its file, or nothing where there is
/// no file.
#[derive(Debug, Clone, PartialEq, Eq)]
pub struct WalletSlot {
    content: Option<String>,
}

impl WalletSlot {
    /// The content of the slot, `None` where the slot is empty.
    pub closed spec fn content(&self) -> Option<Seq<char>> {
        match self.content {
            Some(text) => Some(text@),
            None => None,
        }
    }

    /// The slot without a file.
    pub fn empty() -> (slot: Self)
        ensures
            slot.content() is None,
    {
        WalletSlot { content: None }
    }

    /// The slot whose file holds `text`.
    pub fn holding(text: String) -> (slot: Self)
        ensures
            slot.content() == Some(text@),
    {
        WalletSlot { content: Some(text) }
    }

    /// Whether the slot holds anything.
    pub fn is_occupied(&self) -> (b: bool)
        ensures
            b == self.content() is Some,
    {
        self.content.is_some()
    }

    /// The text that the file is to hold, `None` where there is to be no
    /// file.
    pub fn text(&self) -> (text: Option<&str>)
        ensures
            text is Some == self.content() is Some,
            text matches Some(t) ==> self.content() == Some(t@),
    {
        match &self.content {
            Some(text) => Some(text.as_str()),
            None => None,
        }
    }

    /// Puts `envelope` into the slot in place of whatever it held. The slot
    /// then holds the text of the envelope, and loading gives the envelope.
    pub fn store(&mut self, envelope: &EncryptedWallet)
        ensures
            final(self).content() == stored(old(self).content(), envelope@),
            is_kept(envelope@),
            loaded(final(self).content()) == Ok::<Option<Envelope>, WalletError>(
                Some(envelope@),
            ),
    {
        self.content = Some(envelope.to_json());
    }

    /// The envelope in the slot: nothing from an empty slot, and `Format`
    /// where the content holds no envelope.
    pub fn load(&self) -> (res: Result<Option<EncryptedWallet>, WalletError>)
        ensures
            res matches Ok(Some(e)) ==> loaded(self.content()) == Ok::<
                Option<Envelope>,
                WalletError,
            >(Some(e@)),
            res matches Ok(None) ==> self.content() is None,
            res matches Err(err) ==> loaded(self.content()) == Err::<
                Option<Envelope>,
                WalletError,
            >(err),
    {
        match &self.content {
            None => Ok(None),
            Some(text) => match EncryptedWallet::from_json(text.as_str()) {
                Ok(e) => Ok(Some(e)),
                Err(err) => Err(err),
            },
        }
    }

    /// Empties the slot, and says whether it held anything. On an empty slot
    /// it does nothing.
    pub fn delete(&mut self) -> (held: bool)
        ensures
            final(self).content() == deleted(old(self).content()),
            held == old(self).content() is Some,
    {
        let held = self.content.is_some();
        self.content = None;
        held
    }
}

/// Lifecycle of the slot. An empty slot loads nothing. After an envelope was
/// stored the slot holds something and loads that envelope, whatever it held
/// before. After it was emptied the slot holds nothing, and emptying an empty
/// slot leaves it as it was.
pub proof fn lemma_slot_lifecycle(before: Option<Seq<char>>, e: Envelope)
    requires
        is_kept(e),
    ensures
        loaded(None) == Ok::<Option<Envelope>, WalletError>(None),
        stored(before, e) is Some,
        loaded(stored(before, e)) == Ok::<Option<Envelope>, WalletError>(Some(e)),
        deleted(before) is None,
        loaded(deleted(stored(before, e))) == Ok::<Option<Envelope>, WalletError>(None),
        deleted(None) == None::<Seq<char>>,
{
}

/// The system that the store runs on.
#[derive(Debug, Clone, Copy, PartialEq, Eq, Structural)]
pub enum Platform {
    MacOs,
    Windows,
    Other,
}

/// The directory that the slot's path starts from.
#[derive(Debug, Clone, Copy, PartialEq, Eq, Structural)]
pub enum BaseDirectory {
    /// The user's directory for local application data.
    LocalData,
    /// The user's home directory.
    Home,
}

/// The directories below the base directory that lead to the slot's file,
/// outermost first.
pub open spec fn slot_directories(platform: Platform) -> Seq<Seq<char>> {
    match platform {
        Platform::Other => seq![".local"@, "share"@, "1key"@],
        _ => seq!["1key"@],
    }
}

/// The name of the slot's file.
pub open spec fn slot_file() -> Seq<char> {
    "wallet.encrypted"@
}

/// Where the slot lies.
#[derive(Debug, Clone, PartialEq, Eq)]
pub struct SlotLocation {
    /// The directory that the path starts from.
    pub base: BaseDirectory,
    /// The directories below it, outermost first. The store makes them
    /// where they are missing.
    pub directories: Vec<String>,
    /// The name of the file in the last of them.
    pub file: String,
}

/// Where the slot lies on `platform`: below the local data directory on
/// macOS and Windows, below `.local/share` of the home directory elsewhere,
/// in both cases in a directory `1key`, as the file `wallet.encrypted`.
pub fn slot_location(platform: Platform) -> (location: SlotLocation)
    ensures
        location.base == (if platform == Platform::Other {
            BaseDirectory::Home
        } else {
            BaseDirectory::LocalData
        }),
        location.directories@.map_values(|d: String| d@) == slot_directories(platform),
        location.file@ == slot_file(),
{
    let mut directories: Vec<String> = Vec::new();
    let base = match platform {
        Platform::Other => {
            directories.push(".local".to_owned());
            directories.push("share".to_owned());
            BaseDirectory::Home
        },
        _ => BaseDirectory::LocalData,
    };
    directories.push("1key".to_owned());
    assert(directories@.map_values(|d: String| d@) =~= slot_directories(platform));
    SlotLocation { base, directories, file: "wallet.encrypted".to_owned() }
}

} // verus!
