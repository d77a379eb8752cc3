//! The secret record and its canonical text.
use vstd::prelude::*;

use crate::error::WalletError;
use crate::json;
use crate::json::{json_parsed, json_printed, member, reads_back, Json, Members};

verus! {

/// The secret that a wallet protects.
#[derive(Debug, Clone, PartialEq, Eq)]
pub struct WalletData {
    pub private_key: String,
    pub address: String,
}

/// A secret record as plain sequences.
pub struct Record {
    pub private_key: Seq<char>,
    pub address: Seq<char>,
}

impl View for WalletData {
    type V = Record;

    open spec fn view(&self) -> Record {
        Record { private_key: self.private_key@, address: self.address@ }
    }
}

/// The document that holds a record: an object with the two members
/// `private_key` and `address`, both strings.
pub open spec fn record_document(r: Record) -> Json {
    Json::Object(
        map![
            "private_key"@ => Json::Text(r.private_key),
            "address"@ => Json::Text(r.address),
        ],
    )
}

/// The record that a document holds: both members must be there and be
/// strings; other members are passed over.
pub open spec fn document_record(doc: Json) -> Option<Record> {
    match (member(doc, "private_key"@), member(doc, "address"@)) {
        (Some(Json::Text(private_key)), Some(Json::Text(address))) => Some(
            Record { private_key, address },
        ),
        _ => None,
    }
}

/// The canonical text of a record.
pub open spec fn record_text(r: Record) -> Seq<char> {
    json_printed(record_document(r))
}

/// The record that a text holds.
pub open spec fn text_record(text: Seq<char>) -> Option<Record> {
    match json_parsed(text) {
        Some(doc) => document_record(doc),
        None => None,
    }
}

/// The document of a record holds that record, and is read back from its
/// text as it was.
pub proof fn lemma_record_document(r: Record)
    ensures
        document_record(record_document(r)) == Some(r),
        reads_back(record_document(r)),
{
    reveal_strlit("private_key");
    reveal_strlit("address");
    assert("private_key"@ != "address"@) by {
        assert("private_key"@.len() == 11);
        assert("address"@.len() == 7);
    }
    reveal_with_fuel(json::is_exact, 2);
}

impl WalletData {
    /// The canonical text of the record. Reading that text gives the record
    /// back.
    pub fn to_json(&self) -> (text: String)
        ensures
            text@ == record_text(self@),
            text_record(text@) == Some(self@),
    {
        proof {
            reveal_strlit("private_key");
            reveal_strlit("address");
            assert("private_key"@.len() == 11 && "address"@.len() == 7);
            lemma_record_document(self@);
        }
        let members = Members::new().with("private_key", json::text(self.private_key.as_str()));
        let members = members.with("address", json::text(self.address.as_str()));
        json::print(&members.into_value())
    }

    /// Reads a record from a text. Fails with `Format` where the text is not
    /// JSON, or holds no object with the string members `private_key` and
    /// `address`.
    pub fn from_json(text: &str) -> (res: Result<WalletData, WalletError>)
        ensures
            res matches Ok(w) ==> text_record(text@) == Some(w@),
            res matches Err(e) ==> e == WalletError::Format && text_record(text@) is None,
    {
        let value = match json::parse(text) {
            Ok(value) => value,
            Err(_) => {
                return Err(WalletError::Format);
            },
        };
        let private_key = match json::get(&value, "private_key") {
            Some(m) => match json::get_text(&m) {
                Some(s) => s,
                None => {
                    return Err(WalletError::Format);
                },
            },
            None => {
                return Err(WalletError::Format);
            },
        };
        let address = match json::get(&value, "address") {
            Some(m) => match json::get_text(&m) {
                Some(s) => s,
                None => {
                    return Err(WalletError::Format);
                },
            },
            None => {
                return Err(WalletError::Format);
            },
        };
        Ok(WalletData { private_key, address })
    }
}

} // verus!
