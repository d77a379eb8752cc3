//! The calls that the application makes of the worker: each with its method
//! name and the object of its parameters.
use serde_json::Value;
use vstd::prelude::*;

use crate::json;
use crate::json::{document, Json, Members};
use crate::sidecar::{CallPhase, SidecarCall};

verus! {

/// The parameters of `initialize`.
pub open spec fn node_document(node_url: Seq<char>) -> Json {
    Json::Object(map!["nodeUrl"@ => Json::Text(node_url)])
}

/// The parameters of `connectExistingAccount`.
pub open spec fn credentials_document(credentials: Json) -> Json {
    Json::Object(map!["credentials"@ => credentials])
}

/// The parameters of `createPasswordEntry` and `updatePasswordEntry`.
pub open spec fn entry_document(
    contract_address: Seq<char>,
    label: Seq<char>,
    password: Seq<char>,
    id: u64,
    randomness: u64,
) -> Json {
    Json::Object(
        map![
            "contractAddress"@ => Json::Text(contract_address),
            "label"@ => Json::Text(label),
            "password"@ => Json::Text(password),
            "id"@ => Json::Integer(id as int),
            "randomness"@ => Json::Integer(randomness as int),
        ],
    )
}

/// The parameters of `getPasswordEntryIds`.
pub open spec fn page_document(contract_address: Seq<char>, offset: u64) -> Json {
    Json::Object(
        map![
            "contractAddress"@ => Json::Text(contract_address),
            "offset"@ => Json::Integer(offset as int),
        ],
    )
}

/// The parameters of `getPasswordEntryById`.
pub open spec fn lookup_document(contract_address: Seq<char>, id: u64, offset: u64) -> Json {
    Json::Object(
        map![
            "contractAddress"@ => Json::Text(contract_address),
            "id"@ => Json::Integer(id as int),
            "offset"@ => Json::Integer(offset as int),
        ],
    )
}

/// The parameters of `deletePasswordEntry`.
pub open spec fn removal_document(contract_address: Seq<char>, id: u64) -> Json {
    Json::Object(
        map![
            "contractAddress"@ => Json::Text(contract_address),
            "id"@ => Json::Integer(id as int),
        ],
    )
}

/// The offset that a call asks for: 0 where none is given.
pub open spec fn offset_or_zero(offset: Option<u64>) -> u64 {
    match offset {
        Some(offset) => offset,
        None => 0,
    }
}

/// A call that is ready to start, of `method` with `params`.
pub open spec fn is_call(call: SidecarCall, method: Seq<char>, params: Option<Json>) -> bool {
    &&& call.phase() == CallPhase::Spawning
    &&& call.method() == method
    &&& call.params() == params
}

/// The object that describes a password entry.
fn entry_object(
    contract_address: &str,
    label: &str,
    password: &str,
    id: u64,
    randomness: u64,
) -> (v: Value)
    ensures
        document(v) == entry_document(contract_address@, label@, password@, id, randomness),
{
    proof {
        reveal_strlit("contractAddress");
        reveal_strlit("label");
        reveal_strlit("password");
        reveal_strlit("id");
        reveal_strlit("randomness");
        assert("contractAddress"@.len() == 15 && "label"@.len() == 5 && "password"@.len() == 8);
        assert("id"@.len() == 2 && "randomness"@.len() == 10);
    }
    let members = Members::new().with("contractAddress", json::text(contract_address));
    let members = members.with("label", json::text(label));
    let members = members.with("password", json::text(password));
    let members = members.with("id", json::integer(id));
    let members = members.with("randomness", json::integer(randomness));
    members.into_value()
}

/// The call `initialize`, with the node's address as `nodeUrl`.
pub fn initialize(node_url: &str) -> (call: SidecarCall)
    ensures
        is_call(call, "initialize"@, Some(node_document(node_url@))),
{
    let members = Members::new().with("nodeUrl", json::text(node_url));
    SidecarCall::new("initialize", Some(members.into_value()))
}

/// The call `createAccount`, without parameters.
pub fn create_account() -> (call: SidecarCall)
    ensures
        is_call(call, "createAccount"@, None),
{
    SidecarCall::new("createAccount", None)
}

/// The call `connectExistingAccount`, with the credentials as they came, as
/// `credentials`.
pub fn connect_existing_account(credentials: Value) -> (call: SidecarCall)
    ensures
        is_call(
            call,
            "connectExistingAccount"@,
            Some(credentials_document(document(credentials))),
        ),
{
    let members = Members::new().with("credentials", credentials);
    SidecarCall::new("connectExistingAccount", Some(members.into_value()))
}

/// The call `deployAccount`, without parameters.
pub fn deploy_account() -> (call: SidecarCall)
    ensures
        is_call(call, "deployAccount"@, None),
{
    SidecarCall::new("deployAccount", None)
}

/// The call `test`, without parameters.
pub fn test_connection() -> (call: SidecarCall)
    ensures
        is_call(call, "test"@, None),
{
    SidecarCall::new("test", None)
}

/// The call `deployPasswordManager`, without parameters.
pub fn deploy_password_manager() -> (call: SidecarCall)
    ensures
        is_call(call, "deployPasswordManager"@, None),
{
    SidecarCall::new("deployPasswordManager", None)
}

/// The call `createPasswordEntry`.
pub fn create_password_entry(
    contract_address: &str,
    label: &str,
    password: &str,
    id: u64,
    randomness: u64,
) -> (call: SidecarCall)
    ensures
        is_call(
            call,
            "createPasswordEntry"@,
            Some(entry_document(contract_address@, label@, password@, id, randomness)),
        ),
{
    SidecarCall::new(
        "createPasswordEntry",
        Some(entry_object(contract_address, label, password, id, randomness)),
    )
}

/// The call `getPasswordEntryIds`, from offset 0 where none is given.
pub fn get_password_entry_ids(contract_address: &str, offset: Option<u64>) -> (call: SidecarCall)
    ensures
        is_call(
            call,
            "getPasswordEntryIds"@,
            Some(page_document(contract_address@, offset_or_zero(offset))),
        ),
{
    let offset: u64 = match offset {
        Some(offset) => offset,
        None => 0,
    };
    proof {
        reveal_strlit("contractAddress");
        reveal_strlit("offset");
        assert("contractAddress"@.len() == 15 && "offset"@.len() == 6);
    }
    let members = Members::new().with("contractAddress", json::text(contract_address));
    let members = members.with("offset", json::integer(offset));
    SidecarCall::new("getPasswordEntryIds", Some(members.into_value()))
}

/// The call `getPasswordEntryById`, from offset 0 where none is given.
pub fn get_password_entry_by_id(contract_address: &str, id: u64, offset: Option<u64>) -> (call:
    SidecarCall)
    ensures
        is_call(
            call,
            "getPasswordEntryById"@,
            Some(lookup_document(contract_address@, id, offset_or_zero(offset))),
        ),
{
    let offset: u64 = match offset {
        Some(offset) => offset,
        None => 0,
    };
    proof {
        reveal_strlit("contractAddress");
        reveal_strlit("id");
        reveal_strlit("offset");
        assert("contractAddress"@.len() == 15 && "id"@.len() == 2 && "offset"@.len() == 6);
    }
    let members = Members::new().with("contractAddress", json::text(contract_address));
    let members = members.with("id", json::integer(id));
    let members = members.with("offset", json::integer(offset));
    SidecarCall::new("getPasswordEntryById", Some(members.into_value()))
}

/// The call `updatePasswordEntry`.
pub fn update_password_entry(
    contract_address: &str,
    label: &str,
    password: &str,
    id: u64,
    randomness: u64,
) -> (call: SidecarCall)
    ensures
        is_call(
            call,
            "updatePasswordEntry"@,
            Some(entry_document(contract_address@, label@, password@, id, randomness)),
        ),
{
    SidecarCall::new(
        "updatePasswordEntry",
        Some(entry_object(contract_address, label, password, id, randomness)),
    )
}

/// The call `deletePasswordEntry`.
pub fn delete_password_entry(contract_address: &str, id: u64) -> (call: SidecarCall)
    ensures
        is_call(call, "deletePasswordEntry"@, Some(removal_document(contract_address@, id))),
{
    proof {
        reveal_strlit("contractAddress");
        reveal_strlit("id");
        assert("contractAddress"@.len() == 15 && "id"@.len() == 2);
    }
    let members = Members::new().with("contractAddress", json::text(contract_address));
    let members = members.with("id", json::integer(id));
    SidecarCall::new("deletePasswordEntry", Some(members.into_value()))
}

} // verus!
