use onekey_core::commands::{
    connect_existing_account, create_account, create_password_entry, delete_password_entry,
    deploy_account, deploy_password_manager, get_password_entry_by_id, get_password_entry_ids,
    initialize, test_connection, update_password_entry,
};
use onekey_core::correlator::RequestCorrelator;
use onekey_core::sidecar::{CallAction, CallEvent, CallPhase, SidecarCall};

fn request_line(mut call: SidecarCall) -> String {
    assert_eq!(call.current_phase(), CallPhase::Spawning);
    let mut ids = RequestCorrelator::new();
    match call.step(&mut ids, CallEvent::Spawned) {
        CallAction::Send(line) => line,
        other => panic!("{:?}", other),
    }
}

#[test]
fn initialize_request() {
    assert_eq!(
        request_line(initialize("http://localhost:8080")),
        "{\"id\":1,\"method\":\"initialize\",\"params\":{\"nodeUrl\":\"http://localhost:8080\"}}"
    );
}

#[test]
fn requests_without_params() {
    assert_eq!(
        request_line(create_account()),
        "{\"id\":1,\"method\":\"createAccount\",\"params\":null}"
    );
    assert_eq!(
        request_line(deploy_account()),
        "{\"id\":1,\"method\":\"deployAccount\",\"params\":null}"
    );
    assert_eq!(request_line(test_connection()), "{\"id\":1,\"method\":\"test\",\"params\":null}");
    assert_eq!(
        request_line(deploy_password_manager()),
        "{\"id\":1,\"method\":\"deployPasswordManager\",\"params\":null}"
    );
}

#[test]
fn connect_existing_account_request() {
    let credentials: serde_json::Value =
        serde_json::from_str("{\"secretKey\":\"0x01\",\"salt\":[1,2.5,null]}").unwrap();
    assert_eq!(
        request_line(connect_existing_account(credentials)),
        "{\"id\":1,\"method\":\"connectExistingAccount\",\"params\":{\"credentials\":{\"salt\":[1,2.5,null],\"secretKey\":\"0x01\"}}}"
    );
}

#[test]
fn create_password_entry_request() {
    assert_eq!(
        request_line(create_password_entry("0xc0", "mail", "p\"w", 5, 18446744073709551615)),
        "{\"id\":1,\"method\":\"createPasswordEntry\",\"params\":{\"contractAddress\":\"0xc0\",\"id\":5,\"label\":\"mail\",\"password\":\"p\\\"w\",\"randomness\":18446744073709551615}}"
    );
}

#[test]
fn update_password_entry_request() {
    assert_eq!(
        request_line(update_password_entry("0xc0", "mail", "pw", 0, 1)),
        "{\"id\":1,\"method\":\"updatePasswordEntry\",\"params\":{\"contractAddress\":\"0xc0\",\"id\":0,\"label\":\"mail\",\"password\":\"pw\",\"randomness\":1}}"
    );
}

#[test]
fn get_password_entry_ids_request() {
    assert_eq!(
        request_line(get_password_entry_ids("0xc0", None)),
        "{\"id\":1,\"method\":\"getPasswordEntryIds\",\"params\":{\"contractAddress\":\"0xc0\",\"offset\":0}}"
    );
    assert_eq!(
        request_line(get_password_entry_ids("0xc0", Some(10))),
        "{\"id\":1,\"method\":\"getPasswordEntryIds\",\"params\":{\"contractAddress\":\"0xc0\",\"offset\":10}}"
    );
}

#[test]
fn get_password_entry_by_id_request() {
    assert_eq!(
        request_line(get_password_entry_by_id("0xc0", 7, None)),
        "{\"id\":1,\"method\":\"getPasswordEntryById\",\"params\":{\"contractAddress\":\"0xc0\",\"id\":7,\"offset\":0}}"
    );
    assert_eq!(
        request_line(get_password_entry_by_id("0xc0", 7, Some(3))),
        "{\"id\":1,\"method\":\"getPasswordEntryById\",\"params\":{\"contractAddress\":\"0xc0\",\"id\":7,\"offset\":3}}"
    );
}

#[test]
fn delete_password_entry_request() {
    assert_eq!(
        request_line(delete_password_entry("0xc0", 9)),
        "{\"id\":1,\"method\":\"deletePasswordEntry\",\"params\":{\"contractAddress\":\"0xc0\",\"id\":9}}"
    );
}
