use onekey_core::cipher::{decrypt_wallet, encrypt_wallet, EncryptedWallet};
use onekey_core::error::WalletError;
use onekey_core::record::WalletData;
use onekey_core::store::{slot_location, BaseDirectory, Platform, WalletSlot};

fn envelope() -> EncryptedWallet {
    EncryptedWallet {
        encrypted_data: vec![0, 1, 127, 128, 255],
        nonce: vec![9; 12],
        salt: vec![200; 16],
    }
}

#[test]
fn envelope_text() {
    let e = EncryptedWallet { encrypted_data: vec![0, 255, 16], nonce: vec![1, 2], salt: vec![] };
    assert_eq!(e.to_json(), "{\"encrypted_data\":[0,255,16],\"nonce\":[1,2],\"salt\":[]}");
}

#[test]
fn envelope_from_its_text() {
    let e = envelope();
    assert_eq!(EncryptedWallet::from_json(&e.to_json()), Ok(e));
}

#[test]
fn envelope_from_text() {
    assert_eq!(
        EncryptedWallet::from_json(
            " {\"salt\": [3], \"note\": \"x\", \"nonce\": [2, 2],\n \"encrypted_data\": [1, 255]} "
        ),
        Ok(EncryptedWallet { encrypted_data: vec![1, 255], nonce: vec![2, 2], salt: vec![3] })
    );
    for text in [
        "",
        "not json",
        "{\"encrypted_data\":[1],\"nonce\":[2]}",
        "{\"encrypted_data\":[1],\"nonce\":[2],\"salt\":null}",
        "{\"encrypted_data\":[256],\"nonce\":[2],\"salt\":[3]}",
        "{\"encrypted_data\":[-1],\"nonce\":[2],\"salt\":[3]}",
        "{\"encrypted_data\":[1.0],\"nonce\":[2],\"salt\":[3]}",
        "{\"encrypted_data\":[\"1\"],\"nonce\":[2],\"salt\":[3]}",
        "{\"encrypted_data\":\"AQ==\",\"nonce\":[2],\"salt\":[3]}",
        "{\"encrypted_data\":[1],\"nonce\":[2],\"salt\":[3]",
        "[[1],[2],[3]]",
    ] {
        assert_eq!(EncryptedWallet::from_json(text), Err(WalletError::Format), "{}", text);
    }
}

#[test]
fn store_lifecycle() {
    let mut slot = WalletSlot::empty();
    assert!(!slot.is_occupied());
    assert_eq!(slot.load(), Ok(None));
    assert_eq!(slot.text(), None);

    let e = envelope();
    slot.store(&e);
    assert!(slot.is_occupied());
    assert_eq!(slot.load(), Ok(Some(e.clone())));
    assert_eq!(slot.text(), Some(e.to_json().as_str()));

    assert!(slot.delete());
    assert!(!slot.is_occupied());
    assert_eq!(slot.load(), Ok(None));

    assert!(!slot.delete());
    assert_eq!(slot, WalletSlot::empty());
}

#[test]
fn store_replaces_what_was_there() {
    let mut slot = WalletSlot::holding("anything".to_string());
    assert!(slot.is_occupied());
    assert_eq!(slot.load(), Err(WalletError::Format));
    let first = envelope();
    let second = EncryptedWallet { encrypted_data: vec![5; 40], nonce: vec![6; 12], salt: vec![7; 16] };
    slot.store(&first);
    slot.store(&second);
    assert_eq!(slot.load(), Ok(Some(second)));
}

#[test]
fn slot_found_on_disk_is_loaded() {
    let e = envelope();
    let slot = WalletSlot::holding(e.to_json());
    assert_eq!(slot.load(), Ok(Some(e)));
}

#[test]
fn wallet_survives_the_slot() {
    let wallet = WalletData { private_key: "key".to_string(), address: "addr".to_string() };
    let mut slot = WalletSlot::empty();
    slot.store(&encrypt_wallet(&wallet, "1234").unwrap());
    let found = WalletSlot::holding(slot.text().unwrap().to_string());
    let e = found.load().unwrap().unwrap();
    assert_eq!(decrypt_wallet(&e, "1234"), Ok(wallet));
}

#[test]
fn location_of_the_slot() {
    let other = slot_location(Platform::Other);
    assert_eq!(other.base, BaseDirectory::Home);
    assert_eq!(other.directories, vec![".local".to_string(), "share".to_string(), "1key".to_string()]);
    assert_eq!(other.file, "wallet.encrypted");
    for platform in [Platform::MacOs, Platform::Windows] {
        let l = slot_location(platform);
        assert_eq!(l.base, BaseDirectory::LocalData);
        assert_eq!(l.directories, vec!["1key".to_string()]);
        assert_eq!(l.file, "wallet.encrypted");
    }
}
