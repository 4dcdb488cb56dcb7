use password_manager::account::{decode_account, Account, AccountBuilder};
use password_manager::cipher::Key;
use password_manager::store::account_with_label;

#[test]
fn account_with_label_works() {
    let accounts = vec![
        Account::builder().label("Test 1").build(),
        Account::builder().label("Test 2").build(),
        Account::builder().label("Test 3").build(),
    ];

    assert!(account_with_label(&accounts, "Test 1"));
    assert!(account_with_label(&accounts, "Test 2"));
    assert!(!account_with_label(&accounts, "Test 4"));
}

#[test]
fn builder_sets_every_field() {
    let account = AccountBuilder::new()
        .label("crates.io")
        .username("sir_devs_a_lot")
        .email("sirdevsalot@gmail.com")
        .password("sirDevsALotIsNumber1")
        .build();
    assert_eq!(account.label(), "crates.io".to_string());
    assert_eq!(account.username(), Some("sir_devs_a_lot".to_string()));
    assert_eq!(account.email(), Some("sirdevsalot@gmail.com".to_string()));
    assert_eq!(account.password(), "sirDevsALotIsNumber1".to_string());
}

#[test]
fn builder_defaults_are_empty() {
    let account = AccountBuilder::default().build();
    assert_eq!(account.label(), "");
    assert_eq!(account.username(), None);
    assert_eq!(account.email(), None);
    assert_eq!(account.password(), "");
}

#[test]
fn setters_replace_fields() {
    let mut account = Account::builder().label("a").password("p").build();
    account.set_label("b".to_string());
    account.set_username(Some("user".to_string()));
    account.set_email(Some("e@x.org".to_string()));
    account.set_password("q".to_string());
    assert_eq!(account.label(), "b");
    assert_eq!(account.username(), Some("user".to_string()));
    assert_eq!(account.email(), Some("e@x.org".to_string()));
    assert_eq!(account.password(), "q");
    account.set_username(None);
    account.set_email(None);
    assert_eq!(account.username(), None);
    assert_eq!(account.email(), None);
}

#[test]
fn key_encrypts_to_base64_and_back() {
    let key = Key::for_passphrase("magickey");
    let ciphertext = key.encrypt("http://magiclen.org");
    assert_eq!(ciphertext, "DS/2U8royDnJDiNY2ps3f6ZoTbpZo8ZtUGYLGEjwLDQ=");
    assert_eq!(key.decrypt(&ciphertext), Some("http://magiclen.org".to_string()));
}

#[test]
fn key_encrypts_empty_text_to_a_nonempty_line() {
    let key = Key::for_passphrase("k");
    let ciphertext = key.encrypt("");
    assert!(!ciphertext.is_empty());
    assert!(!ciphertext.contains('\n'));
    assert_eq!(key.decrypt(&ciphertext), Some(String::new()));
}

#[test]
fn key_refuses_text_that_is_not_base64() {
    let key = Key::for_passphrase("k");
    assert_eq!(key.decrypt("not base64 at all!"), None);
}

#[test]
fn account_round_trip_with_every_field() {
    let key = Key::for_passphrase("passphrase");
    let account = Account::builder()
        .label("mail")
        .username("me")
        .email("me@example.org")
        .password("hunter2")
        .build();
    let text = account.encrypt(&key);
    assert_eq!(text.lines().count(), 4);
    assert_eq!(decode_account(&key, &text), Some(account));
}

#[test]
fn account_round_trip_without_optional_fields() {
    let key = Key::for_passphrase("passphrase");
    let account = Account::builder().label("bank").password("").build();
    let text = account.encrypt(&key);
    let lines: Vec<&str> = text.split('\n').collect();
    assert_eq!(lines.len(), 4);
    assert_eq!(lines[1], "");
    assert_eq!(lines[2], "");
    assert_eq!(decode_account(&key, &text), Some(account));
}

#[test]
fn account_encrypts_each_field_on_its_own() {
    let key = Key::for_passphrase("passphrase");
    let account = Account::builder().label("l").username("u").email("e").password("p").build();
    let text = account.encrypt(&key);
    let expected = format!(
        "{}\n{}\n{}\n{}",
        key.encrypt("l"),
        key.encrypt("u"),
        key.encrypt("e"),
        key.encrypt("p")
    );
    assert_eq!(text, expected);
}

#[test]
fn decode_account_needs_four_lines() {
    let key = Key::for_passphrase("passphrase");
    let account = Account::builder().label("x").password("y").build();
    let text = account.encrypt(&key);
    let three: Vec<&str> = text.split('\n').take(3).collect();
    assert_eq!(decode_account(&key, &three.join("\n")), None);
}

#[test]
fn decode_account_refuses_a_corrupt_field() {
    let key = Key::for_passphrase("passphrase");
    let text = format!("{}\n\n\n{}", key.encrypt("label"), "%%%");
    assert_eq!(decode_account(&key, &text), None);
}

#[test]
fn builder_decrypts_stored_fields() {
    let key = Key::for_passphrase("thisIsMyDecryptionKey");
    let username = key.encrypt("cool_username");
    assert_ne!(username, "cool_username");
    let label = key.encrypt("site");
    let password = key.encrypt("pw");
    let account = AccountBuilder::new()
        .label(&label)
        .username(&username)
        .password(&password)
        .decrypt(&key)
        .unwrap();
    assert_eq!(account.username(), Some("cool_username".to_string()));
    assert_eq!(account.label(), "site");
    assert_eq!(account.password(), "pw");
    assert_eq!(account.email(), None);
}
