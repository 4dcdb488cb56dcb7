use password_manager::account::Account;
use password_manager::cipher::Key;
use password_manager::gate::{authenticate, AuthError};
use password_manager::serialisation::{deserialise, serialise, DeserialisationResult};

fn sample_accounts() -> Vec<Account> {
    vec![
        Account::builder().label("github").username("octo").password("pw1").build(),
        Account::builder().label("mail").email("me@example.org").password("pw2").build(),
        Account::builder().label("bank").password("").build(),
    ]
}

fn decoded(r: DeserialisationResult) -> Vec<Account> {
    match r {
        DeserialisationResult::Accounts(v) => v,
        other => panic!("expected accounts, got {:?}", other),
    }
}

#[test]
fn vault_round_trip_gives_the_accounts_back() {
    let key = Key::for_passphrase("secret");
    let accounts = sample_accounts();
    let text = serialise(&key, &accounts, "secret");
    assert_eq!(decoded(deserialise(&key, &text, "secret")), accounts);
}

#[test]
fn vault_round_trip_of_an_empty_vault() {
    let key = Key::for_passphrase("secret");
    let text = serialise(&key, &vec![], "secret");
    assert_eq!(text.lines().count(), 1);
    assert_eq!(decoded(deserialise(&key, &text, "secret")), vec![]);
}

#[test]
fn vault_format_is_check_line_then_four_lines_per_account() {
    let key = Key::for_passphrase("secret");
    let accounts = sample_accounts();
    let text = serialise(&key, &accounts, "secret");
    assert!(text.ends_with('\n'));
    let lines: Vec<&str> = text.lines().collect();
    assert_eq!(lines.len(), 1 + 4 * accounts.len());
    assert_eq!(lines[0], key.encrypt("secret"));
    assert_eq!(lines[1], key.encrypt("github"));
    assert_eq!(lines[3], "");
    assert_eq!(lines[6], "");
    assert_eq!(lines[7], key.encrypt("me@example.org"));
}

#[test]
fn vault_refuses_another_passphrase() {
    let key = Key::for_passphrase("secret");
    let text = serialise(&key, &sample_accounts(), "secret");
    let other = Key::for_passphrase("guess");
    assert!(matches!(deserialise(&other, &text, "guess"), DeserialisationResult::WrongPassword));
    assert!(matches!(deserialise(&key, &text, "guess"), DeserialisationResult::WrongPassword));
}

#[test]
fn vault_without_check_line_is_refused() {
    let key = Key::for_passphrase("secret");
    assert!(matches!(deserialise(&key, "", "secret"), DeserialisationResult::WrongPassword));
}

#[test]
fn vault_with_a_partial_record_is_malformed() {
    let key = Key::for_passphrase("secret");
    let mut text = serialise(&key, &sample_accounts(), "secret");
    text.push_str(&key.encrypt("dangling"));
    text.push('\n');
    assert!(matches!(deserialise(&key, &text, "secret"), DeserialisationResult::Malformed));
}

#[test]
fn vault_with_a_corrupt_field_is_malformed() {
    let key = Key::for_passphrase("secret");
    let text = format!("{}\n{}\n\n\n%%%\n", key.encrypt("secret"), key.encrypt("label"));
    assert!(matches!(deserialise(&key, &text, "secret"), DeserialisationResult::Malformed));
}

#[test]
fn reencoding_keeps_the_account_list() {
    let key = Key::for_passphrase("secret");
    let accounts = sample_accounts();
    let first = serialise(&key, &accounts, "secret");
    let once = decoded(deserialise(&key, &first, "secret"));
    let second = serialise(&key, &once, "secret");
    let twice = decoded(deserialise(&key, &second, "secret"));
    assert_eq!(twice, accounts);
}

#[test]
fn authenticate_without_vault_reports_no_file() {
    assert!(matches!(authenticate("secret", None), Err(AuthError::NoVaultFile)));
}

#[test]
fn authenticate_with_wrong_passphrase() {
    let key = Key::for_passphrase("secret");
    let text = serialise(&key, &sample_accounts(), "secret");
    assert!(matches!(authenticate("nope", Some(&text)), Err(AuthError::WrongPassword)));
}

#[test]
fn authenticate_with_malformed_vault() {
    let key = Key::for_passphrase("secret");
    let text = format!("{}\n{}\n", key.encrypt("secret"), key.encrypt("half"));
    assert!(matches!(authenticate("secret", Some(&text)), Err(AuthError::Malformed)));
}

#[test]
fn authenticate_opens_the_vault() {
    let key = Key::for_passphrase("secret");
    let accounts = sample_accounts();
    let text = serialise(&key, &accounts, "secret");
    match authenticate("secret", Some(&text)) {
        Ok((k, v)) => {
            assert_eq!(v, accounts);
            assert_eq!(k.encrypt("x"), key.encrypt("x"));
        }
        Err(e) => panic!("expected the vault to open, got {:?}", e),
    }
}
