use password_manager::account::Account;
use password_manager::cipher::Key;
use password_manager::input::{get_confirmation, KeyInput, TextInput};
use password_manager::pages::{field_value, next_field, prev_field, AccountField, PageOption};
use password_manager::serialisation::{deserialise, serialise, DeserialisationResult};
use password_manager::session::{change_password, search, Action, Page, PasswordResult, SearchAction, Session, ViewMode};
use password_manager::store::AccountStore;

fn session_with(labels: &[&str], passphrase: &str) -> Session {
    let accounts = labels
        .iter()
        .map(|l| Account::builder().label(l).username("user").password("pw").build())
        .collect();
    Session::new(AccountStore::from_accounts(accounts).unwrap(), passphrase.to_string())
}

fn press(s: &mut Session, keys: &[KeyInput]) -> Vec<Action> {
    keys.iter().map(|k| s.step(*k)).collect()
}

fn type_text(s: &mut Session, text: &str) {
    for c in text.chars() {
        s.step(KeyInput::Char(c));
    }
}

fn shown_label(s: &Session) -> String {
    match s.page() {
        Page::View(p) => p.account.label(),
        other => panic!("expected the account page, got {:?}", other),
    }
}

fn stored_labels(s: &Session) -> Vec<String> {
    s.store().accounts().iter().map(|a| a.label()).collect()
}

#[test]
fn page_options_cycle() {
    assert_eq!(PageOption::Search.next(), PageOption::ChangePassword);
    assert_eq!(PageOption::Exit.next(), PageOption::Search);
    assert_eq!(PageOption::Search.prev(), PageOption::Exit);
    assert_eq!(PageOption::Help.prev(), PageOption::ChangePassword);
}

#[test]
fn account_fields_cycle() {
    assert_eq!(AccountField::Label.next(), AccountField::Username);
    assert_eq!(AccountField::Password.next(), AccountField::Label);
    assert_eq!(AccountField::Label.prev(), AccountField::Password);
    assert_eq!(AccountField::Email.prev(), AccountField::Username);
}

#[test]
fn field_cursor_skips_absent_fields() {
    let bare = Account::builder().label("l").password("p").build();
    assert_eq!(next_field(&bare, AccountField::Label), AccountField::Password);
    assert_eq!(prev_field(&bare, AccountField::Password), AccountField::Label);
    let full = Account::builder().label("l").username("u").email("e").password("p").build();
    assert_eq!(next_field(&full, AccountField::Label), AccountField::Username);
    assert_eq!(field_value(&full, AccountField::Email), "e");
    assert_eq!(field_value(&bare, AccountField::Email), "");
}

#[test]
fn text_input_edits_at_the_cursor() {
    let mut t = TextInput::with_text("ac");
    assert_eq!(t.cursor(), 2);
    t.apply(KeyInput::Left);
    t.apply(KeyInput::Char('b'));
    assert_eq!(t.text(), "abc");
    t.apply(KeyInput::Backspace);
    assert_eq!(t.text(), "ac");
    t.apply(KeyInput::Left);
    t.apply(KeyInput::Left);
    t.apply(KeyInput::Backspace);
    assert_eq!(t.text(), "ac");
    assert_eq!(t.cursor(), 0);
    t.apply(KeyInput::Right);
    t.apply(KeyInput::Right);
    t.apply(KeyInput::Right);
    assert_eq!(t.cursor(), 2);
    assert_eq!(TextInput::new().text(), "");
}

#[test]
fn confirmation_keys() {
    assert!(get_confirmation(KeyInput::Char('y')));
    assert!(get_confirmation(KeyInput::Char('Y')));
    assert!(!get_confirmation(KeyInput::Char('n')));
    assert!(!get_confirmation(KeyInput::Enter));
}

#[test]
fn change_password_decisions() {
    assert!(matches!(change_password("old", "old", "new", "new"), PasswordResult::NewPassword(p) if p == "new"));
    assert!(matches!(change_password("old", "bad", "new", "new"), PasswordResult::Error(m) if m == "Incorrect password!"));
    assert!(matches!(change_password("old", "old", "new", "neu"), PasswordResult::Error(m) if m == "Passwords do not match!"));
}

#[test]
fn search_action_picks_first_match_or_new_label() {
    let accounts = vec![
        Account::builder().label("Apple").build(),
        Account::builder().label("Banana").build(),
    ];
    let store = AccountStore::from_accounts(accounts).unwrap();
    assert!(matches!(search(&store, "a"), SearchAction::ViewAccount(l) if l == "Banana"));
    assert!(matches!(search(&store, "p"), SearchAction::ViewAccount(l) if l == "Apple"));
    assert!(matches!(search(&store, "zz"), SearchAction::NewAccount(q) if q == "zz"));
}

#[test]
fn home_menu_navigation_and_exit() {
    let mut s = session_with(&[], "pw");
    assert!(matches!(s.page(), Page::Home(PageOption::Search)));
    press(&mut s, &[KeyInput::Char('j'), KeyInput::Char('j')]);
    assert!(matches!(s.page(), Page::Home(PageOption::Help)));
    press(&mut s, &[KeyInput::Enter]);
    assert!(matches!(s.page(), Page::Help));
    press(&mut s, &[KeyInput::Char('x')]);
    assert!(matches!(s.page(), Page::Home(PageOption::Search)));
    press(&mut s, &[KeyInput::Char('k'), KeyInput::Enter]);
    assert!(s.is_finished());
}

#[test]
fn escape_on_home_ends_the_session() {
    let mut s = session_with(&["a"], "pw");
    press(&mut s, &[KeyInput::Esc]);
    assert!(s.is_finished());
    let (accounts, pass) = s.finish();
    assert_eq!(accounts.len(), 1);
    assert_eq!(pass, "pw");
}

#[test]
fn search_filters_the_whole_store_after_every_key() {
    let mut s = session_with(&["Apple", "Banana", "Cherry"], "pw");
    press(&mut s, &[KeyInput::Enter]);
    type_text(&mut s, "an");
    let found: Vec<String> = s.search_results().iter().map(|a| a.label()).collect();
    assert_eq!(found, vec!["Banana"]);
    press(&mut s, &[KeyInput::Backspace, KeyInput::Backspace]);
    assert_eq!(s.search_results().len(), 3);
    press(&mut s, &[KeyInput::Esc]);
    assert!(matches!(s.page(), Page::Home(PageOption::Search)));
}

#[test]
fn enter_opens_the_first_match() {
    let mut s = session_with(&["Apple", "Banana", "Cherry"], "pw");
    press(&mut s, &[KeyInput::Enter]);
    type_text(&mut s, "e");
    press(&mut s, &[KeyInput::Enter]);
    assert_eq!(shown_label(&s), "Apple");
}

#[test]
fn enter_without_match_creates_an_account_with_the_query() {
    let mut s = session_with(&["Apple"], "pw");
    press(&mut s, &[KeyInput::Enter]);
    type_text(&mut s, "zoo");
    press(&mut s, &[KeyInput::Enter]);
    assert_eq!(shown_label(&s), "zoo");
    press(&mut s, &[KeyInput::Esc]);
    assert_eq!(stored_labels(&s), vec!["Apple", "zoo"]);
}

#[test]
fn enter_on_an_empty_store_with_empty_query_stays() {
    let mut s = session_with(&[], "pw");
    press(&mut s, &[KeyInput::Enter, KeyInput::Enter]);
    assert!(matches!(s.page(), Page::Search(_)));
}

#[test]
fn editing_a_field_and_leaving_keeps_the_edit() {
    let mut s = session_with(&["site"], "pw");
    press(&mut s, &[KeyInput::Enter, KeyInput::Enter]);
    press(&mut s, &[KeyInput::Char('k'), KeyInput::Char('e')]);
    match s.page() {
        Page::Edit(p, t) => {
            assert_eq!(p.field, AccountField::Password);
            assert_eq!(t.text(), "pw");
        }
        other => panic!("expected the edit prompt, got {:?}", other),
    }
    press(&mut s, &[KeyInput::Backspace, KeyInput::Backspace]);
    type_text(&mut s, "new");
    press(&mut s, &[KeyInput::Enter, KeyInput::Esc]);
    assert_eq!(s.store().find("site").unwrap().password(), "new");
}

#[test]
fn escape_drops_an_edit() {
    let mut s = session_with(&["site"], "pw");
    press(&mut s, &[KeyInput::Enter, KeyInput::Enter, KeyInput::Char('e')]);
    type_text(&mut s, "xyz");
    press(&mut s, &[KeyInput::Esc]);
    assert_eq!(shown_label(&s), "site");
}

#[test]
fn clearing_the_username_makes_it_absent() {
    let mut s = session_with(&["site"], "pw");
    press(&mut s, &[KeyInput::Enter, KeyInput::Enter, KeyInput::Char('j'), KeyInput::Char('e')]);
    press(&mut s, &[KeyInput::Backspace, KeyInput::Backspace, KeyInput::Backspace, KeyInput::Backspace]);
    press(&mut s, &[KeyInput::Enter]);
    match s.page() {
        Page::View(p) => {
            assert_eq!(p.account.username(), None);
            assert_eq!(p.field, AccountField::Label);
        }
        other => panic!("expected the account page, got {:?}", other),
    }
}

#[test]
fn a_label_taken_by_another_account_is_refused() {
    let mut s = session_with(&["one", "two"], "pw");
    press(&mut s, &[KeyInput::Enter]);
    type_text(&mut s, "two");
    press(&mut s, &[KeyInput::Enter, KeyInput::Char('e')]);
    press(&mut s, &[KeyInput::Backspace, KeyInput::Backspace, KeyInput::Backspace]);
    type_text(&mut s, "one");
    press(&mut s, &[KeyInput::Enter]);
    assert!(matches!(s.page(), Page::Edit(_, _)));
    press(&mut s, &[KeyInput::Esc, KeyInput::Esc]);
    assert_eq!(stored_labels(&s), vec!["one", "two"]);
}

#[test]
fn yank_copies_then_blocks_until_confirmed() {
    let mut s = session_with(&["site"], "pw");
    press(&mut s, &[KeyInput::Enter, KeyInput::Enter, KeyInput::Char('k')]);
    let actions = press(&mut s, &[KeyInput::Char('y')]);
    assert!(matches!(&actions[0], Action::Copy(t) if t == "pw"));
    let blocked = press(&mut s, &[KeyInput::Esc, KeyInput::Char('j')]);
    assert!(blocked.iter().all(|a| matches!(a, Action::Nothing)));
    assert!(matches!(s.page(), Page::View(p) if p.mode == ViewMode::Yanked));
    let done = press(&mut s, &[KeyInput::Char('y')]);
    assert!(matches!(done[0], Action::ClearClipboard));
    assert!(matches!(s.page(), Page::View(p) if p.mode == ViewMode::Browse));
}

#[test]
fn deleting_an_account_removes_it_from_every_search() {
    let mut s = session_with(&["alpha", "beta", "gamma"], "pw");
    press(&mut s, &[KeyInput::Enter]);
    type_text(&mut s, "bet");
    press(&mut s, &[KeyInput::Enter, KeyInput::Char('D'), KeyInput::Char('y')]);
    assert!(matches!(s.page(), Page::Search(_)));
    assert_eq!(stored_labels(&s), vec!["alpha", "gamma"]);
    type_text(&mut s, "b");
    assert!(s.search_results().is_empty());
}

#[test]
fn declining_a_deletion_keeps_the_account() {
    let mut s = session_with(&["alpha"], "pw");
    press(&mut s, &[KeyInput::Enter, KeyInput::Enter, KeyInput::Char('D'), KeyInput::Char('n')]);
    assert!(matches!(s.page(), Page::View(p) if p.mode == ViewMode::Browse));
    assert_eq!(stored_labels(&s), vec!["alpha"]);
}

#[test]
fn changing_the_passphrase_reencrypts_under_the_new_one() {
    let mut s = session_with(&["alpha", "beta"], "old");
    press(&mut s, &[KeyInput::Char('j'), KeyInput::Enter]);
    type_text(&mut s, "old");
    press(&mut s, &[KeyInput::Enter]);
    type_text(&mut s, "new");
    press(&mut s, &[KeyInput::Enter]);
    type_text(&mut s, "new");
    press(&mut s, &[KeyInput::Enter]);
    assert!(matches!(s.page(), Page::Home(PageOption::Search)));
    assert_eq!(s.passphrase(), "new");
    press(&mut s, &[KeyInput::Esc]);
    let (accounts, pass) = s.finish();
    let text = serialise(&Key::for_passphrase(&pass), &accounts, &pass);
    assert!(matches!(deserialise(&Key::for_passphrase("old"), &text, "old"), DeserialisationResult::WrongPassword));
    match deserialise(&Key::for_passphrase("new"), &text, "new") {
        DeserialisationResult::Accounts(v) => {
            let labels: Vec<String> = v.iter().map(|a| a.label()).collect();
            assert_eq!(labels, vec!["alpha", "beta"]);
        }
        other => panic!("expected the accounts, got {:?}", other),
    }
}

#[test]
fn wrong_old_passphrase_is_reported_and_changes_nothing() {
    let mut s = session_with(&[], "old");
    press(&mut s, &[KeyInput::Char('j'), KeyInput::Enter]);
    type_text(&mut s, "olx");
    press(&mut s, &[KeyInput::Enter]);
    assert!(matches!(s.page(), Page::Notice(m) if m == "Incorrect password!"));
    press(&mut s, &[KeyInput::Enter]);
    assert!(matches!(s.page(), Page::Home(PageOption::Search)));
    assert_eq!(s.passphrase(), "old");
}

#[test]
fn mismatched_confirmation_is_reported_and_changes_nothing() {
    let mut s = session_with(&[], "old");
    press(&mut s, &[KeyInput::Char('j'), KeyInput::Enter]);
    type_text(&mut s, "old");
    press(&mut s, &[KeyInput::Enter]);
    type_text(&mut s, "new");
    press(&mut s, &[KeyInput::Enter]);
    type_text(&mut s, "nex");
    press(&mut s, &[KeyInput::Enter]);
    assert!(matches!(s.page(), Page::Notice(m) if m == "Passwords do not match!"));
    assert_eq!(s.passphrase(), "old");
}

#[test]
fn escape_abandons_a_passphrase_change() {
    let mut s = session_with(&[], "old");
    press(&mut s, &[KeyInput::Char('j'), KeyInput::Enter]);
    type_text(&mut s, "old");
    press(&mut s, &[KeyInput::Enter, KeyInput::Esc]);
    assert!(matches!(s.page(), Page::Home(PageOption::Search)));
    assert_eq!(s.passphrase(), "old");
}
