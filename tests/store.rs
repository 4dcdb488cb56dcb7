use password_manager::account::Account;
use password_manager::store::{label_matches, AccountStore, DuplicateLabel, UpdateError};

fn labelled(l: &str) -> Account {
    Account::builder().label(l).password("pw").build()
}

fn store_of(labels: &[&str]) -> AccountStore {
    AccountStore::from_accounts(labels.iter().map(|l| labelled(l)).collect()).unwrap()
}

fn labels(v: &[Account]) -> Vec<String> {
    v.iter().map(|a| a.label()).collect()
}

#[test]
fn add_refuses_a_taken_label_and_leaves_the_store_unchanged() {
    let mut store = store_of(&["a", "b"]);
    let other = Account::builder().label("a").password("different").build();
    assert_eq!(store.add(other), Err(DuplicateLabel));
    assert_eq!(labels(store.accounts()), vec!["a", "b"]);
    assert_eq!(store.find("a").unwrap().password(), "pw");
}

#[test]
fn add_appends_a_new_label() {
    let mut store = store_of(&["a"]);
    assert_eq!(store.add(labelled("c")), Ok(()));
    assert_eq!(labels(store.accounts()), vec!["a", "c"]);
    assert_eq!(store.len(), 2);
}

#[test]
fn from_accounts_refuses_duplicates() {
    let r = AccountStore::from_accounts(vec![labelled("x"), labelled("y"), labelled("x")]);
    assert!(matches!(r, Err(DuplicateLabel)));
}

#[test]
fn update_replaces_in_place() {
    let mut store = store_of(&["a", "b", "c"]);
    assert_eq!(store.update("b", labelled("z")), Ok(()));
    assert_eq!(labels(store.accounts()), vec!["a", "z", "c"]);
    let same_label = Account::builder().label("a").password("new").build();
    assert_eq!(store.update("a", same_label), Ok(()));
    assert_eq!(store.find("a").unwrap().password(), "new");
}

#[test]
fn update_refuses_missing_and_taken_labels() {
    let mut store = store_of(&["a", "b"]);
    assert_eq!(store.update("nope", labelled("q")), Err(UpdateError::NotFound));
    assert_eq!(store.update("a", labelled("b")), Err(UpdateError::DuplicateLabel));
    assert_eq!(labels(store.accounts()), vec!["a", "b"]);
}

#[test]
fn remove_takes_out_exactly_that_label() {
    let mut store = store_of(&["a", "b", "c"]);
    let removed = store.remove("b").unwrap();
    assert_eq!(removed.label(), "b");
    assert_eq!(labels(store.accounts()), vec!["a", "c"]);
    assert!(store.find("b").is_none());
    assert!(store.filter("b").is_empty());
    assert!(store.remove("b").is_none());
}

#[test]
fn position_and_find() {
    let store = store_of(&["a", "b"]);
    assert_eq!(store.position("b"), Some(1));
    assert_eq!(store.position("c"), None);
    assert_eq!(store.find("a").unwrap().label(), "a");
}

#[test]
fn filter_matches_characters_in_any_order() {
    let store = store_of(&["bca", "xyz"]);
    assert_eq!(labels(&store.filter("ab")), vec!["bca"]);
}

#[test]
fn filter_needs_every_query_character() {
    let store = store_of(&["Apple", "Banana", "Cherry"]);
    assert_eq!(labels(&store.filter("an")), vec!["Banana"]);
}

#[test]
fn filter_with_empty_query_keeps_everything_in_order() {
    let store = store_of(&["c", "a", "b"]);
    assert_eq!(labels(&store.filter("")), vec!["c", "a", "b"]);
}

#[test]
fn filter_is_case_sensitive_and_ignores_repeats() {
    let store = store_of(&["Apple", "apple"]);
    assert_eq!(labels(&store.filter("A")), vec!["Apple"]);
    assert_eq!(labels(&store.filter("ppp")), vec!["Apple", "apple"]);
}

#[test]
fn label_matching() {
    assert!(label_matches("ab", "bca"));
    assert!(!label_matches("an", "Apple"));
    assert!(label_matches("", ""));
    assert!(!label_matches("a", ""));
}
