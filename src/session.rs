//! The interactive session: a state machine from key presses to changes of the
//! account store and the passphrase, and to clipboard requests.
//!
//! Its pages: the home menu, search, viewing and editing one account, changing the
//! passphrase, help, notices, and the end of the session. The caller reads keys,
//! draws the current page, performs the requested clipboard actions, and on exit
//! encodes the store under the current passphrase.

use vstd::prelude::*;
use crate::account::{line_field, opt_account, Account, AccountView};
use crate::input::{confirms, get_confirmation, input_next, input_wf, InputView, KeyInput, TextInput};
use crate::lines::text_eq;
use crate::pages::{
    field_present, field_text, field_value, has_field, next_field, next_present, prev_field,
    prev_present, AccountField, PageOption,
};
use crate::store::{filter_view, has_label, labels_unique, AccountStore};

verus! {

/// What a key does on the account page.
#[derive(Clone, Copy, Debug, PartialEq, Eq, Structural)]
pub enum ViewMode {
    /// Keys move between fields, edit, copy, delete or leave.
    Browse,
    /// A deletion waits for a yes or a no.
    ConfirmDelete,
    /// A field sits in the clipboard; nothing else happens until the user confirms,
    /// and the clipboard is then cleared.
    Yanked,
}

/// The prompt that the change-password page shows.
#[derive(Clone, Copy, Debug, PartialEq, Eq, Structural)]
pub enum PasswordStage {
    Old,
    New,
    Confirm,
}

/// The outcome of the search page.
#[derive(Debug)]
pub enum SearchAction {
    /// Create a new account with the given label.
    NewAccount(String),
    /// View the existing account with the given label.
    ViewAccount(String),
    /// Leave the search.
    Exit,
}

/// The outcome of a change of passphrase.
#[derive(Debug)]
pub enum PasswordResult {
    /// The passphrase to use from now on.
    NewPassword(String),
    /// Why the change was refused.
    Error(String),
    /// The user gave up.
    Cancelled,
}

/// The account shown on the account page.
#[derive(Debug)]
pub struct AccountPage {
    /// The account as edited so far.
    pub account: Account,
    /// The label under which it is stored; `None` for a new account.
    pub origin: Option<String>,
    /// The selected field.
    pub field: AccountField,
    pub mode: ViewMode,
}

/// The value of an [`AccountPage`].
pub struct AccountPageView {
    pub account: AccountView,
    pub origin: Option<Seq<char>>,
    pub field: AccountField,
    pub mode: ViewMode,
}

impl View for AccountPage {
    type V = AccountPageView;

    open spec fn view(&self) -> AccountPageView {
        AccountPageView {
            account: self.account@,
            origin: match self.origin {
                Some(l) => Some(l@),
                None => None,
            },
            field: self.field,
            mode: self.mode,
        }
    }
}

/// The change-password page: the prompt, the line being typed, and what was entered
/// at the earlier prompts.
#[derive(Debug)]
pub struct PasswordForm {
    pub stage: PasswordStage,
    pub input: TextInput,
    pub old_entry: String,
    pub new_entry: String,
}

/// The value of a [`PasswordForm`].
pub struct PasswordFormView {
    pub stage: PasswordStage,
    pub input: InputView,
    pub old_entry: Seq<char>,
    pub new_entry: Seq<char>,
}

impl View for PasswordForm {
    type V = PasswordFormView;

    open spec fn view(&self) -> PasswordFormView {
        PasswordFormView {
            stage: self.stage,
            input: self.input@,
            old_entry: self.old_entry@,
            new_entry: self.new_entry@,
        }
    }
}

/// The page the session is on.
#[derive(Debug)]
pub enum Page {
    Home(PageOption),
    Help,
    Search(TextInput),
    View(AccountPage),
    Edit(AccountPage, TextInput),
    ChangePassword(PasswordForm),
    Notice(String),
    Exit,
}

/// The value of a [`Page`].
pub enum PageView {
    Home(PageOption),
    Help,
    Search(InputView),
    View(AccountPageView),
    Edit(AccountPageView, InputView),
    ChangePassword(PasswordFormView),
    Notice(Seq<char>),
    Exit,
}

impl View for Page {
    type V = PageView;

    open spec fn view(&self) -> PageView {
        match self {
            Page::Home(o) => PageView::Home(*o),
            Page::Help => PageView::Help,
            Page::Search(t) => PageView::Search(t@),
            Page::View(p) => PageView::View(p@),
            Page::Edit(p, t) => PageView::Edit(p@, t@),
            Page::ChangePassword(f) => PageView::ChangePassword(f@),
            Page::Notice(m) => PageView::Notice(m@),
            Page::Exit => PageView::Exit,
        }
    }
}

/// What the caller is asked to do after a key.
#[derive(Debug)]
pub enum Action {
    Nothing,
    /// Put this text in the clipboard.
    Copy(String),
    /// Clear the clipboard.
    ClearClipboard,
}

/// The value of an [`Action`].
pub enum ActionView {
    Nothing,
    Copy(Seq<char>),
    ClearClipboard,
}

impl View for Action {
    type V = ActionView;

    open spec fn view(&self) -> ActionView {
        match self {
            Action::Nothing => ActionView::Nothing,
            Action::Copy(s) => ActionView::Copy(s@),
            Action::ClearClipboard => ActionView::ClearClipboard,
        }
    }
}

/// The value of a [`Session`].
pub struct SessionView {
    pub accounts: Seq<AccountView>,
    pub passphrase: Seq<char>,
    pub page: PageView,
}

/// The text shown when the old passphrase is wrong.
pub open spec fn incorrect_password_text() -> Seq<char> {
    "Incorrect password!"@
}

/// The text shown when the new passphrase and its confirmation differ.
pub open spec fn mismatch_text() -> Seq<char> {
    "Passwords do not match!"@
}

/// An empty line with the cursor at its start.
pub open spec fn empty_input() -> InputView {
    InputView { text: Seq::empty(), cursor: 0 }
}

/// What an editing key does to a prompt's line (see [`input_next`]); a character
/// that the line could no longer hold is dropped.
pub open spec fn input_step(t: InputView, key: KeyInput) -> InputView {
    if key is Char && t.text.len() + 1 >= usize::MAX {
        t
    } else {
        input_next(t, key)
    }
}

/// A new account with label `l` and nothing else.
pub open spec fn new_account(l: Seq<char>) -> AccountView {
    AccountView { label: l, username: None, email: None, password: Seq::empty() }
}

/// The account page for `a`, opened on its label.
pub open spec fn open_page(a: AccountView, origin: Option<Seq<char>>) -> AccountPageView {
    AccountPageView { account: a, origin, field: AccountField::Label, mode: ViewMode::Browse }
}

/// The position of the account labelled `l`.
pub open spec fn index_of(accounts: Seq<AccountView>, l: Seq<char>) -> int {
    choose|i: int| 0 <= i < accounts.len() && accounts[i].label == l
}

/// The key on the home menu: `j` and `k` move the selection, Enter opens the
/// selected page, Esc or `q` ends the session.
pub open spec fn home_next(sel: PageOption, key: KeyInput) -> PageView {
    if key == KeyInput::Char('j') {
        PageView::Home(PageOption::at((sel.index() + 1) % 4))
    } else if key == KeyInput::Char('k') {
        PageView::Home(PageOption::at((sel.index() + 3) % 4))
    } else if key == KeyInput::Esc || key == KeyInput::Char('q') {
        PageView::Exit
    } else if key == KeyInput::Enter {
        match sel {
            PageOption::Search => PageView::Search(empty_input()),
            PageOption::ChangePassword => PageView::ChangePassword(
                PasswordFormView {
                    stage: PasswordStage::Old,
                    input: empty_input(),
                    old_entry: Seq::empty(),
                    new_entry: Seq::empty(),
                },
            ),
            PageOption::Help => PageView::Help,
            PageOption::Exit => PageView::Exit,
        }
    } else {
        PageView::Home(sel)
    }
}

/// The key on the search page. The query filters the whole store anew. Enter opens
/// the first match, or, with no match, a new account labelled by the query (an empty
/// query with no match does nothing); Esc goes home; other keys edit the query.
pub open spec fn search_next(accounts: Seq<AccountView>, t: InputView, key: KeyInput) -> PageView {
    if key == KeyInput::Esc {
        PageView::Home(PageOption::Search)
    } else if key == KeyInput::Enter {
        let found = filter_view(accounts, t.text);
        if found.len() > 0 {
            PageView::View(open_page(found[0], Some(found[0].label)))
        } else if t.text.len() > 0 {
            PageView::View(open_page(new_account(t.text), None))
        } else {
            PageView::Search(t)
        }
    } else {
        PageView::Search(input_step(t, key))
    }
}

/// The store once the account page's account is put back: in place of the account
/// it came from, or at the end for a new one.
pub open spec fn saved(accounts: Seq<AccountView>, p: AccountPageView) -> Seq<AccountView> {
    match p.origin {
        Some(l) => accounts.update(index_of(accounts, l), p.account),
        None => accounts.push(p.account),
    }
}

/// The store once the account page's account is deleted; a new account was never
/// stored.
pub open spec fn deleted(accounts: Seq<AccountView>, p: AccountPageView) -> Seq<AccountView> {
    match p.origin {
        Some(l) => accounts.remove(index_of(accounts, l)),
        None => accounts,
    }
}

/// The key on the account page, with the store it leaves and the action it asks for.
/// Browsing: `j` and `k` move between the fields the account has, `e` edits the
/// selected one, `y` copies it, `D` asks to delete the account, Esc or `q` puts it
/// back into the store and returns to the search. Deleting: `y` or `Y` deletes,
/// any other key keeps it. Copied: only `y` or `Y` goes on, and clears the clipboard.
pub open spec fn view_next(accounts: Seq<AccountView>, p: AccountPageView, key: KeyInput)
    -> (Seq<AccountView>, PageView, ActionView)
{
    match p.mode {
        ViewMode::Browse => if key == KeyInput::Char('j') {
            (accounts, PageView::View(AccountPageView { field: next_present(p.account, p.field), ..p }), ActionView::Nothing)
        } else if key == KeyInput::Char('k') {
            (accounts, PageView::View(AccountPageView { field: prev_present(p.account, p.field), ..p }), ActionView::Nothing)
        } else if key == KeyInput::Char('e') {
            let text = field_text(p.account, p.field);
            (accounts, PageView::Edit(p, InputView { text, cursor: text.len() }), ActionView::Nothing)
        } else if key == KeyInput::Char('y') {
            (
                accounts,
                PageView::View(AccountPageView { mode: ViewMode::Yanked, ..p }),
                ActionView::Copy(field_text(p.account, p.field)),
            )
        } else if key == KeyInput::Char('D') {
            (accounts, PageView::View(AccountPageView { mode: ViewMode::ConfirmDelete, ..p }), ActionView::Nothing)
        } else if key == KeyInput::Esc || key == KeyInput::Char('q') {
            (saved(accounts, p), PageView::Search(empty_input()), ActionView::Nothing)
        } else {
            (accounts, PageView::View(p), ActionView::Nothing)
        },
        ViewMode::ConfirmDelete => if confirms(key) {
            (deleted(accounts, p), PageView::Search(empty_input()), ActionView::Nothing)
        } else {
            (accounts, PageView::View(AccountPageView { mode: ViewMode::Browse, ..p }), ActionView::Nothing)
        },
        ViewMode::Yanked => if confirms(key) {
            (accounts, PageView::View(AccountPageView { mode: ViewMode::Browse, ..p }), ActionView::ClearClipboard)
        } else {
            (accounts, PageView::View(p), ActionView::Nothing)
        },
    }
}

/// Whether label `v` belongs to a stored account other than the one the page shows.
pub open spec fn label_taken(accounts: Seq<AccountView>, origin: Option<Seq<char>>, v: Seq<char>) -> bool {
    has_label(accounts, v) && origin != Some(v)
}

/// The account with the edited field set to `v`. An empty username or email is
/// absent. `None` for a label that is empty or taken by another account.
pub open spec fn edit_commit(accounts: Seq<AccountView>, p: AccountPageView, v: Seq<char>) -> Option<AccountView> {
    match p.field {
        AccountField::Label => if v.len() == 0 || label_taken(accounts, p.origin, v) {
            None
        } else {
            Some(AccountView { label: v, ..p.account })
        },
        AccountField::Username => Some(AccountView { username: line_field(v), ..p.account }),
        AccountField::Email => Some(AccountView { email: line_field(v), ..p.account }),
        AccountField::Password => Some(AccountView { password: v, ..p.account }),
    }
}

/// The key on the edit prompt: Esc drops the edit, Enter commits it (a refused label
/// keeps the prompt open), other keys edit the line. After a commit the selection
/// moves to the label where the edited field became absent.
pub open spec fn edit_next(accounts: Seq<AccountView>, p: AccountPageView, t: InputView, key: KeyInput) -> PageView {
    if key == KeyInput::Esc {
        PageView::View(p)
    } else if key == KeyInput::Enter {
        match edit_commit(accounts, p, t.text) {
            Some(a) => PageView::View(
                AccountPageView {
                    account: a,
                    origin: p.origin,
                    field: if field_present(a, p.field) {
                        p.field
                    } else {
                        AccountField::Label
                    },
                    mode: ViewMode::Browse,
                },
            ),
            None => PageView::Edit(p, t),
        }
    } else {
        PageView::Edit(p, input_step(t, key))
    }
}

/// The key on the change-password page, with the passphrase it leaves. Esc gives up.
/// Enter at the first prompt checks the old passphrase; at the third, the
/// confirmation must equal the new passphrase, which then replaces the old one.
pub open spec fn password_next(pass: Seq<char>, f: PasswordFormView, key: KeyInput) -> (Seq<char>, PageView) {
    if key == KeyInput::Esc {
        (pass, PageView::Home(PageOption::Search))
    } else if key == KeyInput::Enter {
        match f.stage {
            PasswordStage::Old => if f.input.text == pass {
                (
                    pass,
                    PageView::ChangePassword(
                        PasswordFormView {
                            stage: PasswordStage::New,
                            input: empty_input(),
                            old_entry: f.input.text,
                            new_entry: Seq::empty(),
                        },
                    ),
                )
            } else {
                (pass, PageView::Notice(incorrect_password_text()))
            },
            PasswordStage::New => (
                pass,
                PageView::ChangePassword(
                    PasswordFormView {
                        stage: PasswordStage::Confirm,
                        input: empty_input(),
                        old_entry: f.old_entry,
                        new_entry: f.input.text,
                    },
                ),
            ),
            PasswordStage::Confirm => if f.old_entry != pass {
                (pass, PageView::Notice(incorrect_password_text()))
            } else if f.input.text != f.new_entry {
                (pass, PageView::Notice(mismatch_text()))
            } else {
                (f.new_entry, PageView::Home(PageOption::Search))
            },
        }
    } else {
        (
            pass,
            PageView::ChangePassword(PasswordFormView { input: input_step(f.input, key), ..f }),
        )
    }
}

/// One step of the session: the state and the action that a key leads to. Help and
/// notices go home on any key; the end of the session stays as it is.
pub open spec fn session_next(s: SessionView, key: KeyInput) -> (SessionView, ActionView) {
    match s.page {
        PageView::Home(sel) => (SessionView { page: home_next(sel, key), ..s }, ActionView::Nothing),
        PageView::Help => (SessionView { page: PageView::Home(PageOption::Search), ..s }, ActionView::Nothing),
        PageView::Notice(_) => (SessionView { page: PageView::Home(PageOption::Search), ..s }, ActionView::Nothing),
        PageView::Exit => (s, ActionView::Nothing),
        PageView::Search(t) => (SessionView { page: search_next(s.accounts, t, key), ..s }, ActionView::Nothing),
        PageView::View(p) => {
            let n = view_next(s.accounts, p, key);
            (SessionView { accounts: n.0, page: n.1, ..s }, n.2)
        },
        PageView::Edit(p, t) => (SessionView { page: edit_next(s.accounts, p, t, key), ..s }, ActionView::Nothing),
        PageView::ChangePassword(f) => {
            let n = password_next(s.passphrase, f, key);
            (SessionView { passphrase: n.0, page: n.1, ..s }, ActionView::Nothing)
        },
    }
}

/// The account page is consistent with the store: the selected field is present,
/// the account it came from is stored, and its label clashes with no other account.
pub open spec fn account_page_wf(accounts: Seq<AccountView>, p: AccountPageView) -> bool {
    &&& field_present(p.account, p.field)
    &&& match p.origin {
        Some(l) => has_label(accounts, l) && (p.account.label == l || !has_label(accounts, p.account.label)),
        None => !has_label(accounts, p.account.label),
    }
}

/// A page consistent with the store: prompts keep their cursor within the line, and
/// an account page is consistent (see [`account_page_wf`]).
pub open spec fn page_wf(accounts: Seq<AccountView>, page: PageView) -> bool {
    match page {
        PageView::Search(t) => input_wf(t),
        PageView::View(p) => account_page_wf(accounts, p),
        PageView::Edit(p, t) => account_page_wf(accounts, p) && input_wf(t),
        PageView::ChangePassword(f) => input_wf(f.input),
        _ => true,
    }
}

/// The session's invariant: unique labels, and a page consistent with the store.
pub open spec fn session_wf(s: SessionView) -> bool {
    labels_unique(s.accounts) && page_wf(s.accounts, s.page)
}

proof fn lemma_index_of(accounts: Seq<AccountView>, l: Seq<char>, i: int)
    requires
        labels_unique(accounts),
        0 <= i < accounts.len(),
        accounts[i].label == l,
    ensures
        index_of(accounts, l) == i,
{
    let j = index_of(accounts, l);
    assert(0 <= j < accounts.len() && accounts[j].label == l);
}

/// An account whose label is the query matches it.
proof fn lemma_label_match_found(accounts: Seq<AccountView>, q: Seq<char>)
    requires
        has_label(accounts, q),
    ensures
        filter_view(accounts, q).len() > 0,
{
    let pred = |a: AccountView| crate::store::matches_query(q, a.label);
    let i = choose|i: int| 0 <= i < accounts.len() && #[trigger] accounts[i].label == q;
    assert(pred(accounts[i])) by {
        assert forall|k: int| 0 <= k < q.len() implies accounts[i].label.contains(#[trigger] q[k]) by {
            assert(accounts[i].label[k] == q[k]);
        }
    }
    broadcast use vstd::seq_lib::group_filter_ensures;
    assert(accounts.filter(pred).contains(accounts[i]));
}

/// The first match of a search is stored, and is the only account with its label.
proof fn lemma_first_match_stored(accounts: Seq<AccountView>, q: Seq<char>)
    requires
        labels_unique(accounts),
        filter_view(accounts, q).len() > 0,
    ensures
        has_label(accounts, filter_view(accounts, q)[0].label),
        forall|i: int|
            0 <= i < accounts.len() && accounts[i].label == filter_view(accounts, q)[0].label
                ==> accounts[i] == filter_view(accounts, q)[0],
{
    let pred = |a: AccountView| crate::store::matches_query(q, a.label);
    let first = filter_view(accounts, q)[0];
    assert(accounts.filter(pred).contains(first));
    accounts.lemma_filter_contains_rev(pred, first);
    let j = choose|j: int| 0 <= j < accounts.len() && accounts[j] == first;
    assert(accounts[j].label == first.label);
}

/// Decides a change of passphrase from what was entered at the three prompts: the old
/// passphrase must equal `current`, and the confirmation the new passphrase.
pub fn change_password(current: &str, entered_old: &str, new_password: &str, confirmed: &str) -> (r: PasswordResult)
    ensures
        entered_old@ != current@ ==> (r matches PasswordResult::Error(m) && m@ == incorrect_password_text()),
        entered_old@ == current@ && confirmed@ != new_password@ ==> (r matches PasswordResult::Error(m)
            && m@ == mismatch_text()),
        entered_old@ == current@ && confirmed@ == new_password@ ==> (r matches PasswordResult::NewPassword(p)
            && p@ == new_password@),
{
    if !text_eq(entered_old, current) {
        return PasswordResult::Error("Incorrect password!".to_string());
    }
    if !text_eq(confirmed, new_password) {
        return PasswordResult::Error("Passwords do not match!".to_string());
    }
    PasswordResult::NewPassword(new_password.to_string())
}

/// What Enter on the search page asks for: the first account that matches the query
/// (see [`crate::store::matches_query`]), or, with no match, a new account labelled
/// by the query.
pub fn search(store: &AccountStore, query: &str) -> (r: SearchAction)
    ensures
        filter_view(store@, query@).len() > 0 ==> (r matches SearchAction::ViewAccount(l)
            && l@ == filter_view(store@, query@)[0].label),
        filter_view(store@, query@).len() == 0 ==> (r matches SearchAction::NewAccount(q) && q@ == query@),
{
    let found = store.filter(query);
    if found.len() > 0 {
        assert(crate::account::account_views(found@)[0] == found@[0]@);
        SearchAction::ViewAccount(found[0].label())
    } else {
        SearchAction::NewAccount(query.to_string())
    }
}

fn empty_page_input() -> (r: TextInput)
    ensures
        r@ == empty_input(),
        r.wf(),
{
    TextInput::new()
}

fn home_step(sel: PageOption, key: KeyInput) -> (r: Page)
    ensures
        r@ == home_next(sel, key),
{
    match key {
        KeyInput::Char('j') => Page::Home(sel.next()),
        KeyInput::Char('k') => Page::Home(sel.prev()),
        KeyInput::Esc | KeyInput::Char('q') => Page::Exit,
        KeyInput::Enter => match sel {
            PageOption::Search => Page::Search(empty_page_input()),
            PageOption::ChangePassword => Page::ChangePassword(
                PasswordForm {
                    stage: PasswordStage::Old,
                    input: empty_page_input(),
                    old_entry: String::new(),
                    new_entry: String::new(),
                },
            ),
            PageOption::Help => Page::Help,
            PageOption::Exit => Page::Exit,
        },
        _ => Page::Home(sel),
    }
}

fn search_step(store: &AccountStore, t: TextInput, key: KeyInput) -> (r: Page)
    requires
        store.wf(),
        t.wf(),
    ensures
        r@ == search_next(store@, t@, key),
        page_wf(store@, r@),
{
    match key {
        KeyInput::Esc => Page::Home(PageOption::Search),
        KeyInput::Enter => {
            let q = t.text();
            let ghost found = filter_view(store@, q@);
            match search(store, q.as_str()) {
                SearchAction::ViewAccount(l) => {
                    proof {
                        lemma_first_match_stored(store@, q@);
                    }
                    match store.find(l.as_str()) {
                        Some(a) => {
                            let account = a.clone();
                            proof {
                                let j = choose|j: int| 0 <= j < store@.len() && store@[j] == a@;
                                assert(store@[j].label == found[0].label);
                            }
                            Page::View(
                                AccountPage {
                                    account,
                                    origin: Some(l),
                                    field: AccountField::Label,
                                    mode: ViewMode::Browse,
                                },
                            )
                        },
                        None => Page::Search(t),
                    }
                },
                SearchAction::NewAccount(label) => {
                    if label.as_str().is_empty() {
                        Page::Search(t)
                    } else {
                        proof {
                            if has_label(store@, q@) {
                                lemma_label_match_found(store@, q@);
                            }
                        }
                        let account = Account::new(label, None, None, String::new());
                        Page::View(
                            AccountPage {
                                account,
                                origin: None,
                                field: AccountField::Label,
                                mode: ViewMode::Browse,
                            },
                        )
                    }
                },
                SearchAction::Exit => Page::Search(t),
            }
        },
        _ => {
            let mut t = t;
            t.apply(key);
            Page::Search(t)
        },
    }
}

fn view_step(store: &mut AccountStore, p: AccountPage, key: KeyInput) -> (r: (Page, Action))
    requires
        old(store).wf(),
        account_page_wf(old(store)@, p@),
    ensures
        final(store).wf(),
        (final(store)@, r.0@, r.1@) == view_next(old(store)@, p@, key),
        page_wf(final(store)@, r.0@),
{
    let ghost pv = p@;
    match p.mode {
        ViewMode::Browse => match key {
            KeyInput::Char('j') => {
                let field = next_field(&p.account, p.field);
                (Page::View(AccountPage { field, ..p }), Action::Nothing)
            },
            KeyInput::Char('k') => {
                let field = prev_field(&p.account, p.field);
                (Page::View(AccountPage { field, ..p }), Action::Nothing)
            },
            KeyInput::Char('e') => {
                let text = field_value(&p.account, p.field);
                let input = TextInput::with_text(text.as_str());
                (Page::Edit(p, input), Action::Nothing)
            },
            KeyInput::Char('y') => {
                let text = field_value(&p.account, p.field);
                (Page::View(AccountPage { mode: ViewMode::Yanked, ..p }), Action::Copy(text))
            },
            KeyInput::Char('D') => {
                (Page::View(AccountPage { mode: ViewMode::ConfirmDelete, ..p }), Action::Nothing)
            },
            KeyInput::Esc | KeyInput::Char('q') => {
                match p.origin {
                    Some(l) => {
                        let r = store.update(l.as_str(), p.account);
                        proof {
                            if r is Ok {
                                let i = choose|i: int|
                                    0 <= i < old(store)@.len() && old(store)@[i].label == l@
                                        && final(store)@ == old(store)@.update(i, pv.account);
                                lemma_index_of(old(store)@, l@, i);
                            }
                        }
                    },
                    None => {
                        let r = store.add(p.account);
                        assert(r is Ok);
                    },
                }
                (Page::Search(empty_page_input()), Action::Nothing)
            },
            _ => (Page::View(p), Action::Nothing),
        },
        ViewMode::ConfirmDelete => {
            if get_confirmation(key) {
                match &p.origin {
                    Some(l) => {
                        let r = store.remove(l.as_str());
                        proof {
                            let a = r->0;
                            let i = choose|i: int|
                                0 <= i < old(store)@.len() && old(store)@[i] == a@
                                    && final(store)@ == old(store)@.remove(i);
                            lemma_index_of(old(store)@, l@, i);
                            assert forall|x: int, y: int|
                                0 <= x < final(store)@.len() && 0 <= y < final(store)@.len() && x != y
                                implies final(store)@[x].label != final(store)@[y].label by {
                                let xo = if x < i { x } else { x + 1 };
                                let yo = if y < i { y } else { y + 1 };
                                assert(final(store)@[x] == old(store)@[xo]);
                                assert(final(store)@[y] == old(store)@[yo]);
                            }
                        }
                    },
                    None => {},
                }
                (Page::Search(empty_page_input()), Action::Nothing)
            } else {
                (Page::View(AccountPage { mode: ViewMode::Browse, ..p }), Action::Nothing)
            }
        },
        ViewMode::Yanked => {
            if get_confirmation(key) {
                (Page::View(AccountPage { mode: ViewMode::Browse, ..p }), Action::ClearClipboard)
            } else {
                (Page::View(p), Action::Nothing)
            }
        },
    }
}

/// Whether `v` is the label of a stored account other than the one labelled `origin`.
fn label_is_taken(store: &AccountStore, origin: &Option<String>, v: &str) -> (r: bool)
    ensures
        r == label_taken(store@, match origin {
            Some(l) => Some(l@),
            None => None,
        }, v@),
{
    let held = store.position(v).is_some();
    match origin {
        Some(l) => held && !text_eq(l.as_str(), v),
        None => held,
    }
}

fn commit_edit(store: &AccountStore, p: &AccountPage, v: String) -> (r: Option<Account>)
    ensures
        opt_account(r) == edit_commit(store@, p@, v@),
{
    match p.field {
        AccountField::Label => {
            if v.as_str().is_empty() || label_is_taken(store, &p.origin, v.as_str()) {
                None
            } else {
                let mut a = p.account.clone();
                a.set_label(v);
                Some(a)
            }
        },
        AccountField::Username => {
            let mut a = p.account.clone();
            if v.as_str().is_empty() {
                a.set_username(None);
            } else {
                a.set_username(Some(v));
            }
            Some(a)
        },
        AccountField::Email => {
            let mut a = p.account.clone();
            if v.as_str().is_empty() {
                a.set_email(None);
            } else {
                a.set_email(Some(v));
            }
            Some(a)
        },
        AccountField::Password => {
            let mut a = p.account.clone();
            a.set_password(v);
            Some(a)
        },
    }
}

fn edit_step(store: &AccountStore, p: AccountPage, t: TextInput, key: KeyInput) -> (r: Page)
    requires
        store.wf(),
        account_page_wf(store@, p@),
        t.wf(),
    ensures
        r@ == edit_next(store@, p@, t@, key),
        page_wf(store@, r@),
{
    match key {
        KeyInput::Esc => Page::View(p),
        KeyInput::Enter => {
            let v = t.text();
            match commit_edit(store, &p, v) {
                Some(a) => {
                    let field = if has_field(&a, p.field) {
                        p.field
                    } else {
                        AccountField::Label
                    };
                    Page::View(AccountPage { account: a, origin: p.origin, field, mode: ViewMode::Browse })
                },
                None => Page::Edit(p, t),
            }
        },
        _ => {
            let mut t = t;
            t.apply(key);
            Page::Edit(p, t)
        },
    }
}

fn password_step(pass: &mut String, f: PasswordForm, key: KeyInput) -> (r: Page)
    requires
        f.input.wf(),
    ensures
        (final(pass)@, r@) == password_next(old(pass)@, f@, key),
        page_wf(Seq::empty(), r@),
{
    match key {
        KeyInput::Esc => Page::Home(PageOption::Search),
        KeyInput::Enter => match f.stage {
            PasswordStage::Old => {
                let entered = f.input.text();
                if text_eq(entered.as_str(), pass.as_str()) {
                    Page::ChangePassword(
                        PasswordForm {
                            stage: PasswordStage::New,
                            input: empty_page_input(),
                            old_entry: entered,
                            new_entry: String::new(),
                        },
                    )
                } else {
                    Page::Notice("Incorrect password!".to_string())
                }
            },
            PasswordStage::New => {
                let entered = f.input.text();
                Page::ChangePassword(
                    PasswordForm {
                        stage: PasswordStage::Confirm,
                        input: empty_page_input(),
                        old_entry: f.old_entry,
                        new_entry: entered,
                    },
                )
            },
            PasswordStage::Confirm => {
                let confirmed = f.input.text();
                match change_password(pass.as_str(), f.old_entry.as_str(), f.new_entry.as_str(), confirmed.as_str()) {
                    PasswordResult::NewPassword(p) => {
                        *pass = p;
                        Page::Home(PageOption::Search)
                    },
                    PasswordResult::Error(m) => Page::Notice(m),
                    PasswordResult::Cancelled => Page::Home(PageOption::Search),
                }
            },
        },
        _ => {
            let mut input = f.input;
            input.apply(key);
            Page::ChangePassword(PasswordForm { input, ..f })
        },
    }
}

/// A running session: the account store, the passphrase, and the current page.
#[derive(Debug)]
pub struct Session {
    store: AccountStore,
    passphrase: String,
    page: Page,
}

impl View for Session {
    type V = SessionView;

    closed spec fn view(&self) -> SessionView {
        SessionView { accounts: self.store@, passphrase: self.passphrase@, page: self.page@ }
    }
}

impl Session {
    /// The session's invariant (see [`session_wf`]).
    pub open spec fn wf(&self) -> bool {
        session_wf(self@)
    }

    /// A session on `store` and `passphrase`, starting on the home menu.
    pub fn new(store: AccountStore, passphrase: String) -> (r: Session)
        requires
            store.wf(),
        ensures
            r.wf(),
            r@ == (SessionView {
                accounts: store@,
                passphrase: passphrase@,
                page: PageView::Home(PageOption::Search),
            }),
    {
        Session { store, passphrase, page: Page::Home(PageOption::Search) }
    }

    /// The current page.
    pub fn page(&self) -> (r: &Page)
        ensures
            r@ == self@.page,
    {
        &self.page
    }

    /// The account store.
    pub fn store(&self) -> (r: &AccountStore)
        ensures
            r@ == self@.accounts,
    {
        &self.store
    }

    /// The current passphrase.
    pub fn passphrase(&self) -> (r: &String)
        ensures
            r@ == self@.passphrase,
    {
        &self.passphrase
    }

    /// Whether the session has ended.
    pub fn is_finished(&self) -> (r: bool)
        ensures
            r == (self@.page is Exit),
    {
        match self.page {
            Page::Exit => true,
            _ => false,
        }
    }

    /// The accounts that the search page lists: those that match its query, the whole
    /// store on any other page.
    pub fn search_results(&self) -> (r: Vec<Account>)
        ensures
            crate::account::account_views(r@) == match self@.page {
                PageView::Search(t) => filter_view(self@.accounts, t.text),
                _ => filter_view(self@.accounts, Seq::empty()),
            },
    {
        match &self.page {
            Page::Search(t) => {
                let q = t.text();
                self.store.filter(q.as_str())
            },
            _ => {
                let r = self.store.filter("");
                proof {
                    reveal_strlit("");
                    assert(""@ =~= Seq::<char>::empty());
                }
                r
            },
        }
    }

    /// Hands back what the session leaves: the accounts, in order, and the passphrase.
    pub fn finish(self) -> (r: (Vec<Account>, String))
        ensures
            crate::account::account_views(r.0@) == self@.accounts,
            r.1@ == self@.passphrase,
    {
        (self.store.into_accounts(), self.passphrase)
    }

    /// Handles one key press (see [`session_next`]) and returns what the caller must
    /// do with the clipboard.
    pub fn step(&mut self, key: KeyInput) -> (r: Action)
        requires
            old(self).wf(),
        ensures
            final(self).wf(),
            (final(self)@, r@) == session_next(old(self)@, key),
    {
        let mut page = Page::Exit;
        std::mem::swap(&mut page, &mut self.page);
        match page {
            Page::Home(sel) => {
                self.page = home_step(sel, key);
                Action::Nothing
            },
            Page::Help => {
                self.page = Page::Home(PageOption::Search);
                Action::Nothing
            },
            Page::Notice(_) => {
                self.page = Page::Home(PageOption::Search);
                Action::Nothing
            },
            Page::Exit => Action::Nothing,
            Page::Search(t) => {
                self.page = search_step(&self.store, t, key);
                Action::Nothing
            },
            Page::View(p) => {
                let (next, action) = view_step(&mut self.store, p, key);
                self.page = next;
                action
            },
            Page::Edit(p, t) => {
                self.page = edit_step(&self.store, p, t, key);
                Action::Nothing
            },
            Page::ChangePassword(f) => {
                self.page = password_step(&mut self.passphrase, f, key);
                Action::Nothing
            },
        }
    }
}

/// The passphrase changes only at the last prompt of a change of passphrase, after
/// the old passphrase was entered correctly and the new one twice alike; it becomes
/// the new one, and the accounts stay as they were.
pub proof fn lemma_passphrase_change(s: SessionView, key: KeyInput)
    ensures
        session_next(s, key).0.passphrase != s.passphrase ==> (s.page matches PageView::ChangePassword(f)
            && f.stage == PasswordStage::Confirm && key == KeyInput::Enter && f.old_entry == s.passphrase
            && f.input.text == f.new_entry && session_next(s, key).0.passphrase == f.new_entry
            && session_next(s, key).0.accounts == s.accounts),
        s.page is ChangePassword ==> session_next(s, key).0.accounts == s.accounts,
{
}

/// Deleting the account on the account page removes exactly that account from the
/// store; afterwards no account has its label and no search finds it.
pub proof fn lemma_delete_account(s: SessionView, key: KeyInput, query: Seq<char>)
    requires
        session_wf(s),
        s.page matches PageView::View(p) && p.mode == ViewMode::ConfirmDelete && p.origin is Some,
        confirms(key),
    ensures
        ({
            let p = s.page->View_0;
            let l = p.origin->0;
            let after = session_next(s, key).0.accounts;
            &&& exists|i: int| 0 <= i < s.accounts.len() && s.accounts[i].label == l && after == s.accounts.remove(i)
            &&& !has_label(after, l)
            &&& forall|j: int| 0 <= j < filter_view(after, query).len() ==> #[trigger] filter_view(after, query)[j].label != l
        }),
{
    let p = s.page->View_0;
    let l = p.origin->0;
    let i = index_of(s.accounts, l);
    assert(0 <= i < s.accounts.len() && s.accounts[i].label == l);
    let after = s.accounts.remove(i);
    assert(session_next(s, key).0.accounts == after);
    assert forall|j: int| 0 <= j < after.len() implies #[trigger] after[j].label != l by {
        if j < i {
            assert(after[j] == s.accounts[j]);
        } else {
            assert(after[j] == s.accounts[j + 1]);
        }
    }
    let pred = |a: AccountView| crate::store::matches_query(query, a.label);
    assert forall|j: int| 0 <= j < filter_view(after, query).len() implies #[trigger] filter_view(after, query)[j].label != l by {
        let x = filter_view(after, query)[j];
        assert(after.filter(pred).contains(x));
        after.lemma_filter_contains_rev(pred, x);
    }
}

} // verus!
