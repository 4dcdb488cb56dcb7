//! Accounts held by the password manager while it runs.

use vstd::prelude::*;
use crate::cipher::{ciphertext_of, is_base64_char, plaintext_of, Key};
use crate::lines::{
    all_newline_free, lemma_lines_of_cons, lemma_lines_of_single, lines_of, newline_free,
    split_lines, text_eq, views,
};

verus! {

/// The mathematical value of an [`Account`]: its four fields as character sequences.
pub struct AccountView {
    pub label: Seq<char>,
    pub username: Option<Seq<char>>,
    pub email: Option<Seq<char>>,
    pub password: Seq<char>,
}

/// The characters of an optional text, if it is present.
pub open spec fn opt_text(o: Option<String>) -> Option<Seq<char>> {
    match o {
        Some(s) => Some(s@),
        None => None,
    }
}

/// The views of a run of accounts.
pub open spec fn account_views(v: Seq<Account>) -> Seq<AccountView> {
    v.map_values(|a: Account| a@)
}

/// The views of an optional account.
pub open spec fn opt_account(o: Option<Account>) -> Option<AccountView> {
    match o {
        Some(a) => Some(a@),
        None => None,
    }
}

/// The line that stores an optional field: empty where it is absent.
pub open spec fn opt_line(key: Seq<char>, o: Option<Seq<char>>) -> Seq<char> {
    match o {
        Some(t) => ciphertext_of(key, t),
        None => Seq::empty(),
    }
}

/// The four stored lines of an account: label, username, email, password, each
/// encrypted on its own.
pub open spec fn account_lines(key: Seq<char>, a: AccountView) -> Seq<Seq<char>> {
    seq![
        ciphertext_of(key, a.label),
        opt_line(key, a.username),
        opt_line(key, a.email),
        ciphertext_of(key, a.password),
    ]
}

/// The four lines of an account joined by line breaks, with none after the last.
pub open spec fn account_text(key: Seq<char>, a: AccountView) -> Seq<char> {
    let ls = account_lines(key, a);
    ls[0] + seq!['\n'] + ls[1] + seq!['\n'] + ls[2] + seq!['\n'] + ls[3]
}

/// An optional field read from its line: an empty line is an absent field.
pub open spec fn line_field(l: Seq<char>) -> Option<Seq<char>> {
    if l.len() == 0 {
        None
    } else {
        Some(l)
    }
}

/// Four stored lines read as the still encrypted fields of an account.
pub open spec fn block_view(ls: Seq<Seq<char>>) -> AccountView {
    AccountView {
        label: ls[0],
        username: line_field(ls[1]),
        email: line_field(ls[2]),
        password: ls[3],
    }
}

/// Decrypts an optional field; `None` where a present field fails to decrypt.
pub open spec fn decrypt_opt(key: Seq<char>, o: Option<Seq<char>>) -> Option<Option<Seq<char>>> {
    match o {
        None => Some(None),
        Some(t) => match plaintext_of(key, t) {
            Some(p) => Some(Some(p)),
            None => None,
        },
    }
}

/// Decrypts every present field of `a`; `None` where any of them fails.
pub open spec fn decrypt_fields(key: Seq<char>, a: AccountView) -> Option<AccountView> {
    match (
        plaintext_of(key, a.label),
        decrypt_opt(key, a.username),
        decrypt_opt(key, a.email),
        plaintext_of(key, a.password),
    ) {
        (Some(l), Some(u), Some(e), Some(p)) => Some(
            AccountView { label: l, username: u, email: e, password: p },
        ),
        _ => None,
    }
}

/// The account that four stored lines hold, `None` where a field fails to decrypt.
pub open spec fn decode_block(key: Seq<char>, ls: Seq<Seq<char>>) -> Option<AccountView> {
    decrypt_fields(key, block_view(ls))
}

/// The account that a stored text of exactly four lines holds.
pub open spec fn decode_account_text(key: Seq<char>, t: Seq<char>) -> Option<AccountView> {
    let ls = lines_of(t);
    if ls.len() == 4 {
        decode_block(key, ls)
    } else {
        None
    }
}

/// Encrypts an optional field to its line: an empty line where it is absent.
fn encrypt_opt(key: &Key, o: &Option<String>) -> (r: String)
    ensures
        r@ == opt_line(key@, opt_text(*o)),
        newline_free(r@),
        o is Some ==> r@.len() > 0,
        decrypt_opt(key@, line_field(r@)) == Some(opt_text(*o)),
{
    match o {
        Some(t) => {
            let r = key.encrypt(t.as_str());
            assert(newline_free(r@)) by {
                assert forall|i: int| 0 <= i < r@.len() implies r@[i] != '\n' by {
                    assert(is_base64_char(r@[i]));
                }
            }
            r
        },
        None => String::new(),
    }
}

/// Encrypts a field, the label or the password, to its line.
fn encrypt_field(key: &Key, t: &String) -> (r: String)
    ensures
        r@ == ciphertext_of(key@, t@),
        newline_free(r@),
        r@.len() > 0,
        plaintext_of(key@, r@) == Some(t@),
{
    let r = key.encrypt(t.as_str());
    assert(newline_free(r@)) by {
        assert forall|i: int| 0 <= i < r@.len() implies r@[i] != '\n' by {
            assert(is_base64_char(r@[i]));
        }
    }
    r
}

/// Copies an optional text.
pub fn clone_opt(o: &Option<String>) -> (r: Option<String>)
    ensures
        opt_text(r) == opt_text(*o),
{
    match o {
        Some(s) => Some(s.clone()),
        None => None,
    }
}

/// The details of one account stored in the password manager.
#[derive(Debug, PartialEq, Eq)]
pub struct Account {
    label: String,
    username: Option<String>,
    email: Option<String>,
    password: String,
}

impl View for Account {
    type V = AccountView;

    closed spec fn view(&self) -> AccountView {
        AccountView {
            label: self.label@,
            username: opt_text(self.username),
            email: opt_text(self.email),
            password: self.password@,
        }
    }
}

impl Clone for Account {
    fn clone(&self) -> (r: Self)
        ensures
            r@ == self@,
    {
        Account {
            label: self.label.clone(),
            username: clone_opt(&self.username),
            email: clone_opt(&self.email),
            password: self.password.clone(),
        }
    }
}

impl Account {
    /// Returns an `AccountBuilder` to build an account.
    pub fn builder() -> (r: AccountBuilder)
        ensures
            r@ == AccountBuilder::empty_view(),
    {
        AccountBuilder::new()
    }

    /// Makes an account from its four fields.
    pub fn new(label: String, username: Option<String>, email: Option<String>, password: String) -> (r: Account)
        ensures
            r@ == (AccountView {
                label: label@,
                username: opt_text(username),
                email: opt_text(email),
                password: password@,
            }),
    {
        Account { label, username, email, password }
    }

    /// Encrypts the account to its four stored lines, joined by line breaks: label,
    /// username (empty if absent), email (empty if absent), password. Decoding that
    /// text with the same key gives the account back.
    pub fn encrypt(&self, key: &Key) -> (r: String)
        ensures
            r@ == account_text(key@, self@),
            all_newline_free(account_lines(key@, self@)),
            decode_block(key@, account_lines(key@, self@)) == Some(self@),
            decode_account_text(key@, r@) == Some(self@),
    {
        let label = encrypt_field(key, &self.label);
        let username = encrypt_opt(key, &self.username);
        let email = encrypt_opt(key, &self.email);
        let password = encrypt_field(key, &self.password);
        let ghost ls = account_lines(key@, self@);
        proof {
            assert(ls[0] == label@ && ls[1] == username@ && ls[2] == email@ && ls[3] == password@);
            assert(block_view(ls).username == line_field(username@));
            assert(block_view(ls).email == line_field(email@));
            assert(decode_block(key@, ls) == Some(self@));
            assert(all_newline_free(ls));
        }
        let mut r = label;
        r.append("\n");
        r.append(username.as_str());
        r.append("\n");
        r.append(email.as_str());
        r.append("\n");
        r.append(password.as_str());
        proof {
            reveal_strlit("\n");
            let nl = seq!['\n'];
            assert(r@ =~= account_text(key@, self@));
            lemma_lines_of_single(ls[3]);
            lemma_lines_of_cons(ls[2], ls[3]);
            lemma_lines_of_cons(ls[1], ls[2] + nl + ls[3]);
            lemma_lines_of_cons(ls[0], ls[1] + nl + ls[2] + nl + ls[3]);
            assert(r@ =~= ls[0] + nl + (ls[1] + nl + (ls[2] + nl + ls[3])));
            assert(ls[1] + nl + ls[2] + nl + ls[3] =~= ls[1] + nl + (ls[2] + nl + ls[3]));
            assert(lines_of(r@) =~= ls);
        }
        r
    }

    /// Whether the account's label is `l`.
    pub fn has_label(&self, l: &str) -> (r: bool)
        ensures
            r == (self@.label == l@),
    {
        text_eq(self.label.as_str(), l)
    }

    /// Returns a copy of the account's label.
    pub fn label(&self) -> (r: String)
        ensures
            r@ == self@.label,
    {
        self.label.clone()
    }

    /// Sets the account's label to `new_label`.
    pub fn set_label(&mut self, new_label: String)
        ensures
            final(self)@ == (AccountView { label: new_label@, ..old(self)@ }),
    {
        self.label = new_label;
    }

    /// Returns a copy of the account's email, `None` if it has none.
    pub fn email(&self) -> (r: Option<String>)
        ensures
            opt_text(r) == self@.email,
    {
        clone_opt(&self.email)
    }

    /// Sets the account's email to `new_email`.
    pub fn set_email(&mut self, new_email: Option<String>)
        ensures
            final(self)@ == (AccountView { email: opt_text(new_email), ..old(self)@ }),
    {
        self.email = new_email;
    }

    /// Returns a copy of the account's username, `None` if it has none.
    pub fn username(&self) -> (r: Option<String>)
        ensures
            opt_text(r) == self@.username,
    {
        clone_opt(&self.username)
    }

    /// Sets the account's username to `new_username`.
    pub fn set_username(&mut self, new_username: Option<String>)
        ensures
            final(self)@ == (AccountView { username: opt_text(new_username), ..old(self)@ }),
    {
        self.username = new_username;
    }

    /// Returns a copy of the account's password.
    pub fn password(&self) -> (r: String)
        ensures
            r@ == self@.password,
    {
        self.password.clone()
    }

    /// Sets the account's password to `new_password`.
    pub fn set_password(&mut self, new_password: String)
        ensures
            final(self)@ == (AccountView { password: new_password@, ..old(self)@ }),
    {
        self.password = new_password;
    }
}

/// A builder for an [`Account`]. Every field starts empty, the optional ones absent.
pub struct AccountBuilder {
    label: String,
    username: Option<String>,
    email: Option<String>,
    password: String,
}

impl View for AccountBuilder {
    type V = AccountView;

    closed spec fn view(&self) -> AccountView {
        AccountView {
            label: self.label@,
            username: opt_text(self.username),
            email: opt_text(self.email),
            password: self.password@,
        }
    }
}

impl AccountBuilder {
    /// What a new builder holds: empty label and password, no username or email.
    pub open spec fn empty_view() -> AccountView {
        AccountView { label: Seq::empty(), username: None, email: None, password: Seq::empty() }
    }

    /// Creates a builder with an empty label and password and no username or email.
    pub fn new() -> (r: Self)
        ensures
            r@ == Self::empty_view(),
    {
        AccountBuilder { label: String::new(), username: None, email: None, password: String::new() }
    }

    /// Builds the account that the builder describes.
    pub fn build(&self) -> (r: Account)
        ensures
            r@ == self@,
    {
        Account {
            label: self.label.clone(),
            username: clone_opt(&self.username),
            email: clone_opt(&self.email),
            password: self.password.clone(),
        }
    }

    /// Builds the account by decrypting every present field with `key`: the builder
    /// holds the stored lines. `None` where any present field fails to decrypt.
    pub fn decrypt(self, key: &Key) -> (r: Option<Account>)
        ensures
            opt_account(r) == decrypt_fields(key@, self@),
    {
        let label = match key.decrypt(self.label.as_str()) {
            Some(l) => l,
            None => return None,
        };
        let username = match &self.username {
            Some(t) => match key.decrypt(t.as_str()) {
                Some(u) => Some(u),
                None => return None,
            },
            None => None,
        };
        let email = match &self.email {
            Some(t) => match key.decrypt(t.as_str()) {
                Some(e) => Some(e),
                None => return None,
            },
            None => None,
        };
        let password = match key.decrypt(self.password.as_str()) {
            Some(p) => p,
            None => return None,
        };
        Some(Account { label, username, email, password })
    }

    /// Sets the password of the account.
    pub fn password(self, password: &str) -> (r: Self)
        ensures
            r@ == (AccountView { password: password@, ..self@ }),
    {
        AccountBuilder { password: password.to_string(), ..self }
    }

    /// Sets the label of the account.
    pub fn label(self, label: &str) -> (r: Self)
        ensures
            r@ == (AccountView { label: label@, ..self@ }),
    {
        AccountBuilder { label: label.to_string(), ..self }
    }

    /// Sets the email of the account.
    pub fn email(self, email: &str) -> (r: Self)
        ensures
            r@ == (AccountView { email: Some(email@), ..self@ }),
    {
        AccountBuilder { email: Some(email.to_string()), ..self }
    }

    /// Sets the username of the account.
    pub fn username(self, username: &str) -> (r: Self)
        ensures
            r@ == (AccountView { username: Some(username@), ..self@ }),
    {
        AccountBuilder { username: Some(username.to_string()), ..self }
    }
}

impl Default for AccountBuilder {
    fn default() -> (r: Self)
        ensures
            r@ == Self::empty_view(),
    {
        Self::new()
    }
}

/// Decodes one account from its stored text of four lines, as
/// [`Account::encrypt`] writes it. `None` where the text does not hold exactly four
/// lines or a present field fails to decrypt.
pub fn decode_account(key: &Key, text: &str) -> (r: Option<Account>)
    ensures
        opt_account(r) == decode_account_text(key@, text@),
{
    let lines = split_lines(text);
    if lines.len() != 4 {
        return None;
    }
    proof {
        assert(views(lines@)[0] == lines@[0]@);
        assert(views(lines@)[1] == lines@[1]@);
        assert(views(lines@)[2] == lines@[2]@);
        assert(views(lines@)[3] == lines@[3]@);
    }
    builder_for_block(&lines, 0).decrypt(key)
}

/// A builder holding the four stored lines of `lines` that start at `at`.
pub fn builder_for_block(lines: &Vec<String>, at: usize) -> (r: AccountBuilder)
    requires
        at + 4 <= lines.len(),
    ensures
        r@ == block_view(views(lines@).subrange(at as int, at + 4)),
{
    let mut b = AccountBuilder::new().label(lines[at].as_str());
    if !lines[at + 1].as_str().is_empty() {
        b = b.username(lines[at + 1].as_str());
    }
    if !lines[at + 2].as_str().is_empty() {
        b = b.email(lines[at + 2].as_str());
    }
    b = b.password(lines[at + 3].as_str());
    b
}

} // verus!
