//! The pages of the home menu and the fields of an account, each cycled through in a
//! fixed order.

use vstd::prelude::*;
use crate::account::{Account, AccountView};

verus! {

/// The pages that the home menu offers, in menu order.
#[derive(Clone, Copy, Debug, PartialEq, Eq, Structural)]
pub enum PageOption {
    Search,
    ChangePassword,
    Help,
    Exit,
}

impl PageOption {
    /// The option's place in the menu.
    pub open spec fn index(self) -> int {
        match self {
            PageOption::Search => 0,
            PageOption::ChangePassword => 1,
            PageOption::Help => 2,
            PageOption::Exit => 3,
        }
    }

    /// The option at place `i` of the menu.
    pub open spec fn at(i: int) -> PageOption {
        if i == 0 {
            PageOption::Search
        } else if i == 1 {
            PageOption::ChangePassword
        } else if i == 2 {
            PageOption::Help
        } else {
            PageOption::Exit
        }
    }

    /// The option below this one, wrapping round to the top.
    pub fn next(&self) -> (r: Self)
        ensures
            r == PageOption::at((self.index() + 1) % 4),
    {
        match self {
            PageOption::Search => PageOption::ChangePassword,
            PageOption::ChangePassword => PageOption::Help,
            PageOption::Help => PageOption::Exit,
            PageOption::Exit => PageOption::Search,
        }
    }

    /// The option above this one, wrapping round to the bottom.
    pub fn prev(&self) -> (r: Self)
        ensures
            r == PageOption::at((self.index() + 3) % 4),
    {
        match self {
            PageOption::Search => PageOption::Exit,
            PageOption::ChangePassword => PageOption::Search,
            PageOption::Help => PageOption::ChangePassword,
            PageOption::Exit => PageOption::Help,
        }
    }
}

/// The fields of an account, in display order.
#[derive(Clone, Copy, Debug, PartialEq, Eq, Structural)]
pub enum AccountField {
    Label,
    Username,
    Email,
    Password,
}

impl AccountField {
    /// The field's place in display order.
    pub open spec fn index(self) -> int {
        match self {
            AccountField::Label => 0,
            AccountField::Username => 1,
            AccountField::Email => 2,
            AccountField::Password => 3,
        }
    }

    /// The field at place `i` of display order.
    pub open spec fn at(i: int) -> AccountField {
        if i == 0 {
            AccountField::Label
        } else if i == 1 {
            AccountField::Username
        } else if i == 2 {
            AccountField::Email
        } else {
            AccountField::Password
        }
    }

    /// The field after this one, wrapping round to the first.
    pub fn next(&self) -> (r: AccountField)
        ensures
            r == AccountField::at((self.index() + 1) % 4),
    {
        match self {
            AccountField::Label => AccountField::Username,
            AccountField::Username => AccountField::Email,
            AccountField::Email => AccountField::Password,
            AccountField::Password => AccountField::Label,
        }
    }

    /// The field before this one, wrapping round to the last.
    pub fn prev(&self) -> (r: AccountField)
        ensures
            r == AccountField::at((self.index() + 3) % 4),
    {
        match self {
            AccountField::Label => AccountField::Password,
            AccountField::Username => AccountField::Label,
            AccountField::Email => AccountField::Username,
            AccountField::Password => AccountField::Email,
        }
    }
}

/// Whether account `a` has field `f`: the label and password always, the username
/// and email where present.
pub open spec fn field_present(a: AccountView, f: AccountField) -> bool {
    match f {
        AccountField::Username => a.username is Some,
        AccountField::Email => a.email is Some,
        _ => true,
    }
}

/// The text of field `f` of account `a`; empty for an absent field.
pub open spec fn field_text(a: AccountView, f: AccountField) -> Seq<char> {
    match f {
        AccountField::Label => a.label,
        AccountField::Username => match a.username {
            Some(u) => u,
            None => Seq::empty(),
        },
        AccountField::Email => match a.email {
            Some(e) => e,
            None => Seq::empty(),
        },
        AccountField::Password => a.password,
    }
}

/// The first field of `a` after `f`, in cyclic display order, that `a` has.
pub open spec fn next_present(a: AccountView, f: AccountField) -> AccountField {
    let f1 = AccountField::at((f.index() + 1) % 4);
    let f2 = AccountField::at((f1.index() + 1) % 4);
    if field_present(a, f1) {
        f1
    } else if field_present(a, f2) {
        f2
    } else {
        AccountField::at((f2.index() + 1) % 4)
    }
}

/// The first field of `a` before `f`, in cyclic display order, that `a` has.
pub open spec fn prev_present(a: AccountView, f: AccountField) -> AccountField {
    let f1 = AccountField::at((f.index() + 3) % 4);
    let f2 = AccountField::at((f1.index() + 3) % 4);
    if field_present(a, f1) {
        f1
    } else if field_present(a, f2) {
        f2
    } else {
        AccountField::at((f2.index() + 3) % 4)
    }
}

/// Whether `account` has field `f`.
pub fn has_field(account: &Account, f: AccountField) -> (r: bool)
    ensures
        r == field_present(account@, f),
{
    match f {
        AccountField::Username => account.username().is_some(),
        AccountField::Email => account.email().is_some(),
        _ => true,
    }
}

/// The text of field `f` of `account`; empty for an absent field.
pub fn field_value(account: &Account, f: AccountField) -> (r: String)
    ensures
        r@ == field_text(account@, f),
{
    match f {
        AccountField::Label => account.label(),
        AccountField::Username => match account.username() {
            Some(u) => u,
            None => String::new(),
        },
        AccountField::Email => match account.email() {
            Some(e) => e,
            None => String::new(),
        },
        AccountField::Password => account.password(),
    }
}

/// The next field of `account` after `f` that it has, skipping absent ones.
pub fn next_field(account: &Account, f: AccountField) -> (r: AccountField)
    ensures
        r == next_present(account@, f),
        field_present(account@, r),
{
    let f1 = f.next();
    if has_field(account, f1) {
        return f1;
    }
    let f2 = f1.next();
    if has_field(account, f2) {
        return f2;
    }
    f2.next()
}

/// The previous field of `account` before `f` that it has, skipping absent ones.
pub fn prev_field(account: &Account, f: AccountField) -> (r: AccountField)
    ensures
        r == prev_present(account@, f),
        field_present(account@, r),
{
    let f1 = f.prev();
    if has_field(account, f1) {
        return f1;
    }
    let f2 = f1.prev();
    if has_field(account, f2) {
        return f2;
    }
    f2.prev()
}

} // verus!
