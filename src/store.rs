//! The in-memory collection of accounts, kept in insertion order, with unique labels.

use vstd::prelude::*;
use crate::account::{account_views, Account, AccountView};
use crate::lines::{contains_char, text_eq};

verus! {

/// No two accounts share a label.
pub open spec fn labels_unique(s: Seq<AccountView>) -> bool {
    forall|i: int, j: int| 0 <= i < s.len() && 0 <= j < s.len() && i != j ==> s[i].label != s[j].label
}

/// Some account has the label `l`.
pub open spec fn has_label(s: Seq<AccountView>, l: Seq<char>) -> bool {
    exists|i: int| 0 <= i < s.len() && #[trigger] s[i].label == l
}

/// A label matches a query when every character of the query occurs somewhere in
/// the label, in any order and at any place.
pub open spec fn matches_query(query: Seq<char>, label: Seq<char>) -> bool {
    forall|i: int| 0 <= i < query.len() ==> label.contains(#[trigger] query[i])
}

/// The accounts of `s` whose labels match `query`, in their order.
pub open spec fn filter_view(s: Seq<AccountView>, query: Seq<char>) -> Seq<AccountView> {
    s.filter(|a: AccountView| matches_query(query, a.label))
}

/// Whether some account of `accounts` has the label `new_label`.
pub fn account_with_label(accounts: &[Account], new_label: &str) -> (r: bool)
    ensures
        r == has_label(account_views(accounts@), new_label@),
{
    let ghost av = account_views(accounts@);
    for i in 0..accounts.len()
        invariant
            av == account_views(accounts@),
            forall|j: int| 0 <= j < i ==> av[j].label != new_label@,
    {
        if accounts[i].has_label(new_label) {
            assert(av[i as int].label == new_label@);
            return true;
        }
    }
    false
}

/// Whether `label` matches `query` (see [`matches_query`]).
pub fn label_matches(query: &str, label: &str) -> (r: bool)
    ensures
        r == matches_query(query@, label@),
{
    for c in it: query.chars()
        invariant
            it.seq() == query@,
            forall|i: int| 0 <= i < it.index() ==> label@.contains(#[trigger] query@[i]),
    {
        if !contains_char(label, c) {
            return false;
        }
    }
    true
}

/// Adding an account to a store whose label is taken.
#[derive(Debug, PartialEq, Eq, Structural)]
pub struct DuplicateLabel;

/// Why an account could not be replaced.
#[derive(Debug, PartialEq, Eq, Structural)]
pub enum UpdateError {
    /// No account has the label to replace.
    NotFound,
    /// The new label belongs to another account.
    DuplicateLabel,
}

/// The accounts of a vault, in insertion order; no two share a label.
#[derive(Debug)]
pub struct AccountStore {
    accounts: Vec<Account>,
}

impl View for AccountStore {
    type V = Seq<AccountView>;

    closed spec fn view(&self) -> Seq<AccountView> {
        account_views(self.accounts@)
    }
}

impl AccountStore {
    /// The store's invariant: labels are unique.
    pub open spec fn wf(&self) -> bool {
        labels_unique(self@)
    }

    /// An empty store.
    pub fn new() -> (r: AccountStore)
        ensures
            r.wf(),
            r@ == Seq::<AccountView>::empty(),
    {
        let r = AccountStore { accounts: Vec::new() };
        assert(r@ =~= Seq::<AccountView>::empty());
        r
    }

    /// A store holding `accounts`, in order; an error where two share a label.
    pub fn from_accounts(accounts: Vec<Account>) -> (r: Result<AccountStore, DuplicateLabel>)
        ensures
            r is Ok <==> labels_unique(account_views(accounts@)),
            r matches Ok(s) ==> s.wf() && s@ == account_views(accounts@),
    {
        let mut store = AccountStore::new();
        let ghost av = account_views(accounts@);
        for i in 0..accounts.len()
            invariant
                av == account_views(accounts@),
                store.wf(),
                store@ == av.take(i as int),
        {
            let a = accounts[i].clone();
            assert(a@ == av[i as int]);
            match store.add(a) {
                Ok(()) => {
                    assert(av.take(i + 1) =~= av.take(i as int).push(av[i as int]));
                },
                Err(e) => {
                    proof {
                        let k = choose|k: int| 0 <= k < i && #[trigger] av.take(i as int)[k].label == av[i as int].label;
                        assert(av[k].label == av[i as int].label);
                        assert(!labels_unique(av));
                    }
                    return Err(e);
                },
            }
        }
        assert(av.take(av.len() as int) =~= av);
        Ok(store)
    }

    /// The accounts, in order.
    pub fn accounts(&self) -> (r: &Vec<Account>)
        ensures
            account_views(r@) == self@,
    {
        &self.accounts
    }

    /// The number of accounts.
    pub fn len(&self) -> (r: usize)
        ensures
            r == self@.len(),
    {
        self.accounts.len()
    }

    /// The position of the account labelled `label`, if there is one.
    pub fn position(&self, label: &str) -> (r: Option<usize>)
        ensures
            r matches Some(i) ==> i < self@.len() && self@[i as int].label == label@,
            r is None <==> !has_label(self@, label@),
    {
        let ghost av = self@;
        for i in 0..self.accounts.len()
            invariant
                av == self@,
                av == account_views(self.accounts@),
                forall|j: int| 0 <= j < i ==> av[j].label != label@,
        {
            if self.accounts[i].has_label(label) {
                return Some(i);
            }
        }
        None
    }

    /// The account labelled `label`, if there is one.
    pub fn find(&self, label: &str) -> (r: Option<&Account>)
        ensures
            r matches Some(a) ==> a@.label == label@ && self@.contains(a@),
            r is None <==> !has_label(self@, label@),
    {
        match self.position(label) {
            Some(i) => {
                assert(self@[i as int] == self.accounts@[i as int]@);
                Some(&self.accounts[i])
            },
            None => None,
        }
    }

    /// Adds an account at the end; refused, with the store unchanged, where its label
    /// is taken.
    pub fn add(&mut self, account: Account) -> (r: Result<(), DuplicateLabel>)
        requires
            old(self).wf(),
        ensures
            final(self).wf(),
            r is Err <==> has_label(old(self)@, account@.label),
            r is Err ==> final(self)@ == old(self)@,
            r is Ok ==> final(self)@ == old(self)@.push(account@),
    {
        let l = account.label();
        if account_with_label(self.accounts.as_slice(), l.as_str()) {
            return Err(DuplicateLabel);
        }
        self.accounts.push(account);
        assert(self@ =~= old(self)@.push(account@));
        Ok(())
    }

    /// Replaces the account labelled `old_label` with `account`, in place. Refused,
    /// with the store unchanged, where no account has `old_label` or where the new
    /// label belongs to a different account.
    pub fn update(&mut self, old_label: &str, account: Account) -> (r: Result<(), UpdateError>)
        requires
            old(self).wf(),
        ensures
            final(self).wf(),
            r is Ok <==> has_label(old(self)@, old_label@) && (account@.label == old_label@ || !has_label(
                old(self)@,
                account@.label,
            )),
            r == Err::<(), UpdateError>(UpdateError::NotFound) <==> !has_label(old(self)@, old_label@),
            r == Err::<(), UpdateError>(UpdateError::DuplicateLabel) <==> has_label(old(self)@, old_label@)
                && account@.label != old_label@ && has_label(old(self)@, account@.label),
            r is Err ==> final(self)@ == old(self)@,
            r is Ok ==> exists|i: int|
                0 <= i < old(self)@.len() && old(self)@[i].label == old_label@
                    && final(self)@ == old(self)@.update(i, account@),
    {
        let i = match self.position(old_label) {
            Some(i) => i,
            None => return Err(UpdateError::NotFound),
        };
        let l = account.label();
        if !text_eq(l.as_str(), old_label) && account_with_label(self.accounts.as_slice(), l.as_str()) {
            return Err(UpdateError::DuplicateLabel);
        }
        let ghost before = self@;
        self.accounts.set(i, account);
        proof {
            assert(self@ =~= before.update(i as int, account@));
            assert forall|a: int, b: int|
                0 <= a < self@.len() && 0 <= b < self@.len() && a != b implies self@[a].label != self@[b].label by {
                if a == i {
                    if account@.label == old_label@ {
                        assert(before[i as int].label == old_label@);
                    } else {
                        assert(before[b].label != account@.label);
                    }
                } else if b == i {
                    if account@.label == old_label@ {
                        assert(before[i as int].label == old_label@);
                    } else {
                        assert(before[a].label != account@.label);
                    }
                }
            }
        }
        Ok(())
    }

    /// Removes the account labelled `label` and returns it; `None`, with the store
    /// unchanged, where there is none.
    pub fn remove(&mut self, label: &str) -> (r: Option<Account>)
        requires
            old(self).wf(),
        ensures
            final(self).wf(),
            r is None <==> !has_label(old(self)@, label@),
            r is None ==> final(self)@ == old(self)@,
            r matches Some(a) ==> a@.label == label@ && exists|i: int|
                0 <= i < old(self)@.len() && old(self)@[i] == a@
                    && final(self)@ == old(self)@.remove(i),
            !has_label(final(self)@, label@),
    {
        match self.position(label) {
            Some(i) => {
                let ghost before = self@;
                let a = self.accounts.remove(i);
                proof {
                    assert(self@ =~= before.remove(i as int));
                    assert forall|j: int| 0 <= j < self@.len() implies #[trigger] self@[j].label != label@ by {
                        if j < i {
                            assert(self@[j] == before[j]);
                        } else {
                            assert(self@[j] == before[j + 1]);
                        }
                    }
                }
                Some(a)
            },
            None => None,
        }
    }

    /// The accounts whose labels match `query` (see [`matches_query`]), in order. An
    /// empty query matches every account.
    pub fn filter(&self, query: &str) -> (r: Vec<Account>)
        ensures
            account_views(r@) == filter_view(self@, query@),
    {
        let ghost av = self@;
        let ghost pred = |a: AccountView| matches_query(query@, a.label);
        let mut r: Vec<Account> = Vec::new();
        proof {
            reveal(Seq::filter);
            assert(account_views(r@) =~= av.take(0).filter(pred));
        }
        for i in 0..self.accounts.len()
            invariant
                av == self@,
                av == account_views(self.accounts@),
                pred == (|a: AccountView| matches_query(query@, a.label)),
                account_views(r@) == av.take(i as int).filter(pred),
        {
            let ghost prefix = av.take(i + 1);
            proof {
                reveal(Seq::filter);
                assert(prefix.drop_last() =~= av.take(i as int));
                assert(prefix.last() == av[i as int]);
            }
            let l = self.accounts[i].label();
            if label_matches(query, l.as_str()) {
                let a = self.accounts[i].clone();
                r.push(a);
                assert(pred(av[i as int]));
                assert(account_views(r@) =~= av.take(i as int).filter(pred).push(av[i as int]));
            } else {
                assert(!pred(av[i as int]));
                assert(prefix.filter(pred) == av.take(i as int).filter(pred));
            }
        }
        assert(av.take(av.len() as int) =~= av);
        r
    }

    /// The accounts, taken out of the store.
    pub fn into_accounts(self) -> (r: Vec<Account>)
        ensures
            account_views(r@) == self@,
    {
        self.accounts
    }
}

} // verus!
