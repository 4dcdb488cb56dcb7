//! The vault file: its encoding to text and its decoding back to accounts.
//!
//! # File format
//!
//! 1. the passphrase, encrypted (the check line)
//! 2. first account's label
//! 3. first account's username (an empty line if it has none)
//! 4. first account's email (an empty line if it has none)
//! 5. first account's password
//! 6. second account's label, and so on.
//!
//! Each field is encrypted on its own; every line, the last too, ends in `'\n'`.

use vstd::prelude::*;
use crate::account::{
    account_lines, account_text, account_views, builder_for_block, decode_block, opt_account,
    Account, AccountView,
};
use crate::cipher::{ciphertext_of, is_base64_char, plaintext_of, Key};
use crate::lines::{
    all_newline_free, join_lines, lemma_join_append, lemma_lines_of_join, lines_of, newline_free,
    split_lines, views,
};

verus! {

/// What a vault text holds for a passphrase.
pub enum VaultOutcome {
    /// The check line is missing or does not decrypt to the passphrase.
    WrongPassword,
    /// The passphrase matches, but the account lines do not come in fours or a
    /// field fails to decrypt.
    Malformed,
    /// The passphrase matches and these are the accounts, in order.
    Accounts(Seq<AccountView>),
}

/// The result of decoding a vault.
#[derive(Debug)]
pub enum DeserialisationResult {
    /// The passphrase does not open the vault; no account was decoded.
    WrongPassword,
    /// The passphrase opens the vault, but its accounts are corrupt.
    Malformed,
    /// The accounts of the vault, in their stored order.
    Accounts(Vec<Account>),
}

impl DeserialisationResult {
    /// The outcome that this result stands for.
    pub open spec fn outcome(&self) -> VaultOutcome {
        match self {
            DeserialisationResult::WrongPassword => VaultOutcome::WrongPassword,
            DeserialisationResult::Malformed => VaultOutcome::Malformed,
            DeserialisationResult::Accounts(v) => VaultOutcome::Accounts(account_views(v@)),
        }
    }
}

/// The stored lines of a run of accounts, four per account, in order.
pub open spec fn accounts_lines(key: Seq<char>, accs: Seq<AccountView>) -> Seq<Seq<char>>
    decreases accs.len(),
{
    if accs.len() == 0 {
        Seq::empty()
    } else {
        account_lines(key, accs[0]) + accounts_lines(key, accs.drop_first())
    }
}

/// The lines of a vault: the encrypted passphrase, then the accounts' lines.
pub open spec fn vault_lines(key: Seq<char>, passphrase: Seq<char>, accs: Seq<AccountView>) -> Seq<Seq<char>> {
    seq![ciphertext_of(key, passphrase)] + accounts_lines(key, accs)
}

/// The text of a vault.
pub open spec fn vault_text(key: Seq<char>, passphrase: Seq<char>, accs: Seq<AccountView>) -> Seq<char> {
    join_lines(vault_lines(key, passphrase, accs))
}

/// The accounts that a run of stored lines holds, four lines each; `None` where the
/// count is not a multiple of four or a field fails to decrypt.
pub open spec fn decode_blocks(key: Seq<char>, ls: Seq<Seq<char>>) -> Option<Seq<AccountView>>
    decreases ls.len(),
{
    if ls.len() < 4 {
        if ls.len() == 0 {
            Some(Seq::empty())
        } else {
            None
        }
    } else {
        match (decode_block(key, ls.take(4)), decode_blocks(key, ls.skip(4))) {
            (Some(a), Some(rest)) => Some(seq![a] + rest),
            _ => None,
        }
    }
}

/// What the vault text `text` holds for the passphrase `passphrase` under `key`. The
/// check line is decrypted first; on a mismatch no account is looked at.
pub open spec fn vault_outcome(key: Seq<char>, text: Seq<char>, passphrase: Seq<char>) -> VaultOutcome {
    let ls = lines_of(text);
    if ls.len() == 0 || plaintext_of(key, ls[0]) != Some(passphrase) {
        VaultOutcome::WrongPassword
    } else if (ls.len() - 1) % 4 != 0 {
        VaultOutcome::Malformed
    } else {
        match decode_blocks(key, ls.skip(1)) {
            Some(accs) => VaultOutcome::Accounts(accs),
            None => VaultOutcome::Malformed,
        }
    }
}

/// The stored lines of `a` are break-free and decode to `a` again.
pub open spec fn reopens(key: Seq<char>, a: AccountView) -> bool {
    &&& all_newline_free(account_lines(key, a))
    &&& decode_block(key, account_lines(key, a)) == Some(a)
}

proof fn lemma_accounts_lines_push(key: Seq<char>, accs: Seq<AccountView>, a: AccountView)
    ensures
        accounts_lines(key, accs.push(a)) == accounts_lines(key, accs) + account_lines(key, a),
    decreases accs.len(),
{
    if accs.len() == 0 {
        assert(accs.push(a).drop_first() =~= Seq::<AccountView>::empty());
        reveal_with_fuel(accounts_lines, 2);
        assert(accounts_lines(key, accs.push(a)) =~= account_lines(key, a));
    } else {
        assert(accs.push(a).drop_first() =~= accs.drop_first().push(a));
        lemma_accounts_lines_push(key, accs.drop_first(), a);
        assert(accounts_lines(key, accs.push(a)) =~= accounts_lines(key, accs) + account_lines(key, a));
    }
}

proof fn lemma_accounts_lines_len(key: Seq<char>, accs: Seq<AccountView>)
    ensures
        accounts_lines(key, accs).len() == 4 * accs.len(),
    decreases accs.len(),
{
    if accs.len() > 0 {
        lemma_accounts_lines_len(key, accs.drop_first());
    }
}

proof fn lemma_accounts_lines_reopen(key: Seq<char>, accs: Seq<AccountView>)
    requires
        forall|j: int| 0 <= j < accs.len() ==> #[trigger] reopens(key, accs[j]),
    ensures
        all_newline_free(accounts_lines(key, accs)),
        decode_blocks(key, accounts_lines(key, accs)) == Some(accs),
    decreases accs.len(),
{
    if accs.len() > 0 {
        let rest = accs.drop_first();
        assert forall|j: int| 0 <= j < rest.len() implies #[trigger] reopens(key, rest[j]) by {
            assert(rest[j] == accs[j + 1]);
            assert(reopens(key, accs[j + 1]));
        }
        lemma_accounts_lines_reopen(key, rest);
        lemma_accounts_lines_len(key, rest);
        assert(reopens(key, accs[0]));
        let head = account_lines(key, accs[0]);
        let ls = accounts_lines(key, accs);
        assert(ls.take(4) =~= head);
        assert(ls.skip(4) =~= accounts_lines(key, rest));
        assert(seq![accs[0]] + rest =~= accs);
        assert forall|i: int| 0 <= i < ls.len() implies #[trigger] newline_free(ls[i]) by {
            if i < 4 {
                assert(ls[i] == head[i]);
            } else {
                assert(ls[i] == accounts_lines(key, rest)[i - 4]);
            }
        }
    }
}

proof fn lemma_join_account(key: Seq<char>, a: AccountView)
    ensures
        join_lines(account_lines(key, a)) == account_text(key, a) + seq!['\n'],
{
    let ls = account_lines(key, a);
    assert(ls.drop_first().drop_first().drop_first().drop_first() =~= Seq::<Seq<char>>::empty());
    reveal_with_fuel(join_lines, 5);
    assert(join_lines(ls) =~= account_text(key, a) + seq!['\n']);
}

/// Encodes a vault: the passphrase's check line, then each account's four lines,
/// every line ended by `'\n'`. Decoding the text with the same key and passphrase
/// gives exactly these accounts back, so encoding them again stores the same list.
/// Decoding it with any key and passphrase under which the check line does not
/// decrypt to that passphrase gives `WrongPassword`.
pub fn serialise(key: &Key, accounts: &Vec<Account>, password: &str) -> (r: String)
    ensures
        r@ == vault_text(key@, password@, account_views(accounts@)),
        vault_outcome(key@, r@, password@) == VaultOutcome::Accounts(account_views(accounts@)),
        lines_of(r@).len() == 1 + 4 * accounts@.len(),
        lines_of(r@)[0] == ciphertext_of(key@, password@),
        forall|k: Seq<char>, p: Seq<char>|
            plaintext_of(k, ciphertext_of(key@, password@)) != Some(p) ==> #[trigger] vault_outcome(k, r@, p)
                == VaultOutcome::WrongPassword,
{
    let ghost av = account_views(accounts@);
    let mut r = key.encrypt(password);
    let ghost check = r@;
    r.append("\n");
    proof {
        reveal_strlit("\n");
        assert(av.take(0) =~= Seq::<AccountView>::empty());
        assert(seq![check] + accounts_lines(key@, av.take(0)) =~= seq![check]);
        assert(seq![check].drop_first() =~= Seq::<Seq<char>>::empty());
        reveal_with_fuel(join_lines, 2);
        assert(join_lines(seq![check]) =~= check + seq!['\n']);
    }
    for i in 0..accounts.len()
        invariant
            av == account_views(accounts@),
            check == ciphertext_of(key@, password@),
            plaintext_of(key@, check) == Some(password@),
            forall|k: int| 0 <= k < check.len() ==> is_base64_char(#[trigger] check[k]),
            r@ == join_lines(seq![check] + accounts_lines(key@, av.take(i as int))),
            forall|j: int| 0 <= j < i ==> #[trigger] reopens(key@, av[j]),
    {
        let t = accounts[i].encrypt(key);
        r.append(t.as_str());
        r.append("\n");
        proof {
            reveal_strlit("\n");
            let a = av[i as int];
            assert(accounts[i as int]@ == a);
            assert(av.take(i + 1) =~= av.take(i as int).push(a));
            lemma_accounts_lines_push(key@, av.take(i as int), a);
            let prev = seq![check] + accounts_lines(key@, av.take(i as int));
            assert(seq![check] + accounts_lines(key@, av.take(i + 1)) =~= prev + account_lines(key@, a));
            lemma_join_append(prev, account_lines(key@, a));
            lemma_join_account(key@, a);
            assert(r@ =~= join_lines(prev) + join_lines(account_lines(key@, a)));
        }
    }
    proof {
        assert(av.take(av.len() as int) =~= av);
        assert forall|j: int| 0 <= j < av.len() implies #[trigger] reopens(key@, av[j]) by {}
        lemma_accounts_lines_reopen(key@, av);
        lemma_accounts_lines_len(key@, av);
        let vl = vault_lines(key@, password@, av);
        assert(newline_free(check)) by {
            assert forall|k: int| 0 <= k < check.len() implies check[k] != '\n' by {
                assert(is_base64_char(check[k]));
            }
        }
        assert(all_newline_free(vl)) by {
            assert forall|i: int| 0 <= i < vl.len() implies #[trigger] newline_free(vl[i]) by {
                if i > 0 {
                    assert(vl[i] == accounts_lines(key@, av)[i - 1]);
                }
            }
        }
        lemma_lines_of_join(vl);
        assert(vl.skip(1) =~= accounts_lines(key@, av));
    }
    r
}

/// Decodes a vault with `key`, checking first that its check line decrypts to
/// `password`.
pub fn deserialise(key: &Key, password_file_contents: &str, password: &str) -> (r: DeserialisationResult)
    ensures
        r.outcome() == vault_outcome(key@, password_file_contents@, password@),
{
    let lines = split_lines(password_file_contents);
    let ghost ls = lines_of(password_file_contents@);
    if lines.len() == 0 {
        return DeserialisationResult::WrongPassword;
    }
    assert(views(lines@)[0] == lines@[0]@);
    let passkey = match key.decrypt(lines[0].as_str()) {
        Some(p) => p,
        None => return DeserialisationResult::WrongPassword,
    };
    if passkey != password.to_string() {
        return DeserialisationResult::WrongPassword;
    }
    if (lines.len() - 1) % 4 != 0 {
        return DeserialisationResult::Malformed;
    }
    let n: usize = (lines.len() - 1) / 4;
    let ghost body = ls.skip(1);
    let mut accounts: Vec<Account> = Vec::new();
    let mut j: usize = 0;
    proof {
        assert(body.skip(0) =~= body);
        assert(account_views(accounts@) + Seq::<AccountView>::empty() =~= Seq::<AccountView>::empty());
    }
    while j < n
        invariant
            ls == views(lines@),
            ls == lines_of(password_file_contents@),
            body == ls.skip(1),
            plaintext_of(key@, ls[0]) == Some(password@),
            (ls.len() - 1) % 4 == 0,
            lines.len() == 4 * n + 1,
            j <= n,
            decode_blocks(key@, body) == match decode_blocks(key@, body.skip(4 * j as int)) {
                Some(rest) => Some(account_views(accounts@) + rest),
                None => None,
            },
        decreases n - j,
    {
        let b = builder_for_block(&lines, 1 + 4 * j);
        let ghost tail = body.skip(4 * j as int);
        proof {
            assert(tail.take(4) =~= views(lines@).subrange(1 + 4 * j, 1 + 4 * j + 4));
            assert(tail.skip(4) =~= body.skip(4 * (j + 1) as int));
        }
        match b.decrypt(key) {
            Some(a) => {
                proof {
                    assert(account_views(accounts@.push(a)) =~= account_views(accounts@).push(a@));
                    match decode_blocks(key@, tail.skip(4)) {
                        Some(rest) => {
                            assert(account_views(accounts@) + (seq![a@] + rest)
                                =~= account_views(accounts@).push(a@) + rest);
                        },
                        None => {},
                    }
                }
                accounts.push(a);
            },
            None => {
                assert(decode_block(key@, tail.take(4)) is None);
                assert(decode_blocks(key@, tail) is None);
                return DeserialisationResult::Malformed;
            },
        }
        j += 1;
    }
    proof {
        assert(body.skip(4 * n as int).len() == 0);
        assert(account_views(accounts@) + Seq::<AccountView>::empty() =~= account_views(accounts@));
    }
    DeserialisationResult::Accounts(accounts)
}

/// The passphrase gate: a vault yields accounts, or even a `Malformed` verdict, only
/// when its first line decrypts to the passphrase given; otherwise decoding stops at
/// `WrongPassword`, which carries no account.
pub proof fn lemma_passphrase_gate(key: Seq<char>, text: Seq<char>, passphrase: Seq<char>)
    ensures
        !(vault_outcome(key, text, passphrase) is WrongPassword) ==> lines_of(text).len() > 0
            && plaintext_of(key, lines_of(text)[0]) == Some(passphrase),
        lines_of(text).len() == 0 || plaintext_of(key, lines_of(text)[0]) != Some(passphrase)
            ==> vault_outcome(key, text, passphrase) is WrongPassword,
{
}

} // verus!
