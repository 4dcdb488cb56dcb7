//! The password gate: opening a vault with the passphrase the user entered.

use vstd::prelude::*;
use crate::account::{account_views, Account};
use crate::cipher::Key;
use crate::serialisation::{deserialise, vault_outcome, DeserialisationResult, VaultOutcome};

verus! {

/// Why a vault could not be opened.
#[derive(Clone, Copy, Debug, PartialEq, Eq, Structural)]
pub enum AuthError {
    /// There is no vault yet; the caller may offer to create one.
    NoVaultFile,
    /// The passphrase does not open the vault.
    WrongPassword,
    /// The passphrase opens the vault, but its accounts are corrupt.
    Malformed,
}

/// Opens a vault with `passphrase`, which is also the key material. `vault` is the
/// stored text, `None` where there is no vault.
pub fn authenticate(passphrase: &str, vault: Option<&str>) -> (r: Result<(Key, Vec<Account>), AuthError>)
    ensures
        vault is None ==> r == Err::<(Key, Vec<Account>), AuthError>(AuthError::NoVaultFile),
        vault matches Some(t) ==> match vault_outcome(passphrase@, t@, passphrase@) {
            VaultOutcome::WrongPassword => r == Err::<(Key, Vec<Account>), AuthError>(AuthError::WrongPassword),
            VaultOutcome::Malformed => r == Err::<(Key, Vec<Account>), AuthError>(AuthError::Malformed),
            VaultOutcome::Accounts(a) => r matches Ok((k, v)) && k@ == passphrase@ && account_views(v@) == a,
        },
{
    let text = match vault {
        Some(t) => t,
        None => return Err(AuthError::NoVaultFile),
    };
    let key = Key::for_passphrase(passphrase);
    match deserialise(&key, text, passphrase) {
        DeserialisationResult::WrongPassword => Err(AuthError::WrongPassword),
        DeserialisationResult::Malformed => Err(AuthError::Malformed),
        DeserialisationResult::Accounts(v) => Ok((key, v)),
    }
}

} // verus!
