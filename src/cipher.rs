//! The symmetric cipher that protects each field of the vault.
//!
//! The key is the passphrase itself; magic-crypt's AES-256 turns it into the
//! cipher key. A field encrypts to a standard-alphabet base64 text.

use vstd::prelude::*;
use magic_crypt::{MagicCrypt256, MagicCryptError, MagicCryptTrait};

verus! {

/// What encrypting `text` under the passphrase `key` gives (AES-256-CBC, base64).
pub uninterp spec fn ciphertext_of(key: Seq<char>, text: Seq<char>) -> Seq<char>;

/// What decrypting `text` under the passphrase `key` gives, `None` where it fails.
pub uninterp spec fn plaintext_of(key: Seq<char>, text: Seq<char>) -> Option<Seq<char>>;

/// A character of the standard base64 alphabet, `=` padding included.
pub open spec fn is_base64_char(c: char) -> bool {
    ('A' <= c <= 'Z') || ('a' <= c <= 'z') || ('0' <= c <= '9') || c == '+' || c == '/' || c == '='
}

/// A text made of base64 characters alone.
pub open spec fn is_base64_text(s: Seq<char>) -> bool {
    forall|i: int| 0 <= i < s.len() ==> #[trigger] is_base64_char(s[i])
}

#[verifier::external_type_specification]
#[verifier::external_body]
pub struct ExMagicCryptError(MagicCryptError);

/// The key that encrypts and decrypts a vault: the passphrase it was made from.
pub struct Key {
    passphrase: String,
}

impl View for Key {
    type V = Seq<char>;

    closed spec fn view(&self) -> Seq<char> {
        self.passphrase@
    }
}

impl Key {
    /// The key for the passphrase `p`.
    pub fn for_passphrase(p: &str) -> (r: Key)
        ensures
            r@ == p@,
    {
        Key { passphrase: p.to_string() }
    }

    /// Encrypts `text` (which may be empty) to a non-empty base64 text.
    pub fn encrypt(&self, text: &str) -> (r: String)
        ensures
            r@ == ciphertext_of(self@, text@),
            r@.len() > 0,
            is_base64_text(r@),
            plaintext_of(self@, r@) == Some(text@),
    {
        encrypt_to_base64(self.passphrase.as_str(), text)
    }

    /// Decrypts a base64 text, `None` where it is malformed for this key.
    pub fn decrypt(&self, text: &str) -> (r: Option<String>)
        ensures
            r is Some <==> plaintext_of(self@, text@) is Some,
            r is Some ==> plaintext_of(self@, text@) == Some(r->0@),
    {
        match decrypt_base64(self.passphrase.as_str(), text) {
            Ok(s) => Some(s),
            Err(_) => None,
        }
    }
}

/// Relies on magic-crypt's `MagicCrypt256::new` (key = SHA-256 of the passphrase,
/// zero IV) and `encrypt_str_to_base64`: AES-256-CBC with PKCS7 padding, so at least
/// one block, written with the standard base64 engine; and decryption under the
/// same key gives the text back.
#[verifier::external_body]
fn encrypt_to_base64(key: &str, text: &str) -> (r: String)
    ensures
        r@ == ciphertext_of(key@, text@),
        r@.len() > 0,
        is_base64_text(r@),
        plaintext_of(key@, r@) == Some(text@),
{
    MagicCrypt256::new(key, None::<String>).encrypt_str_to_base64(text)
}

/// Relies on magic-crypt's `MagicCrypt256::new` and `decrypt_base64_to_string`: it
/// fails on text that is not base64, on bad padding and on invalid UTF-8.
#[verifier::external_body]
fn decrypt_base64(key: &str, text: &str) -> (r: Result<String, MagicCryptError>)
    ensures
        r is Ok <==> plaintext_of(key@, text@) is Some,
        r is Ok ==> plaintext_of(key@, text@) == Some(r->Ok_0@),
{
    MagicCrypt256::new(key, None::<String>).decrypt_base64_to_string(text)
}

} // verus!
