//! The secret-carrying buffer: text that is wiped from memory when the
//! buffer is dropped, on every path including failing ones.

use secrecy::ExposeSecret;
use vstd::prelude::*;

verus! {

/// A buffer holding text that may be a secret.
///
/// The text sits behind secrecy's zeroize-on-drop wrapper, so its storage
/// is overwritten before being released whenever a buffer is dropped; read
/// access goes through the one narrow accessor [`SecretData::expose`]. The
/// wrapper is opaque here: what the buffer holds is spoken of only through
/// [`secret_chars`].
#[verifier::external_body]
#[derive(Debug)]
pub struct SecretData {
    inner: secrecy::SecretString,
}

/// The text a secret buffer holds.
pub uninterp spec fn secret_chars(s: SecretData) -> Seq<char>;

/// The text an optional secret buffer holds.
pub open spec fn secret_option_chars(d: Option<SecretData>) -> Option<Seq<char>> {
    match d {
        Some(s) => Some(secret_chars(s)),
        None => None,
    }
}

impl SecretData {
    /// Relies on secrecy's `Secret::new`: takes ownership of the text,
    /// which is wiped from memory when the buffer is dropped.
    #[verifier::external_body]
    pub fn new(text: String) -> (r: SecretData)
        ensures
            secret_chars(r) == text@,
    {
        SecretData { inner: secrecy::Secret::new(text) }
    }

    /// Relies on secrecy's `ExposeSecret`: read access to the held text.
    #[verifier::external_body]
    pub fn expose(&self) -> (r: &String)
        ensures
            r@ == secret_chars(*self),
    {
        self.inner.expose_secret()
    }
}

} // verus!
