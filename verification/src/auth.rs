//! Who a client acts for.

use vstd::prelude::*;

verus! {

/// API credentials of a user.
#[derive(Debug)]
pub struct Credentials {
    /// API key, in its textual form
    pub key: String,
    /// API secret
    pub secret: String,
    /// API passphrase
    pub passphrase: String,
}

/// What [`Credentials`] hold.
pub struct CredentialsView {
    pub key: Seq<char>,
    pub secret: Seq<char>,
    pub passphrase: Seq<char>,
}

impl View for Credentials {
    type V = CredentialsView;

    open spec fn view(&self) -> CredentialsView {
        CredentialsView {
            key: self.key@,
            secret: self.secret@,
            passphrase: self.passphrase@,
        }
    }
}

impl Credentials {
    /// Credentials from their parts.
    pub fn new(key: String, secret: String, passphrase: String) -> (r: Self)
        ensures
            r == (Credentials { key, secret, passphrase }),
    {
        Credentials { key, secret, passphrase }
    }
}

impl Clone for Credentials {
    fn clone(&self) -> (r: Self)
        ensures
            r == *self,
    {
        Credentials {
            key: self.key.clone(),
            secret: self.secret.clone(),
            passphrase: self.passphrase.clone(),
        }
    }
}

/// The account address of a user.
#[derive(Debug, Clone, Copy)]
pub struct Address {
    /// The bytes of the address, first byte first
    pub bytes: [u8; 20],
}

/// State of a client that acts for nobody.
#[derive(Debug, Clone, Copy)]
pub struct Unauthenticated;

/// State of a client that acts for a user.
#[derive(Debug)]
pub struct Authenticated {
    /// Account address of the user
    pub address: Address,
    /// API credentials of the user
    pub credentials: Credentials,
}

} // verus!
