//! The single registered account.
use vstd::prelude::*;

use crate::AuthError;

verus! {

/// A registered account: its username and the PHC string of its password.
pub struct Credential {
    pub username: String,
    pub password_hash: String,
}

impl View for Credential {
    type V = (Seq<char>, Seq<char>);

    open spec fn view(&self) -> Self::V {
        (self.username@, self.password_hash@)
    }
}

/// Holds at most one credential; once one is created no other can be.
pub struct CredentialStore {
    record: Option<Credential>,
}

impl View for CredentialStore {
    type V = Option<(Seq<char>, Seq<char>)>;

    closed spec fn view(&self) -> Self::V {
        match self.record {
            Some(c) => Some(c@),
            None => None,
        }
    }
}

impl CredentialStore {
    /// A store in which no account is registered.
    pub fn new() -> (r: CredentialStore)
        ensures
            r@ is None,
    {
        CredentialStore { record: None }
    }

    /// A store holding an account that was registered earlier.
    pub fn with_credential(c: Credential) -> (r: CredentialStore)
        ensures
            r@ == Some(c@),
    {
        CredentialStore { record: Some(c) }
    }

    /// Whether an account is registered.
    pub fn is_registered(&self) -> (r: bool)
        ensures
            r == self@ is Some,
    {
        self.record.is_some()
    }

    /// The registered account; `NotFound` where there is none.
    pub fn load(&self) -> (r: Result<&Credential, AuthError>)
        ensures
            r matches Ok(c) ==> self@ == Some(c@),
            r matches Err(e) ==> self@ is None && e == AuthError::NotFound,
            self@ is None ==> r is Err,
    {
        match &self.record {
            Some(c) => Ok(c),
            None => Err(AuthError::NotFound),
        }
    }

    /// Registers the account; `Conflict`, with nothing changed, where one exists.
    pub fn create(&mut self, username: &str, password_hash: &str) -> (r: Result<(), AuthError>)
        ensures
            old(self)@ is Some ==> r == Err::<(), AuthError>(AuthError::Conflict) && final(self)@ == old(
                self,
            )@,
            old(self)@ is None ==> r is Ok && final(self)@ == Some((username@, password_hash@)),
    {
        if self.record.is_some() {
            return Err(AuthError::Conflict);
        }
        self.record = Some(Credential { username: username.to_owned(), password_hash: password_hash.to_owned() });
        Ok(())
    }
}

} // verus!
