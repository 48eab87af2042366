//! Model of the credential-store shim.
//!
//! The backend keeps at most one secret, the API key, under a fixed
//! service/key pair in the operating system's credential store.  This
//! module models that store as an optional secret and gives each command
//! an exact contract; the command layer that talks to the real keychain
//! mirrors these operations and hands plain values back and forth.

use vstd::prelude::*;

verus! {

/// Error of a credential operation that needs a stored secret when none is
/// present.
#[derive(Clone, Copy, Debug, PartialEq, Eq, Structural)]
pub enum KeyError {
    /// No secret is stored under the service/key pair.
    NoEntry,
}

impl KeyError {
    /// A human-readable message for the error.
    pub fn message(&self) -> (r: &'static str)
        ensures
            r@ == "no API key is stored"@,
    {
        "no API key is stored"
    }
}

/// The state of the credential store after a save: the new secret, whatever
/// was there before.
pub open spec fn key_save(s: Option<Seq<char>>, k: Seq<char>) -> Option<Seq<char>> {
    Some(k)
}

/// The state of the credential store after a delete: empty, whatever was
/// there before.
pub open spec fn key_delete(s: Option<Seq<char>>) -> Option<Seq<char>> {
    None
}

/// What a load finds: the stored secret, if any.
pub open spec fn key_load(s: Option<Seq<char>>) -> Option<Seq<char>> {
    s
}

/// What the presence probe reports: whether a secret is stored.
pub open spec fn key_present(s: Option<Seq<char>>) -> bool {
    s is Some
}

/// The single secret entry of the backend, at most one value at a time.
pub struct KeyStore {
    secret: Option<String>,
}

impl View for KeyStore {
    type V = Option<Seq<char>>;

    closed spec fn view(&self) -> Option<Seq<char>> {
        match self.secret {
            Some(ref s) => Some(s@),
            None => None,
        }
    }
}

impl KeyStore {
    /// A store with no secret saved yet.
    pub fn new() -> (s: Self)
        ensures
            s@ == None::<Seq<char>>,
    {
        KeyStore { secret: None }
    }

    /// Store the API key, overwriting unconditionally.
    pub fn save_api_key(&mut self, api_key: String)
        ensures
            final(self)@ == key_save(old(self)@, api_key@),
    {
        self.secret = Some(api_key);
    }

    /// Return the stored API key, or an error if none is stored.
    pub fn load_api_key(&self) -> (r: Result<String, KeyError>)
        ensures
            match r {
                Ok(k) => key_load(self@) == Some(k@),
                Err(KeyError::NoEntry) => key_load(self@) is None,
            },
    {
        match &self.secret {
            Some(s) => Ok(s.clone()),
            None => Err(KeyError::NoEntry),
        }
    }

    /// Remove the stored API key; an error reports that none was stored.
    pub fn delete_api_key(&mut self) -> (r: Result<(), KeyError>)
        ensures
            final(self)@ == key_delete(old(self)@),
            r is Ok <==> key_present(old(self)@),
            r is Err ==> r == Result::<(), KeyError>::Err(KeyError::NoEntry),
    {
        let had = self.secret.is_some();
        self.secret = None;
        if had {
            Ok(())
        } else {
            Err(KeyError::NoEntry)
        }
    }

    /// Report whether an API key is stored.
    pub fn has_api_key(&self) -> (r: bool)
        ensures
            r == key_present(self@),
    {
        self.secret.is_some()
    }
}

/// The decision of the presence probe in the command layer: it attempts a
/// load against the real backend and counts any failure, whatever its
/// cause, as "no key stored".
pub fn presence_of_probe(probe: &Result<String, String>) -> (r: bool)
    ensures
        r == (probe is Ok),
{
    match probe {
        Ok(_) => true,
        Err(_) => false,
    }
}

/// Saving a key and then loading yields exactly that key, and the presence
/// probe is true right after the save.
pub proof fn lemma_save_then_load(s: Option<Seq<char>>, k: Seq<char>)
    ensures
        key_load(key_save(s, k)) == Some(k),
        key_present(key_save(s, k)),
{
}

/// After a delete the load finds nothing and the presence probe is false.
pub proof fn lemma_delete_then_absent(s: Option<Seq<char>>)
    ensures
        key_load(key_delete(s)) is None,
        !key_present(key_delete(s)),
{
}

/// Before any save the store is empty and the presence probe is false.
pub proof fn lemma_fresh_store_absent()
    ensures
        key_load(None::<Seq<char>>) is None,
        !key_present(None::<Seq<char>>),
{
}

} // verus!
