//! API keys in the platform credential store (Windows Credential Manager),
//! never in the configuration file.

use crate::text::{trim, trimmed};
use keyring::Entry;
use vstd::prelude::*;

verus! {

#[verifier::external_type_specification]
#[verifier::external_body]
pub struct ExEntry(Entry);

#[verifier::external_type_specification]
#[verifier::external_body]
pub struct ExKeyringError(keyring::Error);

/// Service name under which the keys are stored.
pub const SERVICE: &'static str = "com.gedeon.hlas";
/// Account name of the Groq API key.
pub const GROQ: &'static str = "groq-api-key";
/// Account name of the OpenAI API key.
pub const OPENAI: &'static str = "openai-api-key";

/// Why the credential store refused a request.
#[derive(Debug)]
pub enum KeyStoreError {
    /// No entry could be made for the service and account.
    Entry(keyring::Error),
    /// The store refused to save the secret.
    Store(keyring::Error),
}

/// The service and user an entry was made for.
pub uninterp spec fn entry_target(e: Entry) -> (Seq<char>, Seq<char>);

/// Holds of every error with which `Entry::new` refused `service` and
/// `user`; nothing more is claimed of it.
pub uninterp spec fn entry_refusal(service: Seq<char>, user: Seq<char>, err: keyring::Error) -> bool;

/// Holds of every outcome `Entry::set_password` gave for entry `e` and
/// `password`; nothing more is claimed of it.
pub uninterp spec fn set_password_outcome(e: Entry, password: Seq<char>, r: Result<(), keyring::Error>) -> bool;

/// Holds of every outcome `Entry::get_password` gave for entry `e`; nothing
/// more is claimed of it.
pub uninterp spec fn get_password_outcome(e: Entry, r: Result<String, keyring::Error>) -> bool;

/// Holds of every outcome `Entry::delete_credential` gave for entry `e`;
/// nothing more is claimed of it.
pub uninterp spec fn delete_outcome(e: Entry, r: Result<(), keyring::Error>) -> bool;

/// `r` is what `set_key` answers after asking the store to keep `secret` as
/// the key of `account` under `SERVICE`: the store's refusal to make the
/// entry, or the store's answer to saving `secret` in an entry for that
/// service and account.
pub open spec fn set_key_outcome(account: Seq<char>, secret: Seq<char>, r: Result<(), KeyStoreError>) -> bool {
    match r {
        Err(KeyStoreError::Entry(err)) => entry_refusal(SERVICE@, account, err),
        _ => exists|e: Entry, w: Result<(), keyring::Error>|
            entry_target(e) == (SERVICE@, account) && #[trigger] set_password_outcome(e, secret, w) && r
                == store_result(w),
    }
}

/// The answer `set_key` gives for the store's answer `w` to saving a secret.
pub open spec fn store_result(w: Result<(), keyring::Error>) -> Result<(), KeyStoreError> {
    match w {
        Ok(_) => Ok(()),
        Err(e) => Err(KeyStoreError::Store(e)),
    }
}

/// The answer `get_key` gives for the store's answer `g` to reading a secret.
pub open spec fn lookup_result(g: Result<String, keyring::Error>) -> Option<String> {
    match g {
        Ok(p) => Some(p),
        Err(_) => None,
    }
}

/// `r` is what `get_key` answers after asking the store for the key of
/// `account` under `SERVICE`: the secret the store read from an entry for
/// that service and account, or `None` when the store refused the entry or
/// the read.
pub open spec fn get_key_outcome(account: Seq<char>, r: Option<String>) -> bool {
    ||| (r is None && exists|err: keyring::Error| #[trigger] entry_refusal(SERVICE@, account, err))
    ||| exists|e: Entry, g: Result<String, keyring::Error>|
        entry_target(e) == (SERVICE@, account) && #[trigger] get_password_outcome(e, g) && r
            == lookup_result(g)
}

/// The store was asked to delete the key of `account` under `SERVICE`: it
/// refused to make the entry, or a deletion was asked of an entry for that
/// service and account.
pub open spec fn clear_attempted(account: Seq<char>) -> bool {
    ||| exists|err: keyring::Error| #[trigger] entry_refusal(SERVICE@, account, err)
    ||| exists|e: Entry, d: Result<(), keyring::Error>|
        entry_target(e) == (SERVICE@, account) && #[trigger] delete_outcome(e, d)
}

/// The service and account under which a key is stored or looked up.
#[derive(Debug, Clone)]
pub struct KeyRequest {
    pub service: String,
    pub account: String,
}

/// The request for the key of `account`: always under `SERVICE`.
pub fn key_request(account: &str) -> (req: KeyRequest)
    ensures
        req.service@ == SERVICE@,
        req.account@ == account@,
{
    KeyRequest { service: SERVICE.to_owned(), account: account.to_owned() }
}

/// `keyring::Entry::new`: an entry for the request's service and account
/// (user). Whether the store accepts them depends on the platform store;
/// the contract states only that an entry it gives is for that service and
/// user.
#[verifier::external_body]
fn entry_new(req: &KeyRequest) -> (r: Result<Entry, keyring::Error>)
    ensures
        r matches Ok(e) ==> entry_target(e) == (req.service@, req.account@),
        r matches Err(err) ==> entry_refusal(req.service@, req.account@, err),
{
    Entry::new(&req.service, &req.account)
}

/// `keyring::Entry::set_password`. The outcome depends on the store; the
/// contract only records it as an outcome of this call.
#[verifier::external_body]
fn entry_set_password(entry: &Entry, password: &str) -> (r: Result<(), keyring::Error>)
    ensures
        set_password_outcome(*entry, password@, r),
{
    entry.set_password(password)
}

/// `keyring::Entry::get_password`. What comes back depends on the store;
/// the contract only records it as an outcome of this call.
#[verifier::external_body]
fn entry_get_password(entry: &Entry) -> (r: Result<String, keyring::Error>)
    ensures
        get_password_outcome(*entry, r),
{
    entry.get_password()
}

/// `keyring::Entry::delete_credential`. The outcome depends on the store;
/// the contract only records it as an outcome of this call.
#[verifier::external_body]
fn entry_delete_credential(entry: &Entry) -> (r: Result<(), keyring::Error>)
    ensures
        delete_outcome(*entry, r),
{
    entry.delete_credential()
}

/// The outcome of opening an entry: the entry, or the store's refusal as
/// `KeyStoreError::Entry`.
pub fn entry_outcome(r: Result<Entry, keyring::Error>) -> (o: Result<Entry, KeyStoreError>)
    ensures
        r matches Ok(e) ==> o == Ok::<Entry, KeyStoreError>(e),
        r matches Err(e) ==> (o matches Err(KeyStoreError::Entry(e2)) && e2 == e),
{
    match r {
        Ok(e) => Ok(e),
        Err(e) => Err(KeyStoreError::Entry(e)),
    }
}

/// The outcome of saving a secret: success, or the store's refusal as
/// `KeyStoreError::Store`.
pub fn store_outcome(r: Result<(), keyring::Error>) -> (o: Result<(), KeyStoreError>)
    ensures
        o == store_result(r),
{
    match r {
        Ok(()) => Ok(()),
        Err(e) => Err(KeyStoreError::Store(e)),
    }
}

/// The outcome of reading a secret: the secret, or `None` whatever the
/// store's reason for not giving one.
pub fn lookup_outcome(r: Result<String, keyring::Error>) -> (o: Option<String>)
    ensures
        o == lookup_result(r),
{
    match r {
        Ok(p) => Some(p),
        Err(_) => None,
    }
}

/// The entry for the key of `account` under `SERVICE`, or the store's
/// refusal to make one.
fn entry(account: &str) -> (r: Result<Entry, KeyStoreError>)
    ensures
        r matches Ok(e) ==> entry_target(e) == (SERVICE@, account@),
        r is Err ==> (r matches Err(KeyStoreError::Entry(err)) && entry_refusal(SERVICE@, account@, err)),
{
    let req = key_request(account);
    entry_outcome(entry_new(&req))
}

/// Stores `secret` as the key of `account`.
pub fn set_key(account: &str, secret: &str) -> (r: Result<(), KeyStoreError>)
    ensures
        set_key_outcome(account@, secret@, r),
{
    match entry(account) {
        Ok(e) => {
            let w = entry_set_password(&e, secret);
            let ghost w0 = w;
            let o = store_outcome(w);
            assert(set_password_outcome(e, secret@, w0) && o == store_result(w0));
            o
        },
        Err(err) => Err(err),
    }
}

/// The key stored for `account`, or `None` when there is none or the store
/// cannot be read.
pub fn get_key(account: &str) -> (r: Option<String>)
    ensures
        get_key_outcome(account@, r),
{
    match entry(account) {
        Ok(e) => {
            let g = entry_get_password(&e);
            let ghost g0 = g;
            let o = lookup_outcome(g);
            assert(get_password_outcome(e, g0) && o == lookup_result(g0));
            o
        },
        Err(_) => None,
    }
}

/// Removes the key of `account`. A missing key, or a store that refuses the
/// removal, is not an error: this always succeeds.
pub fn clear_key(account: &str) -> (r: Result<(), KeyStoreError>)
    ensures
        r is Ok,
        clear_attempted(account@),
{
    if let Ok(e) = entry(account) {
        let _ = entry_delete_credential(&e);
    }
    Ok(())
}

/// What saving a key field does: a blank field clears the key, anything else
/// is stored without its surrounding white space.
#[derive(Debug, Clone)]
pub enum KeyUpdate {
    Clear,
    Store(String),
}

/// `u` is the update that a key field holding `value` asks for.
pub open spec fn is_update_for(u: KeyUpdate, value: Seq<char>) -> bool {
    if trimmed(value).len() == 0 {
        u is Clear
    } else {
        u matches KeyUpdate::Store(s) && s@ == trimmed(value)
    }
}

/// The update a key field with text `value` asks for.
pub fn key_update(value: &str) -> (u: KeyUpdate)
    ensures
        is_update_for(u, value@),
{
    let t = trim(value);
    if t.is_empty() {
        KeyUpdate::Clear
    } else {
        KeyUpdate::Store(t.to_owned())
    }
}

/// Saves the text of a key field for `account`: clears the key when the field
/// is blank, stores the trimmed text otherwise. Store failures are ignored.
pub fn persist_key(account: &str, value: &str) -> (u: KeyUpdate)
    ensures
        is_update_for(u, value@),
        u is Clear ==> clear_attempted(account@),
        u matches KeyUpdate::Store(t) ==> exists|r: Result<(), KeyStoreError>|
            #[trigger] set_key_outcome(account@, t@, r),
{
    let u = key_update(value);
    match &u {
        KeyUpdate::Clear => {
            let _ = clear_key(account);
        },
        KeyUpdate::Store(s) => {
            let _ = set_key(account, s.as_str());
        },
    }
    u
}

} // verus!
