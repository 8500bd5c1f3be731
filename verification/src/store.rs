use vstd::prelude::*;

verus! {

/// What a store operation can report: the secret is absent, or the
/// platform store itself failed, with its text.
#[derive(Debug)]
pub enum StoreFault {
    Missing,
    Other(String),
}

/// The stable service identifier the one secret is stored under.
pub const SERVICE_ID: &'static str = "com.irfanuddin.tasks";

/// The account name the one secret is stored under.
pub const ACCOUNT_ID: &'static str = "google_tasks_refresh";

#[verifier::external_type_specification]
#[verifier::external_body]
pub struct ExEntry(keyring::Entry);

// Each wrapper reports its failure as a plain value: `None` exactly for
// keyring's NoEntry error — the platform's answer that no entry is stored
// — and `Some` of the error's text for every other variant. The verifier
// sees nothing inside keyring::Error, so this equivalence lives at the
// trusted boundary, in the one match each body holds; everything past the
// report is verified against `fault_spec`.

/// Relies on keyring::Entry::new: the handle for one service/account
/// pair, or the platform's report, classified as above.
#[verifier::external_body]
fn entry_new(service: &str, account: &str) -> (r: Result<keyring::Entry, Option<String>>) {
    match keyring::Entry::new(service, account) {
        Ok(e) => Ok(e),
        Err(keyring::Error::NoEntry) => Err(None),
        Err(other) => Err(Some(format!("{other}"))),
    }
}

/// Relies on keyring::Entry::set_password: stores the secret under the
/// entry, overwriting any previous one; failure reported as above.
#[verifier::external_body]
fn entry_set(e: &keyring::Entry, secret: &str) -> (r: Result<(), Option<String>>) {
    match e.set_password(secret) {
        Ok(u) => Ok(u),
        Err(keyring::Error::NoEntry) => Err(None),
        Err(other) => Err(Some(format!("{other}"))),
    }
}

/// Relies on keyring::Entry::get_password: the stored secret, or the
/// platform's report — `None` exactly when no entry is stored.
#[verifier::external_body]
fn entry_get(e: &keyring::Entry) -> (r: Result<String, Option<String>>) {
    match e.get_password() {
        Ok(s) => Ok(s),
        Err(keyring::Error::NoEntry) => Err(None),
        Err(other) => Err(Some(format!("{other}"))),
    }
}

/// Relies on keyring::Entry::delete_password: removes the stored secret;
/// `None` exactly when none was stored to begin with.
#[verifier::external_body]
fn entry_delete(e: &keyring::Entry) -> (r: Result<(), Option<String>>) {
    match e.delete_password() {
        Ok(u) => Ok(u),
        Err(keyring::Error::NoEntry) => Err(None),
        Err(other) => Err(Some(format!("{other}"))),
    }
}

/// The fault a platform report denotes: the no-entry report is the missing
/// secret, and only it; any other text is a store fault carrying it.
pub open spec fn fault_spec(report: Option<String>) -> StoreFault {
    match report {
        None => StoreFault::Missing,
        Some(t) => StoreFault::Other(t),
    }
}

/// Classify a platform report. Verified, so `Missing` — and with it the
/// distinct not-found condition the callers rely on — can only come from
/// the platform's own no-entry answer.
pub fn fault_of(report: Option<String>) -> (r: StoreFault)
    ensures
        r == fault_spec(report),
        r is Missing <==> report is None,
{
    match report {
        None => StoreFault::Missing,
        Some(t) => StoreFault::Other(t),
    }
}

/// Store the refresh token under the fixed service and account pair; what
/// comes back is the platform store's answer, its failure classified by
/// `fault_spec`.
pub fn save_refresh_token(secret: &str) -> (r: Result<(), StoreFault>) {
    match entry_new(SERVICE_ID, ACCOUNT_ID) {
        Ok(e) => match entry_set(&e, secret) {
            Ok(u) => Ok(u),
            Err(err) => Err(fault_of(err)),
        },
        Err(err) => Err(fault_of(err)),
    }
}

/// Load the stored refresh token; by `fault_spec`, `Missing` exactly when
/// the platform reports that none is stored.
pub fn load_refresh_token() -> (r: Result<String, StoreFault>) {
    match entry_new(SERVICE_ID, ACCOUNT_ID) {
        Ok(e) => match entry_get(&e) {
            Ok(s) => Ok(s),
            Err(err) => Err(fault_of(err)),
        },
        Err(err) => Err(fault_of(err)),
    }
}

/// Delete the stored refresh token; by `fault_spec`, `Missing` exactly
/// when the platform reports that none was stored.
pub fn delete_refresh_token() -> (r: Result<(), StoreFault>) {
    match entry_new(SERVICE_ID, ACCOUNT_ID) {
        Ok(e) => match entry_delete(&e) {
            Ok(u) => Ok(u),
            Err(err) => Err(fault_of(err)),
        },
        Err(err) => Err(fault_of(err)),
    }
}

// The store itself lives outside this process, so its behaviour is stated
// as a model: the one secret it holds, if any. A save overwrites it, a
// delete empties it, and a load finds exactly what it holds.

/// The store after a save: it holds the saved secret and nothing else.
pub open spec fn store_after_save(m: Option<String>, secret: String) -> Option<String> {
    Some(secret)
}

/// The store after a delete: it holds nothing, whatever it held.
pub open spec fn store_after_delete(m: Option<String>) -> Option<String> {
    None
}

/// What a load finds: the held secret, or `Missing` when none is held.
pub open spec fn load_of_store(m: Option<String>) -> Result<String, StoreFault> {
    match m {
        Some(s) => Ok(s),
        None => Err(StoreFault::Missing),
    }
}

/// A save followed by a load yields exactly the saved secret, with no
/// transformation, whatever the store held before.
pub proof fn lemma_save_then_load(m: Option<String>, secret: String)
    ensures
        load_of_store(store_after_save(m, secret)) == Ok::<String, StoreFault>(secret),
{
}

} // verus!
