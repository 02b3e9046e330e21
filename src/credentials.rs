use vstd::prelude::*;

verus! {

#[verifier::external_type_specification]
#[verifier::external_body]
pub struct ExEntry(keyring::Entry);

#[verifier::external_type_specification]
#[verifier::external_body]
pub struct ExKeyringError(keyring::Error);

/// Relies on keyring::Entry::new: builds a handle on the (service, user)
/// slot of the platform store, or fails; nothing is promised of which.
pub assume_specification[ keyring::Entry::new ](service: &str, user: &str) -> Result<
    keyring::Entry,
    keyring::Error,
>;

/// Relies on keyring::Entry::set_password: writes the secret of the slot,
/// or fails; the outcome depends on the platform store.
pub assume_specification[ keyring::Entry::set_password ](
    entry: &keyring::Entry,
    password: &str,
) -> Result<(), keyring::Error>;

/// Relies on keyring::Entry::get_password: reads the secret of the slot,
/// or fails; the outcome depends on the platform store.
pub assume_specification[ keyring::Entry::get_password ](entry: &keyring::Entry) -> Result<
    String,
    keyring::Error,
>;

/// Relies on keyring::Entry::delete_password: removes the secret of the
/// slot, or fails; the outcome depends on the platform store.
pub assume_specification[ keyring::Entry::delete_password ](entry: &keyring::Entry) -> Result<
    (),
    keyring::Error,
>;

/// A failure reported by the platform store, as plain values.
#[derive(Debug)]
pub struct StoreFault {
    /// The store holds no secret for the slot.
    pub no_entry: bool,
    /// The store's own account of the failure.
    pub message: String,
}

/// Relies on keyring::Error's variants and its Display impl: `NoEntry`
/// marks a missing slot, and the text is the error's rendering.
#[verifier::external_body]
fn fault_of(e: keyring::Error) -> (r: StoreFault) {
    StoreFault { no_entry: matches!(e, keyring::Error::NoEntry), message: e.to_string() }
}

/// Why a credential operation failed.
#[derive(Debug, PartialEq, Eq)]
pub enum CredentialError {
    /// No secret is stored for the (service, user) pair.
    NotFound,
    /// The platform store failed, for the reason given.
    BackendError(String),
}

/// The text shown for a missing credential.
pub const NOT_FOUND_MESSAGE: &'static str = "No matching entry found in secure storage";

impl CredentialError {
    /// The error as the text handed to the user interface.
    pub fn message(&self) -> (r: String)
        ensures
            self is NotFound ==> r@ == NOT_FOUND_MESSAGE@,
            self matches CredentialError::BackendError(m) ==> r@ == m@,
    {
        match self {
            CredentialError::NotFound => NOT_FOUND_MESSAGE.to_owned(),
            CredentialError::BackendError(m) => m.clone(),
        }
    }
}

/// The library's error for a store fault.
pub open spec fn error_of(f: StoreFault) -> CredentialError {
    if f.no_entry {
        CredentialError::NotFound
    } else {
        CredentialError::BackendError(f.message)
    }
}

/// Classifies a store fault: a missing slot is `NotFound`, anything else is
/// a `BackendError` that keeps the store's message.
pub fn classify_fault(f: StoreFault) -> (r: CredentialError)
    ensures
        r == error_of(f),
{
    if f.no_entry {
        CredentialError::NotFound
    } else {
        CredentialError::BackendError(f.message)
    }
}

/// The outcome of a store operation in the library's terms: a value passes
/// through unchanged and a fault is classified.
pub open spec fn settled<T>(r: Result<T, StoreFault>) -> Result<T, CredentialError> {
    match r {
        Ok(v) => Ok(v),
        Err(f) => Err(error_of(f)),
    }
}

/// Turns the outcome of a store operation into the library's terms.
pub fn settle<T>(r: Result<T, StoreFault>) -> (out: Result<T, CredentialError>)
    ensures
        out == settled(r),
{
    match r {
        Ok(v) => Ok(v),
        Err(f) => Err(classify_fault(f)),
    }
}

fn write_slot(service: &str, user: &str, token: &str) -> Result<(), StoreFault> {
    match keyring::Entry::new(service, user) {
        Ok(entry) => match entry.set_password(token) {
            Ok(()) => Ok(()),
            Err(e) => Err(fault_of(e)),
        },
        Err(e) => Err(fault_of(e)),
    }
}

fn read_slot(service: &str, user: &str) -> Result<String, StoreFault> {
    match keyring::Entry::new(service, user) {
        Ok(entry) => match entry.get_password() {
            Ok(secret) => Ok(secret),
            Err(e) => Err(fault_of(e)),
        },
        Err(e) => Err(fault_of(e)),
    }
}

fn clear_slot(service: &str, user: &str) -> Result<(), StoreFault> {
    match keyring::Entry::new(service, user) {
        Ok(entry) => match entry.delete_password() {
            Ok(()) => Ok(()),
            Err(e) => Err(fault_of(e)),
        },
        Err(e) => Err(fault_of(e)),
    }
}

/// Stores `token` as the secret of the (service, user) slot, replacing any
/// earlier one. Whether the store accepts it is up to the platform.
pub fn save_token(service: String, user: String, token: String) -> Result<(), CredentialError> {
    settle(write_slot(service.as_str(), user.as_str(), token.as_str()))
}

/// Reads the secret of the (service, user) slot: `NotFound` where the store
/// holds none, `BackendError` where the store fails.
pub fn get_token(service: String, user: String) -> Result<String, CredentialError> {
    settle(read_slot(service.as_str(), user.as_str()))
}

/// Removes the secret of the (service, user) slot: `NotFound` where the
/// store holds none, `BackendError` where the store fails.
pub fn delete_token(service: String, user: String) -> Result<(), CredentialError> {
    settle(clear_slot(service.as_str(), user.as_str()))
}

} // verus!
