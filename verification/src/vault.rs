//! The secret vault facade: one secret per provider in the operating
//! system's credential store, reached through the `keyring` crate. The vault
//! belongs to the system; this module decides what each of its answers means
//! to the caller.

use crate::error::{failure, ErrorKind, ErrorModel, SidecarError};
use vstd::prelude::*;

verus! {

/// The service under which every entry is filed.
pub const KEYRING_SERVICE: &'static str = "sidecar-app";

/// `keyring::Entry`, the handle to one entry of the system's store.
#[verifier::external_type_specification]
#[verifier::external_body]
pub struct ExEntry(keyring::Entry);

/// `keyring::Error`, the store's own account of a failure.
#[verifier::external_type_specification]
#[verifier::external_body]
pub struct ExVaultError(keyring::Error);

/// `keyring::Entry::new`. Whether the store accepts the names depends on the
/// platform; nothing is claimed of the outcome. The crate panics where its
/// own lock on the store's builder is poisoned.
pub assume_specification[ keyring::Entry::new ](service: &str, user: &str) -> (entry: Result<
    keyring::Entry,
    keyring::Error,
>)
;

/// `keyring::Entry::set_password`. Nothing is claimed of the outcome.
pub assume_specification[ keyring::Entry::set_password ](
    entry: &keyring::Entry,
    password: &str,
) -> (done: Result<(), keyring::Error>)
;

/// `keyring::Entry::get_password`. Nothing is claimed of the outcome.
pub assume_specification[ keyring::Entry::get_password ](entry: &keyring::Entry) -> (found: Result<
    String,
    keyring::Error,
>)
;

/// `keyring::Entry::delete_credential`. Nothing is claimed of the outcome.
pub assume_specification[ keyring::Entry::delete_credential ](entry: &keyring::Entry) -> (done:
    Result<(), keyring::Error>)
;

/// A failure of the vault, as far as the facade reads it.
#[derive(Debug, Clone, PartialEq, Eq)]
pub struct VaultFailure {
    /// Whether the store reports that the entry does not exist.
    pub no_entry: bool,
    /// The store's own message.
    pub message: String,
}

/// The mathematical content of a [`VaultFailure`].
pub struct FailureModel {
    pub no_entry: bool,
    pub message: Seq<char>,
}

impl View for VaultFailure {
    type V = FailureModel;

    open spec fn view(&self) -> FailureModel {
        FailureModel { no_entry: self.no_entry, message: self.message@ }
    }
}

/// Reads a `keyring::Error`: whether it is the variant `NoEntry`, and its
/// `Display` text.
///
/// Trusted: nothing is claimed of the result.
#[verifier::external_body]
pub(crate) fn describe(error: &keyring::Error) -> (failure: VaultFailure) {
    VaultFailure { no_entry: matches!(error, keyring::Error::NoEntry), message: error.to_string() }
}

/// A `Keyring` error with the given detail.
pub open spec fn keyring_failure(detail: Seq<char>) -> ErrorModel {
    failure(ErrorKind::Keyring, detail)
}

/// What the caller of a store receives: success, or any failure of the
/// vault as a `Keyring` error.
pub open spec fn stored(done: Result<(), FailureModel>) -> Result<(), ErrorModel> {
    match done {
        Ok(_) => Ok(()),
        Err(f) => Err(keyring_failure(f.message)),
    }
}

/// What the caller of a lookup receives: the secret, nothing where the
/// entry does not exist, or any other failure as a `Keyring` error.
pub open spec fn retrieved(found: Result<Seq<char>, FailureModel>) -> Result<
    Option<Seq<char>>,
    ErrorModel,
> {
    match found {
        Ok(secret) => Ok(Some(secret)),
        Err(f) => if f.no_entry {
            Ok(None)
        } else {
            Err(keyring_failure(f.message))
        },
    }
}

/// What the caller of a deletion receives: success where the entry was
/// removed and where there was none to remove, any other failure as a
/// `Keyring` error.
pub open spec fn deleted(done: Result<(), FailureModel>) -> Result<(), ErrorModel> {
    match done {
        Ok(_) => Ok(()),
        Err(f) => if f.no_entry {
            Ok(())
        } else {
            Err(keyring_failure(f.message))
        },
    }
}

/// A vault's answer by its views.
pub open spec fn answer_model<T>(answer: Result<T, VaultFailure>) -> Result<T, FailureModel> {
    match answer {
        Ok(value) => Ok(value),
        Err(f) => Err(f@),
    }
}

/// A vault's answer to a lookup by its views.
pub open spec fn lookup_model(answer: Result<String, VaultFailure>) -> Result<
    Seq<char>,
    FailureModel,
> {
    match answer {
        Ok(secret) => Ok(secret@),
        Err(f) => Err(f@),
    }
}

/// The result of a lookup by its views.
pub open spec fn retrieval_model(result: Result<Option<String>, SidecarError>) -> Result<
    Option<Seq<char>>,
    ErrorModel,
> {
    match result {
        Ok(Some(secret)) => Ok(Some(secret@)),
        Ok(None) => Ok(None),
        Err(error) => Err(error@),
    }
}

/// The result of a store or a deletion by its views.
pub open spec fn unit_model(result: Result<(), SidecarError>) -> Result<(), ErrorModel> {
    match result {
        Ok(_) => Ok(()),
        Err(error) => Err(error@),
    }
}

/// How a vault that works answers a lookup: the secret where the provider
/// has one, the report that there is no entry where it has none.
pub open spec fn faithful_lookup(
    vault: Map<Seq<char>, Seq<char>>,
    provider: Seq<char>,
    absent: Seq<char>,
) -> Result<Seq<char>, FailureModel> {
    if vault.contains_key(provider) {
        Ok(vault[provider])
    } else {
        Err(FailureModel { no_entry: true, message: absent })
    }
}

/// How a vault that works answers a deletion.
pub open spec fn faithful_deletion(
    vault: Map<Seq<char>, Seq<char>>,
    provider: Seq<char>,
    absent: Seq<char>,
) -> Result<(), FailureModel> {
    if vault.contains_key(provider) {
        Ok(())
    } else {
        Err(FailureModel { no_entry: true, message: absent })
    }
}

/// Deleting is idempotent: against a vault that works, a deletion succeeds
/// whether or not the provider had a secret, and a lookup after it finds
/// nothing.
pub proof fn lemma_delete_is_idempotent(
    vault: Map<Seq<char>, Seq<char>>,
    provider: Seq<char>,
    absent: Seq<char>,
)
    ensures
        deleted(faithful_deletion(vault, provider, absent)) is Ok,
        deleted(faithful_deletion(vault.remove(provider), provider, absent)) is Ok,
        retrieved(faithful_lookup(vault.remove(provider), provider, absent)) == Ok::<
            Option<Seq<char>>,
            ErrorModel,
        >(None),
{
}

/// A lookup after a store finds the stored secret, against a vault that
/// works.
pub proof fn lemma_retrieve_after_store(
    vault: Map<Seq<char>, Seq<char>>,
    provider: Seq<char>,
    secret: Seq<char>,
    absent: Seq<char>,
)
    ensures
        retrieved(faithful_lookup(vault.insert(provider, secret), provider, absent)) == Ok::<
            Option<Seq<char>>,
            ErrorModel,
        >(Some(secret)),
{
}

/// Turns the vault's answer to a store into the caller's result.
pub fn store_outcome(done: Result<(), VaultFailure>) -> (result: Result<(), SidecarError>)
    ensures
        unit_model(result) == stored(answer_model(done)),
{
    match done {
        Ok(_) => Ok(()),
        Err(f) => Err(SidecarError::Keyring(f.message)),
    }
}

/// Turns the vault's answer to a lookup into the caller's result.
pub fn retrieve_outcome(found: Result<String, VaultFailure>) -> (result: Result<
    Option<String>,
    SidecarError,
>)
    ensures
        retrieval_model(result) == retrieved(lookup_model(found)),
{
    match found {
        Ok(secret) => Ok(Some(secret)),
        Err(f) => if f.no_entry {
            Ok(None)
        } else {
            Err(SidecarError::Keyring(f.message))
        },
    }
}

/// Turns the vault's answer to a deletion into the caller's result.
pub fn delete_outcome(done: Result<(), VaultFailure>) -> (result: Result<(), SidecarError>)
    ensures
        unit_model(result) == deleted(answer_model(done)),
{
    match done {
        Ok(_) => Ok(()),
        Err(f) => if f.no_entry {
            Ok(())
        } else {
            Err(SidecarError::Keyring(f.message))
        },
    }
}

/// Stores `credentials` as the secret of `provider`, replacing an earlier
/// one. What the vault answers is the system's affair: whatever it is, a
/// failure surfaces as a `Keyring` error.
pub fn store_credentials(provider: String, credentials: String) -> (result: Result<
    (),
    SidecarError,
>)
    ensures
        result matches Err(error) ==> error@.kind == ErrorKind::Keyring,
{
    let entry = match keyring::Entry::new(KEYRING_SERVICE, provider.as_str()) {
        Ok(entry) => entry,
        Err(error) => {
            return Err(SidecarError::Keyring(describe(&error).message));
        },
    };
    let done = match entry.set_password(credentials.as_str()) {
        Ok(_) => Ok(()),
        Err(error) => Err(describe(&error)),
    };
    store_outcome(done)
}

/// Looks up the secret of `provider`. An entry that does not exist is no
/// error: the result is then `None`.
pub fn get_credentials(provider: String) -> (result: Result<Option<String>, SidecarError>)
    ensures
        result matches Err(error) ==> error@.kind == ErrorKind::Keyring,
{
    let entry = match keyring::Entry::new(KEYRING_SERVICE, provider.as_str()) {
        Ok(entry) => entry,
        Err(error) => {
            return Err(SidecarError::Keyring(describe(&error).message));
        },
    };
    let found = match entry.get_password() {
        Ok(secret) => Ok(secret),
        Err(error) => Err(describe(&error)),
    };
    retrieve_outcome(found)
}

/// Removes the secret of `provider`. Removing what is not there succeeds.
pub fn delete_credentials(provider: String) -> (result: Result<(), SidecarError>)
    ensures
        result matches Err(error) ==> error@.kind == ErrorKind::Keyring,
{
    let entry = match keyring::Entry::new(KEYRING_SERVICE, provider.as_str()) {
        Ok(entry) => entry,
        Err(error) => {
            return Err(SidecarError::Keyring(describe(&error).message));
        },
    };
    let done = match entry.delete_credential() {
        Ok(_) => Ok(()),
        Err(error) => Err(describe(&error)),
    };
    delete_outcome(done)
}

} // verus!
