//! Errors: what the cryptographic layer and storage can signal, and what
//! callers of the credential flows see.

use vstd::prelude::*;

verus! {

/// What can go wrong in the cryptographic layer.
#[derive(Debug, Clone, Copy, PartialEq, Eq, Structural)]
pub enum CryptoError {
    /// The hashing primitive itself failed. Never caused by what the
    /// password holds.
    HashingFailed,
    /// Stored hash text is not in PHC form.
    CorruptHash,
    /// The password does not belong to the hash.
    InvalidCredentials,
    /// The signing primitive failed.
    SigningFailed,
}

/// What the storage collaborator can signal.
#[derive(Debug, Clone, Copy, PartialEq, Eq, Structural)]
pub enum StorageError {
    /// Nothing is stored under the key that was asked for.
    NotFound,
    /// A uniqueness rule refused the write.
    Conflict,
    /// Anything else: the store could not do its work.
    Unavailable,
}

/// Why a login attempt fails on the credentials themselves.
#[derive(Debug, Clone, Copy, PartialEq, Eq, Structural)]
pub enum CredentialError {
    /// No user has the handle.
    UnknownHandle,
    /// The password is not the user's.
    PasswordMismatch,
}

/// A failed request, as it is reported.
#[derive(Debug, Clone, Copy, PartialEq, Eq, Structural)]
pub enum ApiError {
    /// The handle or the password is wrong. Which of the two is not told.
    InvalidCredentials,
    /// Storage refused the handle of a registration.
    RegistrationFailed,
    /// A cryptographic step failed. The cause stays inside.
    Internal,
    /// Storage failed; its error is passed on unchanged.
    Storage(StorageError),
}

/// How a credential failure is reported: always the same way.
pub open spec fn credential_error(e: CredentialError) -> ApiError {
    ApiError::InvalidCredentials
}

/// How a cryptographic failure is reported.
pub open spec fn crypto_error(e: CryptoError) -> ApiError {
    match e {
        CryptoError::InvalidCredentials => credential_error(CredentialError::PasswordMismatch),
        _ => ApiError::Internal,
    }
}

/// How a storage failure is reported when a user is being created.
pub open spec fn registration_error(e: StorageError) -> ApiError {
    match e {
        StorageError::Conflict => ApiError::RegistrationFailed,
        _ => ApiError::Storage(e),
    }
}

/// How a storage failure is reported when a password hash is looked up.
pub open spec fn lookup_error(e: StorageError) -> ApiError {
    match e {
        StorageError::NotFound => credential_error(CredentialError::UnknownHandle),
        _ => ApiError::Storage(e),
    }
}

impl ApiError {
    /// Reports a credential failure. An unknown handle and a wrong
    /// password give the same error.
    pub fn from_credential(e: CredentialError) -> (res: ApiError)
        ensures
            res == credential_error(e),
            res == ApiError::InvalidCredentials,
    {
        match e {
            CredentialError::UnknownHandle => ApiError::InvalidCredentials,
            CredentialError::PasswordMismatch => ApiError::InvalidCredentials,
        }
    }

    /// Reports a cryptographic failure: a mismatch as invalid credentials,
    /// everything else as an opaque internal error.
    pub fn from_crypto(e: CryptoError) -> (res: ApiError)
        ensures
            res == crypto_error(e),
    {
        match e {
            CryptoError::InvalidCredentials => ApiError::from_credential(
                CredentialError::PasswordMismatch,
            ),
            CryptoError::HashingFailed => ApiError::Internal,
            CryptoError::CorruptHash => ApiError::Internal,
            CryptoError::SigningFailed => ApiError::Internal,
        }
    }

    /// Reports a storage failure during registration: a conflict as a
    /// failed registration, everything else unchanged.
    pub fn from_registration(e: StorageError) -> (res: ApiError)
        ensures
            res == registration_error(e),
    {
        match e {
            StorageError::Conflict => ApiError::RegistrationFailed,
            StorageError::NotFound => ApiError::Storage(e),
            StorageError::Unavailable => ApiError::Storage(e),
        }
    }

    /// Reports a storage failure during the lookup of a password hash: a
    /// missing handle as invalid credentials, everything else unchanged.
    pub fn from_lookup(e: StorageError) -> (res: ApiError)
        ensures
            res == lookup_error(e),
    {
        match e {
            StorageError::NotFound => ApiError::from_credential(CredentialError::UnknownHandle),
            StorageError::Conflict => ApiError::Storage(e),
            StorageError::Unavailable => ApiError::Storage(e),
        }
    }

    /// The text shown to the caller.
    pub fn message(&self) -> (res: &'static str)
        ensures
            *self == ApiError::InvalidCredentials ==> res@ == "invalid credentials"@,
            *self == ApiError::RegistrationFailed ==> res@ == "registration failed"@,
            *self == ApiError::Internal ==> res@ == "internal error"@,
            self is Storage ==> res@ == "storage error"@,
    {
        match self {
            ApiError::InvalidCredentials => "invalid credentials",
            ApiError::RegistrationFailed => "registration failed",
            ApiError::Internal => "internal error",
            ApiError::Storage(_) => "storage error",
        }
    }
}

/// Every credential failure is reported alike, and as a wrong password is:
/// the report does not tell whether the handle exists.
pub proof fn lemma_credential_failures_look_alike(a: CredentialError, b: CredentialError)
    ensures
        credential_error(a) == credential_error(b),
        credential_error(a) == ApiError::InvalidCredentials,
        lookup_error(StorageError::NotFound) == crypto_error(CryptoError::InvalidCredentials),
{
}

} // verus!
