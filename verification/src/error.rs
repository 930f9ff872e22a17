//! The error taxonomy shared by every component.

use vstd::prelude::*;
use vstd::string::StringExecFns;

verus! {

/// The component or condition that an error is tagged with.
#[derive(Debug, Clone, Copy, PartialEq, Eq, Structural)]
pub enum ErrorKind {
    /// The relational store failed to open, prepare, execute or query.
    Database,
    /// The key is missing, the envelope is malformed, authentication failed
    /// or the plaintext is not text.
    Encryption,
    /// The operating system's vault could not be reached.
    Keyring,
    /// An operation ran before its required initialization, or the
    /// environment is unusable.
    InvalidState,
    /// A lookup found no match.
    NotFound,
    /// A structured payload was malformed.
    Serialization,
}

/// What went wrong: the kind, and the human-readable detail. A store's or a
/// cipher's own message is passed through verbatim as the detail.
#[derive(Debug, PartialEq, Eq)]
pub enum SidecarError {
    Database(String),
    Encryption(String),
    Keyring(String),
    InvalidState(String),
    NotFound(String),
    Serialization(String),
}

/// The mathematical content of a [`SidecarError`].
pub struct ErrorModel {
    pub kind: ErrorKind,
    pub detail: Seq<char>,
}

/// The error of the given kind with the given detail.
pub open spec fn failure(kind: ErrorKind, detail: Seq<char>) -> ErrorModel {
    ErrorModel { kind, detail }
}

/// The words that announce an error's kind in its rendered form.
pub open spec fn prefix(kind: ErrorKind) -> Seq<char> {
    match kind {
        ErrorKind::Database => "Database error: "@,
        ErrorKind::Encryption => "Encryption error: "@,
        ErrorKind::Keyring => "Keyring error: "@,
        ErrorKind::InvalidState => "Invalid state: "@,
        ErrorKind::NotFound => "Not found: "@,
        ErrorKind::Serialization => "Serialization error: "@,
    }
}

/// The rendered form of an error: the kind's prefix followed by the detail.
pub open spec fn rendered(error: ErrorModel) -> Seq<char> {
    prefix(error.kind) + error.detail
}

impl View for SidecarError {
    type V = ErrorModel;

    open spec fn view(&self) -> ErrorModel {
        match self {
            SidecarError::Database(m) => failure(ErrorKind::Database, m@),
            SidecarError::Encryption(m) => failure(ErrorKind::Encryption, m@),
            SidecarError::Keyring(m) => failure(ErrorKind::Keyring, m@),
            SidecarError::InvalidState(m) => failure(ErrorKind::InvalidState, m@),
            SidecarError::NotFound(m) => failure(ErrorKind::NotFound, m@),
            SidecarError::Serialization(m) => failure(ErrorKind::Serialization, m@),
        }
    }
}

/// A result whose error is read by its view.
pub open spec fn outcome_model<T>(result: Result<T, SidecarError>) -> Result<T, ErrorModel> {
    match result {
        Ok(value) => Ok(value),
        Err(error) => Err(error@),
    }
}

/// A result of text, both sides read by their views.
pub open spec fn text_outcome_model(result: Result<String, SidecarError>) -> Result<
    Seq<char>,
    ErrorModel,
> {
    match result {
        Ok(text) => Ok(text@),
        Err(error) => Err(error@),
    }
}

impl SidecarError {
    /// The error of the given kind with the given detail.
    pub fn new(kind: ErrorKind, detail: String) -> (error: SidecarError)
        ensures
            error@ == failure(kind, detail@),
    {
        match kind {
            ErrorKind::Database => SidecarError::Database(detail),
            ErrorKind::Encryption => SidecarError::Encryption(detail),
            ErrorKind::Keyring => SidecarError::Keyring(detail),
            ErrorKind::InvalidState => SidecarError::InvalidState(detail),
            ErrorKind::NotFound => SidecarError::NotFound(detail),
            ErrorKind::Serialization => SidecarError::Serialization(detail),
        }
    }

    /// The kind that the error is tagged with.
    pub fn kind(&self) -> (kind: ErrorKind)
        ensures
            kind == self@.kind,
    {
        match self {
            SidecarError::Database(_) => ErrorKind::Database,
            SidecarError::Encryption(_) => ErrorKind::Encryption,
            SidecarError::Keyring(_) => ErrorKind::Keyring,
            SidecarError::InvalidState(_) => ErrorKind::InvalidState,
            SidecarError::NotFound(_) => ErrorKind::NotFound,
            SidecarError::Serialization(_) => ErrorKind::Serialization,
        }
    }

    /// The detail that the error carries, without its tag.
    pub fn detail(&self) -> (detail: &String)
        ensures
            detail@ == self@.detail,
    {
        match self {
            SidecarError::Database(m) => m,
            SidecarError::Encryption(m) => m,
            SidecarError::Keyring(m) => m,
            SidecarError::InvalidState(m) => m,
            SidecarError::NotFound(m) => m,
            SidecarError::Serialization(m) => m,
        }
    }

    /// Renders the error as the tagged, human-readable message that callers
    /// see.
    pub fn message(&self) -> (text: String)
        ensures
            text@ == rendered(self@),
    {
        let prefix = match self {
            SidecarError::Database(_) => "Database error: ",
            SidecarError::Encryption(_) => "Encryption error: ",
            SidecarError::Keyring(_) => "Keyring error: ",
            SidecarError::InvalidState(_) => "Invalid state: ",
            SidecarError::NotFound(_) => "Not found: ",
            SidecarError::Serialization(_) => "Serialization error: ",
        };
        String::from_str(prefix).concat(self.detail().as_str())
    }
}

} // verus!
