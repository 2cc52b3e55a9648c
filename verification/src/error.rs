//! The ways a request is turned down.

use vstd::prelude::*;
use vstd::string::*;

verus! {

/// Why a request shape was rejected before any store access.
#[derive(Debug, PartialEq, Eq)]
pub enum ValidationError {
    /// An update came without an id.
    MissingIdOnUpdate,
    /// A create lacked the named required field.
    MissingRequiredOnCreate(String),
    /// The owner that the request asserts is not the caller; the text names
    /// both values.
    InvalidOwnerId(String),
    /// A create came with an id.
    IdProvidedOnCreate,
}

/// A `ValidationError` with its texts as sequences of characters.
pub enum ValidationErrorView {
    MissingIdOnUpdate,
    MissingRequiredOnCreate(Seq<char>),
    InvalidOwnerId(Seq<char>),
    IdProvidedOnCreate,
}

impl View for ValidationError {
    type V = ValidationErrorView;

    open spec fn view(&self) -> ValidationErrorView {
        match self {
            ValidationError::MissingIdOnUpdate => ValidationErrorView::MissingIdOnUpdate,
            ValidationError::MissingRequiredOnCreate(s) => ValidationErrorView::MissingRequiredOnCreate(s@),
            ValidationError::InvalidOwnerId(s) => ValidationErrorView::InvalidOwnerId(s@),
            ValidationError::IdProvidedOnCreate => ValidationErrorView::IdProvidedOnCreate,
        }
    }
}

/// The outcome of a validation, with the error taken by its view.
pub open spec fn verdict(r: Result<(), ValidationError>) -> Result<(), ValidationErrorView> {
    match r {
        Ok(_) => Ok(()),
        Err(e) => Err(e@),
    }
}

impl ValidationErrorView {
    /// The sentence that reports the error.
    pub open spec fn message(self) -> Seq<char> {
        match self {
            ValidationErrorView::MissingIdOnUpdate => "id required for updates"@,
            ValidationErrorView::MissingRequiredOnCreate(s) => "missing required field `"@ + s + "`"@,
            ValidationErrorView::InvalidOwnerId(s) => s,
            ValidationErrorView::IdProvidedOnCreate => "id must not be provided for create"@,
        }
    }

    /// The name of the error's kind.
    pub open spec fn description(self) -> Seq<char> {
        match self {
            ValidationErrorView::MissingIdOnUpdate => "Missing id error"@,
            ValidationErrorView::MissingRequiredOnCreate(_) => "Missing required field error"@,
            ValidationErrorView::InvalidOwnerId(_) => "Invalid owner_id in request error"@,
            ValidationErrorView::IdProvidedOnCreate => "Id provided on create error"@,
        }
    }
}

impl ValidationError {
    /// The sentence that reports the error.
    pub fn message(&self) -> (r: String)
        ensures
            r@ == self@.message(),
    {
        match self {
            ValidationError::MissingIdOnUpdate => String::from_str("id required for updates"),
            ValidationError::MissingRequiredOnCreate(s) => {
                let mut out = String::from_str("missing required field `");
                out.append(s.as_str());
                out.append("`");
                out
            },
            ValidationError::InvalidOwnerId(s) => s.clone(),
            ValidationError::IdProvidedOnCreate => String::from_str(
                "id must not be provided for create",
            ),
        }
    }

    /// The name of the error's kind.
    pub fn description(&self) -> (r: &'static str)
        ensures
            r@ == self@.description(),
    {
        match self {
            ValidationError::MissingIdOnUpdate => "Missing id error",
            ValidationError::MissingRequiredOnCreate(_) => "Missing required field error",
            ValidationError::InvalidOwnerId(_) => "Invalid owner_id in request error",
            ValidationError::IdProvidedOnCreate => "Id provided on create error",
        }
    }
}

/// Why a store operation gave no record. The cause underneath (no row, or the
/// connection could not be had) is not told apart.
#[derive(Debug, Clone, Copy, PartialEq, Eq, Structural)]
pub enum StoreError {
    NotCreated,
    NotFound,
}

impl StoreError {
    /// The sentence that reports the error.
    pub open spec fn spec_message(self) -> Seq<char> {
        match self {
            StoreError::NotCreated => "The data could not be created"@,
            StoreError::NotFound => "The data could not be found"@,
        }
    }

    /// The name of the error's kind.
    pub open spec fn spec_description(self) -> Seq<char> {
        match self {
            StoreError::NotCreated => "NotCreated error"@,
            StoreError::NotFound => "NotFound error"@,
        }
    }

    /// The sentence that reports the error.
    pub fn message(&self) -> (r: String)
        ensures
            r@ == self.spec_message(),
    {
        match self {
            StoreError::NotCreated => String::from_str("The data could not be created"),
            StoreError::NotFound => String::from_str("The data could not be found"),
        }
    }

    /// The name of the error's kind.
    pub fn description(&self) -> (r: &'static str)
        ensures
            r@ == self.spec_description(),
    {
        match self {
            StoreError::NotCreated => "NotCreated error",
            StoreError::NotFound => "NotFound error",
        }
    }
}

/// The result of a store operation.
pub type StoreResult<T> = Result<T, StoreError>;

/// What a caller is told when a request is turned down. Which check failed is
/// never told: a missing, unknown and expired session all read the same.
#[derive(Debug, Clone, Copy, PartialEq, Eq, Structural)]
pub enum AuthrError {
    NotFound,
    NotAuthorized,
}

impl AuthrError {
    /// The body of the response.
    pub open spec fn spec_message(self) -> Seq<char> {
        match self {
            AuthrError::NotFound => "Not Found"@,
            AuthrError::NotAuthorized => "Not Authorized"@,
        }
    }

    /// The name of the error's kind.
    pub open spec fn spec_description(self) -> Seq<char> {
        match self {
            AuthrError::NotFound => "Not Found error"@,
            AuthrError::NotAuthorized => "Not Authorized error"@,
        }
    }

    /// The HTTP status of the response: 404 or 403.
    pub open spec fn spec_status(self) -> u16 {
        match self {
            AuthrError::NotFound => 404,
            AuthrError::NotAuthorized => 403,
        }
    }

    /// The body of the response.
    pub fn message(&self) -> (r: &'static str)
        ensures
            r@ == self.spec_message(),
    {
        match self {
            AuthrError::NotFound => "Not Found",
            AuthrError::NotAuthorized => "Not Authorized",
        }
    }

    /// The name of the error's kind.
    pub fn description(&self) -> (r: &'static str)
        ensures
            r@ == self.spec_description(),
    {
        match self {
            AuthrError::NotFound => "Not Found error",
            AuthrError::NotAuthorized => "Not Authorized error",
        }
    }

    /// The HTTP status of the response.
    pub fn status(&self) -> (r: u16)
        ensures
            r == self.spec_status(),
    {
        match self {
            AuthrError::NotFound => 404,
            AuthrError::NotAuthorized => 403,
        }
    }
}

} // verus!
