use vstd::prelude::*;

use crate::collections::Duplicate;

verus! {

/// Where a failure came from: the local cache, or the network.
#[derive(Debug, Clone, Copy, PartialEq, Eq, Structural)]
pub enum ErrorType {
    Cache,
    Network,
}

/// A failure, with an optional machine-readable code.
#[derive(Debug)]
pub struct ErrorModel {
    pub error_type: ErrorType,
    pub message: String,
    pub error_code: Option<String>,
}

/// The content of a failure.
pub struct ErrorView {
    pub error_type: ErrorType,
    pub message: Seq<char>,
    pub error_code: Option<Seq<char>>,
}

impl DeepView for ErrorModel {
    type V = ErrorView;

    open spec fn deep_view(&self) -> ErrorView {
        ErrorView {
            error_type: self.error_type,
            message: self.message@,
            error_code: self.error_code.deep_view(),
        }
    }
}

impl Duplicate for ErrorModel {
    fn duplicate(&self) -> (r: Self) {
        ErrorModel {
            error_type: self.error_type,
            message: self.message.clone(),
            error_code: self.error_code.duplicate(),
        }
    }
}

/// The error after giving it `code` unless it already carries one.
pub open spec fn spec_or_code(e: ErrorView, code: Seq<char>) -> ErrorView {
    if e.error_code is Some {
        e
    } else {
        ErrorView { error_code: Some(code), ..e }
    }
}

impl ErrorModel {
    pub fn cache(message: &str) -> (r: Self)
        ensures
            r.deep_view() == (ErrorView {
                error_type: ErrorType::Cache,
                message: message@,
                error_code: None,
            }),
    {
        ErrorModel { error_type: ErrorType::Cache, message: String::from_str(message), error_code: None }
    }

    pub fn network(message: &str) -> (r: Self)
        ensures
            r.deep_view() == (ErrorView {
                error_type: ErrorType::Network,
                message: message@,
                error_code: None,
            }),
    {
        ErrorModel {
            error_type: ErrorType::Network,
            message: String::from_str(message),
            error_code: None,
        }
    }

    /// The same error with its code set to `code`.
    pub fn with_code(self, code: &str) -> (r: Self)
        ensures
            r.deep_view() == (ErrorView { error_code: Some(code@), ..self.deep_view() }),
    {
        ErrorModel { error_code: Some(String::from_str(code)), ..self }
    }

    /// The same error, given `code` only if it has none yet.
    pub fn or_code(self, code: &str) -> (r: Self)
        ensures
            r.deep_view() == spec_or_code(self.deep_view(), code@),
    {
        if self.error_code.is_some() {
            self
        } else {
            self.with_code(code)
        }
    }
}

/// A failure of a sync stage: the error keeps a code it already has, and
/// otherwise gets the stage's code.
pub fn sync_error(error: ErrorModel, code: &str) -> (r: ErrorModel)
    ensures
        r.deep_view() == spec_or_code(error.deep_view(), code@),
        r.deep_view().error_code is Some,
{
    error.or_code(code)
}

} // verus!
