//! Typed application errors for the domain and infrastructure boundaries.

use vstd::prelude::*;

verus! {

/// An error of the application, with the detail that goes with it.
#[derive(Debug)]
pub enum AppError {
    Connection(String),
    TigerBeetle(String),
    Validation(String),
    Internal(String),
}

impl AppError {
    /// The text that introduces an error of this kind.
    pub open spec fn spec_prefix(self) -> Seq<char> {
        match self {
            AppError::Connection(_) => "Connection error: "@,
            AppError::TigerBeetle(_) => "TigerBeetle error: "@,
            AppError::Validation(_) => "Validation error: "@,
            AppError::Internal(_) => "Internal error: "@,
        }
    }

    /// The detail that the error carries.
    pub open spec fn spec_detail(self) -> Seq<char> {
        match self {
            AppError::Connection(detail) => detail@,
            AppError::TigerBeetle(detail) => detail@,
            AppError::Validation(detail) => detail@,
            AppError::Internal(detail) => detail@,
        }
    }

    /// The display form of the error: its prefix followed by its detail.
    pub open spec fn spec_message(self) -> Seq<char> {
        self.spec_prefix() + self.spec_detail()
    }

    /// Renders the error for display.
    pub fn message(&self) -> (r: String)
        ensures
            r@ == self.spec_message(),
    {
        match self {
            AppError::Connection(detail) => "Connection error: ".to_owned().concat(detail.as_str()),
            AppError::TigerBeetle(detail) => "TigerBeetle error: ".to_owned().concat(
                detail.as_str(),
            ),
            AppError::Validation(detail) => "Validation error: ".to_owned().concat(detail.as_str()),
            AppError::Internal(detail) => "Internal error: ".to_owned().concat(detail.as_str()),
        }
    }
}

} // verus!
