//! The failures that the library reports, and what a responder says of each.

use vstd::prelude::*;
use vstd::string::StringExecFns;
use vstd::std_specs::convert::FromSpecImpl;
use crate::validation::{report_text, ValidationErrors};

verus! {

/// A failure of the backing store, of whatever kind. The library learns
/// nothing from it but that the operation failed; `detail` is for the log.
#[derive(Debug, PartialEq, Eq)]
pub struct StoreError {
    pub detail: String,
}

impl Clone for StoreError {
    fn clone(&self) -> (copy: Self)
        ensures
            copy == *self,
    {
        StoreError { detail: self.detail.clone() }
    }
}

/// Every way in which an operation of the library can fail.
#[derive(Debug, PartialEq, Eq)]
pub enum AppError {
    /// The store failed.
    DatabaseError(StoreError),
    /// The schema of the store could not be brought up to date.
    MigrationError(String),
    /// No record has the identity that was asked for.
    NotFound,
    /// The configuration is missing or wrong, or a resource could not be
    /// opened.
    ConfigError(String),
    /// Fields of the input break their rules.
    ValidationError(ValidationErrors),
    /// A patch supplied no field.
    NoChangesToUpdate,
    /// A record with the same identity exists. No operation of the library
    /// reports this by itself: a store that tells a conflict of identities
    /// from its other failures may.
    AlreadyExists(String),
}

/// The result of an operation of the library.
pub type AppResult<T> = Result<T, AppError>;

impl From<StoreError> for AppError {
    fn from(error: StoreError) -> (res: AppError) {
        AppError::DatabaseError(error)
    }
}

impl FromSpecImpl<StoreError> for AppError {
    open spec fn obeys_from_spec() -> bool {
        true
    }

    open spec fn from_spec(error: StoreError) -> AppError {
        AppError::DatabaseError(error)
    }
}

impl From<ValidationErrors> for AppError {
    fn from(error: ValidationErrors) -> (res: AppError) {
        AppError::ValidationError(error)
    }
}

impl FromSpecImpl<ValidationErrors> for AppError {
    open spec fn obeys_from_spec() -> bool {
        true
    }

    open spec fn from_spec(error: ValidationErrors) -> AppError {
        AppError::ValidationError(error)
    }
}

/// The status of a request that asked for a record that does not exist.
pub const STATUS_NOT_FOUND: u16 = 404;

/// The status of a request whose input was refused.
pub const STATUS_BAD_REQUEST: u16 = 400;

/// The status of a request that met a record of the same identity.
pub const STATUS_CONFLICT: u16 = 409;

/// The status of a request that failed through no fault of the caller.
pub const STATUS_INTERNAL_SERVER_ERROR: u16 = 500;

impl AppError {
    /// Whether the failure lies with the caller's input, not with the
    /// service.
    pub open spec fn is_client_fault(&self) -> bool {
        match self {
            AppError::NotFound => true,
            AppError::ValidationError(_) => true,
            AppError::NoChangesToUpdate => true,
            AppError::AlreadyExists(_) => true,
            AppError::DatabaseError(_) => false,
            AppError::MigrationError(_) => false,
            AppError::ConfigError(_) => false,
        }
    }

    /// The status with which a responder answers the failure.
    pub open spec fn status_of(&self) -> u16 {
        match self {
            AppError::NotFound => STATUS_NOT_FOUND,
            AppError::ValidationError(_) => STATUS_BAD_REQUEST,
            AppError::NoChangesToUpdate => STATUS_BAD_REQUEST,
            AppError::AlreadyExists(_) => STATUS_CONFLICT,
            AppError::DatabaseError(_) => STATUS_INTERNAL_SERVER_ERROR,
            AppError::MigrationError(_) => STATUS_INTERNAL_SERVER_ERROR,
            AppError::ConfigError(_) => STATUS_INTERNAL_SERVER_ERROR,
        }
    }

    /// The message with which a responder answers the failure. A fault of
    /// the caller is told in full; a fault of the service only by its kind,
    /// with nothing of its detail.
    pub open spec fn message_text(&self) -> Seq<char> {
        match self {
            AppError::NotFound => "Resource Not Found"@,
            AppError::ValidationError(errors) => "Validation error: "@ + report_text(errors@),
            AppError::NoChangesToUpdate => "No valid fields provided for update."@,
            AppError::AlreadyExists(what) => what@,
            AppError::DatabaseError(_) => "Database Operation Failed"@,
            AppError::MigrationError(_) => "Database Migration Failed"@,
            AppError::ConfigError(_) => "Configuration Error"@,
        }
    }

    /// The status with which a responder answers the failure: 404 for a
    /// missing record, 400 for refused input, 409 for a conflict of
    /// identities and 500 for every fault of the service.
    pub fn status_code(&self) -> (status: u16)
        ensures
            status == self.status_of(),
            self.is_client_fault() <==> 400 <= status < 500,
            !self.is_client_fault() <==> status == STATUS_INTERNAL_SERVER_ERROR,
    {
        match self {
            AppError::NotFound => STATUS_NOT_FOUND,
            AppError::ValidationError(_) => STATUS_BAD_REQUEST,
            AppError::NoChangesToUpdate => STATUS_BAD_REQUEST,
            AppError::AlreadyExists(_) => STATUS_CONFLICT,
            AppError::DatabaseError(_) => STATUS_INTERNAL_SERVER_ERROR,
            AppError::MigrationError(_) => STATUS_INTERNAL_SERVER_ERROR,
            AppError::ConfigError(_) => STATUS_INTERNAL_SERVER_ERROR,
        }
    }

    /// The message with which a responder answers the failure.
    pub fn message(&self) -> (text: String)
        ensures
            text@ == self.message_text(),
    {
        match self {
            AppError::NotFound => String::from_str("Resource Not Found"),
            AppError::ValidationError(errors) => {
                let mut text = String::from_str("Validation error: ");
                let report = errors.to_string();
                text.append(report.as_str());
                text
            },
            AppError::NoChangesToUpdate => String::from_str(
                "No valid fields provided for update.",
            ),
            AppError::AlreadyExists(what) => what.clone(),
            AppError::DatabaseError(_) => String::from_str("Database Operation Failed"),
            AppError::MigrationError(_) => String::from_str("Database Migration Failed"),
            AppError::ConfigError(_) => String::from_str("Configuration Error"),
        }
    }

    /// What is written to the log for a fault of the service, where the
    /// failure is one: its detail, which no response carries.
    pub fn log_detail(&self) -> (detail: Option<String>)
        ensures
            detail is Some <==> !self.is_client_fault(),
            match self {
                AppError::DatabaseError(error) => detail == Some(error.detail),
                AppError::MigrationError(what) => detail == Some(*what),
                AppError::ConfigError(what) => detail == Some(*what),
                _ => detail is None,
            },
    {
        match self {
            AppError::DatabaseError(error) => Some(error.detail.clone()),
            AppError::MigrationError(what) => Some(what.clone()),
            AppError::ConfigError(what) => Some(what.clone()),
            _ => None,
        }
    }
}

} // verus!
