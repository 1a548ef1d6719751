//! The failures of the store and of the logic around it.

use vstd::prelude::*;
use vstd::string::StringExecFns;

verus! {

/// Every failure that the store and the logic around it report.
#[derive(Debug, Clone, PartialEq, Eq)]
pub enum AppError {
    AuthenticationRequired,
    PermissionDenied,
    InvalidVersion,
    FileSystemError(String),
    ParseError(String),
    NotFound,
    InternalServerError,
    UserNotFound,
    HouseNotFound,
    PasswordError,
    VersionMismatch,
    ParameterError,
    BackupError,
}

/// The HTTP status code that presents each kind of failure.
pub open spec fn status_of(e: AppError) -> u16 {
    match e {
        AppError::AuthenticationRequired => 401,
        AppError::PermissionDenied => 403,
        AppError::InvalidVersion => 409,
        AppError::FileSystemError(_) => 500,
        AppError::ParseError(_) => 400,
        AppError::NotFound => 404,
        AppError::InternalServerError => 500,
        AppError::UserNotFound => 404,
        AppError::HouseNotFound => 404,
        AppError::PasswordError => 401,
        AppError::VersionMismatch => 409,
        AppError::ParameterError => 400,
        AppError::BackupError => 500,
    }
}

/// The human-readable text of each kind of failure.
pub open spec fn message_of(e: AppError) -> Seq<char> {
    match e {
        AppError::AuthenticationRequired => "Authentication required"@,
        AppError::PermissionDenied => "Permission denied"@,
        AppError::InvalidVersion => "Invalid version"@,
        AppError::FileSystemError(msg) => "File system error: "@ + msg@,
        AppError::ParseError(msg) => "Parse error: "@ + msg@,
        AppError::NotFound => "Resource not found"@,
        AppError::InternalServerError => "Internal server error"@,
        AppError::UserNotFound => "User not found"@,
        AppError::HouseNotFound => "House not found"@,
        AppError::PasswordError => "Invalid password"@,
        AppError::VersionMismatch => "Version Mismatch"@,
        AppError::ParameterError => "Parameter Error"@,
        AppError::BackupError => "Backup Error"@,
    }
}

impl AppError {
    /// The HTTP status code under which this failure is presented.
    pub fn status_code(&self) -> (r: u16)
        ensures
            r == status_of(*self),
    {
        match self {
            AppError::AuthenticationRequired => 401,
            AppError::PermissionDenied => 403,
            AppError::InvalidVersion => 409,
            AppError::FileSystemError(_) => 500,
            AppError::ParseError(_) => 400,
            AppError::NotFound => 404,
            AppError::InternalServerError => 500,
            AppError::UserNotFound => 404,
            AppError::HouseNotFound => 404,
            AppError::PasswordError => 401,
            AppError::VersionMismatch => 409,
            AppError::ParameterError => 400,
            AppError::BackupError => 500,
        }
    }

    /// The text shown to a client for this failure.
    pub fn message(&self) -> (r: String)
        ensures
            r@ == message_of(*self),
    {
        match self {
            AppError::AuthenticationRequired => String::from_str("Authentication required"),
            AppError::PermissionDenied => String::from_str("Permission denied"),
            AppError::InvalidVersion => String::from_str("Invalid version"),
            AppError::FileSystemError(msg) => String::from_str("File system error: ").concat(
                msg.as_str(),
            ),
            AppError::ParseError(msg) => String::from_str("Parse error: ").concat(msg.as_str()),
            AppError::NotFound => String::from_str("Resource not found"),
            AppError::InternalServerError => String::from_str("Internal server error"),
            AppError::UserNotFound => String::from_str("User not found"),
            AppError::HouseNotFound => String::from_str("House not found"),
            AppError::PasswordError => String::from_str("Invalid password"),
            AppError::VersionMismatch => String::from_str("Version Mismatch"),
            AppError::ParameterError => String::from_str("Parameter Error"),
            AppError::BackupError => String::from_str("Backup Error"),
        }
    }
}

} // verus!
