//! The error type of the tool, with a stable code for each kind.
use vstd::prelude::*;

verus! {

#[verifier::external_type_specification]
#[verifier::external_body]
pub struct ExSqlxError(sqlx::Error);

#[verifier::external_type_specification]
#[verifier::external_body]
pub struct ExYamlError(serde_yaml::Error);

#[verifier::external_type_specification]
#[verifier::external_body]
pub struct ExIoError(std::io::Error);

/// What went wrong.
pub enum AppError {
    DatabaseError(sqlx::Error),
    ConfigError(String),
    IoError(std::io::Error),
    SerializationError(serde_yaml::Error),
    Unknown(String),
}

/// The code of each kind of error, for exit codes and log tags.
pub open spec fn error_code_of(e: &AppError) -> Seq<char> {
    match e {
        AppError::DatabaseError(_) => "E001"@,
        AppError::ConfigError(_) => "E002"@,
        AppError::IoError(_) => "E003"@,
        AppError::SerializationError(_) => "E004"@,
        AppError::Unknown(_) => "E999"@,
    }
}

impl AppError {
    /// The stable code of this error's kind.
    pub fn code(&self) -> (r: &'static str)
        ensures
            r@ == error_code_of(self),
    {
        match self {
            AppError::DatabaseError(_) => "E001",
            AppError::ConfigError(_) => "E002",
            AppError::IoError(_) => "E003",
            AppError::SerializationError(_) => "E004",
            AppError::Unknown(_) => "E999",
        }
    }
}

} // verus!
