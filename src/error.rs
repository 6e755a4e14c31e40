use vstd::prelude::*;

verus! {

/// Every failure the library reports. Failures of storage, encoding and
/// process control carry the message of the underlying error.
#[derive(Debug, Clone)]
pub enum AppError {
    WorkspaceNotFound(String),
    ProjectNotFound(String),
    Validation(String),
    Io(String),
    Database(String),
    Serialization(String),
    PathUnavailable(String),
    Launch(String),
}

pub type AppResult<T> = Result<T, AppError>;

impl AppError {
    /// The user-facing text of the error: a prefix naming its kind, then
    /// its detail.
    pub open spec fn text(&self) -> Seq<char> {
        match self {
            AppError::WorkspaceNotFound(s) => "workspace not found: "@ + s@,
            AppError::ProjectNotFound(s) => "project not found: "@ + s@,
            AppError::Validation(s) => "validation error: "@ + s@,
            AppError::Io(s) => "io error: "@ + s@,
            AppError::Database(s) => "database error: "@ + s@,
            AppError::Serialization(s) => "serialization error: "@ + s@,
            AppError::PathUnavailable(s) => "internal path not available: "@ + s@,
            AppError::Launch(s) => "failed to launch application: "@ + s@,
        }
    }

    /// The user-facing text of the error.
    pub fn message(&self) -> (r: String)
        ensures
            r@ == self.text(),
    {
        match self {
            AppError::WorkspaceNotFound(s) => String::from_str("workspace not found: ").concat(s.as_str()),
            AppError::ProjectNotFound(s) => String::from_str("project not found: ").concat(s.as_str()),
            AppError::Validation(s) => String::from_str("validation error: ").concat(s.as_str()),
            AppError::Io(s) => String::from_str("io error: ").concat(s.as_str()),
            AppError::Database(s) => String::from_str("database error: ").concat(s.as_str()),
            AppError::Serialization(s) => String::from_str("serialization error: ").concat(s.as_str()),
            AppError::PathUnavailable(s) => String::from_str("internal path not available: ").concat(s.as_str()),
            AppError::Launch(s) => String::from_str("failed to launch application: ").concat(s.as_str()),
        }
    }
}

} // verus!
