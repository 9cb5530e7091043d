//! The error kinds the library reports. Each carries a one-line message.
use vstd::prelude::*;

verus! {

/// Everything that can go wrong while parsing commands, looking names up,
/// registering frames, running queries, or reaching the outside world.
#[derive(Debug, Clone, PartialEq)]
pub enum AppError {
    /// Bad command syntax, unknown format word, or a bad numeric argument.
    Parse(String),
    /// An unknown catalog name, no selected tab, or no selected schema row.
    NotFound(String),
    /// A register conflict: the name is already taken.
    NameInUse(String),
    /// A read, write, or clipboard failure reported from outside.
    Io(String),
    /// A query engine failure, including a missing current frame.
    Sql(String),
    /// An export or import format that is not recognized.
    UnsupportedFormat(String),
    /// A reserved action with no semantics yet.
    Unsupported(String),
}

impl AppError {
    /// The message carried by the error.
    pub open spec fn text(&self) -> Seq<char> {
        match self {
            AppError::Parse(s) => s@,
            AppError::NotFound(s) => s@,
            AppError::NameInUse(s) => s@,
            AppError::Io(s) => s@,
            AppError::Sql(s) => s@,
            AppError::UnsupportedFormat(s) => s@,
            AppError::Unsupported(s) => s@,
        }
    }

    /// The single-line message shown in the error banner.
    pub fn message(&self) -> (r: String)
        ensures
            r@ == self.text(),
    {
        match self {
            AppError::Parse(s) => s.clone(),
            AppError::NotFound(s) => s.clone(),
            AppError::NameInUse(s) => s.clone(),
            AppError::Io(s) => s.clone(),
            AppError::Sql(s) => s.clone(),
            AppError::UnsupportedFormat(s) => s.clone(),
            AppError::Unsupported(s) => s.clone(),
        }
    }
}

/// The usual result type of the library.
pub type AppResult<T> = Result<T, AppError>;

} // verus!
