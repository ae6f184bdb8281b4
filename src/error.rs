use vstd::prelude::*;
use vstd::string::StringExecFns;

verus! {

/// The ways an operation of the store can fail. Each variant carries the
/// text of the underlying failure where there is one.
#[derive(Clone, Debug)]
pub enum AppError {
    /// Reading, writing or renaming a file failed.
    IoError(String),
    /// The aggregate could not be encoded, or a file could not be decoded.
    JsonError(String),
    /// Exclusive access to the store could not be had.
    LockError(String),
    /// No task has the given id.
    NotFound,
}

/// The message shown to a caller for an error.
pub open spec fn message_of(e: AppError) -> Seq<char> {
    match e {
        AppError::IoError(m) => "IO Error: "@ + m@,
        AppError::JsonError(m) => "JSON Error: "@ + m@,
        AppError::LockError(m) => "Lock Error: "@ + m@,
        AppError::NotFound => "Task not found"@,
    }
}

impl AppError {
    /// The message shown to a caller: a prefix naming the kind, then the
    /// underlying text.
    pub fn to_string(&self) -> (r: String)
        ensures
            r@ == message_of(*self),
    {
        match self {
            AppError::IoError(m) => String::from_str("IO Error: ").concat(m.as_str()),
            AppError::JsonError(m) => String::from_str("JSON Error: ").concat(m.as_str()),
            AppError::LockError(m) => String::from_str("Lock Error: ").concat(m.as_str()),
            AppError::NotFound => String::from_str("Task not found"),
        }
    }
}

} // verus!
