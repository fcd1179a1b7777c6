//! The library's error type.
use vstd::prelude::*;

verus! {

/// What stops an operation of this client.
#[derive(Debug, Clone, Copy, PartialEq, Eq, Structural)]
pub enum AppError {
    /// The CSV file named for an import does not exist.
    InputFileDoesNotExist,
    /// The file named for an export already exists; it is never overwritten.
    FileExists,
    /// An export to CSV was asked for without a file name.
    NoOutputFilename,
    /// A packed value mapping holds a value that is not an unsigned integer.
    InvalidValueMapping,
}

impl AppError {
    /// The message shown to the user for this error.
    pub fn message(&self) -> (r: &'static str)
        ensures
            *self == AppError::InputFileDoesNotExist ==> r@ == "Input file does not exist"@,
            *self == AppError::FileExists ==> r@ == "File already exists, can't over write"@,
            *self == AppError::NoOutputFilename ==> r@ == "Must provide an output filename"@,
            *self == AppError::InvalidValueMapping ==> r@ == "could not parse value to integer"@,
    {
        match self {
            AppError::InputFileDoesNotExist => "Input file does not exist",
            AppError::FileExists => "File already exists, can't over write",
            AppError::NoOutputFilename => "Must provide an output filename",
            AppError::InvalidValueMapping => "could not parse value to integer",
        }
    }
}

} // verus!
