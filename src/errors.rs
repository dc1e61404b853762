//! Error values of the library.

use vstd::prelude::*;

verus! {

/// What went wrong in a file operation, as the host reports it.
#[derive(Clone, Debug)]
pub enum IoFault {
    NotFound,
    PermissionDenied,
    /// An outcome that does not answer the operation that was asked for.
    Unexpected,
    /// Any other failure, with the host's name for its kind.
    Other(String),
}

/// Errors surfaced to callers: I/O failures and bad configuration.
#[derive(Clone, Debug)]
pub enum CustomError {
    IOError(String),
    ParseError(String),
}

/// The message that an I/O error of the given kind carries.
pub open spec fn fault_message(f: IoFault) -> Seq<char> {
    match f {
        IoFault::NotFound => "Config file `Dzl.toml` not found"@,
        IoFault::PermissionDenied => "Permission denied, please check the config file's permissions"@,
        IoFault::Unexpected => "Unexpected outcome of a file operation"@,
        IoFault::Other(kind) => "Other IO errors: "@ + kind@,
    }
}

impl CustomError {
    /// Turns a file fault into an `IOError` with a readable message.
    pub fn from_fault(f: IoFault) -> (r: CustomError)
        ensures
            r matches CustomError::IOError(m) && m@ == fault_message(f),
    {
        match f {
            IoFault::NotFound => CustomError::IOError(
                String::from_str("Config file `Dzl.toml` not found"),
            ),
            IoFault::PermissionDenied => CustomError::IOError(
                String::from_str("Permission denied, please check the config file's permissions"),
            ),
            IoFault::Unexpected => CustomError::IOError(
                String::from_str("Unexpected outcome of a file operation"),
            ),
            IoFault::Other(kind) => {
                let mut m = String::from_str("Other IO errors: ");
                m.append(kind.as_str());
                CustomError::IOError(m)
            },
        }
    }

    /// The text carried by the error, whatever its kind.
    pub fn message(&self) -> (r: &String)
        ensures
            match self {
                CustomError::IOError(m) => r == m,
                CustomError::ParseError(m) => r == m,
            },
    {
        match self {
            CustomError::IOError(m) => m,
            CustomError::ParseError(m) => m,
        }
    }
}

} // verus!
