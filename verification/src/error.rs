//! What can go wrong while a handler trait is generated.

use vstd::prelude::*;

verus! {

#[derive(Debug)]
pub enum Error {
    /// A configured piece of syntax did not parse; the parser's message.
    SynError(String),
    /// The attributes on the enum could not be read; the reader's message.
    DarlingError(String),
    /// The item is a struct or a union.
    NotEnum,
    /// The enum has no variants to dispatch on.
    NoVariants,
    InvalidReturnType,
    InvalidReturnValue,
    /// The trace file, and the environment variable that names it.
    CannotWriteDebugFile(String, String),
}

/// An error as a mathematical value.
pub enum ErrorModel {
    SynError(Seq<char>),
    DarlingError(Seq<char>),
    NotEnum,
    NoVariants,
    InvalidReturnType,
    InvalidReturnValue,
    CannotWriteDebugFile(Seq<char>, Seq<char>),
}

impl View for Error {
    type V = ErrorModel;

    open spec fn view(&self) -> ErrorModel {
        match self {
            Error::SynError(m) => ErrorModel::SynError(m@),
            Error::DarlingError(m) => ErrorModel::DarlingError(m@),
            Error::NotEnum => ErrorModel::NotEnum,
            Error::NoVariants => ErrorModel::NoVariants,
            Error::InvalidReturnType => ErrorModel::InvalidReturnType,
            Error::InvalidReturnValue => ErrorModel::InvalidReturnValue,
            Error::CannotWriteDebugFile(file, variable) => ErrorModel::CannotWriteDebugFile(
                file@,
                variable@,
            ),
        }
    }
}

/// What a fallible call came to, as mathematical values.
pub open spec fn outcome<T: View>(r: Result<T, Error>) -> Result<T::V, ErrorModel> {
    match r {
        Ok(t) => Ok(t@),
        Err(e) => Err(e@),
    }
}

impl ErrorModel {
    /// The message of this error.
    pub open spec fn message(self) -> Seq<char> {
        match self {
            ErrorModel::SynError(m) => m,
            ErrorModel::DarlingError(m) => m,
            ErrorModel::NotEnum => "#[derive(EnumHandler)] only works with enums"@,
            ErrorModel::NoVariants => "Enum has no variants"@,
            ErrorModel::InvalidReturnType => "Invalid return type"@,
            ErrorModel::InvalidReturnValue => "Invalid return value"@,
            ErrorModel::CannotWriteDebugFile(file, variable) => "Cannot write debug file: "@ + file
                + ", please check the environment variable "@ + variable,
        }
    }
}

impl Error {
    /// Turns a parser's answer into the library's: the text as it is, the
    /// message as a `SynError`.
    pub fn from_syntax(answer: Result<String, String>) -> (r: Result<String, Error>)
        ensures
            match answer {
                Ok(t) => r == Ok::<String, Error>(t),
                Err(m) => r == Err::<String, Error>(Error::SynError(m)),
            },
    {
        match answer {
            Ok(t) => Ok(t),
            Err(m) => Err(Error::SynError(m)),
        }
    }

    /// Writes the message to show for this error.
    pub fn message(&self) -> (r: String)
        ensures
            r@ == self@.message(),
    {
        match self {
            Error::SynError(m) => m.clone(),
            Error::DarlingError(m) => m.clone(),
            Error::NotEnum => String::from_str("#[derive(EnumHandler)] only works with enums"),
            Error::NoVariants => String::from_str("Enum has no variants"),
            Error::InvalidReturnType => String::from_str("Invalid return type"),
            Error::InvalidReturnValue => String::from_str("Invalid return value"),
            Error::CannotWriteDebugFile(file, variable) => {
                let mut r = String::from_str("Cannot write debug file: ");
                r.append(file.as_str());
                r.append(", please check the environment variable ");
                r.append(variable.as_str());
                r
            },
        }
    }
}

} // verus!
