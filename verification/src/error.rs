//! The failure taxonomy of resolution. Every fatal condition carries enough
//! context (object name, parameter name, raw value) to find the source line.
use vstd::prelude::*;

verus! {

/// A resolution failure. Resolution is all-or-nothing: the first error
/// aborts it and is handed back unchanged.
#[derive(Debug, Clone, PartialEq, Eq)]
pub enum Error {
    /// A mandatory parameter is absent. `key` is empty when the object
    /// itself is missing from the configuration.
    MissingKey { object: Vec<char>, key: Vec<char> },
    /// A parameter is present but its value is not a recognized variant.
    InvalidEnumValue { key: Vec<char>, value: Vec<char> },
    /// A parameter that must be numeric does not parse as one.
    InvalidInteger { key: Vec<char> },
    /// The chip family has no lookup data at all.
    UnsupportedFamily,
    /// The family is supported, but this particular table entry is absent.
    UnknownLookupEntry { entry: Vec<char> },
    /// The configuration's format version is not the supported one.
    FormatVersionMismatch { found: Vec<char> },
    /// An object name that should denote a pin does not parse as one.
    MalformedPinName { name: Vec<char> },
}

/// The mathematical image of an [`Error`].
pub enum ErrorV {
    MissingKey { object: Seq<char>, key: Seq<char> },
    InvalidEnumValue { key: Seq<char>, value: Seq<char> },
    InvalidInteger { key: Seq<char> },
    UnsupportedFamily,
    UnknownLookupEntry { entry: Seq<char> },
    FormatVersionMismatch { found: Seq<char> },
    MalformedPinName { name: Seq<char> },
}

impl View for Error {
    type V = ErrorV;

    open spec fn view(&self) -> ErrorV {
        match self {
            Error::MissingKey { object, key } => ErrorV::MissingKey {
                object: object@,
                key: key@,
            },
            Error::InvalidEnumValue { key, value } => ErrorV::InvalidEnumValue {
                key: key@,
                value: value@,
            },
            Error::InvalidInteger { key } => ErrorV::InvalidInteger { key: key@ },
            Error::UnsupportedFamily => ErrorV::UnsupportedFamily,
            Error::UnknownLookupEntry { entry } => ErrorV::UnknownLookupEntry { entry: entry@ },
            Error::FormatVersionMismatch { found } => ErrorV::FormatVersionMismatch {
                found: found@,
            },
            Error::MalformedPinName { name } => ErrorV::MalformedPinName { name: name@ },
        }
    }
}

/// The image of a whole `Result`: the model of the success value, or the
/// model of the error. Contracts throughout the crate are stated over it.
pub open spec fn view_res<T: View>(r: Result<T, Error>) -> Result<T::V, ErrorV> {
    match r {
        Ok(t) => Ok(t@),
        Err(e) => Err(e@),
    }
}

/// The image of a `Result` carrying a list: the models of the elements in
/// order, or the model of the error.
pub open spec fn view_res_seq<T: View>(r: Result<Vec<T>, Error>) -> Result<Seq<T::V>, ErrorV> {
    match r {
        Ok(v) => Ok(v@.map_values(|t: T| t@)),
        Err(e) => Err(e@),
    }
}

} // verus!
