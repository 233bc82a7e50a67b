//! Errors of the library.

use vstd::prelude::*;

use crate::labels::{record_type_name, ObjectLabel};

verus! {

/// Why a conversion failed.
#[derive(Debug, Clone, PartialEq, Eq)]
pub enum Error {
    /// A stored object carries no properties to read a record from.
    MissingProperties,
    /// A resource is not of the record type asked for.
    ResourceMismatch(ObjectLabel),
    /// A record's id is present but is not a UUID; it holds that id.
    InvalidUuid(String),
    /// The properties of a stored object could not be read or written; it holds the reason.
    Serialization(String),
}

/// The message of an error.
pub open spec fn error_message(e: Error) -> Seq<char> {
    match e {
        Error::MissingProperties => "expected properties"@,
        Error::ResourceMismatch(l) => "Resource is not a "@ + record_type_name(l),
        Error::InvalidUuid(s) => "invalid uuid: "@ + s@,
        Error::Serialization(s) => s@,
    }
}

impl Error {
    /// The human-readable message of this error.
    pub fn message(&self) -> (r: String)
        ensures
            r@ == error_message(*self),
    {
        match self {
            Error::MissingProperties => String::from_str("expected properties"),
            Error::ResourceMismatch(l) => {
                let mut s = String::from_str("Resource is not a ");
                s.append(l.record_type_str());
                s
            },
            Error::InvalidUuid(id) => {
                let mut s = String::from_str("invalid uuid: ");
                s.append(id.as_str());
                s
            },
            Error::Serialization(m) => m.clone(),
        }
    }
}

} // verus!
