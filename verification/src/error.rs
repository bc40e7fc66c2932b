//! The errors of this crate.

use vstd::prelude::*;

verus! {

/// What can go wrong when ports are accessed, bound or collected.
#[derive(Clone, Copy, Debug, PartialEq, Eq, Structural)]
pub enum Error {
    /// A port with that name is already in the collection.
    AlreadyInCollection,
    /// The port's value is currently locked by someone else.
    IsLocked,
    /// No port with that name is in the collection.
    NotFound,
    /// No port with that name is in the other collection.
    OtherNotFound,
    /// The port holds no value.
    NoValueSet,
    /// The port's value has another type than the wanted one.
    WrongDataType,
    /// The port's variant does not offer the operation.
    WrongPortType,
}

impl Error {
    /// A short description of the error.
    pub fn description(&self) -> (text: &'static str)
        ensures
            text@ == description_of(*self),
    {
        match self {
            Error::AlreadyInCollection => "a port with that name is already in the collection",
            Error::IsLocked => "port is currently locked",
            Error::NotFound => "port could not be found in the collection",
            Error::OtherNotFound => "port could not be found in the other collection",
            Error::NoValueSet => "no value set for port",
            Error::WrongDataType => "port has a different data type then expected",
            Error::WrongPortType => "port has an incompatible type",
        }
    }
}

/// The text that describes an error.
pub open spec fn description_of(e: Error) -> Seq<char> {
    match e {
        Error::AlreadyInCollection => "a port with that name is already in the collection"@,
        Error::IsLocked => "port is currently locked"@,
        Error::NotFound => "port could not be found in the collection"@,
        Error::OtherNotFound => "port could not be found in the other collection"@,
        Error::NoValueSet => "no value set for port"@,
        Error::WrongDataType => "port has a different data type then expected"@,
        Error::WrongPortType => "port has an incompatible type"@,
    }
}

} // verus!
