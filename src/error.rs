use vstd::prelude::*;

verus! {

/// The ways in which loading or driving a guest can fail. Each variant
/// carries the diagnostic of the failure it wraps.
#[derive(Debug, Clone)]
pub enum Error {
    /// A module or data file could not be read.
    IoError { path: String, message: String },
    /// The bytes are not a program the engine can compile, link and instantiate.
    InstantiationError(String),
    /// The operation is not exported, the guest trapped, or a host call it
    /// made failed and the guest passed that on.
    InvocationError(String),
    /// The guest called into the host for an operation the host does not offer.
    NotImplemented { binding: String, namespace: String, operation: String },
    /// A payload could not be encoded or decoded.
    SerializationError(String),
}

/// The text of the diagnostic that the guest sees when a host call is refused.
pub open spec fn not_implemented_text() -> Seq<char> {
    "Not implemented"@
}

impl Error {
    /// The human-readable diagnostic that an error carries.
    pub open spec fn diagnostic_spec(&self) -> Seq<char> {
        match self {
            Error::IoError { message, .. } => message@,
            Error::InstantiationError(m) => m@,
            Error::InvocationError(m) => m@,
            Error::NotImplemented { .. } => not_implemented_text(),
            Error::SerializationError(m) => m@,
        }
    }

    /// Returns the diagnostic of this error as a string.
    pub fn diagnostic(&self) -> (r: String)
        ensures
            r@ == self.diagnostic_spec(),
    {
        match self {
            Error::IoError { message, .. } => message.clone(),
            Error::InstantiationError(m) => m.clone(),
            Error::InvocationError(m) => m.clone(),
            Error::NotImplemented { .. } => "Not implemented".to_owned(),
            Error::SerializationError(m) => m.clone(),
        }
    }
}

} // verus!
