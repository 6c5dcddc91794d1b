//! The protocol-error taxonomy shared by the codec, the registry and the
//! dispatcher.

use vstd::prelude::*;

verus! {

/// A protocol violation by the client. Every variant is reported to the
/// client as a display-addressed `error` event; only `UnknownObject` is
/// fatal to the connection.
#[derive(Debug, Clone, Copy, PartialEq, Eq, Structural)]
pub enum ProtocolError {
    /// A message named an object id the server does not recognize.
    UnknownObject,
    /// An opcode was not recognized, or the arguments did not consume
    /// exactly the declared message length.
    InvalidMethod,
    /// The server ran out of object ids to allocate.
    NoMemory,
    /// An object exists but is of another interface than the request needs.
    WrongInterface,
    /// A new binding named an id that is already bound.
    IdInUse,
    /// A request-supplied new-object id is outside the client's allocation
    /// range or already bound.
    InvalidNewId,
    /// A role-granting request named a surface that already has a different
    /// role.
    RoleAlreadySet,
    /// A commit found a buffer scale that is not positive.
    InvalidScale,
    /// A commit found a buffer transform outside the recognized values.
    InvalidTransform,
}

/// Whether the violation terminates the connection. Messages addressed to
/// objects the server does not recognize offer no sound recovery; everything
/// else is reported and the connection stays open.
pub open spec fn spec_is_fatal(e: ProtocolError) -> bool {
    e is UnknownObject
}

/// The numeric code carried by the `error` event. The first three follow
/// the display object's error enumeration (invalid object, invalid method,
/// no memory); the rest are engine-assigned, one per violation.
pub open spec fn spec_error_code(e: ProtocolError) -> u32 {
    match e {
        ProtocolError::UnknownObject => 0,
        ProtocolError::InvalidMethod => 1,
        ProtocolError::NoMemory => 2,
        ProtocolError::WrongInterface => 4,
        ProtocolError::IdInUse => 5,
        ProtocolError::InvalidNewId => 6,
        ProtocolError::RoleAlreadySet => 7,
        ProtocolError::InvalidScale => 8,
        ProtocolError::InvalidTransform => 9,
    }
}

impl ProtocolError {
    pub fn is_fatal(&self) -> (r: bool)
        ensures
            r == spec_is_fatal(*self),
    {
        match self {
            ProtocolError::UnknownObject => true,
            _ => false,
        }
    }

    pub fn code(&self) -> (r: u32)
        ensures
            r == spec_error_code(*self),
    {
        match self {
            ProtocolError::UnknownObject => 0,
            ProtocolError::InvalidMethod => 1,
            ProtocolError::NoMemory => 2,
            ProtocolError::WrongInterface => 4,
            ProtocolError::IdInUse => 5,
            ProtocolError::InvalidNewId => 6,
            ProtocolError::RoleAlreadySet => 7,
            ProtocolError::InvalidScale => 8,
            ProtocolError::InvalidTransform => 9,
        }
    }

    /// A short human-readable description, sent in the error event.
    pub fn text(&self) -> Vec<u8> {
        let s: &str = match self {
            ProtocolError::UnknownObject => "unknown object",
            ProtocolError::InvalidMethod => "invalid method",
            ProtocolError::NoMemory => "no memory",
            ProtocolError::WrongInterface => "wrong interface",
            ProtocolError::IdInUse => "id already in use",
            ProtocolError::InvalidNewId => "invalid new object id",
            ProtocolError::RoleAlreadySet => "surface already has a role",
            ProtocolError::InvalidScale => "buffer scale must be positive",
            ProtocolError::InvalidTransform => "unrecognized buffer transform",
        };
        s.as_bytes_vec()
    }
}

} // verus!
