//! Error type shared by every service of the library.
//!
//! Every variant carries a human-readable description.  Errors coming out of
//! outside libraries (I/O, serialization, database) are carried as their
//! description only, so the whole type is made of plain values.

use vstd::prelude::*;

verus! {

/// The library's error type.
#[derive(Debug)]
pub enum Error {
    /// Start-up of a service or of the process failed.
    Initialization(String),
    /// A clipboard operation failed.
    Clipboard(String),
    /// Binding, connecting or another socket operation failed.
    Network(String),
    /// A key was malformed or a cryptographic check failed.
    Crypto(String),
    /// The storage collaborator failed.
    Storage(String),
    /// Device discovery failed.
    Discovery(String),
    /// The pairing handshake failed or was rejected.
    Pairing(String),
    /// A data transfer failed.
    Transfer(String),
    /// Authentication of a peer failed.
    Authentication(String),
    /// An operation was not permitted.
    Permission(String),
    /// An input/output operation failed.
    Io(String),
    /// A wire payload could not be serialized or parsed.
    Serialization(String),
    /// The database collaborator failed.
    Database(String),
    /// The configuration was invalid.
    Configuration(String),
    /// A caller handed an invalid argument.
    InvalidArgument(String),
    /// A connection was lost or could not be established.
    Connection(String),
    /// A file operation failed.
    File(String),
    /// Delivering a notification failed.
    Notification(String),
    /// An operation timed out.
    Timeout(String),
    /// None of the other kinds applied.
    Unknown(String),
}

/// The description carried by an error, whatever its kind.
pub open spec fn error_message(e: Error) -> Seq<char> {
    match e {
        Error::Initialization(m) => m@,
        Error::Clipboard(m) => m@,
        Error::Network(m) => m@,
        Error::Crypto(m) => m@,
        Error::Storage(m) => m@,
        Error::Discovery(m) => m@,
        Error::Pairing(m) => m@,
        Error::Transfer(m) => m@,
        Error::Authentication(m) => m@,
        Error::Permission(m) => m@,
        Error::Io(m) => m@,
        Error::Serialization(m) => m@,
        Error::Database(m) => m@,
        Error::Configuration(m) => m@,
        Error::InvalidArgument(m) => m@,
        Error::Connection(m) => m@,
        Error::File(m) => m@,
        Error::Notification(m) => m@,
        Error::Timeout(m) => m@,
        Error::Unknown(m) => m@,
    }
}

impl Error {
    /// The description carried by the error.
    pub fn message(&self) -> (r: String)
        ensures
            r@ == error_message(*self),
    {
        match self {
            Error::Initialization(m) => m.clone(),
            Error::Clipboard(m) => m.clone(),
            Error::Network(m) => m.clone(),
            Error::Crypto(m) => m.clone(),
            Error::Storage(m) => m.clone(),
            Error::Discovery(m) => m.clone(),
            Error::Pairing(m) => m.clone(),
            Error::Transfer(m) => m.clone(),
            Error::Authentication(m) => m.clone(),
            Error::Permission(m) => m.clone(),
            Error::Io(m) => m.clone(),
            Error::Serialization(m) => m.clone(),
            Error::Database(m) => m.clone(),
            Error::Configuration(m) => m.clone(),
            Error::InvalidArgument(m) => m.clone(),
            Error::Connection(m) => m.clone(),
            Error::File(m) => m.clone(),
            Error::Notification(m) => m.clone(),
            Error::Timeout(m) => m.clone(),
            Error::Unknown(m) => m.clone(),
        }
    }
}

/// Which error kind a kind name stands for: exactly the names below map to
/// their kind, and every other name maps to `Unknown`.
pub open spec fn is_kind_of(r: Error, error_type: Seq<char>, msg: Seq<char>) -> bool {
    if error_type == "clipboard"@ {
        r matches Error::Clipboard(m) && m@ == msg
    } else if error_type == "network"@ {
        r matches Error::Network(m) && m@ == msg
    } else if error_type == "crypto"@ {
        r matches Error::Crypto(m) && m@ == msg
    } else if error_type == "storage"@ {
        r matches Error::Storage(m) && m@ == msg
    } else if error_type == "discovery"@ {
        r matches Error::Discovery(m) && m@ == msg
    } else if error_type == "pairing"@ {
        r matches Error::Pairing(m) && m@ == msg
    } else if error_type == "transfer"@ {
        r matches Error::Transfer(m) && m@ == msg
    } else if error_type == "authentication"@ {
        r matches Error::Authentication(m) && m@ == msg
    } else if error_type == "permission"@ {
        r matches Error::Permission(m) && m@ == msg
    } else if error_type == "initialization"@ {
        r matches Error::Initialization(m) && m@ == msg
    } else if error_type == "configuration"@ {
        r matches Error::Configuration(m) && m@ == msg
    } else if error_type == "invalid_argument"@ {
        r matches Error::InvalidArgument(m) && m@ == msg
    } else if error_type == "connection"@ {
        r matches Error::Connection(m) && m@ == msg
    } else if error_type == "file"@ {
        r matches Error::File(m) && m@ == msg
    } else if error_type == "notification"@ {
        r matches Error::Notification(m) && m@ == msg
    } else if error_type == "timeout"@ {
        r matches Error::Timeout(m) && m@ == msg
    } else {
        r matches Error::Unknown(m) && m@ == msg
    }
}

/// Builds an error of the kind named by `error_type`, carrying `s` as its
/// description; an unrecognized kind name yields `Unknown`.
pub fn from_str(s: &str, error_type: &str) -> (r: Error)
    ensures
        is_kind_of(r, error_type@, s@),
        error_message(r) == s@,
{
    let msg = s.to_owned();
    if crate::text::str_eq(error_type, "clipboard") {
        Error::Clipboard(msg)
    } else if crate::text::str_eq(error_type, "network") {
        Error::Network(msg)
    } else if crate::text::str_eq(error_type, "crypto") {
        Error::Crypto(msg)
    } else if crate::text::str_eq(error_type, "storage") {
        Error::Storage(msg)
    } else if crate::text::str_eq(error_type, "discovery") {
        Error::Discovery(msg)
    } else if crate::text::str_eq(error_type, "pairing") {
        Error::Pairing(msg)
    } else if crate::text::str_eq(error_type, "transfer") {
        Error::Transfer(msg)
    } else if crate::text::str_eq(error_type, "authentication") {
        Error::Authentication(msg)
    } else if crate::text::str_eq(error_type, "permission") {
        Error::Permission(msg)
    } else if crate::text::str_eq(error_type, "initialization") {
        Error::Initialization(msg)
    } else if crate::text::str_eq(error_type, "configuration") {
        Error::Configuration(msg)
    } else if crate::text::str_eq(error_type, "invalid_argument") {
        Error::InvalidArgument(msg)
    } else if crate::text::str_eq(error_type, "connection") {
        Error::Connection(msg)
    } else if crate::text::str_eq(error_type, "file") {
        Error::File(msg)
    } else if crate::text::str_eq(error_type, "notification") {
        Error::Notification(msg)
    } else if crate::text::str_eq(error_type, "timeout") {
        Error::Timeout(msg)
    } else {
        Error::Unknown(msg)
    }
}

} // verus!
