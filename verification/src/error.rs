//! The library's error type.

use vstd::prelude::*;

use crate::text::concat2;

verus! {

/// Errors raised by the library.
#[derive(Debug)]
pub enum Error {
    /// An I/O failure at a path, with the failure's own message.
    Io { path: String, message: String },
    /// An I/O failure without a path.
    IoSimple(String),
    /// A configuration that the library refuses.
    Config(String),
    /// A configuration text that does not parse.
    Toml(String),
    /// A failure of the state database.
    Db(String),
    /// A copy whose source and destination digests differ.
    HashMismatch { path: String, source_hash: String, dest_hash: String },
    /// A folder pair id that the configuration does not hold.
    PairNotFound(String),
    /// Any other failure, with its message.
    Other(String),
}

/// The message that [`Error::message`] renders for an error.
pub open spec fn error_message(e: Error) -> Seq<char> {
    match e {
        Error::Io { path, message } => "IO error at "@ + path@ + ": "@ + message@,
        Error::IoSimple(m) => "IO error: "@ + m@,
        Error::Config(m) => "config error: "@ + m@,
        Error::Toml(m) => "TOML parse error: "@ + m@,
        Error::Db(m) => "database error: "@ + m@,
        Error::HashMismatch { path, source_hash, dest_hash } => "hash mismatch for "@ + path@
            + ": source="@ + source_hash@ + " dest="@ + dest_hash@,
        Error::PairNotFound(id) => "pair not found: "@ + id@,
        Error::Other(m) => m@,
    }
}

impl Error {
    /// An I/O error at `path`.
    pub fn io(path: &str, message: String) -> (e: Error)
        ensures
            e matches Error::Io { path: p, message: m } && p@ == path@ && m == message,
    {
        Error::Io { path: String::from_str(path), message }
    }

    /// The human-readable message of the error.
    pub fn message(&self) -> (s: String)
        ensures
            s@ == error_message(*self),
    {
        match self {
            Error::Io { path, message } => {
                let mut s = concat2("IO error at ", path.as_str());
                s.append(": ");
                s.append(message.as_str());
                s
            },
            Error::IoSimple(m) => concat2("IO error: ", m.as_str()),
            Error::Config(m) => concat2("config error: ", m.as_str()),
            Error::Toml(m) => concat2("TOML parse error: ", m.as_str()),
            Error::Db(m) => concat2("database error: ", m.as_str()),
            Error::HashMismatch { path, source_hash, dest_hash } => {
                let mut s = concat2("hash mismatch for ", path.as_str());
                s.append(": source=");
                s.append(source_hash.as_str());
                s.append(" dest=");
                s.append(dest_hash.as_str());
                s
            },
            Error::PairNotFound(id) => concat2("pair not found: ", id.as_str()),
            Error::Other(m) => m.clone(),
        }
    }
}

} // verus!
