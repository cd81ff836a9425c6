//! The failure taxonomy of the client.
//!
//! `Network` covers transport, IO and timeout failures; `Api` is a server
//! answer with `ok=false` and carries the server's code and description;
//! `Decode` marks an envelope or result that does not match its declared
//! shape (schema drift — never retried); `File` marks an unreadable local
//! file.

use vstd::prelude::*;

verus! {

/// A structured server-side error, always carrying both the code and the
/// description, with the optional retry/migration hints.
pub struct ApiError {
    pub code: i64,
    pub description: String,
    pub retry_after: Option<i64>,
    pub migrate_to_chat_id: Option<i64>,
}

pub struct ApiErrorV {
    pub code: i64,
    pub description: Seq<char>,
    pub retry_after: Option<i64>,
    pub migrate_to_chat_id: Option<i64>,
}

impl View for ApiError {
    type V = ApiErrorV;

    open spec fn view(&self) -> ApiErrorV {
        ApiErrorV {
            code: self.code,
            description: self.description@,
            retry_after: self.retry_after,
            migrate_to_chat_id: self.migrate_to_chat_id,
        }
    }
}

/// Everything a call can fail with.
pub enum Error {
    Network(String),
    Api(ApiError),
    Decode(String),
    File(String),
}

pub enum ErrorV {
    Network(Seq<char>),
    Api(ApiErrorV),
    Decode(Seq<char>),
    File(Seq<char>),
}

impl View for Error {
    type V = ErrorV;

    open spec fn view(&self) -> ErrorV {
        match self {
            Error::Network(s) => ErrorV::Network(s@),
            Error::Api(a) => ErrorV::Api(a@),
            Error::Decode(s) => ErrorV::Decode(s@),
            Error::File(s) => ErrorV::File(s@),
        }
    }
}

impl Error {
    /// Whether the update poller may retry after this failure: transient
    /// network and server errors are retried, shape mismatches and file
    /// failures are not.
    pub fn is_retryable(&self) -> (r: bool)
        ensures
            r == (self@ is Network || self@ is Api),
    {
        match self {
            Error::Network(_) => true,
            Error::Api(_) => true,
            Error::Decode(_) => false,
            Error::File(_) => false,
        }
    }
}

} // verus!
