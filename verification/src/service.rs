//! Plain records of the host's SQL client service.
//!
//! The service runs statements against the local or a remote server.
//! The connection itself and row fetching belong to the host; what the
//! logic reads from a result — field metadata and error identities —
//! stands here as plain values.

use vstd::prelude::*;

verus! {

/// An error of the SQL client service: the server's error number and
/// message, by the call that hit it.
#[derive(Clone, Debug)]
pub enum ClientError {
    /// Connecting failed.
    ConnectError(u32, String),
    /// Running a statement failed.
    QueryError(u32, String),
    /// Fetching a result failed.
    FetchError(u32, String),
}

impl ClientError {
    /// The server's error number.
    pub fn errno(&self) -> (r: u32)
        ensures
            r == match *self {
                ClientError::ConnectError(n, _) => n,
                ClientError::QueryError(n, _) => n,
                ClientError::FetchError(n, _) => n,
            },
    {
        match self {
            ClientError::ConnectError(n, _) => *n,
            ClientError::QueryError(n, _) => *n,
            ClientError::FetchError(n, _) => *n,
        }
    }
}

/// Result of a SQL client call.
pub type ClientResult<T> = Result<T, ClientError>;

/// Metadata of one column of a result set, as plain values.
#[derive(Clone, Debug)]
pub struct FieldMeta {
    /// Declared column length.
    pub length: u64,
    /// Longest value in the result set.
    pub max_length: u64,
    /// Column name.
    pub name: String,
}

impl FieldMeta {
    /// Declared column length.
    pub fn length(&self) -> (r: usize)
        requires
            self.length <= usize::MAX,
        ensures
            r == self.length,
    {
        self.length as usize
    }

    /// Longest value in the result set.
    pub fn max_length(&self) -> (r: usize)
        requires
            self.max_length <= usize::MAX,
        ensures
            r == self.max_length,
    {
        self.max_length as usize
    }

    /// Column name.
    pub fn name(&self) -> (r: &str)
        ensures
            r@ == self.name@,
    {
        self.name.as_str()
    }
}

} // verus!
