use vstd::prelude::*;
use vstd::string::StringExecFns;

verus! {

/// Errors that the FFI layer reports back to the foreign caller.
#[derive(Debug)]
pub enum FfiError {
    /// The server has no callback configured yet.
    NotConfigured,
    /// `Initialize` was sent while the server is already configured.
    AlreadyInitialized,
    /// The request is malformed or names something that does not exist.
    InvalidRequest(String),
    /// The room refused an operation; the text says why.
    Room(String),
}

/// `e` is an `InvalidRequest` whose message is `msg`.
pub open spec fn is_invalid_request(e: FfiError, msg: Seq<char>) -> bool {
    e matches FfiError::InvalidRequest(m) && m@ == msg
}

/// `r` failed with an `InvalidRequest` whose message is `msg`.
pub open spec fn fails_with<T>(r: Result<T, FfiError>, msg: Seq<char>) -> bool {
    r matches Err(e) && is_invalid_request(e, msg)
}

/// Builds an `InvalidRequest` error carrying `msg`.
pub fn invalid_request(msg: &str) -> (e: FfiError)
    ensures
        is_invalid_request(e, msg@),
{
    FfiError::InvalidRequest(String::from_str(msg))
}

} // verus!
