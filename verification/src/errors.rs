//! Error taxonomy and propagation policy: store outages degrade silently to
//! pass-through, handler errors bubble to the client unchanged, poll-tick
//! failures are isolated from the request path, and structural fetch
//! failures terminate the process.

use vstd::prelude::*;

verus! {

/// The kinds of failure the system distinguishes.
pub enum ErrorKind {
    /// The cache store was unreachable on a get or a set.
    StoreUnavailable,
    /// The wrapped request handler itself failed.
    HandlerError,
    /// One fetch function of a poll tick failed transiently.
    FetchError,
    /// A fetch failure judged structural and unrecoverable.
    FatalFetchError,
    /// A payload could not be encoded or decoded.
    SerializationError,
}

/// Where a failure of each kind is allowed to surface.
pub enum ErrorDisposition {
    /// Swallowed at the cache boundary; the request proceeds as a miss.
    SwallowedAtStoreBoundary,
    /// Propagated to the client unmodified, and never cached.
    SurfacedToClient,
    /// Isolated to its poll tick; the previous snapshot is retained.
    IsolatedToTick,
    /// The process shuts down rather than serve stale data indefinitely.
    TerminatesProcess,
}

/// The propagation policy: how each kind of failure is handled.
/// A serialization failure is treated exactly as a handler error.
pub fn disposition(kind: &ErrorKind) -> (d: ErrorDisposition)
    ensures
        kind is StoreUnavailable <==> d is SwallowedAtStoreBoundary,
        kind is HandlerError || kind is SerializationError <==> d is SurfacedToClient,
        kind is FetchError <==> d is IsolatedToTick,
        kind is FatalFetchError <==> d is TerminatesProcess,
{
    match kind {
        ErrorKind::StoreUnavailable => ErrorDisposition::SwallowedAtStoreBoundary,
        ErrorKind::HandlerError => ErrorDisposition::SurfacedToClient,
        ErrorKind::FetchError => ErrorDisposition::IsolatedToTick,
        ErrorKind::FatalFetchError => ErrorDisposition::TerminatesProcess,
        ErrorKind::SerializationError => ErrorDisposition::SurfacedToClient,
    }
}

/// A request-facing error: an optional status code and a message. Callers
/// that turn it into a response use 500 where no status was set.
pub struct AppError {
    status_code: Option<u16>,
    message: String,
}

impl AppError {
    /// The status the error was built with, if any.
    pub closed spec fn spec_status(&self) -> Option<u16> {
        self.status_code
    }

    /// The error's message text.
    pub closed spec fn spec_message(&self) -> Seq<char> {
        self.message@
    }

    /// An error with no explicit status: it surfaces as a server error.
    pub fn new(message: String) -> (e: AppError)
        ensures
            e.spec_status() is None,
            e.spec_message() == message@,
    {
        AppError { status_code: None, message }
    }

    /// An error with an explicit status code.
    pub fn status(status: u16, message: String) -> (e: AppError)
        ensures
            e.spec_status() == Some(status),
            e.spec_message() == message@,
    {
        AppError { status_code: Some(status), message }
    }

    /// The standard not-found error.
    pub fn not_found() -> (e: AppError)
        ensures
            e.spec_status() == Some(404u16),
            e.spec_message() == "Not Found"@,
    {
        AppError::status(404, String::from_str("Not Found"))
    }

    /// The status a response built from this error carries: the explicit
    /// status if one was set, otherwise 500.
    pub fn response_status(&self) -> (s: u16)
        ensures
            match self.spec_status() {
                Some(c) => s == c,
                None => s == 500,
            },
    {
        match self.status_code {
            Some(c) => c,
            None => 500,
        }
    }

    /// The message text, for callers that render the error.
    pub fn message(&self) -> (m: &String)
        ensures
            m@ == self.spec_message(),
    {
        &self.message
    }
}

} // verus!
