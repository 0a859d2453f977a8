//! Error codes and errors returned by the node protocol implementation.
use vstd::prelude::*;

verus! {

/// Common error codes for network protocol requests.
///
/// These codes mimic the status codes used in gRPC and map one to one to
/// those in the gRPC protocol implementation.
#[derive(Clone, Copy, Debug, PartialEq, Eq, Structural)]
pub enum Code {
    Canceled,
    Unknown,
    InvalidArgument,
    NotFound,
    FailedPrecondition,
    Aborted,
    Unimplemented,
    Internal,
    Unavailable,
}

/// The canonical meaning of a code, used verbatim in diagnostics.
pub open spec fn code_meaning(code: Code) -> Seq<char> {
    match code {
        Code::Canceled => "the in-flight operation was canceled by the caller or by connection teardown"@,
        Code::Unknown => "failure classification could not be determined"@,
        Code::InvalidArgument => "the request payload was structurally or semantically invalid"@,
        Code::NotFound => "the referenced entity (block, fragment, peer) does not exist"@,
        Code::FailedPrecondition => "current node/service state forbids the operation (e.g., not yet synced)"@,
        Code::Aborted => "the operation conflicted with concurrent state change and was abandoned"@,
        Code::Unimplemented => "the service or operation is not supported by this node"@,
        Code::Internal => "an unexpected internal fault occurred; callers must not retry blindly"@,
        Code::Unavailable => "the service is transiently unavailable; safe to retry with backoff"@,
    }
}

/// How an error with the given code and cause is rendered:
/// `"{meaning} ({cause})"`.
pub open spec fn error_text(code: Code, cause: Seq<char>) -> Seq<char> {
    code_meaning(code) + " ("@ + cause + ")"@
}

impl Code {
    /// Returns the canonical meaning of this code.
    pub fn meaning(self) -> (r: &'static str)
        ensures
            r@ == code_meaning(self),
    {
        match self {
            Code::Canceled => "the in-flight operation was canceled by the caller or by connection teardown",
            Code::Unknown => "failure classification could not be determined",
            Code::InvalidArgument => "the request payload was structurally or semantically invalid",
            Code::NotFound => "the referenced entity (block, fragment, peer) does not exist",
            Code::FailedPrecondition => "current node/service state forbids the operation (e.g., not yet synced)",
            Code::Aborted => "the operation conflicted with concurrent state change and was abandoned",
            Code::Unimplemented => "the service or operation is not supported by this node",
            Code::Internal => "an unexpected internal fault occurred; callers must not retry blindly",
            Code::Unavailable => "the service is transiently unavailable; safe to retry with backoff",
        }
    }
}

/// Represents errors that can be returned by the node protocol implementation.
///
/// An error pairs a code with the rendering of its underlying cause, which is
/// always present.
#[derive(Debug)]
pub struct Error {
    code: Code,
    source: String,
}

impl View for Error {
    type V = (Code, Seq<char>);

    /// The code and the text of the underlying cause.
    closed spec fn view(&self) -> (Code, Seq<char>) {
        (self.code, self.source@)
    }
}

impl Error {
    /// Creates an error with the given code and underlying cause.
    pub fn new(code: Code, source: String) -> (r: Error)
        ensures
            r@ == (code, source@),
    {
        Error { code, source }
    }

    /// The error returned where a capability is requested but absent.
    pub fn unimplemented() -> (r: Error)
        ensures
            r@ == (Code::Unimplemented, "not yet implemented"@),
    {
        Error::new(Code::Unimplemented, String::from_str("not yet implemented"))
    }

    /// Returns the code of this error.
    pub fn code(&self) -> (r: Code)
        ensures
            r == self@.0,
    {
        self.code
    }

    /// Returns the rendering of the underlying cause.
    pub fn source(&self) -> (r: &str)
        ensures
            r@ == self@.1,
    {
        self.source.as_str()
    }

    /// Renders this error as `"{meaning} ({cause})"`.
    pub fn to_string(&self) -> (r: String)
        ensures
            r@ == error_text(self@.0, self@.1),
    {
        let text = String::from_str(self.code.meaning());
        let text = text.concat(" (");
        let text = text.concat(self.source.as_str());
        text.concat(")")
    }
}

/// Round trip: the code that an error is created with is the code it reports.
pub proof fn lemma_code_round_trip(code: Code, source: String, e: Error, c: Code)
    requires
        call_ensures(Error::new, (code, source), e),
        call_ensures(Error::code, (&e,), c),
    ensures
        c == code,
{
}

/// The rendering of an error begins with the meaning of its code, and holds
/// the cause's own text right after the opening parenthesis.
pub proof fn lemma_text_holds_meaning_and_cause(code: Code, cause: Seq<char>)
    ensures
        ({
            let t = error_text(code, cause);
            let m = code_meaning(code);
            &&& t.subrange(0, m.len() as int) == m
            &&& t.subrange(m.len() + 2int, m.len() + 2int + cause.len()) == cause
            &&& t.len() == m.len() + cause.len() + 3
        }),
{
    reveal_strlit(" (");
    reveal_strlit(")");
    let t = error_text(code, cause);
    let m = code_meaning(code);
    assert(t.subrange(0, m.len() as int) =~= m);
    assert(t.subrange(m.len() + 2int, m.len() + 2int + cause.len()) =~= cause);
}

/// An error that the handshake preceding all service use can resolve to.
#[derive(Debug)]
pub enum HandshakeError {
    /// Error occurred with the protocol request.
    Rpc(Error),
    /// The protocol version reported by the server is not supported.
    /// Carries the reported version in a human-readable form.
    UnsupportedVersion(String),
    /// The genesis block payload failed validation.
    InvalidBlock0(Error),
}

/// How a handshake error is rendered.
pub open spec fn handshake_error_text(e: HandshakeError) -> Seq<char> {
    match e {
        HandshakeError::Rpc(inner) => error_text(inner@.0, inner@.1),
        HandshakeError::UnsupportedVersion(v) => "unsupported protocol version "@ + v@,
        HandshakeError::InvalidBlock0(_) => "invalid genesis block payload"@,
    }
}

impl HandshakeError {
    /// Renders this error for diagnostics.
    pub fn to_string(&self) -> (r: String)
        ensures
            r@ == handshake_error_text(*self),
    {
        match self {
            HandshakeError::Rpc(inner) => inner.to_string(),
            HandshakeError::UnsupportedVersion(v) => {
                String::from_str("unsupported protocol version ").concat(v.as_str())
            },
            HandshakeError::InvalidBlock0(_) => String::from_str("invalid genesis block payload"),
        }
    }

    /// Returns the protocol error underlying this one, if there is one.
    pub fn source(&self) -> (r: Option<&Error>)
        ensures
            match *self {
                HandshakeError::Rpc(inner) => r == Some(&inner),
                HandshakeError::UnsupportedVersion(_) => r.is_none(),
                HandshakeError::InvalidBlock0(inner) => r == Some(&inner),
            },
    {
        match self {
            HandshakeError::Rpc(inner) => Some(inner),
            HandshakeError::UnsupportedVersion(_) => None,
            HandshakeError::InvalidBlock0(inner) => Some(inner),
        }
    }
}

} // verus!
