//! How failures reach the caller: one kind for everything the service
//! reports, carrying its message verbatim, and one that the facade raises
//! itself when a favourite is missing from its list.
use vstd::prelude::*;
use vstd::string::StringExecFns;

verus! {

/// A failure as the service client reports it, by cause, with its detail.
#[derive(Clone, Debug, PartialEq, Eq)]
pub enum ServiceError {
    AuthenticationFailed(String),
    NetworkError(String),
    InvalidResponse(String),
    NotFound(String),
    PermissionDenied(String),
    ProtobufError(String),
    Other(String),
}

/// Which of the facade's error kinds a failure belongs to.
#[derive(Clone, Copy, Debug, PartialEq, Eq, Structural)]
pub enum ErrorKind {
    /// Anything that the service reported.
    Service,
    /// A favourite that is not in the favourites list it was looked for in.
    NotFound,
}

/// The one error type of the facade: a kind and a human-readable message.
#[derive(Clone, Debug, PartialEq, Eq)]
pub struct ClientError {
    pub kind: ErrorKind,
    pub message: String,
}

/// The message of the error that a missing favourite raises.
pub open spec fn favourite_not_found_text() -> Seq<char> {
    "Favourite item not found"@
}

impl ServiceError {
    /// The words that open the rendered message of each cause.
    pub open spec fn label(&self) -> Seq<char> {
        match self {
            ServiceError::AuthenticationFailed(_) => "Authentication failed: "@,
            ServiceError::NetworkError(_) => "Network error: "@,
            ServiceError::InvalidResponse(_) => "Invalid response: "@,
            ServiceError::NotFound(_) => "Not found: "@,
            ServiceError::PermissionDenied(_) => "Permission denied: "@,
            ServiceError::ProtobufError(_) => "Protobuf error: "@,
            ServiceError::Other(_) => "Error: "@,
        }
    }

    /// The detail that the service gave.
    pub open spec fn detail(&self) -> Seq<char> {
        match self {
            ServiceError::AuthenticationFailed(m) => m@,
            ServiceError::NetworkError(m) => m@,
            ServiceError::InvalidResponse(m) => m@,
            ServiceError::NotFound(m) => m@,
            ServiceError::PermissionDenied(m) => m@,
            ServiceError::ProtobufError(m) => m@,
            ServiceError::Other(m) => m@,
        }
    }

    /// The message as the service client renders it: label, then detail.
    pub open spec fn rendered(&self) -> Seq<char> {
        self.label() + self.detail()
    }

    /// Renders the error as the service client does.
    pub fn render(&self) -> (r: String)
        ensures
            r@ == self.rendered(),
    {
        let (mut text, detail) = match self {
            ServiceError::AuthenticationFailed(m) => (String::from_str("Authentication failed: "), m),
            ServiceError::NetworkError(m) => (String::from_str("Network error: "), m),
            ServiceError::InvalidResponse(m) => (String::from_str("Invalid response: "), m),
            ServiceError::NotFound(m) => (String::from_str("Not found: "), m),
            ServiceError::PermissionDenied(m) => (String::from_str("Permission denied: "), m),
            ServiceError::ProtobufError(m) => (String::from_str("Protobuf error: "), m),
            ServiceError::Other(m) => (String::from_str("Error: "), m),
        };
        text.append(detail.as_str());
        text
    }
}

impl ClientError {
    /// The error that a failure of the service becomes: its rendered message,
    /// with nothing added.
    pub fn from_service(e: &ServiceError) -> (r: ClientError)
        ensures
            r.kind == ErrorKind::Service,
            r.message@ == e.rendered(),
    {
        ClientError { kind: ErrorKind::Service, message: e.render() }
    }

    /// The error that a failure of the service becomes where the operation
    /// names itself first: `context`, a colon and a space, then the rendered
    /// message.
    pub fn in_context(context: &str, e: &ServiceError) -> (r: ClientError)
        ensures
            r.kind == ErrorKind::Service,
            r.message@ == context@ + ": "@ + e.rendered(),
    {
        let mut message = String::from_str(context);
        message.append(": ");
        let rendered = e.render();
        message.append(rendered.as_str());
        ClientError { kind: ErrorKind::Service, message }
    }

    /// The error raised when a favourite is not in the list it was looked
    /// for in.
    pub fn favourite_not_found() -> (r: ClientError)
        ensures
            r.kind == ErrorKind::NotFound,
            r.message@ == favourite_not_found_text(),
    {
        ClientError { kind: ErrorKind::NotFound, message: String::from_str("Favourite item not found") }
    }
}

} // verus!
