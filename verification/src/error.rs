use vstd::prelude::*;

verus! {

/// The single error channel of the service. Each variant carries the detail
/// text of the failure it stands for.
#[derive(Debug, Clone, PartialEq, Eq)]
pub enum EmailError {
    /// A transport failed: the network, the name lookup or TLS failed on the
    /// way to an HTTP or SMTP endpoint, or the answer came without a body.
    Curl(String),
    /// A header value could not be built.
    Http(String),
    /// The mail server refused: it rejected the credentials or the message.
    MailSend(String),
    /// A payload did not match any known schema.
    Serde(String),
    /// The remote-call layer itself failed or was misused.
    IpcClient(String),
    /// The parameter of a remote call is missing or malformed.
    InvalidParameter(String),
    /// No operation goes by the method name of a remote call.
    UnsupportedMethod(String),
}

pub type EmailResult<T> = Result<T, EmailError>;

/// The kinds of failure.
#[derive(Debug, Clone, Copy, PartialEq, Eq, Structural)]
pub enum ErrorKind {
    Curl,
    Http,
    MailSend,
    Serde,
    IpcClient,
    InvalidParameter,
    UnsupportedMethod,
}

/// The content of an [`EmailError`]: its kind and its detail text.
pub struct Failure {
    pub kind: ErrorKind,
    pub detail: Seq<char>,
}

impl View for EmailError {
    type V = Failure;

    open spec fn view(&self) -> Failure {
        match self {
            EmailError::Curl(s) => Failure { kind: ErrorKind::Curl, detail: s@ },
            EmailError::Http(s) => Failure { kind: ErrorKind::Http, detail: s@ },
            EmailError::MailSend(s) => Failure { kind: ErrorKind::MailSend, detail: s@ },
            EmailError::Serde(s) => Failure { kind: ErrorKind::Serde, detail: s@ },
            EmailError::IpcClient(s) => Failure { kind: ErrorKind::IpcClient, detail: s@ },
            EmailError::InvalidParameter(s) => Failure {
                kind: ErrorKind::InvalidParameter,
                detail: s@,
            },
            EmailError::UnsupportedMethod(s) => Failure {
                kind: ErrorKind::UnsupportedMethod,
                detail: s@,
            },
        }
    }
}

/// A failure of the given kind with the given detail.
pub open spec fn failure(kind: ErrorKind, detail: Seq<char>) -> Failure {
    Failure { kind, detail }
}

impl EmailError {
    /// The kind of the error.
    pub fn kind(&self) -> (kind: ErrorKind)
        ensures
            kind == self@.kind,
    {
        match self {
            EmailError::Curl(_) => ErrorKind::Curl,
            EmailError::Http(_) => ErrorKind::Http,
            EmailError::MailSend(_) => ErrorKind::MailSend,
            EmailError::Serde(_) => ErrorKind::Serde,
            EmailError::IpcClient(_) => ErrorKind::IpcClient,
            EmailError::InvalidParameter(_) => ErrorKind::InvalidParameter,
            EmailError::UnsupportedMethod(_) => ErrorKind::UnsupportedMethod,
        }
    }

    /// The text shown for the error: its detail, without the kind.
    pub fn to_string(&self) -> (text: String)
        ensures
            text@ == self@.detail,
    {
        match self {
            EmailError::Curl(s) => s.clone(),
            EmailError::Http(s) => s.clone(),
            EmailError::MailSend(s) => s.clone(),
            EmailError::Serde(s) => s.clone(),
            EmailError::IpcClient(s) => s.clone(),
            EmailError::InvalidParameter(s) => s.clone(),
            EmailError::UnsupportedMethod(s) => s.clone(),
        }
    }
}

} // verus!
