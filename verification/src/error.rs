//! The failures of the file tree and of the remote mailbox.

use vstd::prelude::*;
use vstd::string::*;

verus! {

/// `ENOENT`: no such file or directory.
pub const ENOENT: i32 = 2;

/// `EFAULT`: bad address; reported for every failure of the remote side.
pub const EFAULT: i32 = 14;

/// `ENOTDIR`: not a directory.
pub const ENOTDIR: i32 = 20;

/// `EISDIR`: is a directory.
pub const EISDIR: i32 = 21;

/// `EINVAL`: invalid argument.
pub const EINVAL: i32 = 22;

/// How loudly a failure is logged.
#[derive(Clone, Copy, Debug, PartialEq, Eq, Structural)]
pub enum Severity {
    Debug,
    Warn,
    Error,
}

/// Why a file operation failed.
#[derive(Debug)]
pub enum FsError {
    /// The inode or the name does not resolve.
    NotFound,
    /// The remote side failed; the text is its message.
    InternalError(String),
    /// An attachment has neither an inline body nor a download key.
    Invalid,
    /// A read was attempted on a directory.
    IsDir,
    /// A directory operation was attempted on a file.
    IsNotDir,
}

/// A failure of a file operation with its message as a sequence of characters.
pub enum FsErrorView {
    NotFound,
    InternalError(Seq<char>),
    Invalid,
    IsDir,
    IsNotDir,
}

impl View for FsError {
    type V = FsErrorView;

    open spec fn view(&self) -> FsErrorView {
        match *self {
            FsError::NotFound => FsErrorView::NotFound,
            FsError::InternalError(message) => FsErrorView::InternalError(message@),
            FsError::Invalid => FsErrorView::Invalid,
            FsError::IsDir => FsErrorView::IsDir,
            FsError::IsNotDir => FsErrorView::IsNotDir,
        }
    }
}

impl FsErrorView {
    /// The error number that stands for this failure.
    pub open spec fn errno(self) -> i32 {
        match self {
            FsErrorView::NotFound => ENOENT,
            FsErrorView::InternalError(_) => EFAULT,
            FsErrorView::Invalid => EINVAL,
            FsErrorView::IsDir => EISDIR,
            FsErrorView::IsNotDir => ENOTDIR,
        }
    }

    /// How loudly this failure is logged.
    pub open spec fn severity(self) -> Severity {
        match self {
            FsErrorView::InternalError(_) => Severity::Error,
            FsErrorView::Invalid => Severity::Warn,
            _ => Severity::Debug,
        }
    }

    /// Whether the failure came from the remote side and may pass.
    pub open spec fn transient(self) -> bool {
        self is InternalError
    }
}

impl Clone for FsError {
    fn clone(&self) -> (copy: Self)
        ensures
            copy@ == self@,
    {
        match self {
            FsError::NotFound => FsError::NotFound,
            FsError::InternalError(m) => FsError::InternalError(m.clone()),
            FsError::Invalid => FsError::Invalid,
            FsError::IsDir => FsError::IsDir,
            FsError::IsNotDir => FsError::IsNotDir,
        }
    }
}

impl FsError {
    /// The error number handed to the kernel for this failure.
    pub fn errno(&self) -> (code: i32)
        ensures
            code == self@.errno(),
    {
        match self {
            FsError::NotFound => ENOENT,
            FsError::InternalError(_) => EFAULT,
            FsError::Invalid => EINVAL,
            FsError::IsDir => EISDIR,
            FsError::IsNotDir => ENOTDIR,
        }
    }

    /// How loudly this failure is logged.
    pub fn severity(&self) -> (level: Severity)
        ensures
            level == self@.severity(),
    {
        match self {
            FsError::InternalError(_) => Severity::Error,
            FsError::Invalid => Severity::Warn,
            _ => Severity::Debug,
        }
    }

    /// Whether the failure came from the remote side. Only such a failure may
    /// be gone on a later attempt.
    pub fn is_transient(&self) -> (yes: bool)
        ensures
            yes == self@.transient(),
    {
        match self {
            FsError::InternalError(_) => true,
            _ => false,
        }
    }

    /// A short description of the failure.
    pub fn message(&self) -> (text: String)
        ensures
            text@ == match self@ {
                FsErrorView::NotFound => "not found"@,
                FsErrorView::InternalError(m) => "internal error: "@ + m,
                FsErrorView::Invalid => "invalid attachment"@,
                FsErrorView::IsDir => "is a directory"@,
                FsErrorView::IsNotDir => "not a directory"@,
            },
    {
        match self {
            FsError::NotFound => String::from_str("not found"),
            FsError::InternalError(m) => String::from_str("internal error: ").concat(m.as_str()),
            FsError::Invalid => String::from_str("invalid attachment"),
            FsError::IsDir => String::from_str("is a directory"),
            FsError::IsNotDir => String::from_str("not a directory"),
        }
    }
}

/// Why a command failed.
#[derive(Debug)]
pub enum Error {
    /// The remote mailbox failed.
    ClientError(ClientError),
    /// The session could not be read or made.
    SessionError(String),
    /// The terminal interface failed.
    TuiError(String),
    /// A file could not be read or written.
    IOError(String),
    /// An attachment could not be opened.
    OpenError(String),
    /// The program met a state that it does not expect.
    AppError(String),
    /// The user asked for something that does not exist.
    UserError(String),
}

/// Why a call to the remote mailbox failed.
#[derive(Debug)]
pub enum ClientError {
    /// A request failed in transport or came back with an error status.
    HttpError(String),
    /// A text was not valid UTF-8.
    FromUtf8Error(String),
    /// A message body could not be coded or decoded.
    JsonError(String),
    NoSession,
    SessionExpired,
    LoginFailed,
    LoginAborted,
    /// The session could not be loaded, stored or read.
    SessionError(String),
    /// The terminal interface failed.
    TuiError(String),
    /// A request could not be repeated because its body cannot be copied.
    CloneError,
}

/// A failure of the remote mailbox with its detail as a sequence of characters.
pub enum ClientErrorView {
    HttpError(Seq<char>),
    FromUtf8Error(Seq<char>),
    JsonError(Seq<char>),
    NoSession,
    SessionExpired,
    LoginFailed,
    LoginAborted,
    SessionError(Seq<char>),
    TuiError(Seq<char>),
    CloneError,
}

impl View for ClientError {
    type V = ClientErrorView;

    open spec fn view(&self) -> ClientErrorView {
        match *self {
            ClientError::HttpError(d) => ClientErrorView::HttpError(d@),
            ClientError::FromUtf8Error(d) => ClientErrorView::FromUtf8Error(d@),
            ClientError::JsonError(d) => ClientErrorView::JsonError(d@),
            ClientError::NoSession => ClientErrorView::NoSession,
            ClientError::SessionExpired => ClientErrorView::SessionExpired,
            ClientError::LoginFailed => ClientErrorView::LoginFailed,
            ClientError::LoginAborted => ClientErrorView::LoginAborted,
            ClientError::SessionError(d) => ClientErrorView::SessionError(d@),
            ClientError::TuiError(d) => ClientErrorView::TuiError(d@),
            ClientError::CloneError => ClientErrorView::CloneError,
        }
    }
}

impl ClientErrorView {
    /// The message of this failure.
    pub open spec fn message(self) -> Seq<char> {
        match self {
            ClientErrorView::HttpError(d) => "HTTP error: "@ + d,
            ClientErrorView::FromUtf8Error(d) => "utf8 decode failed: "@ + d,
            ClientErrorView::JsonError(d) => "JSON error: "@ + d,
            ClientErrorView::NoSession => "no session"@,
            ClientErrorView::SessionExpired => "session expired"@,
            ClientErrorView::LoginFailed => "login failed"@,
            ClientErrorView::LoginAborted => "login aborted"@,
            ClientErrorView::SessionError(d) => "session error: "@ + d,
            ClientErrorView::TuiError(d) => "tui error: "@ + d,
            ClientErrorView::CloneError => "request body is not cloneable"@,
        }
    }

    /// Whether a new login can mend this failure.
    pub open spec fn needs_login(self) -> bool {
        self is NoSession || self is SessionExpired
    }
}

impl Clone for ClientError {
    fn clone(&self) -> (copy: Self)
        ensures
            copy@ == self@,
    {
        match self {
            ClientError::HttpError(d) => ClientError::HttpError(d.clone()),
            ClientError::FromUtf8Error(d) => ClientError::FromUtf8Error(d.clone()),
            ClientError::JsonError(d) => ClientError::JsonError(d.clone()),
            ClientError::NoSession => ClientError::NoSession,
            ClientError::SessionExpired => ClientError::SessionExpired,
            ClientError::LoginFailed => ClientError::LoginFailed,
            ClientError::LoginAborted => ClientError::LoginAborted,
            ClientError::SessionError(d) => ClientError::SessionError(d.clone()),
            ClientError::TuiError(d) => ClientError::TuiError(d.clone()),
            ClientError::CloneError => ClientError::CloneError,
        }
    }
}

impl ClientError {
    /// The message of this failure.
    pub fn message(&self) -> (text: String)
        ensures
            text@ == self@.message(),
    {
        match self {
            ClientError::HttpError(d) => String::from_str("HTTP error: ").concat(d.as_str()),
            ClientError::FromUtf8Error(d) => String::from_str("utf8 decode failed: ").concat(
                d.as_str(),
            ),
            ClientError::JsonError(d) => String::from_str("JSON error: ").concat(d.as_str()),
            ClientError::NoSession => String::from_str("no session"),
            ClientError::SessionExpired => String::from_str("session expired"),
            ClientError::LoginFailed => String::from_str("login failed"),
            ClientError::LoginAborted => String::from_str("login aborted"),
            ClientError::SessionError(d) => String::from_str("session error: ").concat(d.as_str()),
            ClientError::TuiError(d) => String::from_str("tui error: ").concat(d.as_str()),
            ClientError::CloneError => String::from_str("request body is not cloneable"),
        }
    }

    /// Whether the request is worth one more attempt after a new login.
    pub fn needs_login(&self) -> (yes: bool)
        ensures
            yes == self@.needs_login(),
    {
        match self {
            ClientError::NoSession => true,
            ClientError::SessionExpired => true,
            _ => false,
        }
    }

    /// The failure as the file tree reports it: always an internal error that
    /// carries this failure's message.
    pub fn into_fs_error(&self) -> (e: FsError)
        ensures
            e@ == FsErrorView::InternalError(self@.message()),
    {
        FsError::InternalError(self.message())
    }
}

} // verus!
