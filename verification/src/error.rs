//! The library's errors: a flat list of kinds, each with details in words
//! and, where there is one, the cause in words.
use vstd::prelude::*;
use vstd::string::*;
use crate::db::model::ProvideError;

verus! {

/// The kind of an [`Error`].
#[derive(Clone, Copy, Debug, PartialEq, Eq, Structural)]
pub enum ErrorKind {
    Misc,
    Config,
    Env,
    IO,
    Reqwest,
    URL,
    TokioIO,
    TokioJoin,
    ZMQ,
    ZMQSubscribe,
    ZMQSocket,
    ZMQRecv,
    ZMQSend,
    DB,
    SerdeJSON,
    DBProvide,
    ParseInt,
}

/// What can go wrong around the state machine.
#[allow(inconsistent_fields)]
#[derive(Clone, Debug, PartialEq)]
pub enum Error {
    /// Anything that has no kind of its own.
    MiscError { details: String },
    /// The configuration could not be read or merged.
    ConfigError { details: String, source: String },
    /// An environment variable is missing or unreadable.
    EnvError { details: String, source: String },
    /// A file or a directory could not be used.
    IOError { details: String, source: String },
    /// An HTTP request failed.
    ReqwestError { details: String, source: String },
    /// A text is no URL.
    URLError { details: String, source: String },
    /// Asynchronous input or output failed, or a child process did.
    TokioIOError { details: String, source: String },
    /// A task ended without a result.
    TokioJoinError { details: String, source: String },
    /// The bus refused to bind or to connect.
    ZMQError { details: String, source: String },
    /// The bus refused a subscription.
    ZMQSubscribeError { details: String, source: String },
    /// A socket of the bus could not be made.
    ZMQSocketError { details: String, source: String },
    /// A message could not be received from the bus.
    ZMQRecvError { details: String, source: String },
    /// A message could not be sent on the bus.
    ZMQSendError { details: String, source: String },
    /// The store could not be reached.
    DBError { details: String, source: String },
    /// A value could not be written as JSON, or read from it.
    SerdeJSONError { details: String, source: String },
    /// The store refused an operation.
    DBProvideError { details: String, source: ProvideError },
    /// A text is no integer.
    ParseIntError { details: String, source: String },
}

/// The mathematical value of an [`Error`]: its kind, its details and its
/// cause in words (empty where the kind has none).
pub struct ErrorView {
    pub kind: ErrorKind,
    pub details: Seq<char>,
    pub source: Seq<char>,
}

impl View for Error {
    type V = ErrorView;

    open spec fn view(&self) -> ErrorView {
        match *self {
            Error::MiscError { details } => ErrorView {
                kind: ErrorKind::Misc,
                details: details@,
                source: Seq::empty(),
            },
            Error::ConfigError { details, source } => ErrorView {
                kind: ErrorKind::Config,
                details: details@,
                source: source@,
            },
            Error::EnvError { details, source } => ErrorView {
                kind: ErrorKind::Env,
                details: details@,
                source: source@,
            },
            Error::IOError { details, source } => ErrorView {
                kind: ErrorKind::IO,
                details: details@,
                source: source@,
            },
            Error::ReqwestError { details, source } => ErrorView {
                kind: ErrorKind::Reqwest,
                details: details@,
                source: source@,
            },
            Error::URLError { details, source } => ErrorView {
                kind: ErrorKind::URL,
                details: details@,
                source: source@,
            },
            Error::TokioIOError { details, source } => ErrorView {
                kind: ErrorKind::TokioIO,
                details: details@,
                source: source@,
            },
            Error::TokioJoinError { details, source } => ErrorView {
                kind: ErrorKind::TokioJoin,
                details: details@,
                source: source@,
            },
            Error::ZMQError { details, source } => ErrorView {
                kind: ErrorKind::ZMQ,
                details: details@,
                source: source@,
            },
            Error::ZMQSubscribeError { details, source } => ErrorView {
                kind: ErrorKind::ZMQSubscribe,
                details: details@,
                source: source@,
            },
            Error::ZMQSocketError { details, source } => ErrorView {
                kind: ErrorKind::ZMQSocket,
                details: details@,
                source: source@,
            },
            Error::ZMQRecvError { details, source } => ErrorView {
                kind: ErrorKind::ZMQRecv,
                details: details@,
                source: source@,
            },
            Error::ZMQSendError { details, source } => ErrorView {
                kind: ErrorKind::ZMQSend,
                details: details@,
                source: source@,
            },
            Error::DBError { details, source } => ErrorView {
                kind: ErrorKind::DB,
                details: details@,
                source: source@,
            },
            Error::SerdeJSONError { details, source } => ErrorView {
                kind: ErrorKind::SerdeJSON,
                details: details@,
                source: source@,
            },
            Error::DBProvideError { details, source } => ErrorView {
                kind: ErrorKind::DBProvide,
                details: details@,
                source: source@.message(),
            },
            Error::ParseIntError { details, source } => ErrorView {
                kind: ErrorKind::ParseInt,
                details: details@,
                source: source@,
            },
        }
    }
}

impl ErrorKind {
    /// The short name under which the API reports errors of this kind.
    pub open spec fn label(self) -> Seq<char> {
        match self {
            ErrorKind::Misc => "User Error"@,
            ErrorKind::Config => "Config Error"@,
            ErrorKind::Env => "Environment Error"@,
            ErrorKind::IO => "IO Error"@,
            ErrorKind::Reqwest => "Reqwest Error"@,
            ErrorKind::URL => "URL Error"@,
            ErrorKind::TokioIO => "Tokio IO Error"@,
            ErrorKind::TokioJoin => "Tokio Join Error"@,
            ErrorKind::ZMQ => "ZMQ Error"@,
            ErrorKind::ZMQSubscribe => "ZMQ Subscribe Error"@,
            ErrorKind::ZMQSocket => "ZMQ Socket Error"@,
            ErrorKind::ZMQRecv => "ZMQ Receive Error"@,
            ErrorKind::ZMQSend => "ZMQ Send Error"@,
            ErrorKind::DB => "Database Error"@,
            ErrorKind::SerdeJSON => "Serde Error"@,
            ErrorKind::DBProvide => "DB Provide Error"@,
            ErrorKind::ParseInt => "Parse Int Error"@,
        }
    }
}

impl ErrorView {
    /// The error in words.
    pub open spec fn message(self) -> Seq<char> {
        match self.kind {
            ErrorKind::Misc => "Misc Error: "@ + self.details,
            ErrorKind::Config => "Config Error: "@ + self.details + " => "@ + self.source,
            ErrorKind::Env => "Environment Variable Error: "@ + self.details + " => "@ + self.source,
            ErrorKind::IO => "IO Error: "@ + self.source,
            ErrorKind::Reqwest => "Reqwest Error: "@ + self.details + " "@ + self.source,
            ErrorKind::URL => "UrL Error: "@ + self.details + " "@ + self.source,
            ErrorKind::TokioIO => "Tokio IO Error: "@ + self.source,
            ErrorKind::TokioJoin => "Tokio Task Error "@ + self.details + ": "@ + self.source,
            ErrorKind::ZMQ => "ZeroMQ Error "@ + self.details + ": "@ + self.source,
            ErrorKind::ZMQSubscribe => "ZeroMQ Subscribe Error "@ + self.details + ": "@ + self.source,
            ErrorKind::ZMQSocket => "ZeroMQ Socket Error "@ + self.details + ": "@ + self.source,
            ErrorKind::ZMQRecv => "ZeroMQ Receive Error "@ + self.details + ": "@ + self.source,
            ErrorKind::ZMQSend => "ZeroMQ Send Error "@ + self.details + ": "@ + self.source,
            ErrorKind::DB => "DB Error: "@ + self.details + " => "@ + self.source,
            ErrorKind::SerdeJSON => "Serde Json Error: "@ + self.details + " => "@ + self.source,
            ErrorKind::DBProvide => "DB Provider Error: "@ + self.details + " => "@ + self.source,
            ErrorKind::ParseInt => "Parse Int Error: "@ + self.details + " => "@ + self.source,
        }
    }
}

/// An error as the API hands it to a client: the kind's label, and the
/// error in words under `internal_error`.
#[derive(Clone, Debug, PartialEq)]
pub struct FieldError {
    pub message: String,
    pub internal_error: String,
}

impl Error {
    /// The kind of the error.
    pub fn kind(&self) -> (r: ErrorKind)
        ensures
            r == self@.kind,
    {
        match self {
            Error::MiscError { .. } => ErrorKind::Misc,
            Error::ConfigError { .. } => ErrorKind::Config,
            Error::EnvError { .. } => ErrorKind::Env,
            Error::IOError { .. } => ErrorKind::IO,
            Error::ReqwestError { .. } => ErrorKind::Reqwest,
            Error::URLError { .. } => ErrorKind::URL,
            Error::TokioIOError { .. } => ErrorKind::TokioIO,
            Error::TokioJoinError { .. } => ErrorKind::TokioJoin,
            Error::ZMQError { .. } => ErrorKind::ZMQ,
            Error::ZMQSubscribeError { .. } => ErrorKind::ZMQSubscribe,
            Error::ZMQSocketError { .. } => ErrorKind::ZMQSocket,
            Error::ZMQRecvError { .. } => ErrorKind::ZMQRecv,
            Error::ZMQSendError { .. } => ErrorKind::ZMQSend,
            Error::DBError { .. } => ErrorKind::DB,
            Error::SerdeJSONError { .. } => ErrorKind::SerdeJSON,
            Error::DBProvideError { .. } => ErrorKind::DBProvide,
            Error::ParseIntError { .. } => ErrorKind::ParseInt,
        }
    }

    /// The short name under which the API reports the error.
    pub fn label(&self) -> (r: &'static str)
        ensures
            r@ == self@.kind.label(),
    {
        match self {
            Error::MiscError { .. } => "User Error",
            Error::ConfigError { .. } => "Config Error",
            Error::EnvError { .. } => "Environment Error",
            Error::IOError { .. } => "IO Error",
            Error::ReqwestError { .. } => "Reqwest Error",
            Error::URLError { .. } => "URL Error",
            Error::TokioIOError { .. } => "Tokio IO Error",
            Error::TokioJoinError { .. } => "Tokio Join Error",
            Error::ZMQError { .. } => "ZMQ Error",
            Error::ZMQSubscribeError { .. } => "ZMQ Subscribe Error",
            Error::ZMQSocketError { .. } => "ZMQ Socket Error",
            Error::ZMQRecvError { .. } => "ZMQ Receive Error",
            Error::ZMQSendError { .. } => "ZMQ Send Error",
            Error::DBError { .. } => "Database Error",
            Error::SerdeJSONError { .. } => "Serde Error",
            Error::DBProvideError { .. } => "DB Provide Error",
            Error::ParseIntError { .. } => "Parse Int Error",
        }
    }

    /// The error in words.
    pub fn message(&self) -> (r: String)
        ensures
            r@ == self@.message(),
    {
        match self {
            Error::MiscError { details } => {
                String::from_str("Misc Error: ").concat(details.as_str())
            },
            Error::ConfigError { details, source } => {
                String::from_str("Config Error: ").concat(details.as_str()).concat(" => ").concat(source.as_str())
            },
            Error::EnvError { details, source } => {
                String::from_str("Environment Variable Error: ").concat(details.as_str()).concat(" => ").concat(source.as_str())
            },
            Error::IOError { source, .. } => {
                String::from_str("IO Error: ").concat(source.as_str())
            },
            Error::ReqwestError { details, source } => {
                String::from_str("Reqwest Error: ").concat(details.as_str()).concat(" ").concat(source.as_str())
            },
            Error::URLError { details, source } => {
                String::from_str("UrL Error: ").concat(details.as_str()).concat(" ").concat(source.as_str())
            },
            Error::TokioIOError { source, .. } => {
                String::from_str("Tokio IO Error: ").concat(source.as_str())
            },
            Error::TokioJoinError { details, source } => {
                String::from_str("Tokio Task Error ").concat(details.as_str()).concat(": ").concat(source.as_str())
            },
            Error::ZMQError { details, source } => {
                String::from_str("ZeroMQ Error ").concat(details.as_str()).concat(": ").concat(source.as_str())
            },
            Error::ZMQSubscribeError { details, source } => {
                String::from_str("ZeroMQ Subscribe Error ").concat(details.as_str()).concat(": ").concat(source.as_str())
            },
            Error::ZMQSocketError { details, source } => {
                String::from_str("ZeroMQ Socket Error ").concat(details.as_str()).concat(": ").concat(source.as_str())
            },
            Error::ZMQRecvError { details, source } => {
                String::from_str("ZeroMQ Receive Error ").concat(details.as_str()).concat(": ").concat(source.as_str())
            },
            Error::ZMQSendError { details, source } => {
                String::from_str("ZeroMQ Send Error ").concat(details.as_str()).concat(": ").concat(source.as_str())
            },
            Error::DBError { details, source } => {
                String::from_str("DB Error: ").concat(details.as_str()).concat(" => ").concat(source.as_str())
            },
            Error::SerdeJSONError { details, source } => {
                String::from_str("Serde Json Error: ").concat(details.as_str()).concat(" => ").concat(source.as_str())
            },
            Error::DBProvideError { details, source } => {
                String::from_str("DB Provider Error: ").concat(details.as_str()).concat(" => ").concat(source.message().as_str())
            },
            Error::ParseIntError { details, source } => {
                String::from_str("Parse Int Error: ").concat(details.as_str()).concat(" => ").concat(source.as_str())
            },
        }
    }

    /// The error as the API hands it to a client.
    pub fn into_field_error(self) -> (r: FieldError)
        ensures
            r.message@ == self@.kind.label(),
            r.internal_error@ == self@.message(),
    {
        let internal_error = self.message();
        FieldError { message: String::from_str(self.label()), internal_error }
    }
}

} // verus!
