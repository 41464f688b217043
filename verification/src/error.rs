//! What goes wrong in the server, and what its clients are told.
use vstd::prelude::*;
use vstd::string::*;

verus! {

/// An error of the server. Each variant holds the text of the error underneath.
#[derive(Debug, PartialEq, Eq)]
pub enum ServerError {
    OpenPipeFile(String),
    AddressBindFailed(String),
    UnixSocketBindAttempt(String),
    WriterError(String),
    IOError(String),
    ReqwestError(String),
    SerdeJson(String),
    Bincode(String),
    Unexpected(String),
    Anyhow(String),
}

/// The variants of [`ServerError`].
#[derive(Debug, Clone, Copy, PartialEq, Eq)]
pub enum ErrorKind {
    OpenPipeFile,
    AddressBindFailed,
    UnixSocketBindAttempt,
    WriterError,
    IOError,
    ReqwestError,
    SerdeJson,
    Bincode,
    Unexpected,
    Anyhow,
}

/// An error as its variant and the text underneath.
impl View for ServerError {
    type V = (ErrorKind, Seq<char>);

    open spec fn view(&self) -> (ErrorKind, Seq<char>) {
        match self {
            ServerError::OpenPipeFile(text) => (ErrorKind::OpenPipeFile, text@),
            ServerError::AddressBindFailed(text) => (ErrorKind::AddressBindFailed, text@),
            ServerError::UnixSocketBindAttempt(text) => (ErrorKind::UnixSocketBindAttempt, text@),
            ServerError::WriterError(text) => (ErrorKind::WriterError, text@),
            ServerError::IOError(text) => (ErrorKind::IOError, text@),
            ServerError::ReqwestError(text) => (ErrorKind::ReqwestError, text@),
            ServerError::SerdeJson(text) => (ErrorKind::SerdeJson, text@),
            ServerError::Bincode(text) => (ErrorKind::Bincode, text@),
            ServerError::Unexpected(text) => (ErrorKind::Unexpected, text@),
            ServerError::Anyhow(text) => (ErrorKind::Anyhow, text@),
        }
    }
}

/// What each kind of error puts in front of the text underneath; five kinds are transparent.
pub open spec fn prefix(kind: ErrorKind) -> Seq<char> {
    match kind {
        ErrorKind::OpenPipeFile => "couldn't open the consumer pipe file: "@,
        ErrorKind::AddressBindFailed => "error binding writer server to address: "@,
        ErrorKind::UnixSocketBindAttempt =>
            "writer server must not bind to unix socket, attemped: "@,
        ErrorKind::Unexpected => "unexpected error: "@,
        ErrorKind::Anyhow => "unexpected error: "@,
        ErrorKind::WriterError => Seq::empty(),
        ErrorKind::IOError => Seq::empty(),
        ErrorKind::ReqwestError => Seq::empty(),
        ErrorKind::SerdeJson => Seq::empty(),
        ErrorKind::Bincode => Seq::empty(),
    }
}

/// The text of an error.
pub open spec fn error_text(error: (ErrorKind, Seq<char>)) -> Seq<char> {
    prefix(error.0) + error.1
}

/// Two texts, one after the other.
pub(crate) fn joined(left: &str, right: &str) -> (r: String)
    ensures
        r@ == left@ + right@,
{
    left.to_owned().concat(right)
}

impl ServerError {
    /// The text of the error, as a client reads it.
    pub fn message(&self) -> (r: String)
        ensures
            r@ == error_text(self@),
    {
        match self {
            ServerError::OpenPipeFile(text) => joined(
                "couldn't open the consumer pipe file: ",
                text.as_str(),
            ),
            ServerError::AddressBindFailed(text) => joined(
                "error binding writer server to address: ",
                text.as_str(),
            ),
            ServerError::UnixSocketBindAttempt(text) => joined(
                "writer server must not bind to unix socket, attemped: ",
                text.as_str(),
            ),
            ServerError::Unexpected(text) => joined("unexpected error: ", text.as_str()),
            ServerError::Anyhow(text) => joined("unexpected error: ", text.as_str()),
            ServerError::WriterError(text) => text.clone(),
            ServerError::IOError(text) => text.clone(),
            ServerError::ReqwestError(text) => text.clone(),
            ServerError::SerdeJson(text) => text.clone(),
            ServerError::Bincode(text) => text.clone(),
        }
    }
}

/// An error tells its cause, word for word and last. Five kinds say no more than that; the others
/// say before it what went wrong.
pub proof fn law_errors_tell_their_cause(error: ServerError)
    ensures
        ({
            let text = error_text(error@);
            match error {
                ServerError::OpenPipeFile(cause) => text
                    == "couldn't open the consumer pipe file: "@ + cause@,
                ServerError::AddressBindFailed(cause) => text
                    == "error binding writer server to address: "@ + cause@,
                ServerError::UnixSocketBindAttempt(cause) => text
                    == "writer server must not bind to unix socket, attemped: "@ + cause@,
                ServerError::Unexpected(cause) => text == "unexpected error: "@ + cause@,
                ServerError::Anyhow(cause) => text == "unexpected error: "@ + cause@,
                ServerError::WriterError(cause) => text == cause@,
                ServerError::IOError(cause) => text == cause@,
                ServerError::ReqwestError(cause) => text == cause@,
                ServerError::SerdeJson(cause) => text == cause@,
                ServerError::Bincode(cause) => text == cause@,
            }
        }),
{
}

} // verus!
