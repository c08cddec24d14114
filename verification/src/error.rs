//! The library's error type.

use std::io;
use std::sync::Arc;
use vstd::prelude::*;
use vstd::string::*;

verus! {

/// The error of an I/O operation, carried as it is.
#[verifier::external_type_specification]
#[verifier::external_body]
pub struct ExIoError(io::Error);

/// The kind of an I/O failure, carried as it is.
#[verifier::external_type_specification]
#[verifier::external_body]
pub struct ExIoErrorKind(io::ErrorKind);

/// The kind of an I/O failure that the client describes in its own words.
#[derive(Debug, Clone, Copy)]
pub enum IoErrorKind {
    /// Something took too long.
    TimedOut,
    /// Whatever kind was reported.
    Reported(io::ErrorKind),
}

/// An I/O failure.
#[derive(Debug, Clone)]
pub enum IoError {
    /// The error that an operation reported, itself.
    Reported(Arc<io::Error>),
    /// A failure of this kind, in the client's own words.
    Described { kind: IoErrorKind, message: String },
}

/// Everything that can go wrong in the client.
#[derive(Debug, Clone)]
pub enum PgWireError {
    /// Reading, writing or connecting failed.
    Io(IoError),
    /// The server sent something that the protocol does not allow.
    Protocol(String),
    /// TLS was asked for and cannot be had.
    Tls(String),
    /// The worker task did not end in an orderly way, or was joined before.
    Task(String),
    /// The client was used or behaved in a way that it never should.
    Internal(String),
}

/// A [`PgWireError`] with its texts as character sequences, and a reported I/O
/// error as it is.
pub ghost enum ErrorView {
    Reported(Arc<io::Error>),
    Io(IoErrorKind, Seq<char>),
    Protocol(Seq<char>),
    Tls(Seq<char>),
    Task(Seq<char>),
    Internal(Seq<char>),
}

impl View for PgWireError {
    type V = ErrorView;

    open spec fn view(&self) -> ErrorView {
        match *self {
            PgWireError::Io(IoError::Reported(e)) => ErrorView::Reported(e),
            PgWireError::Io(IoError::Described { kind, message }) => ErrorView::Io(kind, message@),
            PgWireError::Protocol(text) => ErrorView::Protocol(text@),
            PgWireError::Tls(text) => ErrorView::Tls(text@),
            PgWireError::Task(text) => ErrorView::Task(text@),
            PgWireError::Internal(text) => ErrorView::Internal(text@),
        }
    }
}

/// A result with its error as a view.
pub open spec fn with_error_view<T>(result: Result<T, PgWireError>) -> Result<T, ErrorView> {
    match result {
        Ok(value) => Ok(value),
        Err(e) => Err(e@),
    }
}

impl ErrorView {
    /// `text` is what the error says: its own text, or what the reported error
    /// displays as.
    pub open spec fn says(self, text: String) -> bool {
        match self {
            ErrorView::Reported(e) => to_string_from_display_ensures::<io::Error>(&*e, text),
            ErrorView::Io(_, own) => text@ == own,
            ErrorView::Protocol(own) => text@ == own,
            ErrorView::Tls(own) => text@ == own,
            ErrorView::Task(own) => text@ == own,
            ErrorView::Internal(own) => text@ == own,
        }
    }
}

impl PgWireError {
    /// What the error says, for people to read.
    pub fn to_string(&self) -> (text: String)
        ensures
            self@.says(text),
    {
        match self {
            PgWireError::Io(IoError::Reported(e)) => {
                let reported: &io::Error = &**e;
                reported.to_string()
            },
            PgWireError::Io(IoError::Described { message, .. }) => message.clone(),
            PgWireError::Protocol(text) => text.clone(),
            PgWireError::Tls(text) => text.clone(),
            PgWireError::Task(text) => text.clone(),
            PgWireError::Internal(text) => text.clone(),
        }
    }
}

/// An error says its own text, whole and unchanged, and nothing else; one that
/// carries a reported I/O error says what that displays as.
pub proof fn law_error_says_its_own_text(e: &PgWireError, text: String)
    requires
        call_ensures(PgWireError::to_string, (e,), text),
    ensures
        *e matches PgWireError::Protocol(own) ==> text@ == own@,
        *e matches PgWireError::Tls(own) ==> text@ == own@,
        *e matches PgWireError::Task(own) ==> text@ == own@,
        *e matches PgWireError::Internal(own) ==> text@ == own@,
        *e matches PgWireError::Io(IoError::Described { kind, message }) ==> text@ == message@,
        *e matches PgWireError::Io(IoError::Reported(reported))
            ==> to_string_from_display_ensures::<io::Error>(&*reported, text),
{
}

/// Two errors with the same view are of the same kind and say the same;
/// of reported I/O errors, it is the same one.
pub proof fn law_views_tell_errors_apart(a: PgWireError, b: PgWireError)
    requires
        a@ == b@,
    ensures
        a matches PgWireError::Protocol(text) ==> (b matches PgWireError::Protocol(other) && other@
            == text@),
        a matches PgWireError::Tls(text) ==> (b matches PgWireError::Tls(other) && other@ == text@),
        a matches PgWireError::Task(text) ==> (b matches PgWireError::Task(other) && other@
            == text@),
        a matches PgWireError::Internal(text) ==> (b matches PgWireError::Internal(other) && other@
            == text@),
        a matches PgWireError::Io(IoError::Reported(e)) ==> (b matches PgWireError::Io(
            IoError::Reported(other),
        ) && other == e),
        a matches PgWireError::Io(IoError::Described { kind, message }) ==> (
        b matches PgWireError::Io(IoError::Described { kind: k, message: m }) && k == kind && m@
            == message@),
{
}

} // verus!
