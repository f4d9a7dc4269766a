//! The kinds of refusal that a command can meet.

use vstd::prelude::*;
use vstd::string::*;

verus! {

/// The kinds of error that callers see.
#[derive(Debug, Clone, Copy, PartialEq, Eq, Structural)]
pub enum ErrorKind {
    /// The bearer token is missing or cannot be verified.
    NotAuthenticated,
    /// The match is unknown, or a hand or trick that the phase needs is
    /// missing.
    NotFound,
    /// The user is in a match already, the match cannot be joined, or the
    /// state does not allow the command.
    Conflict,
    /// The command comes from a seat that is not on turn.
    NotYourTurn,
    /// The command is for the host and comes from somebody else.
    Forbidden,
    /// A malformed card code, a card that is not held, a card that does not
    /// follow suit, or a bid against the rules.
    IllegalMove,
    /// The store or the message fabric failed; trying again may help.
    TransientStore,
    /// An invariant was found broken; the match is aborted.
    Fatal,
}

/// A refusal: its kind, a short text, and sometimes more words.
#[derive(Debug)]
pub struct CommandError {
    pub kind: ErrorKind,
    pub error: String,
    pub message: Option<String>,
}

/// A refusal as plain values.
pub struct ErrorView {
    pub kind: ErrorKind,
    pub error: Seq<char>,
    pub message: Option<Seq<char>>,
}

impl View for CommandError {
    type V = ErrorView;

    open spec fn view(&self) -> ErrorView {
        ErrorView {
            kind: self.kind,
            error: self.error@,
            message: match self.message {
                Some(m) => Some(m@),
                None => None,
            },
        }
    }
}

/// A refusal without further words.
pub open spec fn plain_error(kind: ErrorKind, error: Seq<char>) -> ErrorView {
    ErrorView { kind, error, message: None }
}

/// A refusal with further words.
pub open spec fn worded_error(kind: ErrorKind, error: Seq<char>, message: Seq<char>) -> ErrorView {
    ErrorView { kind, error, message: Some(message) }
}

impl ErrorKind {
    /// The status class of each kind: 401 not authenticated, 404 not
    /// found, 409 conflict, 403 not on turn or not the host, 400 illegal
    /// move, 500 for failures of the store and for broken invariants.
    pub open spec fn spec_status_code(self) -> u16 {
        match self {
            ErrorKind::NotAuthenticated => 401,
            ErrorKind::NotFound => 404,
            ErrorKind::Conflict => 409,
            ErrorKind::NotYourTurn => 403,
            ErrorKind::Forbidden => 403,
            ErrorKind::IllegalMove => 400,
            ErrorKind::TransientStore => 500,
            ErrorKind::Fatal => 500,
        }
    }

    /// The status class that a response with this kind of error carries.
    pub fn status_code(&self) -> (code: u16)
        ensures
            code == self.spec_status_code(),
    {
        match self {
            ErrorKind::NotAuthenticated => 401,
            ErrorKind::NotFound => 404,
            ErrorKind::Conflict => 409,
            ErrorKind::NotYourTurn => 403,
            ErrorKind::Forbidden => 403,
            ErrorKind::IllegalMove => 400,
            ErrorKind::TransientStore => 500,
            ErrorKind::Fatal => 500,
        }
    }

    /// Whether the same command may succeed when sent again.
    pub fn is_retryable(&self) -> (retry: bool)
        ensures
            retry == (*self == ErrorKind::TransientStore),
    {
        matches!(self, ErrorKind::TransientStore)
    }
}

impl CommandError {
    /// A refusal without further words.
    pub fn new(kind: ErrorKind, error: &str) -> (e: CommandError)
        ensures
            e@ == plain_error(kind, error@),
    {
        CommandError { kind, error: String::from_str(error), message: None }
    }

    /// A refusal with further words.
    pub fn with_message(kind: ErrorKind, error: &str, message: String) -> (e: CommandError)
        ensures
            e@ == worded_error(kind, error@, message@),
    {
        CommandError { kind, error: String::from_str(error), message: Some(message) }
    }
}

} // verus!
