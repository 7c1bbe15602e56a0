//! Why a fetch failed, and the words in which the failure is reported.

use vstd::prelude::*;
use vstd::string::*;

verus! {

/// The stage at which a fetch failed.
#[derive(Debug, Clone, Copy, PartialEq, Eq, Structural)]
pub enum ErrorKind {
    /// The stream to the server could not be opened or secured.
    Transport,
    /// The server rejected the login.
    Auth,
    /// The server refused to select the mailbox or to log out.
    Protocol,
    /// The stream of fetched messages broke, or a message came without its
    /// header block.
    Stream,
    /// A header block could not be split into fields.
    Parse,
    /// The time allowed for the whole fetch ran out.
    Timeout,
}

/// A failed fetch. Each failure but `MissingHeader` and `Timeout` carries the
/// cause as the failing party worded it.
#[derive(Debug, Clone)]
pub enum FetchError {
    Connect(String),
    Handshake(String),
    Login(String),
    Select(String),
    Fetch(String),
    Stream(String),
    MissingHeader,
    Parse(String),
    Logout(String),
    Timeout,
}

/// The mathematical value of a [`FetchError`].
pub ghost enum ErrorView {
    Connect(Seq<char>),
    Handshake(Seq<char>),
    Login(Seq<char>),
    Select(Seq<char>),
    Fetch(Seq<char>),
    Stream(Seq<char>),
    MissingHeader,
    Parse(Seq<char>),
    Logout(Seq<char>),
    Timeout,
}

impl View for FetchError {
    type V = ErrorView;

    open spec fn view(&self) -> ErrorView {
        match self {
            FetchError::Connect(cause) => ErrorView::Connect(cause@),
            FetchError::Handshake(cause) => ErrorView::Handshake(cause@),
            FetchError::Login(cause) => ErrorView::Login(cause@),
            FetchError::Select(cause) => ErrorView::Select(cause@),
            FetchError::Fetch(cause) => ErrorView::Fetch(cause@),
            FetchError::Stream(cause) => ErrorView::Stream(cause@),
            FetchError::MissingHeader => ErrorView::MissingHeader,
            FetchError::Parse(reason) => ErrorView::Parse(reason@),
            FetchError::Logout(cause) => ErrorView::Logout(cause@),
            FetchError::Timeout => ErrorView::Timeout,
        }
    }
}

impl ErrorView {
    /// The stage to which the failure belongs.
    pub open spec fn kind(self) -> ErrorKind {
        match self {
            ErrorView::Connect(_) | ErrorView::Handshake(_) => ErrorKind::Transport,
            ErrorView::Login(_) => ErrorKind::Auth,
            ErrorView::Select(_) | ErrorView::Logout(_) => ErrorKind::Protocol,
            ErrorView::Fetch(_) | ErrorView::Stream(_) | ErrorView::MissingHeader => ErrorKind::Stream,
            ErrorView::Parse(_) => ErrorKind::Parse,
            ErrorView::Timeout => ErrorKind::Timeout,
        }
    }

    /// The line that reports the failure.
    pub open spec fn message(self) -> Seq<char> {
        match self {
            ErrorView::Connect(cause) => "TCP Connection failed: "@ + cause,
            ErrorView::Handshake(cause) => "TLS handshake failed: "@ + cause,
            ErrorView::Login(cause) => "Login failed: "@ + cause,
            ErrorView::Select(cause) => "Select INBOX failed: "@ + cause,
            ErrorView::Fetch(cause) => "Fetch failed: "@ + cause,
            ErrorView::Stream(cause) => "Stream error: "@ + cause,
            ErrorView::MissingHeader => "No header"@,
            ErrorView::Parse(reason) => reason,
            ErrorView::Logout(cause) => "Logout failed: "@ + cause,
            ErrorView::Timeout => "IMAP connection timed out"@,
        }
    }
}

fn prefixed(prefix: &str, cause: &String) -> (line: String)
    ensures
        line@ == prefix@ + cause@,
{
    String::from_str(prefix).concat(cause.as_str())
}

impl FetchError {
    /// The stage to which the failure belongs.
    pub fn kind(&self) -> (kind: ErrorKind)
        ensures
            kind == self@.kind(),
    {
        match self {
            FetchError::Connect(_) | FetchError::Handshake(_) => ErrorKind::Transport,
            FetchError::Login(_) => ErrorKind::Auth,
            FetchError::Select(_) | FetchError::Logout(_) => ErrorKind::Protocol,
            FetchError::Fetch(_) | FetchError::Stream(_) | FetchError::MissingHeader => ErrorKind::Stream,
            FetchError::Parse(_) => ErrorKind::Parse,
            FetchError::Timeout => ErrorKind::Timeout,
        }
    }

    /// The line that reports the failure: the stage in words, then the cause.
    pub fn message(&self) -> (line: String)
        ensures
            line@ == self@.message(),
    {
        match self {
            FetchError::Connect(cause) => prefixed("TCP Connection failed: ", cause),
            FetchError::Handshake(cause) => prefixed("TLS handshake failed: ", cause),
            FetchError::Login(cause) => prefixed("Login failed: ", cause),
            FetchError::Select(cause) => prefixed("Select INBOX failed: ", cause),
            FetchError::Fetch(cause) => prefixed("Fetch failed: ", cause),
            FetchError::Stream(cause) => prefixed("Stream error: ", cause),
            FetchError::MissingHeader => String::from_str("No header"),
            FetchError::Parse(reason) => reason.clone(),
            FetchError::Logout(cause) => prefixed("Logout failed: ", cause),
            FetchError::Timeout => String::from_str("IMAP connection timed out"),
        }
    }
}

/// A failure to reach the server and a rejected login are reported in
/// different words, whatever their causes: the stage of a failure can be read
/// off its line.
pub proof fn lemma_transport_and_auth_lines_differ(transport: ErrorView, auth: ErrorView)
    requires
        transport.kind() == ErrorKind::Transport,
        auth.kind() == ErrorKind::Auth,
    ensures
        transport.message() != auth.message(),
{
    reveal_strlit("TCP Connection failed: ");
    reveal_strlit("TLS handshake failed: ");
    reveal_strlit("Login failed: ");
    assert(auth.message()[0] == 'L');
    assert(transport.message()[0] == 'T');
}

/// The line of a fetch that ran out of time is not the line of any failure to
/// reach the server, to log in, to select the mailbox, to fetch or to log out.
pub proof fn lemma_timeout_line_stands_alone(other: ErrorView)
    requires
        other.kind() != ErrorKind::Timeout,
        other.kind() != ErrorKind::Parse,
    ensures
        other.message() != ErrorView::Timeout.message(),
{
    reveal_strlit("TCP Connection failed: ");
    reveal_strlit("TLS handshake failed: ");
    reveal_strlit("Login failed: ");
    reveal_strlit("Select INBOX failed: ");
    reveal_strlit("Fetch failed: ");
    reveal_strlit("Stream error: ");
    reveal_strlit("No header");
    reveal_strlit("Logout failed: ");
    reveal_strlit("IMAP connection timed out");
    let line = other.message();
    let timeout = ErrorView::Timeout.message();
    assert(timeout[0] == 'I' && timeout[1] == 'M');
    match other {
        ErrorView::Connect(_) => assert(line[0] == 'T'),
        ErrorView::Handshake(_) => assert(line[0] == 'T'),
        ErrorView::Login(_) => assert(line[0] == 'L'),
        ErrorView::Select(_) => assert(line[0] == 'S'),
        ErrorView::Fetch(_) => assert(line[0] == 'F'),
        ErrorView::Stream(_) => assert(line[0] == 'S'),
        ErrorView::MissingHeader => assert(line[0] == 'N'),
        ErrorView::Logout(_) => assert(line[0] == 'L'),
        _ => {},
    }
}

} // verus!
