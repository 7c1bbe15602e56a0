//! The conduct of one fetch, as a machine that a driver steps.
//!
//! A [`FetchSession`] knows what has to happen next: its [`FetchAction`]. The
//! driver performs that action against the server and reports what came of it
//! as a [`FetchEvent`]; [`FetchSession::advance`] then either hands back the
//! session, one stage further, or ends the fetch with its result. A session is
//! used for one fetch and never again.

use crate::error::ErrorView;
use crate::error::FetchError;
use crate::headers::parse;
use crate::headers::parse_outcome;
use crate::headers::HeaderSummary;
use crate::headers::ParseError;
use crate::headers::SummaryView;
use crate::imap::sample_inbox;
use crate::imap::ClientView;
use crate::imap::ImapClient;
use crate::models::preview_views;
use crate::models::EmailPreview;
use crate::models::PreviewView;
use vstd::prelude::*;
use vstd::string::*;

verus! {

/// What a session is waiting for.
#[derive(Debug, Clone, Copy, PartialEq, Eq, Structural)]
pub enum Stage {
    /// For the stream to the server to open.
    Connecting,
    /// For the stream to be secured.
    Securing,
    /// For the server to accept the login.
    Authenticating,
    /// For the inbox to be selected.
    Selecting,
    /// For the server to take the request for the headers.
    Requesting,
    /// For the next message of the answer.
    Streaming,
    /// For the server to confirm the logout.
    Closing,
}

/// One message of the server's answer: its sequence number and, where the
/// server sent it, its header block. A driver that cannot tell the sequence
/// number of a message reports the pull as failed.
#[derive(Debug, Clone)]
pub struct RawMessage {
    pub sequence: u32,
    pub header: Option<Vec<u8>>,
}

/// The mathematical value of a [`RawMessage`].
pub ghost struct MessageView {
    pub sequence: u32,
    pub header: Option<Seq<u8>>,
}

impl View for RawMessage {
    type V = MessageView;

    open spec fn view(&self) -> MessageView {
        MessageView {
            sequence: self.sequence,
            header: match self.header {
                Some(raw) => Some(raw@),
                None => None,
            },
        }
    }
}

/// What came of the action that a session asked for.
#[derive(Debug, Clone)]
pub enum FetchEvent {
    /// The action succeeded and yielded nothing. Of a pull: the answer holds
    /// no further message.
    Completed,
    /// The action failed; the cause in the words of the party that failed.
    Failed(String),
    /// The pull yielded a message.
    Message(RawMessage),
}

/// The mathematical value of a [`FetchEvent`].
pub ghost enum EventView {
    Completed,
    Failed(Seq<char>),
    Message(MessageView),
}

impl View for FetchEvent {
    type V = EventView;

    open spec fn view(&self) -> EventView {
        match self {
            FetchEvent::Completed => EventView::Completed,
            FetchEvent::Failed(cause) => EventView::Failed(cause@),
            FetchEvent::Message(message) => EventView::Message(message@),
        }
    }
}

/// What the driver has to do next.
#[derive(Debug, Clone)]
pub enum FetchAction {
    /// Open a stream to `domain` at `port`.
    Connect { domain: String, port: u16 },
    /// Secure the stream, with `domain` as the name that the server's
    /// certificate has to bear.
    Handshake { domain: String },
    /// Log in.
    Login { username: String, password: String },
    /// Select a mailbox.
    Select { mailbox: String },
    /// Request the data item `query` of the messages in `sequence_set`.
    Fetch { sequence_set: String, query: String },
    /// Pull the next message of the answer.
    NextMessage,
    /// Log out.
    Logout,
}

/// The mathematical value of a [`FetchAction`].
pub ghost enum ActionView {
    Connect { domain: Seq<char>, port: u16 },
    Handshake { domain: Seq<char> },
    Login { username: Seq<char>, password: Seq<char> },
    Select { mailbox: Seq<char> },
    Fetch { sequence_set: Seq<char>, query: Seq<char> },
    NextMessage,
    Logout,
}

impl View for FetchAction {
    type V = ActionView;

    open spec fn view(&self) -> ActionView {
        match self {
            FetchAction::Connect { domain, port } => ActionView::Connect {
                domain: domain@,
                port: *port,
            },
            FetchAction::Handshake { domain } => ActionView::Handshake { domain: domain@ },
            FetchAction::Login { username, password } => ActionView::Login {
                username: username@,
                password: password@,
            },
            FetchAction::Select { mailbox } => ActionView::Select { mailbox: mailbox@ },
            FetchAction::Fetch { sequence_set, query } => ActionView::Fetch {
                sequence_set: sequence_set@,
                query: query@,
            },
            FetchAction::NextMessage => ActionView::NextMessage,
            FetchAction::Logout => ActionView::Logout,
        }
    }
}

/// A fetch under way.
#[derive(Debug)]
pub struct FetchSession {
    client: ImapClient,
    limit: usize,
    stage: Stage,
    previews: Vec<EmailPreview>,
}

/// The mathematical value of a [`FetchSession`].
pub ghost struct SessionView {
    pub client: ClientView,
    pub limit: nat,
    pub stage: Stage,
    pub previews: Seq<PreviewView>,
}

impl View for FetchSession {
    type V = SessionView;

    closed spec fn view(&self) -> SessionView {
        SessionView {
            client: self.client@,
            limit: self.limit as nat,
            stage: self.stage,
            previews: preview_views(self.previews@),
        }
    }
}

/// How a fetch goes on after an event: with the session, or not at all.
#[derive(Debug)]
pub enum Step {
    /// The fetch goes on; the session says with which action.
    Continue(FetchSession),
    /// The fetch is over: the previews in the order in which the server sent
    /// the messages, or the first failure. A failed fetch yields no previews.
    Finished(Result<Vec<EmailPreview>, FetchError>),
}

/// The mathematical value of a [`Step`].
pub ghost enum StepView {
    Continue(SessionView),
    Finished(Result<Seq<PreviewView>, ErrorView>),
}

impl View for Step {
    type V = StepView;

    open spec fn view(&self) -> StepView {
        match self {
            Step::Continue(session) => StepView::Continue(session@),
            Step::Finished(Ok(previews)) => StepView::Finished(Ok(preview_views(previews@))),
            Step::Finished(Err(error)) => StepView::Finished(Err(error@)),
        }
    }
}

impl SessionView {
    /// No session holds more previews than its limit allows, none holds any
    /// before the answer streams, and one that still pulls has room for more.
    pub open spec fn well_formed(self) -> bool {
        match self.stage {
            Stage::Streaming => self.previews.len() < self.limit,
            Stage::Closing => self.previews.len() <= self.limit,
            _ => self.previews.len() == 0,
        }
    }

    /// The same session at another stage.
    pub open spec fn at(self, stage: Stage) -> SessionView {
        SessionView { stage, ..self }
    }

    /// The session as it goes on once the answer streams: it pulls while it
    /// has room for a preview, and logs out as soon as it has none.
    pub open spec fn resumed(self) -> SessionView {
        if self.previews.len() < self.limit {
            self.at(Stage::Streaming)
        } else {
            self.at(Stage::Closing)
        }
    }

    /// The same session with one more preview.
    pub open spec fn with(self, preview: PreviewView) -> SessionView {
        SessionView { previews: self.previews.push(preview), ..self }
    }
}

/// The action that a session asks for.
pub open spec fn pending(session: SessionView) -> ActionView {
    match session.stage {
        Stage::Connecting => ActionView::Connect {
            domain: session.client.domain,
            port: session.client.port,
        },
        Stage::Securing => ActionView::Handshake { domain: session.client.domain },
        Stage::Authenticating => ActionView::Login {
            username: session.client.username,
            password: session.client.password,
        },
        Stage::Selecting => ActionView::Select { mailbox: "INBOX"@ },
        Stage::Requesting => ActionView::Fetch {
            sequence_set: "1:*"@,
            query: "RFC822.HEADER"@,
        },
        Stage::Streaming => ActionView::NextMessage,
        Stage::Closing => ActionView::Logout,
    }
}

/// The failure of the action that is asked for at `stage`.
pub open spec fn failure(stage: Stage, cause: Seq<char>) -> ErrorView {
    match stage {
        Stage::Connecting => ErrorView::Connect(cause),
        Stage::Securing => ErrorView::Handshake(cause),
        Stage::Authenticating => ErrorView::Login(cause),
        Stage::Selecting => ErrorView::Select(cause),
        Stage::Requesting => ErrorView::Fetch(cause),
        Stage::Streaming => ErrorView::Stream(cause),
        Stage::Closing => ErrorView::Logout(cause),
    }
}

/// The preview of a message with the given sequence number and header texts.
/// Bodies are never fetched, so the snippet is a fixed text.
pub open spec fn preview_of(sequence: u32, summary: SummaryView) -> PreviewView {
    PreviewView {
        id: sequence,
        sender: summary.from,
        subject: summary.subject,
        preview: "Loading..."@,
        date: summary.date,
    }
}

/// What a parsed header block gives for a message: its preview, or the
/// failure to parse.
pub open spec fn previewed(sequence: u32, parsed: Result<SummaryView, Seq<char>>) -> Result<
    PreviewView,
    ErrorView,
> {
    match parsed {
        Ok(summary) => Ok(preview_of(sequence, summary)),
        Err(reason) => Err(ErrorView::Parse(reason)),
    }
}

/// What a message gives: its preview, or the failure for which it gives none.
pub open spec fn read_outcome(message: MessageView) -> Result<PreviewView, ErrorView> {
    match message.header {
        Some(raw) => previewed(message.sequence, parse_outcome(raw)),
        None => Err(ErrorView::MissingHeader),
    }
}

/// How a session goes on with what a pulled message gave.
pub open spec fn accepted(session: SessionView, item: Result<PreviewView, ErrorView>) -> StepView {
    if session.stage != Stage::Streaming {
        StepView::Finished(Err(failure(session.stage, "unexpected message"@)))
    } else {
        match item {
            Ok(preview) => StepView::Continue(session.with(preview).resumed()),
            Err(error) => StepView::Finished(Err(error)),
        }
    }
}

/// How a session goes on after the action it asked for has succeeded.
pub open spec fn completed(session: SessionView) -> StepView {
    match session.stage {
        Stage::Connecting => StepView::Continue(session.at(Stage::Securing)),
        Stage::Securing => StepView::Continue(session.at(Stage::Authenticating)),
        Stage::Authenticating => StepView::Continue(session.at(Stage::Selecting)),
        Stage::Selecting => StepView::Continue(session.at(Stage::Requesting)),
        Stage::Requesting => StepView::Continue(session.resumed()),
        Stage::Streaming => StepView::Continue(session.at(Stage::Closing)),
        Stage::Closing => StepView::Finished(Ok(session.previews)),
    }
}

/// How a session goes on after an event.
///
/// A failure ends the fetch at once, as the failure of the stage at which it
/// came. So does a message that was not asked for.
pub open spec fn next(session: SessionView, event: EventView) -> StepView {
    match event {
        EventView::Completed => completed(session),
        EventView::Failed(cause) => StepView::Finished(Err(failure(session.stage, cause))),
        EventView::Message(message) => if session.stage == Stage::Streaming {
            accepted(session, read_outcome(message))
        } else {
            StepView::Finished(Err(failure(session.stage, "unexpected message"@)))
        },
    }
}

/// How a fetch begins: an unconfigured client is done at once, with the sample
/// inbox; any other client opens a session that waits to connect.
pub open spec fn start(client: ClientView, limit: nat) -> StepView {
    if client.unconfigured() {
        StepView::Finished(Ok(sample_inbox()))
    } else {
        StepView::Continue(
            SessionView { client, limit, stage: Stage::Connecting, previews: Seq::empty() },
        )
    }
}

/// A step keeps a session well formed, and a fetch that ends well yields no
/// more previews than its limit allows.
pub proof fn lemma_next_keeps_sessions_well_formed(session: SessionView, event: EventView)
    requires
        session.well_formed(),
    ensures
        match next(session, event) {
            StepView::Continue(then) => then.well_formed() && then.limit == session.limit
                && then.client == session.client,
            StepView::Finished(Ok(previews)) => previews.len() <= session.limit,
            StepView::Finished(Err(_)) => true,
        },
{
}

/// Once a session stops pulling, whether it has reached its limit or the
/// answer is exhausted, the next thing it asks for is the logout; and what
/// the server says to the logout is how the fetch ends: with the previews
/// where the logout succeeds, with its failure where it does not.
pub proof fn lemma_logout_follows_the_stream(session: SessionView, event: EventView)
    requires
        session.well_formed(),
        session.stage == Stage::Streaming || session.stage == Stage::Closing,
    ensures
        match next(session, event) {
            StepView::Continue(then) => session.stage == Stage::Streaming && (then.stage
                == Stage::Streaming || pending(then) == ActionView::Logout),
            StepView::Finished(outcome) => session.stage == Stage::Closing ==> outcome == (
            match event {
                EventView::Completed => Ok::<Seq<PreviewView>, ErrorView>(session.previews),
                EventView::Failed(cause) => Err(ErrorView::Logout(cause)),
                EventView::Message(_) => Err(ErrorView::Logout("unexpected message"@)),
            }),
        },
{
}

/// The failure of the action that is asked for at `stage`.
pub fn failure_at(stage: Stage, cause: String) -> (error: FetchError)
    ensures
        error@ == failure(stage, cause@),
{
    match stage {
        Stage::Connecting => FetchError::Connect(cause),
        Stage::Securing => FetchError::Handshake(cause),
        Stage::Authenticating => FetchError::Login(cause),
        Stage::Selecting => FetchError::Select(cause),
        Stage::Requesting => FetchError::Fetch(cause),
        Stage::Streaming => FetchError::Stream(cause),
        Stage::Closing => FetchError::Logout(cause),
    }
}

/// The preview of a message, from its sequence number and what parsing its
/// header block gave.
pub fn preview_from(sequence: u32, parsed: Result<HeaderSummary, ParseError>) -> (item: Result<
    EmailPreview,
    FetchError,
>)
    ensures
        match parsed {
            Ok(summary) => item is Ok && Ok::<PreviewView, ErrorView>(item->Ok_0@) == previewed(
                sequence,
                Ok(summary@),
            ),
            Err(refusal) => item is Err && Err::<PreviewView, ErrorView>(item->Err_0@)
                == previewed(sequence, Err(refusal.reason@)),
        },
{
    match parsed {
        Ok(summary) => Ok(
            EmailPreview {
                id: sequence,
                sender: summary.from,
                subject: summary.subject,
                preview: String::from_str("Loading..."),
                date: summary.date,
            },
        ),
        Err(refusal) => Err(FetchError::Parse(refusal.reason)),
    }
}

/// Reads one message of the answer: a message without a header block is a
/// failure, and so is one whose header block cannot be parsed.
pub fn read_message(message: &RawMessage) -> (item: Result<EmailPreview, FetchError>)
    ensures
        match item {
            Ok(preview) => read_outcome(message@) == Ok::<PreviewView, ErrorView>(preview@),
            Err(error) => read_outcome(message@) == Err::<PreviewView, ErrorView>(error@),
        },
{
    match &message.header {
        Some(raw) => preview_from(message.sequence, parse(raw.as_slice())),
        None => Err(FetchError::MissingHeader),
    }
}

impl FetchSession {
    #[verifier::type_invariant]
    spec fn inv(self) -> bool {
        self@.well_formed()
    }

    /// The session of a fetch that has not asked for anything yet.
    pub(crate) fn open(client: ImapClient, limit: usize) -> (session: FetchSession)
        ensures
            session@ == (SessionView {
                client: client@,
                limit: limit as nat,
                stage: Stage::Connecting,
                previews: Seq::empty(),
            }),
    {
        let previews: Vec<EmailPreview> = Vec::new();
        assert(preview_views(previews@) =~= Seq::<PreviewView>::empty());
        FetchSession { client, limit, stage: Stage::Connecting, previews }
    }

    /// What the session is waiting for.
    pub fn stage(&self) -> (stage: Stage)
        ensures
            stage == self@.stage,
    {
        self.stage
    }

    /// The most previews that the fetch may yield.
    pub fn limit(&self) -> (limit: usize)
        ensures
            limit == self@.limit,
    {
        self.limit
    }

    /// How many previews the session has collected. Never more than its
    /// limit.
    pub fn collected(&self) -> (count: usize)
        ensures
            count == self@.previews.len(),
            count <= self@.limit,
            self@.well_formed(),
    {
        proof {
            use_type_invariant(self);
        }
        self.previews.len()
    }

    /// The action that the driver has to perform next.
    pub fn action(&self) -> (action: FetchAction)
        ensures
            action@ == pending(self@),
    {
        match self.stage {
            Stage::Connecting => FetchAction::Connect {
                domain: self.client.domain().clone(),
                port: self.client.port(),
            },
            Stage::Securing => FetchAction::Handshake { domain: self.client.domain().clone() },
            Stage::Authenticating => FetchAction::Login {
                username: self.client.username().clone(),
                password: self.client.password().clone(),
            },
            Stage::Selecting => FetchAction::Select { mailbox: String::from_str("INBOX") },
            Stage::Requesting => FetchAction::Fetch {
                sequence_set: String::from_str("1:*"),
                query: String::from_str("RFC822.HEADER"),
            },
            Stage::Streaming => FetchAction::NextMessage,
            Stage::Closing => FetchAction::Logout,
        }
    }

    fn at(self, stage: Stage) -> (session: FetchSession)
        requires
            self@.at(stage).well_formed(),
        ensures
            session@ == self@.at(stage),
    {
        FetchSession { client: self.client, limit: self.limit, stage, previews: self.previews }
    }

    fn resumed(self) -> (session: FetchSession)
        requires
            self@.previews.len() <= self@.limit,
        ensures
            session@ == self@.resumed(),
    {
        if self.previews.len() < self.limit {
            self.at(Stage::Streaming)
        } else {
            self.at(Stage::Closing)
        }
    }

    /// Goes on with what a pulled message gave: a preview is kept, and the
    /// session pulls again unless it has reached its limit, in which case it
    /// logs out; a failure ends the fetch. Where no message was asked for, the
    /// fetch ends as failed at its stage.
    pub fn accept(self, item: Result<EmailPreview, FetchError>) -> (step: Step)
        ensures
            step@ == accepted(
                self@,
                match item {
                    Ok(preview) => Ok(preview@),
                    Err(error) => Err(error@),
                },
            ),
    {
        proof {
            use_type_invariant(&self);
        }
        match self.stage {
            Stage::Streaming => match item {
                Ok(preview) => {
                    let ghost before = self@;
                    let mut previews = self.previews;
                    previews.push(preview);
                    assert(preview_views(previews@) =~= before.previews.push(preview@));
                    let session = FetchSession {
                        client: self.client,
                        limit: self.limit,
                        stage: Stage::Closing,
                        previews,
                    };
                    assert(session@ == before.with(preview@).at(Stage::Closing));
                    let session = session.resumed();
                    Step::Continue(session)
                },
                Err(error) => Step::Finished(Err(error)),
            },
            stage => Step::Finished(
                Err(failure_at(stage, String::from_str("unexpected message"))),
            ),
        }
    }

    /// Goes on after the event that the driver reports of the action last
    /// asked for.
    ///
    /// Success leads to the next stage: connect, secure, log in, select the
    /// inbox, request the headers, then pull message after message until the
    /// limit is reached or the answer is exhausted, and log out. With a limit
    /// of 0 nothing is pulled. Once the logout has succeeded the fetch is over
    /// and yields the previews. A failure at any stage ends the fetch at once
    /// with that stage's error, and no previews.
    pub fn advance(self, event: FetchEvent) -> (step: Step)
        ensures
            step@ == next(self@, event@),
    {
        proof {
            use_type_invariant(&self);
        }
        match event {
            FetchEvent::Completed => match self.stage {
                Stage::Connecting => Step::Continue(self.at(Stage::Securing)),
                Stage::Securing => Step::Continue(self.at(Stage::Authenticating)),
                Stage::Authenticating => Step::Continue(self.at(Stage::Selecting)),
                Stage::Selecting => Step::Continue(self.at(Stage::Requesting)),
                Stage::Requesting => Step::Continue(self.resumed()),
                Stage::Streaming => Step::Continue(self.at(Stage::Closing)),
                Stage::Closing => Step::Finished(Ok(self.previews)),
            },
            FetchEvent::Failed(cause) => Step::Finished(Err(failure_at(self.stage, cause))),
            FetchEvent::Message(message) => match self.stage {
                Stage::Streaming => {
                    let item = read_message(&message);
                    self.accept(item)
                },
                stage => Step::Finished(
                    Err(failure_at(stage, String::from_str("unexpected message"))),
                ),
            },
        }
    }
}

} // verus!
