//! A fetch carried through against a server, seen as a whole: what is asked
//! of the server, in which order, and how the fetch ends.
//!
//! Nothing here is executed. A [`Server`] says how a server would answer each
//! request, [`fetch`] unfolds the session against it, and the theorems say what
//! then holds of every such fetch.

use crate::error::ErrorKind;
use crate::error::ErrorView;
use crate::imap::sample_inbox;
use crate::imap::ClientView;
use crate::models::PreviewView;
use crate::session::next;
use crate::session::pending;
use crate::session::read_outcome;
use crate::session::start;
use crate::session::ActionView;
use crate::session::EventView;
use crate::session::MessageView;
use crate::session::SessionView;
use crate::session::Stage;
use crate::session::StepView;
use vstd::prelude::*;

verus! {

/// How a server answers. Each request but the pulls is either granted (`None`)
/// or refused for a cause; `answer` is what one pull after the other yields,
/// until nothing is left.
pub ghost struct Server {
    pub connect: Option<Seq<char>>,
    pub handshake: Option<Seq<char>>,
    pub login: Option<Seq<char>>,
    pub select: Option<Seq<char>>,
    pub fetch: Option<Seq<char>>,
    pub answer: Seq<Result<MessageView, Seq<char>>>,
    pub logout: Option<Seq<char>>,
}

/// A fetch from its first request to its end.
pub ghost struct Run {
    /// What was asked of the server, in order.
    pub actions: Seq<ActionView>,
    /// How the fetch ended.
    pub outcome: Result<Seq<PreviewView>, ErrorView>,
}

/// The event of a request that is granted or refused.
pub open spec fn verdict(refusal: Option<Seq<char>>) -> EventView {
    match refusal {
        Some(cause) => EventView::Failed(cause),
        None => EventView::Completed,
    }
}

impl Server {
    /// The event that follows the request of a session at `stage`, after
    /// `pulled` pulls.
    pub open spec fn reply(self, stage: Stage, pulled: nat) -> EventView {
        match stage {
            Stage::Connecting => verdict(self.connect),
            Stage::Securing => verdict(self.handshake),
            Stage::Authenticating => verdict(self.login),
            Stage::Selecting => verdict(self.select),
            Stage::Requesting => verdict(self.fetch),
            Stage::Streaming => if pulled < self.answer.len() {
                match self.answer[pulled as int] {
                    Ok(message) => EventView::Message(message),
                    Err(cause) => EventView::Failed(cause),
                }
            } else {
                EventView::Completed
            },
            Stage::Closing => verdict(self.logout),
        }
    }

    /// The server grants every request up to and including the one for the
    /// headers.
    pub open spec fn grants_fetch(self) -> bool {
        &&& self.connect is None
        &&& self.handshake is None
        &&& self.login is None
        &&& self.select is None
        &&& self.fetch is None
    }

    /// Each of the first `count` pulls yields a message that gives a preview.
    pub open spec fn yields_previews(self, count: nat) -> bool {
        &&& count <= self.answer.len()
        &&& forall|i: int|
            0 <= i < count ==> (#[trigger] self.answer[i]) is Ok && read_outcome(
                self.answer[i]->Ok_0,
            ) is Ok
    }

    /// The previews of the first `count` messages, in the server's order.
    pub open spec fn previews(self, count: nat) -> Seq<PreviewView> {
        Seq::new(count, |i: int| read_outcome(self.answer[i]->Ok_0)->Ok_0)
    }

    /// How a fetch that has collected `previews` ends: with them, unless the
    /// logout is refused.
    pub open spec fn farewell(self, previews: Seq<PreviewView>) -> Result<
        Seq<PreviewView>,
        ErrorView,
    > {
        match self.logout {
            Some(cause) => Err(ErrorView::Logout(cause)),
            None => Ok(previews),
        }
    }
}

/// The stages that a session at `stage` may still have before it.
pub open spec fn stages_left(stage: Stage) -> nat {
    match stage {
        Stage::Connecting => 6,
        Stage::Securing => 5,
        Stage::Authenticating => 4,
        Stage::Selecting => 3,
        Stage::Requesting => 2,
        Stage::Streaming => 1,
        Stage::Closing => 0,
    }
}

/// The rest of a fetch: the session is stepped with the server's replies
/// until the fetch is over. `pulled` counts the pulls so far.
pub open spec fn run(session: SessionView, server: Server, pulled: nat) -> Run
    decreases stages_left(session.stage), server.answer.len() - pulled,
{
    match next(session, server.reply(session.stage, pulled)) {
        StepView::Finished(outcome) => Run { actions: seq![pending(session)], outcome },
        StepView::Continue(then) => {
            let rest = run(
                then,
                server,
                if session.stage == Stage::Streaming {
                    pulled + 1
                } else {
                    pulled
                },
            );
            Run { actions: seq![pending(session)] + rest.actions, outcome: rest.outcome }
        },
    }
}

/// A whole fetch of at most `limit` previews.
pub open spec fn fetch(client: ClientView, limit: nat, server: Server) -> Run {
    match start(client, limit) {
        StepView::Finished(outcome) => Run { actions: Seq::empty(), outcome },
        StepView::Continue(session) => run(session, server, 0),
    }
}

/// The five requests that lead up to the first pull.
pub open spec fn opening(client: ClientView) -> Seq<ActionView> {
    seq![
        ActionView::Connect { domain: client.domain, port: client.port },
        ActionView::Handshake { domain: client.domain },
        ActionView::Login { username: client.username, password: client.password },
        ActionView::Select { mailbox: "INBOX"@ },
        ActionView::Fetch { sequence_set: "1:*"@, query: "RFC822.HEADER"@ },
    ]
}

/// `count` pulls.
pub open spec fn pulls(count: nat) -> Seq<ActionView> {
    Seq::new(count, |i: int| ActionView::NextMessage)
}

/// How many previews a fetch with the given limit takes from an answer of
/// `available` messages.
pub open spec fn taken(limit: nat, available: nat) -> nat {
    if limit <= available {
        limit
    } else {
        available
    }
}

/// How many pulls that takes: one for each preview, and one more to learn that
/// the answer is exhausted, unless the limit is reached first.
pub open spec fn pulls_needed(limit: nat, available: nat) -> nat {
    if limit <= available {
        limit
    } else {
        available + 1
    }
}

/// An unconfigured client fetches the sample inbox, whatever the limit and
/// whatever the server would do, and asks nothing of the server.
pub proof fn lemma_unconfigured_fetch_reaches_no_server(
    client: ClientView,
    limit: nat,
    server: Server,
)
    requires
        client.unconfigured(),
    ensures
        fetch(client, limit, server) == (Run {
            actions: Seq::empty(),
            outcome: Ok(sample_inbox()),
        }),
{
}

/// A session that is logging out asks for nothing else, and the fetch ends
/// with what the server says to the logout.
pub proof fn lemma_logout_ends_the_fetch(session: SessionView, server: Server, pulled: nat)
    requires
        session.stage == Stage::Closing,
    ensures
        run(session, server, pulled) == (Run {
            actions: seq![ActionView::Logout],
            outcome: server.farewell(session.previews),
        }),
{
}

/// From any point of the stream on, a fetch whose messages all give previews
/// pulls until it has reached its limit or exhausted the answer, then logs
/// out, and ends with the previews of the messages it pulled, in their order.
proof fn lemma_streaming_collects(session: SessionView, server: Server, pulled: nat)
    requires
        session.stage == Stage::Streaming,
        pulled < session.limit,
        pulled <= server.answer.len(),
        session.previews == server.previews(pulled),
        server.yields_previews(taken(session.limit, server.answer.len())),
    ensures
        run(session, server, pulled) == (Run {
            actions: pulls((pulls_needed(session.limit, server.answer.len()) - pulled) as nat)
                + seq![ActionView::Logout],
            outcome: server.farewell(
                server.previews(taken(session.limit, server.answer.len())),
            ),
        }),
    decreases server.answer.len() - pulled,
{
    let available = server.answer.len();
    let left = (pulls_needed(session.limit, available) - pulled) as nat;
    let goal = pulls(left) + seq![ActionView::Logout];
    if pulled < available {
        assert(server.answer[pulled as int] is Ok);
        let message = server.answer[pulled as int]->Ok_0;
        let preview = read_outcome(message)->Ok_0;
        let then = session.with(preview).resumed();
        assert(next(session, server.reply(session.stage, pulled)) == StepView::Continue(then));
        assert(then.previews =~= server.previews(pulled + 1));
        if pulled + 1 < session.limit {
            lemma_streaming_collects(then, server, pulled + 1);
        } else {
            lemma_logout_ends_the_fetch(then, server, pulled + 1);
        }
        let rest = run(then, server, pulled + 1);
        assert(run(session, server, pulled).actions == seq![ActionView::NextMessage]
            + rest.actions);
        assert(run(session, server, pulled).actions =~= goal);
    } else {
        let then = session.at(Stage::Closing);
        assert(next(session, server.reply(session.stage, pulled)) == StepView::Continue(then));
        lemma_logout_ends_the_fetch(then, server, pulled + 1);
        let rest = run(then, server, pulled + 1);
        assert(run(session, server, pulled).actions == seq![ActionView::NextMessage]
            + rest.actions);
        assert(run(session, server, pulled).actions =~= goal);
    }
}

/// A fetch of at most `limit` previews, from a server that grants every
/// request and whose first messages, as many as are taken, all give previews:
///
/// - yields the previews of the first `limit` messages of the answer, or of
///   all of them where there are fewer, in the server's order;
/// - asks for the connection, the handshake, the login, the inbox and the
///   headers, then pulls once for each preview, and once more only where the
///   answer ran out before the limit, and then logs out;
/// - ends with the failure of the logout where the server refuses it, however
///   many previews were collected.
///
/// Messages beyond the limit are never pulled, so nothing is asked of them:
/// they may be of any kind.
pub proof fn lemma_fetch_collects_up_to_limit(client: ClientView, limit: nat, server: Server)
    requires
        !client.unconfigured(),
        server.grants_fetch(),
        server.yields_previews(taken(limit, server.answer.len())),
    ensures
        fetch(client, limit, server) == (Run {
            actions: opening(client) + pulls(pulls_needed(limit, server.answer.len()))
                + seq![ActionView::Logout],
            outcome: server.farewell(server.previews(taken(limit, server.answer.len()))),
        }),
        taken(limit, server.answer.len()) <= limit,
        pulls_needed(limit, server.answer.len()) <= limit + 1,
{
    let connecting = start(client, limit)->Continue_0;
    let securing = connecting.at(Stage::Securing);
    let authenticating = connecting.at(Stage::Authenticating);
    let selecting = connecting.at(Stage::Selecting);
    let requesting = connecting.at(Stage::Requesting);
    let then = requesting.resumed();
    assert(then.previews =~= server.previews(0));
    if 0 < limit {
        lemma_streaming_collects(then, server, 0);
    } else {
        lemma_logout_ends_the_fetch(then, server, 0);
        assert(pulls(0) =~= Seq::empty());
    }
    let rest = run(then, server, 0);
    assert(run(requesting, server, 0).actions == seq![pending(requesting)] + rest.actions);
    assert(run(selecting, server, 0).actions == seq![pending(selecting)] + run(
        requesting,
        server,
        0,
    ).actions);
    assert(run(authenticating, server, 0).actions == seq![pending(authenticating)] + run(
        selecting,
        server,
        0,
    ).actions);
    assert(run(securing, server, 0).actions == seq![pending(securing)] + run(
        authenticating,
        server,
        0,
    ).actions);
    assert(run(connecting, server, 0).actions == seq![pending(connecting)] + run(
        securing,
        server,
        0,
    ).actions);
    assert(run(connecting, server, 0).actions =~= opening(client) + pulls(
        pulls_needed(limit, server.answer.len()),
    ) + seq![ActionView::Logout]);
}

/// With a limit of 0 the inbox is selected and the headers are requested, but
/// nothing is pulled: the fetch logs out at once and yields no preview,
/// whatever the mailbox holds.
pub proof fn lemma_limit_zero_pulls_nothing(client: ClientView, server: Server)
    requires
        !client.unconfigured(),
        server.grants_fetch(),
    ensures
        fetch(client, 0, server) == (Run {
            actions: opening(client) + seq![ActionView::Logout],
            outcome: server.farewell(Seq::empty()),
        }),
{
    lemma_fetch_collects_up_to_limit(client, 0, server);
    assert(pulls(0) =~= Seq::empty());
    assert(server.previews(0) =~= Seq::empty());
    assert(opening(client) + pulls(0) + seq![ActionView::Logout] =~= opening(client)
        + seq![ActionView::Logout]);
}

/// A server that cannot be reached ends the fetch at the first request, with
/// a failure of the transport.
pub proof fn lemma_unreachable_server_is_a_transport_failure(
    client: ClientView,
    limit: nat,
    server: Server,
    cause: Seq<char>,
)
    requires
        !client.unconfigured(),
        server.connect == Some(cause),
    ensures
        fetch(client, limit, server) == (Run {
            actions: seq![ActionView::Connect { domain: client.domain, port: client.port }],
            outcome: Err(ErrorView::Connect(cause)),
        }),
        ErrorView::Connect(cause).kind() == ErrorKind::Transport,
{
}

/// A server that rejects the login ends the fetch at the third request, with
/// a failure to authenticate.
pub proof fn lemma_rejected_login_is_an_auth_failure(
    client: ClientView,
    limit: nat,
    server: Server,
    cause: Seq<char>,
)
    requires
        !client.unconfigured(),
        server.connect is None,
        server.handshake is None,
        server.login == Some(cause),
    ensures
        fetch(client, limit, server) == (Run {
            actions: seq![
                ActionView::Connect { domain: client.domain, port: client.port },
                ActionView::Handshake { domain: client.domain },
                ActionView::Login { username: client.username, password: client.password },
            ],
            outcome: Err(ErrorView::Login(cause)),
        }),
        ErrorView::Login(cause).kind() == ErrorKind::Auth,
{
    let connecting = start(client, limit)->Continue_0;
    let securing = connecting.at(Stage::Securing);
    let authenticating = connecting.at(Stage::Authenticating);
    assert(run(authenticating, server, 0).actions == seq![pending(authenticating)]);
    assert(run(securing, server, 0).actions == seq![pending(securing)] + run(
        authenticating,
        server,
        0,
    ).actions);
    assert(run(connecting, server, 0).actions == seq![pending(connecting)] + run(
        securing,
        server,
        0,
    ).actions);
    assert(run(connecting, server, 0).actions =~= seq![
        ActionView::Connect { domain: client.domain, port: client.port },
        ActionView::Handshake { domain: client.domain },
        ActionView::Login { username: client.username, password: client.password },
    ]);
}

} // verus!
