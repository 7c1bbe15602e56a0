use email_core::error::ErrorKind;
use email_core::error::FetchError;
use email_core::imap::ImapClient;
use email_core::models::EmailPreview;
use email_core::session::failure_at;
use email_core::session::preview_from;
use email_core::session::read_message;
use email_core::session::FetchAction;
use email_core::session::FetchEvent;
use email_core::session::RawMessage;
use email_core::session::Stage;
use email_core::session::Step;

/// A server as the tests script it: why each request is refused, if it is, and
/// what the pulls yield.
#[derive(Default)]
struct Script {
    connect: Option<&'static str>,
    handshake: Option<&'static str>,
    login: Option<&'static str>,
    select: Option<&'static str>,
    fetch: Option<&'static str>,
    answer: Vec<Result<RawMessage, &'static str>>,
    logout: Option<&'static str>,
}

fn verdict(refusal: Option<&'static str>) -> FetchEvent {
    match refusal {
        Some(cause) => FetchEvent::Failed(cause.to_string()),
        None => FetchEvent::Completed,
    }
}

fn label(action: &FetchAction) -> String {
    match action {
        FetchAction::Connect { domain, port } => format!("connect {}:{}", domain, port),
        FetchAction::Handshake { domain } => format!("handshake {}", domain),
        FetchAction::Login { username, password } => format!("login {} {}", username, password),
        FetchAction::Select { mailbox } => format!("select {}", mailbox),
        FetchAction::Fetch { sequence_set, query } => format!("fetch {} {}", sequence_set, query),
        FetchAction::NextMessage => "next".to_string(),
        FetchAction::Logout => "logout".to_string(),
    }
}

/// Runs a whole fetch against the script and records what was asked.
fn drive(client: &ImapClient, limit: usize, script: &Script) -> (Vec<String>, Result<Vec<EmailPreview>, FetchError>) {
    let mut asked = Vec::new();
    let mut pulled = 0;
    let mut step = client.fetch_inbox_previews(limit);
    loop {
        let session = match step {
            Step::Finished(outcome) => return (asked, outcome),
            Step::Continue(session) => session,
        };
        assert!(session.collected() <= limit);
        assert_eq!(session.limit(), limit);
        let action = session.action();
        asked.push(label(&action));
        let event = match action {
            FetchAction::Connect { .. } => verdict(script.connect),
            FetchAction::Handshake { .. } => verdict(script.handshake),
            FetchAction::Login { .. } => verdict(script.login),
            FetchAction::Select { .. } => verdict(script.select),
            FetchAction::Fetch { .. } => verdict(script.fetch),
            FetchAction::NextMessage => {
                pulled += 1;
                match script.answer.get(pulled - 1) {
                    Some(Ok(message)) => FetchEvent::Message(message.clone()),
                    Some(Err(cause)) => FetchEvent::Failed(cause.to_string()),
                    None => FetchEvent::Completed,
                }
            }
            FetchAction::Logout => verdict(script.logout),
        };
        step = session.advance(event);
    }
}

fn live_client() -> ImapClient {
    ImapClient::new(
        Some("mail.example.org".to_string()),
        Some("1993".to_string()),
        Some("ada".to_string()),
        Some("secret".to_string()),
    )
}

fn message(sequence: u32, subject: &str) -> RawMessage {
    let header = format!("From: sender{}@example.org\r\nSubject: {}\r\nDate: day {}\r\n\r\n", sequence, subject, sequence);
    RawMessage { sequence, header: Some(header.into_bytes()) }
}

fn mailbox(count: u32) -> Vec<Result<RawMessage, &'static str>> {
    (1..=count).map(|n| Ok(message(n, &format!("subject {}", n)))).collect()
}

fn opening() -> Vec<String> {
    vec![
        "connect mail.example.org:1993".to_string(),
        "handshake mail.example.org".to_string(),
        "login ada secret".to_string(),
        "select INBOX".to_string(),
        "fetch 1:* RFC822.HEADER".to_string(),
    ]
}

fn asked_with(pulls: usize) -> Vec<String> {
    let mut asked = opening();
    for _ in 0..pulls {
        asked.push("next".to_string());
    }
    asked.push("logout".to_string());
    asked
}

fn ids(previews: &[EmailPreview]) -> Vec<u32> {
    previews.iter().map(|p| p.id).collect()
}

#[test]
fn unconfigured_client_yields_the_samples_whatever_the_limit() {
    let client = ImapClient::new(None, None, None, None);
    for limit in [0usize, 1, 2, 3, 20, usize::MAX] {
        match client.fetch_inbox_previews(limit) {
            Step::Finished(Ok(previews)) => {
                assert_eq!(previews.len(), 2);
                assert_eq!(previews[0].sender, "Apple");
                assert_eq!(previews[0].subject, "Your Receipt (Mock)");
                assert_eq!(previews[1].sender, "GitHub");
                assert_eq!(previews[1].date, "Yesterday");
            }
            other => panic!("an unconfigured client went on: {:?}", other),
        }
    }
}

#[test]
fn unconfigured_client_asks_nothing_of_the_server() {
    let client = ImapClient::new(Some("imap.example.com".to_string()), Some("1".to_string()), None, None);
    let script = Script { connect: Some("would fail"), ..Script::default() };
    let (asked, outcome) = drive(&client, 5, &script);
    assert!(asked.is_empty());
    assert_eq!(ids(&outcome.expect("the samples")), vec![1, 2]);
}

#[test]
fn live_fetch_begins_by_connecting() {
    match live_client().fetch_inbox_previews(3) {
        Step::Continue(session) => {
            assert_eq!(session.stage(), Stage::Connecting);
            assert_eq!(session.collected(), 0);
            assert_eq!(label(&session.action()), "connect mail.example.org:1993");
        }
        other => panic!("a configured client was done at once: {:?}", other),
    }
}

#[test]
fn limit_zero_selects_but_pulls_nothing() {
    let script = Script { answer: mailbox(4), ..Script::default() };
    let (asked, outcome) = drive(&live_client(), 0, &script);
    assert_eq!(asked, asked_with(0));
    assert!(outcome.expect("an empty list").is_empty());
}

#[test]
fn limit_zero_never_sees_a_broken_mailbox() {
    let script = Script {
        answer: vec![Err("broken"), Ok(RawMessage { sequence: 1, header: None })],
        ..Script::default()
    };
    let (asked, outcome) = drive(&live_client(), 0, &script);
    assert_eq!(asked, asked_with(0));
    assert!(outcome.expect("an empty list").is_empty());
}

#[test]
fn fetch_stops_at_the_limit() {
    let script = Script { answer: mailbox(5), ..Script::default() };
    let (asked, outcome) = drive(&live_client(), 3, &script);
    assert_eq!(asked, asked_with(3));
    let previews = outcome.expect("three previews");
    assert_eq!(ids(&previews), vec![1, 2, 3]);
}

#[test]
fn fetch_takes_the_whole_mailbox_where_it_is_smaller_than_the_limit() {
    let script = Script { answer: mailbox(2), ..Script::default() };
    let (asked, outcome) = drive(&live_client(), 20, &script);
    assert_eq!(asked, asked_with(3));
    assert_eq!(ids(&outcome.expect("two previews")), vec![1, 2]);
}

#[test]
fn fetch_yields_min_of_limit_and_mailbox_size() {
    for available in 0u32..6 {
        for limit in 0usize..8 {
            let script = Script { answer: mailbox(available), ..Script::default() };
            let (asked, outcome) = drive(&live_client(), limit, &script);
            let taken = limit.min(available as usize);
            let pulls = if limit <= available as usize { limit } else { available as usize + 1 };
            assert_eq!(asked, asked_with(pulls));
            let expected: Vec<u32> = (1..=taken as u32).collect();
            assert_eq!(ids(&outcome.expect("previews")), expected);
        }
    }
}

#[test]
fn fetch_keeps_the_order_of_the_server() {
    let script = Script {
        answer: vec![Ok(message(9, "nine")), Ok(message(2, "two")), Ok(message(5, "five"))],
        ..Script::default()
    };
    let (_, outcome) = drive(&live_client(), 20, &script);
    let previews = outcome.expect("three previews");
    assert_eq!(ids(&previews), vec![9, 2, 5]);
    assert_eq!(previews[1].subject, "two");
    assert_eq!(previews[1].sender, "sender2@example.org");
    assert_eq!(previews[1].date, "day 2");
    assert_eq!(previews[1].preview, "Loading...");
}

#[test]
fn messages_beyond_the_limit_are_never_read() {
    let mut answer = mailbox(2);
    answer.push(Ok(RawMessage { sequence: 3, header: None }));
    answer.push(Err("the stream broke"));
    let script = Script { answer, ..Script::default() };
    let (asked, outcome) = drive(&live_client(), 2, &script);
    assert_eq!(asked, asked_with(2));
    assert_eq!(ids(&outcome.expect("two previews")), vec![1, 2]);
}

#[test]
fn connect_failure_is_a_transport_error() {
    let script = Script { connect: Some("host unreachable"), ..Script::default() };
    let (asked, outcome) = drive(&live_client(), 3, &script);
    assert_eq!(asked, opening()[..1].to_vec());
    let error = outcome.expect_err("no connection");
    assert!(matches!(error, FetchError::Connect(_)));
    assert_eq!(error.kind(), ErrorKind::Transport);
    assert_eq!(error.message(), "TCP Connection failed: host unreachable");
}

#[test]
fn handshake_failure_is_a_transport_error_of_its_own() {
    let script = Script { handshake: Some("certificate mismatch"), ..Script::default() };
    let (asked, outcome) = drive(&live_client(), 3, &script);
    assert_eq!(asked, opening()[..2].to_vec());
    let error = outcome.expect_err("no secure stream");
    assert!(matches!(error, FetchError::Handshake(_)));
    assert_eq!(error.kind(), ErrorKind::Transport);
    assert_eq!(error.message(), "TLS handshake failed: certificate mismatch");
}

#[test]
fn rejected_login_is_an_auth_error() {
    let script = Script { login: Some("bad credentials"), ..Script::default() };
    let (asked, outcome) = drive(&live_client(), 3, &script);
    assert_eq!(asked, opening()[..3].to_vec());
    let error = outcome.expect_err("no login");
    assert!(matches!(error, FetchError::Login(_)));
    assert_eq!(error.kind(), ErrorKind::Auth);
    assert_eq!(error.message(), "Login failed: bad credentials");
}

#[test]
fn connect_failure_and_rejected_login_can_be_told_apart() {
    let (_, unreachable) = drive(&live_client(), 3, &Script { connect: Some("same words"), ..Script::default() });
    let (_, rejected) = drive(&live_client(), 3, &Script { login: Some("same words"), ..Script::default() });
    let unreachable = unreachable.expect_err("no connection");
    let rejected = rejected.expect_err("no login");
    assert_ne!(unreachable.kind(), rejected.kind());
    assert_ne!(unreachable.message(), rejected.message());
}

#[test]
fn select_failure_is_a_protocol_error() {
    let script = Script { select: Some("no such mailbox"), ..Script::default() };
    let (asked, outcome) = drive(&live_client(), 3, &script);
    assert_eq!(asked, opening()[..4].to_vec());
    let error = outcome.expect_err("no inbox");
    assert!(matches!(error, FetchError::Select(_)));
    assert_eq!(error.kind(), ErrorKind::Protocol);
    assert_eq!(error.message(), "Select INBOX failed: no such mailbox");
}

#[test]
fn refused_fetch_is_a_stream_error() {
    let script = Script { fetch: Some("bad sequence set"), ..Script::default() };
    let (asked, outcome) = drive(&live_client(), 3, &script);
    assert_eq!(asked, opening());
    let error = outcome.expect_err("no answer");
    assert!(matches!(error, FetchError::Fetch(_)));
    assert_eq!(error.kind(), ErrorKind::Stream);
    assert_eq!(error.message(), "Fetch failed: bad sequence set");
}

#[test]
fn broken_stream_ends_the_fetch_without_previews() {
    let mut answer = mailbox(2);
    answer.push(Err("connection reset"));
    let script = Script { answer, ..Script::default() };
    let (asked, outcome) = drive(&live_client(), 20, &script);
    let mut expected = opening();
    expected.extend(["next".to_string(), "next".to_string(), "next".to_string()]);
    assert_eq!(asked, expected);
    let error = outcome.expect_err("the stream broke");
    assert!(matches!(error, FetchError::Stream(_)));
    assert_eq!(error.kind(), ErrorKind::Stream);
    assert_eq!(error.message(), "Stream error: connection reset");
}

#[test]
fn message_without_header_ends_the_fetch() {
    let script = Script {
        answer: vec![Ok(message(1, "one")), Ok(RawMessage { sequence: 2, header: None }), Ok(message(3, "three"))],
        ..Script::default()
    };
    let (asked, outcome) = drive(&live_client(), 20, &script);
    let mut expected = opening();
    expected.extend(["next".to_string(), "next".to_string()]);
    assert_eq!(asked, expected);
    let error = outcome.expect_err("a message without header");
    assert!(matches!(error, FetchError::MissingHeader));
    assert_eq!(error.kind(), ErrorKind::Stream);
    assert_eq!(error.message(), "No header");
}

#[test]
fn malformed_header_ends_the_fetch() {
    let script = Script {
        answer: vec![Ok(RawMessage { sequence: 1, header: Some(b"Subject: X\n\rFrom: Y\n".to_vec()) })],
        ..Script::default()
    };
    let (_, outcome) = drive(&live_client(), 20, &script);
    let error = outcome.expect_err("a malformed header");
    assert!(matches!(error, FetchError::Parse(_)));
    assert_eq!(error.kind(), ErrorKind::Parse);
    assert_eq!(error.message(), "Headers were followed by an unexpected lone CR character!");
}

#[test]
fn logout_is_asked_for_after_the_stream_is_abandoned() {
    let script = Script { answer: mailbox(10), ..Script::default() };
    let (asked, outcome) = drive(&live_client(), 1, &script);
    assert_eq!(asked.last().map(String::as_str), Some("logout"));
    assert_eq!(asked, asked_with(1));
    assert_eq!(ids(&outcome.expect("one preview")), vec![1]);
}

#[test]
fn refused_logout_is_reported_and_discards_the_previews() {
    for limit in [0usize, 2, 20] {
        let script = Script { answer: mailbox(5), logout: Some("server busy"), ..Script::default() };
        let (asked, outcome) = drive(&live_client(), limit, &script);
        assert_eq!(asked.last().map(String::as_str), Some("logout"));
        let error = outcome.expect_err("the logout was refused");
        assert!(matches!(error, FetchError::Logout(_)));
        assert_eq!(error.kind(), ErrorKind::Protocol);
        assert_eq!(error.message(), "Logout failed: server busy");
    }
}

#[test]
fn message_that_was_not_asked_for_fails_the_stage() {
    let session = match live_client().fetch_inbox_previews(3) {
        Step::Continue(session) => session,
        other => panic!("done at once: {:?}", other),
    };
    match session.advance(FetchEvent::Message(message(1, "early"))) {
        Step::Finished(Err(error)) => {
            assert!(matches!(error, FetchError::Connect(_)));
            assert_eq!(error.message(), "TCP Connection failed: unexpected message");
        }
        other => panic!("the fetch went on: {:?}", other),
    }
}

#[test]
fn accept_outside_the_stream_fails_the_stage() {
    let session = match live_client().fetch_inbox_previews(3) {
        Step::Continue(session) => session,
        other => panic!("done at once: {:?}", other),
    };
    let session = match session.advance(FetchEvent::Completed) {
        Step::Continue(session) => session,
        other => panic!("done at once: {:?}", other),
    };
    assert_eq!(session.stage(), Stage::Securing);
    match session.accept(Err(FetchError::MissingHeader)) {
        Step::Finished(Err(error)) => {
            assert_eq!(error.message(), "TLS handshake failed: unexpected message")
        }
        other => panic!("the fetch went on: {:?}", other),
    }
}

#[test]
fn stages_follow_one_another() {
    let mut session = match live_client().fetch_inbox_previews(1) {
        Step::Continue(session) => session,
        other => panic!("done at once: {:?}", other),
    };
    let expected = [
        Stage::Connecting,
        Stage::Securing,
        Stage::Authenticating,
        Stage::Selecting,
        Stage::Requesting,
        Stage::Streaming,
    ];
    for stage in expected {
        assert_eq!(session.stage(), stage);
        session = match session.advance(FetchEvent::Completed) {
            Step::Continue(session) => session,
            other => panic!("done too early: {:?}", other),
        };
    }
    assert_eq!(session.stage(), Stage::Closing);
    match session.advance(FetchEvent::Completed) {
        Step::Finished(Ok(previews)) => assert!(previews.is_empty()),
        other => panic!("not done: {:?}", other),
    }
}

#[test]
fn accept_keeps_a_preview_and_pulls_again_below_the_limit() {
    let mut session = match live_client().fetch_inbox_previews(2) {
        Step::Continue(session) => session,
        other => panic!("done at once: {:?}", other),
    };
    for _ in 0..5 {
        session = match session.advance(FetchEvent::Completed) {
            Step::Continue(session) => session,
            other => panic!("done too early: {:?}", other),
        };
    }
    assert_eq!(session.stage(), Stage::Streaming);
    let first = read_message(&message(7, "seven"));
    session = match session.accept(first) {
        Step::Continue(session) => session,
        other => panic!("done too early: {:?}", other),
    };
    assert_eq!(session.stage(), Stage::Streaming);
    assert_eq!(session.collected(), 1);
    let second = read_message(&message(8, "eight"));
    session = match session.accept(second) {
        Step::Continue(session) => session,
        other => panic!("done too early: {:?}", other),
    };
    assert_eq!(session.stage(), Stage::Closing);
    assert_eq!(session.collected(), 2);
    assert_eq!(label(&session.action()), "logout");
}

#[test]
fn read_message_builds_the_preview() {
    let raw = RawMessage {
        sequence: 42,
        header: Some(b"DATE: Tue, 2 Jan 2024\nsubject: =?UTF-8?Q?caf=C3=A9?=\nFrom: Ada\n".to_vec()),
    };
    let preview = read_message(&raw).expect("a preview");
    assert_eq!(preview.id, 42);
    assert_eq!(preview.sender, "Ada");
    assert_eq!(preview.subject, "caf\u{e9}");
    assert_eq!(preview.date, "Tue, 2 Jan 2024");
    assert_eq!(preview.preview, "Loading...");
}

#[test]
fn read_message_of_an_empty_header_gives_empty_fields() {
    let raw = RawMessage { sequence: 7, header: Some(Vec::new()) };
    let preview = read_message(&raw).expect("a preview");
    assert_eq!(preview.id, 7);
    assert_eq!(preview.sender, "");
    assert_eq!(preview.subject, "");
    assert_eq!(preview.date, "");
    assert_eq!(preview.preview, "Loading...");
}

#[test]
fn preview_from_maps_a_refusal_to_a_parse_error() {
    let refusal = email_core::headers::ParseError { reason: "no good".to_string() };
    let error = preview_from(3, Err(refusal)).expect_err("a parse error");
    assert!(matches!(error, FetchError::Parse(_)));
    assert_eq!(error.message(), "no good");
    let summary = email_core::headers::HeaderSummary {
        subject: "s".to_string(),
        from: "f".to_string(),
        date: "d".to_string(),
    };
    let preview = preview_from(3, Ok(summary)).expect("a preview");
    assert_eq!((preview.id, preview.sender.as_str(), preview.subject.as_str(), preview.date.as_str()), (3, "f", "s", "d"));
}

#[test]
fn failure_at_names_the_stage() {
    let cause = || "why".to_string();
    assert_eq!(failure_at(Stage::Connecting, cause()).message(), "TCP Connection failed: why");
    assert_eq!(failure_at(Stage::Securing, cause()).message(), "TLS handshake failed: why");
    assert_eq!(failure_at(Stage::Authenticating, cause()).message(), "Login failed: why");
    assert_eq!(failure_at(Stage::Selecting, cause()).message(), "Select INBOX failed: why");
    assert_eq!(failure_at(Stage::Requesting, cause()).message(), "Fetch failed: why");
    assert_eq!(failure_at(Stage::Streaming, cause()).message(), "Stream error: why");
    assert_eq!(failure_at(Stage::Closing, cause()).message(), "Logout failed: why");
}
