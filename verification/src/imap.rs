//! The connection settings of a mailbox, the rules by which they are filled
//! in, and the sample inbox that stands in while none are given.

use crate::models::preview_views;
use crate::models::EmailPreview;
use crate::models::PreviewView;
use crate::session::FetchSession;
use crate::session::Step;
use crate::session::start;
use vstd::prelude::*;
use vstd::string::*;

verus! {

/// The port that is used where none is given or the one given is no port.
pub const DEFAULT_PORT: u16 = 993;

/// Where to find a mailbox and how to log in to it.
///
/// A client whose domain is `imap.example.com` has not been configured: its
/// fetches answer with the sample inbox and reach no server.
#[derive(Debug)]
pub struct ImapClient {
    domain: String,
    port: u16,
    username: String,
    password: String,
}

/// The mathematical value of an [`ImapClient`].
pub ghost struct ClientView {
    pub domain: Seq<char>,
    pub port: u16,
    pub username: Seq<char>,
    pub password: Seq<char>,
}

impl View for ImapClient {
    type V = ClientView;

    closed spec fn view(&self) -> ClientView {
        ClientView {
            domain: self.domain@,
            port: self.port,
            username: self.username@,
            password: self.password@,
        }
    }
}

/// The value of a decimal digit.
pub open spec fn digit_value(c: char) -> nat {
    (c as int - '0' as int) as nat
}

/// Every character of `text` is one of `0` to `9`.
pub open spec fn all_digits(text: Seq<char>) -> bool {
    forall|i: int| 0 <= i < text.len() ==> '0' <= #[trigger] text[i] <= '9'
}

/// The number that a string of decimal digits writes.
pub open spec fn decimal_value(digits: Seq<char>) -> nat
    decreases digits.len(),
{
    if digits.len() == 0 {
        0
    } else {
        decimal_value(digits.drop_last()) * 10 + digit_value(digits.last())
    }
}

/// `text` without the `+` that may stand at its head.
pub open spec fn unsigned_part(text: Seq<char>) -> Seq<char> {
    if text.len() > 0 && text[0] == '+' {
        text.skip(1)
    } else {
        text
    }
}

/// The port that `text` writes: decimal digits, at least one, with nothing
/// around them but a `+` that may go before, and no more than 65535.
pub open spec fn port_in(text: Seq<char>) -> Option<u16> {
    let digits = unsigned_part(text);
    if digits.len() > 0 && all_digits(digits) && decimal_value(digits) <= u16::MAX {
        Some(decimal_value(digits) as u16)
    } else {
        None
    }
}

/// The value of a setting that may be absent.
pub open spec fn setting(value: Option<String>) -> Option<Seq<char>> {
    match value {
        Some(text) => Some(text@),
        None => None,
    }
}

/// The client that a set of settings describes. Each setting that is absent
/// takes its default; so does a port that is no port.
pub open spec fn configured(
    domain: Option<Seq<char>>,
    port: Option<Seq<char>>,
    username: Option<Seq<char>>,
    password: Option<Seq<char>>,
) -> ClientView {
    ClientView {
        domain: match domain {
            Some(text) => text,
            None => "imap.example.com"@,
        },
        port: match port {
            Some(text) => match port_in(text) {
                Some(port) => port,
                None => DEFAULT_PORT,
            },
            None => DEFAULT_PORT,
        },
        username: match username {
            Some(text) => text,
            None => "user@example.com"@,
        },
        password: match password {
            Some(text) => text,
            None => "password"@,
        },
    }
}

impl ClientView {
    /// No server has been named: the domain is still the one that stands for
    /// none.
    pub open spec fn unconfigured(self) -> bool {
        self.domain == "imap.example.com"@
    }
}

/// The sample inbox.
pub open spec fn sample_inbox() -> Seq<PreviewView> {
    seq![
        PreviewView {
            id: 1,
            sender: "Apple"@,
            subject: "Your Receipt (Mock)"@,
            preview: "Thank you for your purchase..."@,
            date: "10:30 AM"@,
        },
        PreviewView {
            id: 2,
            sender: "GitHub"@,
            subject: "[GitHub] Security Alert (Mock)"@,
            preview: "We noticed a new login..."@,
            date: "Yesterday"@,
        },
    ]
}

/// A longer string of digits writes no smaller a number than its head.
proof fn lemma_decimal_value_grows(digits: Seq<char>, head: int)
    requires
        0 <= head <= digits.len(),
    ensures
        decimal_value(digits.take(head)) <= decimal_value(digits),
    decreases digits.len(),
{
    if head == digits.len() {
        assert(digits.take(head) =~= digits);
    } else {
        assert(digits.drop_last().take(head) =~= digits.take(head));
        lemma_decimal_value_grows(digits.drop_last(), head);
    }
}

/// Reads a port number: decimal digits, with nothing around them but a `+`
/// that may go before. Anything else, and any number above 65535, is no port.
pub fn parse_port(text: &str) -> (port: Option<u16>)
    ensures
        port == port_in(text@),
{
    let len = text.unicode_len();
    let start: usize = if len > 0 && text.get_char(0) == '+' {
        1
    } else {
        0
    };
    let ghost digits = unsigned_part(text@);
    assert(digits == text@.skip(start as int));
    if start == len {
        return None;
    }
    let mut value: u32 = 0;
    let mut i: usize = start;
    assert(digits.take(0) =~= Seq::<char>::empty());
    while i < len
        invariant
            len == text@.len(),
            start <= i <= len,
            digits == unsigned_part(text@),
            digits == text@.skip(start as int),
            all_digits(digits.take(i - start)),
            value == decimal_value(digits.take(i - start)),
            value <= u16::MAX,
        decreases len - i,
    {
        let code = text.get_char(i) as u32;
        let ghost upto = digits.take(i - start + 1);
        assert(upto.drop_last() =~= digits.take(i - start));
        assert(upto.last() == text@[i as int]);
        if code < 48 || code > 57 {
            assert(!('0' <= digits[i - start] <= '9'));
            return None;
        }
        value = value * 10 + (code - 48);
        assert(value == decimal_value(upto));
        if value > 65535 {
            proof {
                lemma_decimal_value_grows(digits, i - start + 1);
            }
            return None;
        }
        assert forall|j: int| 0 <= j < upto.len() implies '0' <= #[trigger] upto[j] <= '9' by {
            if j < i - start {
                assert(upto[j] == digits.take(i - start)[j]);
            }
        }
        i += 1;
    }
    assert(digits.take(len - start) =~= digits);
    Some(value as u16)
}

fn or_default(value: Option<String>, default: &str) -> (text: String)
    ensures
        text@ == match value {
            Some(given) => given@,
            None => default@,
        },
{
    match value {
        Some(given) => given,
        None => String::from_str(default),
    }
}

/// The sample inbox that an unconfigured client answers with.
pub fn mock_previews() -> (previews: Vec<EmailPreview>)
    ensures
        preview_views(previews@) == sample_inbox(),
{
    let mut previews: Vec<EmailPreview> = Vec::new();
    previews.push(
        EmailPreview {
            id: 1,
            sender: String::from_str("Apple"),
            subject: String::from_str("Your Receipt (Mock)"),
            preview: String::from_str("Thank you for your purchase..."),
            date: String::from_str("10:30 AM"),
        },
    );
    previews.push(
        EmailPreview {
            id: 2,
            sender: String::from_str("GitHub"),
            subject: String::from_str("[GitHub] Security Alert (Mock)"),
            preview: String::from_str("We noticed a new login..."),
            date: String::from_str("Yesterday"),
        },
    );
    assert(preview_views(previews@) =~= sample_inbox());
    previews
}

impl ImapClient {
    /// The client that the given settings describe: the values of
    /// `IMAP_DOMAIN`, `IMAP_PORT`, `IMAP_USERNAME` and `IMAP_PASSWORD`, each
    /// `None` where it is not set.
    ///
    /// A setting that is absent takes its default: `imap.example.com`, 993,
    /// `user@example.com`, `password`. A port that cannot be read as one is
    /// replaced by 993 without complaint.
    pub fn new(
        domain: Option<String>,
        port: Option<String>,
        username: Option<String>,
        password: Option<String>,
    ) -> (client: ImapClient)
        ensures
            client@ == configured(
                setting(domain),
                setting(port),
                setting(username),
                setting(password),
            ),
    {
        let port = match port {
            Some(text) => match parse_port(text.as_str()) {
                Some(port) => port,
                None => DEFAULT_PORT,
            },
            None => DEFAULT_PORT,
        };
        ImapClient {
            domain: or_default(domain, "imap.example.com"),
            port,
            username: or_default(username, "user@example.com"),
            password: or_default(password, "password"),
        }
    }

    /// The server's name.
    pub fn domain(&self) -> (domain: &String)
        ensures
            domain@ == self@.domain,
    {
        &self.domain
    }

    /// The server's port.
    pub fn port(&self) -> (port: u16)
        ensures
            port == self@.port,
    {
        self.port
    }

    /// The name to log in with.
    pub fn username(&self) -> (username: &String)
        ensures
            username@ == self@.username,
    {
        &self.username
    }

    /// The password to log in with.
    pub fn password(&self) -> (password: &String)
        ensures
            password@ == self@.password,
    {
        &self.password
    }

    /// Whether no server has been named yet.
    pub fn is_unconfigured(&self) -> (unconfigured: bool)
        ensures
            unconfigured == self@.unconfigured(),
    {
        let sentinel = String::from_str("imap.example.com");
        self.domain == sentinel
    }

    /// A second client with the same settings.
    pub fn duplicate(&self) -> (copy: ImapClient)
        ensures
            copy@ == self@,
    {
        ImapClient {
            domain: self.domain.clone(),
            port: self.port,
            username: self.username.clone(),
            password: self.password.clone(),
        }
    }

    /// Begins a fetch of at most `limit` previews from the inbox.
    ///
    /// An unconfigured client is done at once, with the sample inbox whatever
    /// the limit, and nothing is asked of any server. Any other client hands
    /// out the session that conducts the fetch; its first request is to
    /// connect.
    pub fn fetch_inbox_previews(&self, limit: usize) -> (step: Step)
        ensures
            step@ == start(self@, limit as nat),
    {
        if self.is_unconfigured() {
            Step::Finished(Ok(mock_previews()))
        } else {
            Step::Continue(FetchSession::open(self.duplicate(), limit))
        }
    }
}

} // verus!
