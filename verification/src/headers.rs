//! The header parser: from the raw header block of one message to its subject,
//! sender and date.
//!
//! Splitting the block into fields and decoding a field's text is the work of
//! the `mailparse` crate. Finding the field that answers to a name is done
//! here.

use mailparse::MailHeader;
use mailparse::MailParseError;
use vstd::prelude::*;

verus! {

/// `mailparse::MailHeader`: one field of a header block, borrowed from the raw
/// bytes. Nothing is known of its inside.
#[verifier::external_type_specification]
#[verifier::external_body]
pub struct ExMailHeader<'a>(mailparse::MailHeader<'a>);

/// `mailparse::MailParseError`: why a header block was refused.
#[verifier::external_type_specification]
#[verifier::external_body]
pub struct ExMailParseError(mailparse::MailParseError);

/// What `mailparse::parse_headers` makes of a header block: its fields in the
/// order in which they stand, or the reason for which the block is refused.
pub uninterp spec fn split_outcome(raw: Seq<u8>) -> Result<Seq<MailHeader<'static>>, MailParseError>;

/// The name of a field, as `MailHeader::get_key` gives it.
pub uninterp spec fn field_name(field: MailHeader<'static>) -> Seq<char>;

/// The decoded text of a field, as `MailHeader::get_value` gives it.
pub uninterp spec fn field_text(field: MailHeader<'static>) -> Seq<char>;

/// The words in which a `MailParseError` describes itself.
pub uninterp spec fn refusal_text(error: MailParseError) -> Seq<char>;

/// Calls `mailparse::parse_headers` and drops the offset at which the body
/// would start. The contract only names the outcome: the same bytes always
/// split in the same way.
#[verifier::external_body]
fn split_block<'a>(raw: &'a [u8]) -> (outcome: Result<Vec<MailHeader<'a>>, MailParseError>)
    ensures
        match outcome {
            Ok(fields) => split_outcome(raw@) == Ok::<Seq<MailHeader<'static>>, MailParseError>(fields@),
            Err(error) => split_outcome(raw@) == Err::<Seq<MailHeader<'static>>, MailParseError>(error),
        },
{
    match mailparse::parse_headers(raw) {
        Ok((fields, _)) => Ok(fields),
        Err(error) => Err(error),
    }
}

/// Calls `MailHeader::get_key`. The contract only names the result.
#[verifier::external_body]
fn name_of(field: &MailHeader<'_>) -> (name: String)
    ensures
        name@ == field_name(*field),
{
    field.get_key()
}

/// Calls `MailHeader::get_value`, which unfolds the field's lines and decodes
/// encoded words. The contract only names the result.
#[verifier::external_body]
fn text_of(field: &MailHeader<'_>) -> (text: String)
    ensures
        text@ == field_text(*field),
{
    field.get_value()
}

/// Calls `to_string` on a `MailParseError`. The contract only names the
/// result.
#[verifier::external_body]
fn describe(error: &MailParseError) -> (text: String)
    ensures
        text@ == refusal_text(*error),
{
    error.to_string()
}

/// The subject, sender and date of one message. A field that the header block
/// does not hold is the empty string.
#[derive(Debug, Clone)]
pub struct HeaderSummary {
    pub subject: String,
    pub from: String,
    pub date: String,
}

/// The mathematical value of a [`HeaderSummary`].
pub ghost struct SummaryView {
    pub subject: Seq<char>,
    pub from: Seq<char>,
    pub date: Seq<char>,
}

impl View for HeaderSummary {
    type V = SummaryView;

    open spec fn view(&self) -> SummaryView {
        SummaryView { subject: self.subject@, from: self.from@, date: self.date@ }
    }
}

/// A header block that could not be split into fields.
#[derive(Debug, Clone)]
pub struct ParseError {
    pub reason: String,
}

/// The code point of `c`, with the letters `A` to `Z` moved onto `a` to `z`.
pub open spec fn folded(c: char) -> int {
    if 'A' <= c <= 'Z' {
        c as int + 32
    } else {
        c as int
    }
}

/// Two field names are the same if they differ at most in the case of ASCII
/// letters.
pub open spec fn same_name(a: Seq<char>, b: Seq<char>) -> bool {
    &&& a.len() == b.len()
    &&& forall|i: int| 0 <= i < a.len() ==> folded(#[trigger] a[i]) == folded(b[i])
}

/// `at` is the place of the first of `names` that answers to `key`.
pub open spec fn is_first_match(names: Seq<Seq<char>>, key: Seq<char>, at: int) -> bool {
    &&& 0 <= at < names.len()
    &&& same_name(names[at], key)
    &&& forall|j: int| 0 <= j < at ==> !same_name(#[trigger] names[j], key)
}

/// Some of `names` answers to `key`.
pub open spec fn has_match(names: Seq<Seq<char>>, key: Seq<char>) -> bool {
    exists|i: int| 0 <= i < names.len() && same_name(#[trigger] names[i], key)
}

/// The place of the first of `names` that answers to `key`, if there is one.
pub open spec fn first_match(names: Seq<Seq<char>>, key: Seq<char>) -> Option<int> {
    if exists|at: int| is_first_match(names, key, at) {
        Some(choose|at: int| is_first_match(names, key, at))
    } else {
        None
    }
}

/// The names of a list of fields, in the same order.
pub open spec fn names_of(fields: Seq<MailHeader<'static>>) -> Seq<Seq<char>> {
    Seq::new(fields.len(), |i: int| field_name(fields[i]))
}

/// The text of the first of `fields` that answers to `key`, or the empty
/// string if none does.
pub open spec fn text_under(fields: Seq<MailHeader<'static>>, key: Seq<char>) -> Seq<char> {
    match first_match(names_of(fields), key) {
        Some(at) => field_text(fields[at]),
        None => Seq::empty(),
    }
}

/// What parsing makes of a header block: the three texts, or the reason for
/// which the block is refused.
pub open spec fn parse_outcome(raw: Seq<u8>) -> Result<SummaryView, Seq<char>> {
    match split_outcome(raw) {
        Ok(fields) => Ok(
            SummaryView {
                subject: text_under(fields, "Subject"@),
                from: text_under(fields, "From"@),
                date: text_under(fields, "Date"@),
            },
        ),
        Err(error) => Err(refusal_text(error)),
    }
}

/// A list of names has at most one first match.
pub proof fn lemma_first_match_is_unique(names: Seq<Seq<char>>, key: Seq<char>, at: int)
    requires
        is_first_match(names, key, at),
    ensures
        first_match(names, key) == Some(at),
{
    let chosen = choose|c: int| is_first_match(names, key, c);
    assert(is_first_match(names, key, chosen));
    if chosen < at {
        assert(!same_name(names[chosen], key));
    } else if at < chosen {
        assert(!same_name(names[at], key));
    }
}

/// Where no name answers to the key, nothing is found.
pub proof fn lemma_no_match_finds_nothing(names: Seq<Seq<char>>, key: Seq<char>)
    requires
        !has_match(names, key),
    ensures
        first_match(names, key) is None,
{
    if exists|at: int| is_first_match(names, key, at) {
        let at = choose|at: int| is_first_match(names, key, at);
        assert(same_name(names[at], key));
    }
}

/// A header block that splits into fields always parses. Each of the three
/// texts is that of the first field whose name answers to `Subject`, `From`
/// or `Date`, wherever in the block the field stands and however its name is
/// cased; where no field answers, the text is empty.
pub proof fn lemma_parse_takes_the_first_field(
    raw: Seq<u8>,
    fields: Seq<MailHeader<'static>>,
    key: Seq<char>,
)
    requires
        split_outcome(raw) == Ok::<Seq<MailHeader<'static>>, MailParseError>(fields),
    ensures
        parse_outcome(raw) is Ok,
        parse_outcome(raw)->Ok_0.subject == text_under(fields, "Subject"@),
        parse_outcome(raw)->Ok_0.from == text_under(fields, "From"@),
        parse_outcome(raw)->Ok_0.date == text_under(fields, "Date"@),
        forall|at: int|
            is_first_match(names_of(fields), key, at) ==> text_under(fields, key) == field_text(
                #[trigger] fields[at],
            ),
        !has_match(names_of(fields), key) ==> text_under(fields, key) == Seq::<char>::empty(),
{
    assert forall|at: int| is_first_match(names_of(fields), key, at) implies text_under(
        fields,
        key,
    ) == field_text(#[trigger] fields[at]) by {
        lemma_first_match_is_unique(names_of(fields), key, at);
    }
    if !has_match(names_of(fields), key) {
        lemma_no_match_finds_nothing(names_of(fields), key);
    }
}

/// Names that differ only in the case of ASCII letters answer to the same
/// keys: being the same name is symmetric and transitive.
pub proof fn lemma_same_name_is_an_equivalence(a: Seq<char>, b: Seq<char>, c: Seq<char>)
    ensures
        same_name(a, a),
        same_name(a, b) ==> same_name(b, a),
        same_name(a, b) && same_name(b, c) ==> same_name(a, c),
{
    if same_name(a, b) {
        assert forall|i: int| 0 <= i < b.len() implies folded(#[trigger] b[i]) == folded(a[i]) by {
            assert(folded(a[i]) == folded(b[i]));
        }
        if same_name(b, c) {
            assert forall|i: int| 0 <= i < a.len() implies folded(#[trigger] a[i]) == folded(
                c[i],
            ) by {
                assert(folded(b[i]) == folded(c[i]));
            }
        }
    }
}

fn fold(c: char) -> (code: u32)
    ensures
        code == folded(c),
{
    let code = c as u32;
    if 65 <= code && code <= 90 {
        code + 32
    } else {
        code
    }
}

/// Whether two field names are the same but for the case of ASCII letters.
pub fn names_match(a: &str, b: &str) -> (same: bool)
    ensures
        same == same_name(a@, b@),
{
    let len = a.unicode_len();
    if len != b.unicode_len() {
        return false;
    }
    let mut i: usize = 0;
    while i < len
        invariant
            len == a@.len(),
            len == b@.len(),
            i <= len,
            forall|j: int| 0 <= j < i ==> folded(#[trigger] a@[j]) == folded(b@[j]),
        decreases len - i,
    {
        if fold(a.get_char(i)) != fold(b.get_char(i)) {
            return false;
        }
        i += 1;
    }
    true
}

/// The place of the first of `names` that answers to `key`.
pub fn find_field(names: &Vec<String>, key: &str) -> (found: Option<usize>)
    ensures
        match found {
            Some(at) => first_match(texts(names@), key@) == Some(at as int),
            None => first_match(texts(names@), key@) is None,
        },
{
    let mut i: usize = 0;
    while i < names.len()
        invariant
            i <= names@.len(),
            forall|j: int| 0 <= j < i ==> !same_name(#[trigger] texts(names@)[j], key@),
        decreases names@.len() - i,
    {
        if names_match(names[i].as_str(), key) {
            proof {
                lemma_first_match_is_unique(texts(names@), key@, i as int);
            }
            return Some(i);
        }
        i += 1;
    }
    proof {
        lemma_no_match_finds_nothing(texts(names@), key@);
    }
    None
}

/// The values of a list of strings, in the same order.
pub open spec fn texts(strings: Seq<String>) -> Seq<Seq<char>> {
    Seq::new(strings.len(), |i: int| strings[i]@)
}

fn names_in(fields: &Vec<MailHeader<'_>>) -> (names: Vec<String>)
    ensures
        texts(names@) == names_of(fields@),
{
    let mut names: Vec<String> = Vec::new();
    let mut i: usize = 0;
    while i < fields.len()
        invariant
            i <= fields@.len(),
            names@.len() == i,
            forall|j: int| 0 <= j < i ==> (#[trigger] names@[j])@ == field_name(fields@[j]),
        decreases fields@.len() - i,
    {
        names.push(name_of(&fields[i]));
        i += 1;
    }
    assert(texts(names@) =~= names_of(fields@));
    names
}

fn text_in(fields: &Vec<MailHeader<'_>>, names: &Vec<String>, key: &str) -> (text: String)
    requires
        texts(names@) == names_of(fields@),
    ensures
        text@ == text_under(fields@, key@),
{
    assert(names@.len() == texts(names@).len());
    match find_field(names, key) {
        Some(at) => text_of(&fields[at]),
        None => String::new(),
    }
}

/// Parses the header block of one message.
///
/// The block is refused only where it cannot be split into fields. A field
/// that is missing from it comes out as the empty string; of a field that
/// stands more than once, the first counts. Field names are told apart without
/// regard to the case of ASCII letters.
pub fn parse(raw: &[u8]) -> (outcome: Result<HeaderSummary, ParseError>)
    ensures
        match outcome {
            Ok(summary) => parse_outcome(raw@) == Ok::<SummaryView, Seq<char>>(summary@),
            Err(error) => parse_outcome(raw@) == Err::<SummaryView, Seq<char>>(error.reason@),
        },
{
    match split_block(raw) {
        Ok(fields) => {
            let names = names_in(&fields);
            let subject = text_in(&fields, &names, "Subject");
            let from = text_in(&fields, &names, "From");
            let date = text_in(&fields, &names, "Date");
            Ok(HeaderSummary { subject, from, date })
        },
        Err(error) => Err(ParseError { reason: describe(&error) }),
    }
}

} // verus!
