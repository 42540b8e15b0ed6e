use vstd::prelude::*;

verus! {

/// The three states a ticket can be in; there is no other.
#[derive(Debug, Clone, Copy, PartialEq, Eq, Structural)]
pub enum Status {
    ToDo,
    InProgress,
    Done,
}

/// A text that names no status, kept in its trimmed, lowercased form.
#[derive(Debug, PartialEq, Clone)]
pub struct StatusError {
    invalid_status: String,
}

impl View for StatusError {
    type V = Seq<char>;

    closed spec fn view(&self) -> Seq<char> {
        self.invalid_status@
    }
}

/// What `str::trim` returns on a text.
pub uninterp spec fn trimmed_of(s: Seq<char>) -> Seq<char>;

/// What `str::to_lowercase` returns on a text.
pub uninterp spec fn lowercase_of(s: Seq<char>) -> Seq<char>;

/// The text that parsing compares: trimmed of surrounding whitespace, then
/// lowercased.
pub open spec fn normalized(s: Seq<char>) -> Seq<char> {
    lowercase_of(trimmed_of(s))
}

/// The status that a normalized text names, if any.
pub open spec fn status_named(n: Seq<char>) -> Option<Status> {
    if n == "todo"@ {
        Some(Status::ToDo)
    } else if n == "inprogress"@ {
        Some(Status::InProgress)
    } else if n == "done"@ {
        Some(Status::Done)
    } else {
        None
    }
}

/// What parsing a normalized text gives: the status it names, or the
/// text itself as what was rejected.
pub open spec fn status_of(n: Seq<char>) -> Result<Status, Seq<char>> {
    match status_named(n) {
        Some(st) => Ok(st),
        None => Err(n),
    }
}

/// A parse's outcome, with the error seen as the rejected text.
pub open spec fn status_result_view(r: Result<Status, StatusError>) -> Result<Status, Seq<char>> {
    match r {
        Ok(st) => Ok(st),
        Err(e) => Err(e@),
    }
}

/// The message that a status error renders as, for the rejected text.
pub open spec fn status_error_message(invalid: Seq<char>) -> Seq<char> {
    "`"@ + invalid + "` is not a valid status. Use one of: ToDo, InProgress, Done"@
}

/// The canonical text of each status, in the form that parsing compares.
pub open spec fn status_text(st: Status) -> Seq<char> {
    match st {
        Status::ToDo => "todo"@,
        Status::InProgress => "inprogress"@,
        Status::Done => "done"@,
    }
}

/// Each status's canonical text parses back to that status.
pub proof fn lemma_status_text_round_trip(st: Status)
    ensures
        status_of(status_text(st)) == Ok::<Status, Seq<char>>(st),
{
    reveal_strlit("todo");
    reveal_strlit("inprogress");
    reveal_strlit("done");
    assert("inprogress"@.len() != "todo"@.len());
    assert("done"@ != "todo"@) by {
        assert("done"@[0] != "todo"@[0]);
    }
    assert("done"@.len() != "inprogress"@.len());
}

impl Status {
    /// The canonical text of the status: `todo`, `inprogress` or `done`.
    pub fn as_str(&self) -> (r: &'static str)
        ensures
            r@ == status_text(*self),
    {
        match self {
            Status::ToDo => "todo",
            Status::InProgress => "inprogress",
            Status::Done => "done",
        }
    }
}

/// Relies on `str::trim`: the text without leading and trailing whitespace.
#[verifier::external_body]
fn trim_text<'a>(s: &'a str) -> (r: &'a str)
    ensures
        r@ == trimmed_of(s@),
{
    s.trim()
}

/// Relies on `str::to_lowercase`: the lowercase form of each character.
#[verifier::external_body]
fn lowercase(s: &str) -> (r: String)
    ensures
        r@ == lowercase_of(s@),
{
    s.to_lowercase()
}

impl StatusError {
    /// An error that reports the given text as rejected.
    pub fn new(invalid_status: String) -> (r: StatusError)
        ensures
            r@ == invalid_status@,
    {
        StatusError { invalid_status }
    }

    /// The rejected text, trimmed and lowercased.
    pub fn invalid_status(&self) -> (r: &str)
        ensures
            r@ == self@,
    {
        self.invalid_status.as_str()
    }

    /// The one-line text of the error, which echoes the rejected text.
    pub fn message(&self) -> (r: String)
        ensures
            r@ == status_error_message(self@),
    {
        let mut m = "`".to_owned();
        m.append(self.invalid_status.as_str());
        m.append("` is not a valid status. Use one of: ToDo, InProgress, Done");
        m
    }
}

/// Parses a text that is already trimmed and lowercased: it must be one of
/// `todo`, `inprogress` or `done` exactly.
pub fn status_from_normalized(text: String) -> (r: Result<Status, StatusError>)
    ensures
        status_result_view(r) == status_of(text@),
{
    if text == "todo".to_owned() {
        Ok(Status::ToDo)
    } else if text == "inprogress".to_owned() {
        Ok(Status::InProgress)
    } else if text == "done".to_owned() {
        Ok(Status::Done)
    } else {
        Err(StatusError { invalid_status: text })
    }
}

/// Parses a status from text, ignoring surrounding whitespace and case.
pub fn parse_status(text: &str) -> (r: Result<Status, StatusError>)
    ensures
        status_result_view(r) == status_of(normalized(text@)),
{
    let trimmed = trim_text(text);
    let lowered = lowercase(trimmed);
    status_from_normalized(lowered)
}

impl<'a> TryFrom<&'a str> for Status {
    type Error = StatusError;

    fn try_from(text: &'a str) -> (r: Result<Status, StatusError>)
        ensures
            status_result_view(r) == status_of(normalized(text@)),
    {
        parse_status(text)
    }
}

impl<'a> vstd::std_specs::convert::TryFromSpecImpl<&'a str> for Status {
    open spec fn obeys_try_from_spec() -> bool {
        false
    }

    open spec fn try_from_spec(v: &'a str) -> Result<Status, StatusError> {
        arbitrary()
    }
}

impl TryFrom<String> for Status {
    type Error = StatusError;

    fn try_from(text: String) -> (r: Result<Status, StatusError>)
        ensures
            status_result_view(r) == status_of(normalized(text@)),
    {
        parse_status(text.as_str())
    }
}

impl vstd::std_specs::convert::TryFromSpecImpl<String> for Status {
    open spec fn obeys_try_from_spec() -> bool {
        false
    }

    open spec fn try_from_spec(v: String) -> Result<Status, StatusError> {
        arbitrary()
    }
}

} // verus!
