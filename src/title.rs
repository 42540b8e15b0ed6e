use vstd::prelude::*;

use crate::byte_len;

verus! {

/// Why a text cannot be a title.
#[derive(Debug, Clone, Copy, PartialEq, Eq, Structural)]
pub enum TitleError {
    Empty,
    TooLong,
}

/// The message that each title error renders as.
pub open spec fn title_error_message(e: TitleError) -> Seq<char> {
    match e {
        TitleError::Empty => "The title cannot be empty"@,
        TitleError::TooLong => "The title cannot be longer than 50 bytes"@,
    }
}

impl TitleError {
    /// The one-line text of the error.
    pub fn message(&self) -> (r: &'static str)
        ensures
            r@ == title_error_message(*self),
    {
        match self {
            TitleError::Empty => "The title cannot be empty",
            TitleError::TooLong => "The title cannot be longer than 50 bytes",
        }
    }
}

/// Most bytes a title may hold.
pub const TITLE_MAX_BYTES: usize = 50;

/// What checking a text as a title gives: the error that applies, if any.
pub open spec fn title_check(t: Seq<char>) -> Result<(), TitleError> {
    if byte_len(t) == 0 {
        Err(TitleError::Empty)
    } else if byte_len(t) > TITLE_MAX_BYTES {
        Err(TitleError::TooLong)
    } else {
        Ok(())
    }
}

/// What taking a text as a title gives: the text itself, or the error.
pub open spec fn title_of(t: Seq<char>) -> Result<Seq<char>, TitleError> {
    match title_check(t) {
        Ok(()) => Ok(t),
        Err(e) => Err(e),
    }
}

/// A conversion's outcome, with the title seen as its text.
pub open spec fn title_result_view(r: Result<TicketTitle, TitleError>) -> Result<
    Seq<char>,
    TitleError,
> {
    match r {
        Ok(t) => Ok(t@),
        Err(e) => Err(e),
    }
}

/// Every text of 1 to 50 bytes is a title, and the title holds that very
/// text: taking it as a title and reading it back gives it unchanged.
pub proof fn lemma_title_round_trip(t: Seq<char>)
    requires
        1 <= byte_len(t) <= TITLE_MAX_BYTES,
    ensures
        title_of(t) == Ok::<Seq<char>, TitleError>(t),
{
}

/// A title may hold exactly 1 or exactly 50 bytes; 0 bytes is refused as
/// empty and 51 bytes as too long.
pub proof fn lemma_title_boundaries(t: Seq<char>)
    ensures
        byte_len(t) == 1 ==> title_of(t) is Ok,
        byte_len(t) == 50 ==> title_of(t) is Ok,
        byte_len(t) == 0 ==> title_of(t) == Err::<Seq<char>, TitleError>(TitleError::Empty),
        byte_len(t) == 51 ==> title_of(t) == Err::<Seq<char>, TitleError>(TitleError::TooLong),
{
}

fn validate(text: &str) -> (r: Result<(), TitleError>)
    ensures
        r == title_check(text@),
{
    let string_length: usize = text.as_bytes().len();
    if 1 <= string_length && string_length <= TITLE_MAX_BYTES {
        Ok(())
    } else if string_length == 0 {
        Err(TitleError::Empty)
    } else {
        Err(TitleError::TooLong)
    }
}

/// A title of 1 to 50 bytes; no other value can be built.
#[derive(Debug, PartialEq)]
pub struct TicketTitle(String);

impl View for TicketTitle {
    type V = Seq<char>;

    closed spec fn view(&self) -> Seq<char> {
        self.0@
    }
}

impl TicketTitle {
    #[verifier::type_invariant]
    spec fn inv(&self) -> bool {
        title_check(self.0@) is Ok
    }

    /// Takes an owned text as a title, or says why it cannot be one.
    pub fn new(value: String) -> (r: Result<TicketTitle, TitleError>)
        ensures
            title_result_view(r) == title_of(value@),
    {
        match validate(value.as_str()) {
            Ok(()) => Ok(TicketTitle(value)),
            Err(e) => Err(e),
        }
    }

    /// Takes a borrowed text as a title, or says why it cannot be one.
    pub fn from_text(value: &str) -> (r: Result<TicketTitle, TitleError>)
        ensures
            title_result_view(r) == title_of(value@),
    {
        match validate(value) {
            Ok(()) => Ok(TicketTitle(value.to_owned())),
            Err(e) => Err(e),
        }
    }

    /// The text of the title.
    pub fn as_str(&self) -> (r: &str)
        ensures
            r@ == self@,
            title_check(r@) is Ok,
    {
        proof {
            use_type_invariant(self);
        }
        self.0.as_str()
    }
}

impl Clone for TicketTitle {
    fn clone(&self) -> (r: TicketTitle)
        ensures
            r@ == self@,
    {
        proof {
            use_type_invariant(self);
        }
        TicketTitle(self.0.clone())
    }
}

impl<'a> TryFrom<&'a str> for TicketTitle {
    type Error = TitleError;

    fn try_from(value: &'a str) -> (r: Result<TicketTitle, TitleError>)
        ensures
            title_result_view(r) == title_of(value@),
    {
        TicketTitle::from_text(value)
    }
}

impl<'a> vstd::std_specs::convert::TryFromSpecImpl<&'a str> for TicketTitle {
    open spec fn obeys_try_from_spec() -> bool {
        false
    }

    open spec fn try_from_spec(v: &'a str) -> Result<TicketTitle, TitleError> {
        arbitrary()
    }
}

impl TryFrom<String> for TicketTitle {
    type Error = TitleError;

    fn try_from(value: String) -> (r: Result<TicketTitle, TitleError>)
        ensures
            title_result_view(r) == title_of(value@),
    {
        TicketTitle::new(value)
    }
}

impl vstd::std_specs::convert::TryFromSpecImpl<String> for TicketTitle {
    open spec fn obeys_try_from_spec() -> bool {
        false
    }

    open spec fn try_from_spec(v: String) -> Result<TicketTitle, TitleError> {
        arbitrary()
    }
}

} // verus!
