use crate::domain::tickets::text::{blank, is_blank, is_trimmed, lemma_trimmed, trim, trimmed};
use crate::domain::tickets::ticket_error::TicketError;
use vstd::prelude::*;
use vstd::std_specs::convert::TryFromSpecImpl;

verus! {

/// The largest number of characters that a title may have.
pub const MAX_TITLE_CHARS: usize = 100;

/// What validation says of a candidate title: blank texts are refused first, then
/// texts of more than `MAX_TITLE_CHARS` characters. The characters are counted on the text
/// as it is given, white space at its ends included.
pub open spec fn title_verdict(title: Seq<char>) -> Result<(), TicketError> {
    if is_blank(title) {
        Err(TicketError::EmptyTitle)
    } else if title.len() > MAX_TITLE_CHARS {
        Err(TicketError::TooLongTitle)
    } else {
        Ok(())
    }
}

/// Whether a text can be the text of a title: it passes validation and has no white
/// space at its ends.
pub open spec fn is_title(text: Seq<char>) -> bool {
    title_verdict(text) is Ok && is_trimmed(text)
}

/// A text that passes validation is, once trimmed, the text of a title.
pub proof fn lemma_trimmed_is_title(text: Seq<char>)
    requires
        title_verdict(text) is Ok,
    ensures
        is_title(trimmed(text)),
{
    lemma_trimmed(text);
}

/// The title of a ticket: a text that passed `validate`, kept without the white space
/// at its ends.
#[derive(Debug, PartialEq, Eq)]
pub struct TicketTitle(String);

impl Clone for TicketTitle {
    fn clone(&self) -> (r: Self)
        ensures
            r == *self,
    {
        proof {
            use_type_invariant(self);
        }
        Self(self.0.clone())
    }
}

impl View for TicketTitle {
    type V = Seq<char>;

    closed spec fn view(&self) -> Seq<char> {
        self.0@
    }
}

impl TicketTitle {
    /// Holds of every title: its text is not blank, has at most `MAX_TITLE_CHARS`
    /// characters, and has no white space at its ends.
    #[verifier::type_invariant]
    pub open spec fn wf(&self) -> bool {
        is_title(self@)
    }

    /// Wraps a text that `validate` accepted and `trim` cut.
    fn new(title: String) -> (r: Self)
        requires
            is_title(title@),
        ensures
            r == TicketTitle(title),
    {
        Self(title)
    }

    /// The text of the title.
    pub fn value(&self) -> (r: &str)
        ensures
            r@ == self@,
            self.wf(),
    {
        proof {
            use_type_invariant(self);
        }
        self.0.as_str()
    }

    /// The title as it is shown: its text.
    pub fn to_string(&self) -> (r: String)
        ensures
            r@ == self@,
    {
        self.0.clone()
    }
}

/// What converting a text gives: the error of validation, or the text of the new
/// title, which is the given one without the white space at its ends.
pub open spec fn title_of(value: Seq<char>) -> Result<Seq<char>, TicketError> {
    match title_verdict(value) {
        Ok(()) => Ok(trimmed(value)),
        Err(e) => Err(e),
    }
}

/// The text of a new title is a copy of part of the one given, so the conversion is
/// stated by the text of its result, not by the result itself.
impl<'a> TryFromSpecImpl<&'a str> for TicketTitle {
    open spec fn obeys_try_from_spec() -> bool {
        false
    }

    open spec fn try_from_spec(value: &'a str) -> Result<Self, TicketError> {
        match title_of(value@) {
            Ok(text) => Ok(choose|t: TicketTitle| t@ == text),
            Err(e) => Err(e),
        }
    }
}

impl<'a> TryFrom<&'a str> for TicketTitle {
    type Error = TicketError;

    fn try_from(value: &'a str) -> (r: Result<Self, TicketError>)
        ensures
            match r {
                Ok(t) => title_of(value@) == Ok::<Seq<char>, TicketError>(t@) && t.wf(),
                Err(e) => title_of(value@) == Err::<Seq<char>, TicketError>(e),
            },
    {
        match validate(value) {
            Ok(()) => {
                proof {
                    lemma_trimmed_is_title(value@);
                }
                Ok(Self::new(trim(value).to_owned()))
            },
            Err(e) => Err(e),
        }
    }
}

impl TryFromSpecImpl<String> for TicketTitle {
    open spec fn obeys_try_from_spec() -> bool {
        false
    }

    open spec fn try_from_spec(value: String) -> Result<Self, TicketError> {
        match title_of(value@) {
            Ok(text) => Ok(choose|t: TicketTitle| t@ == text),
            Err(e) => Err(e),
        }
    }
}

impl TryFrom<String> for TicketTitle {
    type Error = TicketError;

    fn try_from(value: String) -> (r: Result<Self, TicketError>)
        ensures
            match r {
                Ok(t) => title_of(value@) == Ok::<Seq<char>, TicketError>(t@) && t.wf(),
                Err(e) => title_of(value@) == Err::<Seq<char>, TicketError>(e),
            },
    {
        match validate(value.as_str()) {
            Ok(()) => {
                proof {
                    lemma_trimmed_is_title(value@);
                }
                Ok(Self::new(trim(value.as_str()).to_owned()))
            },
            Err(e) => Err(e),
        }
    }
}

/// Judges a candidate title.
pub fn validate(title: &str) -> (r: Result<(), TicketError>)
    ensures
        r == title_verdict(title@),
{
    if blank(title) {
        return Err(TicketError::EmptyTitle);
    }
    if title.unicode_len() > MAX_TITLE_CHARS {
        return Err(TicketError::TooLongTitle);
    }
    Ok(())
}

} // verus!
