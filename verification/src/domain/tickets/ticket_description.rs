use crate::domain::tickets::text::{blank, is_blank, is_trimmed, lemma_trimmed, trim, trimmed};
use crate::domain::tickets::ticket_error::TicketError;
use vstd::prelude::*;
use vstd::std_specs::convert::TryFromSpecImpl;

verus! {

/// The largest number of characters that a description may have.
pub const MAX_DESCRIPTION_CHARS: usize = 200;

/// What validation says of a candidate description: blank texts are refused first, then
/// texts of more than `MAX_DESCRIPTION_CHARS` characters. The characters are counted on the text
/// as it is given, white space at its ends included.
pub open spec fn description_verdict(description: Seq<char>) -> Result<(), TicketError> {
    if is_blank(description) {
        Err(TicketError::EmptyDescription)
    } else if description.len() > MAX_DESCRIPTION_CHARS {
        Err(TicketError::TooLongDescription)
    } else {
        Ok(())
    }
}

/// Whether a text can be the text of a description: it passes validation and has no white
/// space at its ends.
pub open spec fn is_description(text: Seq<char>) -> bool {
    description_verdict(text) is Ok && is_trimmed(text)
}

/// A text that passes validation is, once trimmed, the text of a description.
pub proof fn lemma_trimmed_is_description(text: Seq<char>)
    requires
        description_verdict(text) is Ok,
    ensures
        is_description(trimmed(text)),
{
    lemma_trimmed(text);
}

/// The description of a ticket: a text that passed `validate`, kept without the white space
/// at its ends.
#[derive(Debug, PartialEq, Eq)]
pub struct TicketDescription(String);

impl Clone for TicketDescription {
    fn clone(&self) -> (r: Self)
        ensures
            r == *self,
    {
        proof {
            use_type_invariant(self);
        }
        Self(self.0.clone())
    }
}

impl View for TicketDescription {
    type V = Seq<char>;

    closed spec fn view(&self) -> Seq<char> {
        self.0@
    }
}

impl TicketDescription {
    /// Holds of every description: its text is not blank, has at most `MAX_DESCRIPTION_CHARS`
    /// characters, and has no white space at its ends.
    #[verifier::type_invariant]
    pub open spec fn wf(&self) -> bool {
        is_description(self@)
    }

    /// Wraps a text that `validate` accepted and `trim` cut.
    fn new(description: String) -> (r: Self)
        requires
            is_description(description@),
        ensures
            r == TicketDescription(description),
    {
        Self(description)
    }

    /// The text of the description.
    pub fn value(&self) -> (r: &str)
        ensures
            r@ == self@,
            self.wf(),
    {
        proof {
            use_type_invariant(self);
        }
        self.0.as_str()
    }

    /// The description as it is shown: its text.
    pub fn to_string(&self) -> (r: String)
        ensures
            r@ == self@,
    {
        self.0.clone()
    }
}

/// What converting a text gives: the error of validation, or the text of the new
/// description, which is the given one without the white space at its ends.
pub open spec fn description_of(value: Seq<char>) -> Result<Seq<char>, TicketError> {
    match description_verdict(value) {
        Ok(()) => Ok(trimmed(value)),
        Err(e) => Err(e),
    }
}

/// The text of a new description is a copy of part of the one given, so the conversion is
/// stated by the text of its result, not by the result itself.
impl<'a> TryFromSpecImpl<&'a str> for TicketDescription {
    open spec fn obeys_try_from_spec() -> bool {
        false
    }

    open spec fn try_from_spec(value: &'a str) -> Result<Self, TicketError> {
        match description_of(value@) {
            Ok(text) => Ok(choose|t: TicketDescription| t@ == text),
            Err(e) => Err(e),
        }
    }
}

impl<'a> TryFrom<&'a str> for TicketDescription {
    type Error = TicketError;

    fn try_from(value: &'a str) -> (r: Result<Self, TicketError>)
        ensures
            match r {
                Ok(t) => description_of(value@) == Ok::<Seq<char>, TicketError>(t@) && t.wf(),
                Err(e) => description_of(value@) == Err::<Seq<char>, TicketError>(e),
            },
    {
        match validate(value) {
            Ok(()) => {
                proof {
                    lemma_trimmed_is_description(value@);
                }
                Ok(Self::new(trim(value).to_owned()))
            },
            Err(e) => Err(e),
        }
    }
}

impl TryFromSpecImpl<String> for TicketDescription {
    open spec fn obeys_try_from_spec() -> bool {
        false
    }

    open spec fn try_from_spec(value: String) -> Result<Self, TicketError> {
        match description_of(value@) {
            Ok(text) => Ok(choose|t: TicketDescription| t@ == text),
            Err(e) => Err(e),
        }
    }
}

impl TryFrom<String> for TicketDescription {
    type Error = TicketError;

    fn try_from(value: String) -> (r: Result<Self, TicketError>)
        ensures
            match r {
                Ok(t) => description_of(value@) == Ok::<Seq<char>, TicketError>(t@) && t.wf(),
                Err(e) => description_of(value@) == Err::<Seq<char>, TicketError>(e),
            },
    {
        match validate(value.as_str()) {
            Ok(()) => {
                proof {
                    lemma_trimmed_is_description(value@);
                }
                Ok(Self::new(trim(value.as_str()).to_owned()))
            },
            Err(e) => Err(e),
        }
    }
}

/// Judges a candidate description.
pub fn validate(description: &str) -> (r: Result<(), TicketError>)
    ensures
        r == description_verdict(description@),
{
    if blank(description) {
        return Err(TicketError::EmptyDescription);
    }
    if description.unicode_len() > MAX_DESCRIPTION_CHARS {
        return Err(TicketError::TooLongDescription);
    }
    Ok(())
}

} // verus!
