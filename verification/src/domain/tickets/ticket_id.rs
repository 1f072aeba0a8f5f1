use crate::domain::error::DomainError;
use vstd::arithmetic::power::pow;
use vstd::prelude::*;
use vstd::std_specs::convert::{FromSpecImpl, TryFromSpecImpl};

verus! {

/// `uuid::Error`, the reason why a text is no identifier. It is carried through
/// unopened.
#[verifier::external_type_specification]
#[verifier::external_body]
pub struct ExUuidError(uuid::Error);

/// The identifier that `uuid::Uuid::parse_str` reads from a text, as a 128-bit number;
/// `None` where it refuses the text.
pub uninterp spec fn uuid_of_text(text: Seq<char>) -> Option<u128>;

/// The lower-case hexadecimal digit for a number from 0 to 15.
pub open spec fn hex_digit(n: int) -> char {
    if n < 10 {
        ('0' as int + n) as char
    } else {
        ('a' as int + (n - 10)) as char
    }
}

/// Which of the 32 hexadecimal digits of an identifier, counted from the most
/// significant, stands at place `i` of its written form.
pub open spec fn digit_at(i: int) -> int {
    if i < 8 {
        i
    } else if i < 13 {
        i - 1
    } else if i < 18 {
        i - 2
    } else if i < 23 {
        i - 3
    } else {
        i - 4
    }
}

/// The written form of an identifier: 36 characters, its 32 hexadecimal digits in
/// lower case from the most significant down, in groups of 8, 4, 4, 4 and 12 with a
/// hyphen between two groups.
pub open spec fn text_of_uuid(value: u128) -> Seq<char> {
    Seq::new(
        36,
        |i: int|
            if i == 8 || i == 13 || i == 18 || i == 23 {
                '-'
            } else {
                hex_digit((value as int / pow(16, (31 - digit_at(i)) as nat)) % 16)
            },
    )
}

/// Whether `value` carries the version and variant marks of a random identifier:
/// version 4 in the high nibble of the seventh byte, variant `10` in the top bits of the
/// ninth.
pub open spec fn is_random_uuid(value: u128) -> bool {
    value & 0x0000_0000_0000_F000_C000_0000_0000_0000u128
        == 0x0000_0000_0000_4000_8000_0000_0000_0000u128
}

/// Calls `uuid::Uuid::new_v4` and hands back its 128 bits. The outcome is random; the
/// contract claims only the version and variant marks that `new_v4` sets on every
/// value. The call takes its random bytes from the operating system and panics where
/// the system gives none: no argument decides that, so no `requires` can leave it out,
/// and it is counted as a fault of the machine, like memory that runs out.
#[verifier::external_body]
fn random_uuid() -> (r: u128)
    ensures
        is_random_uuid(r),
{
    uuid::Uuid::new_v4().as_u128()
}

/// Calls `uuid::Uuid::parse_str`. The contract names what it reads (`uuid_of_text`) and
/// claims that it fails exactly where that name is `None`.
#[verifier::external_body]
fn parse_uuid(text: &str) -> (r: Result<u128, uuid::Error>)
    ensures
        match r {
            Ok(value) => uuid_of_text(text@) == Some(value),
            Err(_) => uuid_of_text(text@) is None,
        },
{
    match uuid::Uuid::parse_str(text) {
        Ok(id) => Ok(id.as_u128()),
        Err(e) => Err(e),
    }
}

/// Prints an identifier with the `Display` of `uuid::Uuid`. The contract claims that
/// the text is the written form that `text_of_uuid` states, and that `parse_str` reads
/// the same identifier back from it.
#[verifier::external_body]
pub(crate) fn print_uuid(value: u128) -> (r: String)
    ensures
        r@ == text_of_uuid(value),
        uuid_of_text(r@) == Some(value),
{
    uuid::Uuid::from_u128(value).to_string()
}

/// The identifier of a ticket: 128 bits, never changed once given.
#[derive(Debug, Clone, Copy, PartialEq, Eq, Hash, Structural)]
pub struct TicketId(u128);

impl View for TicketId {
    type V = u128;

    closed spec fn view(&self) -> u128 {
        self.0
    }
}

impl TicketId {
    /// A fresh random identifier.
    pub fn new() -> (r: Self)
        ensures
            is_random_uuid(r@),
    {
        Self(random_uuid())
    }

    /// The 128 bits of the identifier.
    pub fn value(&self) -> (r: u128)
        ensures
            r == self@,
    {
        self.0
    }

    /// The identifier in its usual written form.
    pub fn to_string(&self) -> (r: String)
        ensures
            r@ == text_of_uuid(self@),
            uuid_of_text(r@) == Some(self@),
    {
        print_uuid(self.0)
    }

    /// Two identifiers of the same 128 bits are the same identifier.
    pub proof fn lemma_same_value(a: TicketId, b: TicketId)
        requires
            a@ == b@,
        ensures
            a == b,
    {
    }
}

impl FromSpecImpl<u128> for TicketId {
    open spec fn obeys_from_spec() -> bool {
        true
    }

    closed spec fn from_spec(value: u128) -> TicketId {
        TicketId(value)
    }
}

impl From<u128> for TicketId {
    fn from(value: u128) -> (r: TicketId)
        ensures
            r@ == value,
    {
        TicketId(value)
    }
}

/// What parsing a text as an identifier gives: the identifier that the text names, or
/// `InvalidTicketId`.
pub open spec fn id_of_text(text: Seq<char>) -> Result<u128, DomainError> {
    match uuid_of_text(text) {
        Some(value) => Ok(value),
        None => Err(DomainError::InvalidTicketId),
    }
}

impl TryFromSpecImpl<String> for TicketId {
    open spec fn obeys_try_from_spec() -> bool {
        true
    }

    closed spec fn try_from_spec(value: String) -> Result<Self, DomainError> {
        match uuid_of_text(value@) {
            Some(id) => Ok(TicketId(id)),
            None => Err(DomainError::InvalidTicketId),
        }
    }
}

impl TryFrom<String> for TicketId {
    type Error = DomainError;

    fn try_from(value: String) -> (r: Result<Self, DomainError>)
        ensures
            match r {
                Ok(id) => id_of_text(value@) == Ok::<u128, DomainError>(id@),
                Err(e) => e == DomainError::InvalidTicketId && id_of_text(value@) is Err,
            },
    {
        Self::from_parsed(parse_uuid(value.as_str()))
    }
}

impl TicketId {
    /// Turns what the parser returned into an identifier or into `InvalidTicketId`.
    pub fn from_parsed(parsed: Result<u128, uuid::Error>) -> (r: Result<Self, DomainError>)
        ensures
            match parsed {
                Ok(value) => r matches Ok(id) && id@ == value,
                Err(_) => r == Err::<Self, DomainError>(DomainError::InvalidTicketId),
            },
    {
        match parsed {
            Ok(value) => Ok(TicketId(value)),
            Err(_) => Err(DomainError::InvalidTicketId),
        }
    }
}

} // verus!
