use crate::domain::tickets::text::{spells, spells_word};
use crate::domain::tickets::ticket_error::TicketError;
use crate::domain::tickets::ticket_id::{print_uuid, text_of_uuid};
use vstd::prelude::*;

verus! {

/// Where a ticket stands. `Assigned` names the user who works on it.
#[derive(Debug, Clone, Copy, PartialEq, Eq, Structural)]
pub enum TicketStatus {
    Open,
    Assigned { user_id: u128 },
    Closed,
}

impl Default for TicketStatus {
    fn default() -> (r: Self)
        ensures
            r == TicketStatus::Open,
    {
        TicketStatus::Open
    }
}

impl TicketStatus {
    /// The word under which a status is stored.
    pub open spec fn tag(self) -> Seq<char> {
        match self {
            TicketStatus::Open => "open"@,
            TicketStatus::Assigned { .. } => "assigned"@,
            TicketStatus::Closed => "closed"@,
        }
    }

    /// The status that a stored word and the stored assignee stand for. The word is read
    /// without regard to the case of its letters. The word `assigned` needs its
    /// assignee: without one there is no status to rebuild.
    pub open spec fn of_word(word: Seq<char>, assignee: Option<u128>) -> Result<
        TicketStatus,
        TicketError,
    > {
        if spells(word, "open"@) {
            Ok(TicketStatus::Open)
        } else if spells(word, "closed"@) {
            Ok(TicketStatus::Closed)
        } else if spells(word, "assigned"@) {
            match assignee {
                Some(user_id) => Ok(TicketStatus::Assigned { user_id }),
                None => Err(TicketError::InvalidStatus),
            }
        } else {
            Err(TicketError::InvalidStatus)
        }
    }

    /// The status as it is shown: its name, and for `Assigned` the user in the written
    /// form of identifiers.
    pub open spec fn shown(self) -> Seq<char> {
        match self {
            TicketStatus::Open => "Open"@,
            TicketStatus::Assigned { user_id } => "Assigned { user_id: "@ + text_of_uuid(user_id)
                + " }"@,
            TicketStatus::Closed => "Closed"@,
        }
    }

    pub fn to_string(&self) -> (r: String)
        ensures
            r@ == self.shown(),
    {
        match self {
            TicketStatus::Open => "Open".to_owned(),
            TicketStatus::Assigned { user_id } => "Assigned { user_id: ".to_owned().concat(
                print_uuid(*user_id).as_str(),
            ).concat(" }"),
            TicketStatus::Closed => "Closed".to_owned(),
        }
    }

    /// The word under which this status is stored.
    pub fn discriminator(&self) -> (r: &'static str)
        ensures
            r@ == self.tag(),
    {
        match self {
            TicketStatus::Open => "open",
            TicketStatus::Assigned { .. } => "assigned",
            TicketStatus::Closed => "closed",
        }
    }

    /// Rebuilds a status from the two stored columns.
    pub fn from_columns(status: &str, assignee: Option<u128>) -> (r: Result<
        TicketStatus,
        TicketError,
    >)
        ensures
            r == Self::of_word(status@, assignee),
    {
        if spells_word(status, "open") {
            Ok(TicketStatus::Open)
        } else if spells_word(status, "closed") {
            Ok(TicketStatus::Closed)
        } else if spells_word(status, "assigned") {
            match assignee {
                Some(user_id) => Ok(TicketStatus::Assigned { user_id }),
                None => Err(TicketError::InvalidStatus),
            }
        } else {
            Err(TicketError::InvalidStatus)
        }
    }

    /// Reads a status from its word alone. `assigned` is refused here: the word does not
    /// say who the assignee is.
    pub fn from_str(s: &str) -> (r: Result<TicketStatus, TicketError>)
        ensures
            r == Self::of_word(s@, None),
    {
        Self::from_columns(s, None)
    }

    /// Every status is rebuilt from its own word and user.
    pub proof fn lemma_word_round_trip(status: TicketStatus, assignee: Option<u128>)
        requires
            status matches TicketStatus::Assigned { user_id } ==> assignee == Some(user_id),
        ensures
            Self::of_word(status.tag(), assignee) == Ok::<TicketStatus, TicketError>(status),
    {
        reveal_strlit("open");
        reveal_strlit("closed");
        reveal_strlit("assigned");
        assert("open"@.len() == 4);
        assert("closed"@.len() == 6);
        assert("assigned"@.len() == 8);
    }
}

} // verus!
