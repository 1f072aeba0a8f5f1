use crate::domain::tickets::text::trimmed;
use crate::domain::tickets::ticket_description::{
    description_of, description_verdict, is_description, TicketDescription,
};
use crate::domain::tickets::ticket_error::TicketError;
use crate::domain::tickets::ticket_id::{is_random_uuid, TicketId};
use crate::domain::tickets::ticket_status::TicketStatus;
use crate::domain::tickets::ticket_title::{is_title, title_of, title_verdict, TicketTitle};
use vstd::prelude::*;

verus! {

/// A ticket as plain values.
pub struct TicketView {
    pub id: u128,
    pub title: Seq<char>,
    pub description: Seq<char>,
    pub status: TicketStatus,
    pub assignee: Option<u128>,
    pub version: int,
}

impl TicketView {
    /// The rules that every ticket keeps: a valid title and a valid description, both
    /// without white space at their ends, and with status `Assigned` the assignee is
    /// the user that the status names.
    pub open spec fn wf(self) -> bool {
        &&& is_title(self.title)
        &&& is_description(self.description)
        &&& self.status matches TicketStatus::Assigned { user_id } ==> self.assignee == Some(
            user_id,
        )
    }

    pub open spec fn with_status(self, status: TicketStatus) -> TicketView {
        TicketView { status, ..self }
    }

    pub open spec fn with_assignee(self, assignee: Option<u128>) -> TicketView {
        TicketView { assignee, ..self }
    }

    pub open spec fn with_version(self, version: int) -> TicketView {
        TicketView { version, ..self }
    }
}

/// The assignee that goes with a status when a ticket is rebuilt from stored values:
/// the user of `Assigned`, nobody for `Closed`, and for `Open` whoever was stored.
pub open spec fn reconciled_assignee(status: TicketStatus, stored: Option<u128>) -> Option<u128> {
    match status {
        TicketStatus::Open => stored,
        TicketStatus::Assigned { user_id } => Some(user_id),
        TicketStatus::Closed => None,
    }
}

/// What rebuilding a ticket from stored values gives: the title is judged first, then
/// the description; both are kept without the white space at their ends, and the
/// assignee is reconciled with the status.
pub open spec fn reconstructed(
    id: u128,
    title: Seq<char>,
    description: Seq<char>,
    status: TicketStatus,
    assignee: Option<u128>,
    version: int,
) -> Result<TicketView, TicketError> {
    match title_of(title) {
        Err(e) => Err(e),
        Ok(title) => match description_of(description) {
            Err(e) => Err(e),
            Ok(description) => Ok(
                TicketView {
                    id,
                    title,
                    description,
                    status,
                    assignee: reconciled_assignee(status, assignee),
                    version,
                },
            ),
        },
    }
}

/// Status and assignee change together, so they are kept together.
#[derive(Debug, Clone, Copy, PartialEq, Eq)]
struct Assignment {
    status: TicketStatus,
    assignee: Option<u128>,
}

/// The ticket aggregate. Its fields change only through `assign` and `close`.
#[derive(Debug)]
pub struct Ticket {
    id: TicketId,
    title: TicketTitle,
    description: TicketDescription,
    assignment: Assignment,
    version: i64,
}

impl View for Ticket {
    type V = TicketView;

    closed spec fn view(&self) -> TicketView {
        TicketView {
            id: self.id@,
            title: self.title@,
            description: self.description@,
            status: self.assignment.status,
            assignee: self.assignment.assignee,
            version: self.version as int,
        }
    }
}

impl Clone for Ticket {
    fn clone(&self) -> (r: Self)
        ensures
            r@ == self@,
    {
        proof {
            use_type_invariant(self);
        }
        Ticket {
            id: self.id,
            title: self.title.clone(),
            description: self.description.clone(),
            assignment: self.assignment,
            version: self.version,
        }
    }
}

impl Ticket {
    #[verifier::type_invariant]
    pub open spec fn wf(&self) -> bool {
        self@.wf()
    }

    /// Rebuilds a ticket from stored values. Texts that are no valid title or description
    /// are refused with the error that validation gives them.
    pub fn reconstruct(
        id: TicketId,
        title: String,
        description: String,
        status: TicketStatus,
        assignee: Option<u128>,
        version: i64,
    ) -> (r: Result<Self, TicketError>)
        ensures
            match r {
                Ok(t) => reconstructed(id@, title@, description@, status, assignee, version as int)
                    == Ok::<TicketView, TicketError>(t@) && t.wf(),
                Err(e) => reconstructed(id@, title@, description@, status, assignee, version as int)
                    == Err::<TicketView, TicketError>(e),
            },
    {
        let title = match TicketTitle::try_from(title) {
            Ok(t) => t,
            Err(e) => return Err(e),
        };
        let description = match TicketDescription::try_from(description) {
            Ok(d) => d,
            Err(e) => return Err(e),
        };
        let assignee = match status {
            TicketStatus::Open => assignee,
            TicketStatus::Assigned { user_id } => Some(user_id),
            TicketStatus::Closed => None,
        };
        Ok(Self { id, title, description, assignment: Assignment { status, assignee }, version })
    }

    /// A new ticket: a fresh identifier, status `Open`, version 0. The title is judged
    /// first, then the description; both are kept without the white space at their
    /// ends.
    pub fn new(title: String, description: String, assignee: Option<u128>) -> (r: Result<
        Self,
        TicketError,
    >)
        ensures
            match r {
                Ok(t) => {
                    &&& title_verdict(title@) is Ok
                    &&& description_verdict(description@) is Ok
                    &&& t@ == (TicketView {
                        id: t@.id,
                        title: trimmed(title@),
                        description: trimmed(description@),
                        status: TicketStatus::Open,
                        assignee,
                        version: 0,
                    })
                    &&& is_random_uuid(t@.id)
                    &&& t.wf()
                },
                Err(e) => match title_verdict(title@) {
                    Err(title_error) => e == title_error,
                    Ok(()) => description_verdict(description@) == Err::<(), TicketError>(e),
                },
            },
    {
        let id = TicketId::new();
        let title = match TicketTitle::try_from(title) {
            Ok(t) => t,
            Err(e) => return Err(e),
        };
        let description = match TicketDescription::try_from(description) {
            Ok(d) => d,
            Err(e) => return Err(e),
        };
        Ok(
            Self {
                id,
                title,
                description,
                assignment: Assignment { status: TicketStatus::Open, assignee },
                version: 0,
            },
        )
    }

    /// Hands the ticket to `user_id`: the status and the assignee both name that user.
    pub fn assign(&mut self, user_id: u128)
        ensures
            final(self)@ == old(self)@.with_status(TicketStatus::Assigned { user_id }).with_assignee(
                Some(user_id),
            ),
            final(self).wf(),
    {
        proof {
            use_type_invariant(&*self);
        }
        self.assignment = Assignment {
            status: TicketStatus::Assigned { user_id },
            assignee: Some(user_id),
        };
    }

    pub fn assignee(&self) -> (r: Option<u128>)
        ensures
            r == self@.assignee,
    {
        self.assignment.assignee
    }

    /// Closes the ticket; nothing but the status changes.
    pub fn close(&mut self)
        ensures
            final(self)@ == old(self)@.with_status(TicketStatus::Closed),
            final(self).wf(),
    {
        proof {
            use_type_invariant(&*self);
        }
        self.assignment = Assignment {
            status: TicketStatus::Closed,
            assignee: self.assignment.assignee,
        };
    }

    pub fn id(&self) -> (r: TicketId)
        ensures
            r@ == self@.id,
    {
        self.id
    }

    pub fn status(&self) -> (r: TicketStatus)
        ensures
            r == self@.status,
            self.wf(),
    {
        proof {
            use_type_invariant(self);
        }
        self.assignment.status
    }

    pub fn title(&self) -> (r: String)
        ensures
            r@ == self@.title,
    {
        self.title.value().to_owned()
    }

    pub fn description(&self) -> (r: String)
        ensures
            r@ == self@.description,
    {
        self.description.value().to_owned()
    }

    pub fn version(&self) -> (r: i64)
        ensures
            r == self@.version,
    {
        self.version
    }
}

} // verus!
