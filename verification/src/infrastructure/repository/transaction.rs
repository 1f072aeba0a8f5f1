use crate::domain::error::{DomainError, DomainErrorView};
use vstd::prelude::*;

verus! {

/// Where one run of the executor stands.
pub enum Phase<T> {
    /// Nothing was asked of the backend yet.
    Idle,
    /// A transaction was asked for.
    Beginning,
    /// The transaction is open and the procedure runs.
    Running,
    /// The procedure succeeded with this value, and the commit was asked for.
    Committing(T),
    /// The rollback was asked for; this error goes to the caller afterwards.
    RollingBack(DomainError),
    /// The run is over.
    Finished,
}

/// What the driver reports back to the executor.
pub enum Event<T> {
    /// The caller asks for a run.
    Requested,
    Began,
    BeginFailed(String),
    /// The procedure returned a value. `sole_owner` says whether the unit of work is
    /// the only holder of the transaction handle.
    Succeeded { value: T, sole_owner: bool },
    /// The procedure returned an error.
    Failed(DomainError),
    Committed,
    CommitFailed(String),
    RolledBack,
}

/// What the driver has to do next.
pub enum Action<T> {
    Begin,
    RunProcedure,
    Commit,
    Rollback,
    /// End the run and hand this to the caller.
    Return(Result<T, DomainError>),
}

impl<T> Action<T> {
    /// What a `Return` hands to the caller.
    pub fn into_result(self) -> (r: Result<T, DomainError>)
        requires
            self is Return,
        ensures
            self == Action::Return(r),
    {
        match self {
            Action::Return(result) => result,
            _ => vstd::pervasive::unreached(),
        }
    }
}

/// The message of the error for a transaction handle that something else still holds.
pub open spec fn leak_message() -> Seq<char> {
    "Transaction reference leak"@
}

/// The message of the error for an event that does not fit the phase.
pub open spec fn protocol_message() -> Seq<char> {
    "Transaction protocol violated"@
}

/// The executor's rule, as a relation between where it stood, what was reported, where
/// it stands now and what it asks for.
///
/// A run begins a transaction and runs the procedure. A value from the procedure is
/// committed, and returned once the commit went through; if something else still holds
/// the transaction handle, the run is rolled back instead. An error from the procedure
/// is never committed: the run is rolled back, and the error goes to the caller
/// unchanged. A begin or a commit that fails ends the run with an `Infrastructure`
/// error that keeps the backend's message. An event that the phase does not wait for
/// ends the run too, after a rollback where a transaction is open.
pub open spec fn follows<T>(phase: Phase<T>, event: Event<T>, next: Phase<T>, action: Action<T>) -> bool {
    match (phase, event) {
        (Phase::Idle, Event::Requested) => next is Beginning && action is Begin,
        (Phase::Beginning, Event::Began) => next is Running && action is RunProcedure,
        (Phase::Beginning, Event::BeginFailed(message)) => next is Finished && action
            == Action::Return(Err::<T, DomainError>(DomainError::Infrastructure(message))),
        (Phase::Running, Event::Succeeded { value, sole_owner }) => if sole_owner {
            next == Phase::Committing(value) && action is Commit
        } else {
            &&& next matches Phase::RollingBack(e)
            &&& e@ == DomainErrorView::Infrastructure(leak_message())
            &&& action is Rollback
        },
        (Phase::Running, Event::Failed(e)) => next == Phase::<T>::RollingBack(e) && action
            is Rollback,
        (Phase::Committing(value), Event::Committed) => next is Finished && action
            == Action::Return(Ok::<T, DomainError>(value)),
        (Phase::Committing(_), Event::CommitFailed(message)) => next is Finished && action
            == Action::Return(Err::<T, DomainError>(DomainError::Infrastructure(message))),
        (Phase::RollingBack(e), Event::RolledBack) => next is Finished && action
            == Action::Return(Err::<T, DomainError>(e)),
        _ => if phase is Running || phase is Committing {
            &&& next matches Phase::RollingBack(e)
            &&& e@ == DomainErrorView::Infrastructure(protocol_message())
            &&& action is Rollback
        } else {
            &&& next is Finished
            &&& action matches Action::Return(Err(e))
            &&& e@ == DomainErrorView::Infrastructure(protocol_message())
        },
    }
}

/// One step of the executor: from the phase and the reported event to the next phase
/// and the action that the driver performs.
pub fn step<T>(phase: Phase<T>, event: Event<T>) -> (r: (Phase<T>, Action<T>))
    ensures
        follows(phase, event, r.0, r.1),
{
    match (phase, event) {
        (Phase::Idle, Event::Requested) => (Phase::Beginning, Action::Begin),
        (Phase::Beginning, Event::Began) => (Phase::Running, Action::RunProcedure),
        (Phase::Beginning, Event::BeginFailed(message)) => (
            Phase::Finished,
            Action::Return(Err(DomainError::Infrastructure(message))),
        ),
        (Phase::Running, Event::Succeeded { value, sole_owner }) => {
            if sole_owner {
                (Phase::Committing(value), Action::Commit)
            } else {
                (
                    Phase::RollingBack(
                        DomainError::Infrastructure("Transaction reference leak".to_owned()),
                    ),
                    Action::Rollback,
                )
            }
        },
        (Phase::Running, Event::Failed(e)) => (Phase::RollingBack(e), Action::Rollback),
        (Phase::Committing(value), Event::Committed) => (
            Phase::Finished,
            Action::Return(Ok(value)),
        ),
        (Phase::Committing(_), Event::CommitFailed(message)) => (
            Phase::Finished,
            Action::Return(Err(DomainError::Infrastructure(message))),
        ),
        (Phase::RollingBack(e), Event::RolledBack) => (Phase::Finished, Action::Return(Err(e))),
        (Phase::Running, _) | (Phase::Committing(_), _) => (
            Phase::RollingBack(
                DomainError::Infrastructure("Transaction protocol violated".to_owned()),
            ),
            Action::Rollback,
        ),
        _ => (
            Phase::Finished,
            Action::Return(
                Err(DomainError::Infrastructure("Transaction protocol violated".to_owned())),
            ),
        ),
    }
}

/// A commit is asked for only in answer to a procedure that succeeded while the unit
/// of work was the only holder of the transaction handle.
pub proof fn lemma_commit_needs_success<T>(
    phase: Phase<T>,
    event: Event<T>,
    next: Phase<T>,
    action: Action<T>,
)
    requires
        follows(phase, event, next, action),
        action is Commit,
    ensures
        phase is Running,
        event matches Event::Succeeded { value, sole_owner } && sole_owner && next
            == Phase::Committing(value),
{
}

/// The executor waits for a commit only after it asked for one, and so only with the
/// value of a procedure that succeeded.
pub proof fn lemma_committing_needs_success<T>(
    phase: Phase<T>,
    event: Event<T>,
    next: Phase<T>,
    action: Action<T>,
)
    requires
        follows(phase, event, next, action),
        next is Committing,
    ensures
        action is Commit,
        phase is Running,
        event matches Event::Succeeded { value, sole_owner } && sole_owner && next
            == Phase::Committing(value),
{
}

/// A value reaches the caller only once its commit went through, and it is the value
/// that the procedure returned.
pub proof fn lemma_value_needs_commit<T>(
    phase: Phase<T>,
    event: Event<T>,
    next: Phase<T>,
    action: Action<T>,
)
    requires
        follows(phase, event, next, action),
        action matches Action::Return(Ok(_)),
    ensures
        event is Committed,
        phase matches Phase::Committing(value) && action == Action::Return(
            Ok::<T, DomainError>(value),
        ),
{
}

/// The error of a procedure is rolled back and then handed to the caller unchanged.
pub proof fn lemma_failure_is_rolled_back<T>(
    e: DomainError,
    next: Phase<T>,
    action: Action<T>,
    last: Phase<T>,
    answer: Action<T>,
)
    requires
        follows(Phase::Running, Event::Failed(e), next, action),
        follows(next, Event::RolledBack, last, answer),
    ensures
        action is Rollback,
        answer == Action::Return(Err::<T, DomainError>(e)),
        last is Finished,
{
}

/// A run that is over asks for nothing more of the backend.
pub proof fn lemma_finished_stays_finished<T>(
    event: Event<T>,
    next: Phase<T>,
    action: Action<T>,
)
    requires
        follows(Phase::Finished, event, next, action),
    ensures
        next is Finished,
        action matches Action::Return(Err(_)),
{
}

} // verus!
