use crate::error::Error;
use crate::event::{AllowOverlap, EventView};
use crate::model::StoreModel;
use vstd::prelude::*;

verus! {

/// The guarded write that a [`Guard`] watches over.
#[derive(Debug, Clone, Copy, PartialEq, Eq, Structural)]
pub enum Operation {
    Create,
    Update,
}

/// The answer that a [`Guard`] waits for.
#[derive(Debug, Clone, Copy, PartialEq, Eq, Structural)]
pub enum Phase {
    /// Whether the event to update is stored.
    Lookup,
    /// Whether a stored event meets the new range.
    Scan,
    /// Whether the write went through.
    Write,
    /// Nothing: the operation is over.
    Closed,
}

/// What the caller is to do next.
#[derive(Debug, Clone, Copy, PartialEq, Eq, Structural)]
pub enum Action {
    /// Ask the store whether it holds the event's identifier.
    Lookup,
    /// Ask the store whether an event in it meets the new range.
    Scan,
    /// Write: insert the event of a creation, overwrite that of an update.
    Write,
    /// Stop: the write went through.
    Done,
    /// Stop: the operation failed with this error. Unless a write was asked
    /// for before, nothing was written.
    Fail(Error),
}

/// What the store answered to the last [`Action`].
#[derive(Debug, Clone, Copy, PartialEq, Eq, Structural)]
pub enum Reply {
    /// To a lookup: the identifier is stored.
    Found,
    /// To a lookup, or to the write of an update: the identifier is not
    /// stored.
    Missing,
    /// To a scan: a stored event meets the range.
    Overlap,
    /// To a scan: no stored event meets the range.
    Clear,
    /// To a write: it went through.
    Written,
    /// To any action: the store failed.
    Failed,
}

/// The check-then-commit protocol of one guarded write, for a store that is
/// asked one question at a time.
///
/// The caller starts with [`Guard::begin`], carries out each [`Action`] on
/// its store and hands the store's [`Reply`] to [`Guard::step`], until the
/// action is [`Action::Done`] or [`Action::Fail`].
#[derive(Debug, Clone, Copy, PartialEq, Eq, Structural)]
pub struct Guard {
    pub operation: Operation,
    pub policy: AllowOverlap,
    pub phase: Phase,
}

impl Phase {
    /// An upper bound on the replies that the guard still takes before the
    /// operation is over.
    pub open spec fn rank(self) -> nat {
        match self {
            Phase::Lookup => 3,
            Phase::Scan => 2,
            Phase::Write => 1,
            Phase::Closed => 0,
        }
    }
}

impl Action {
    /// The action ends the operation.
    pub open spec fn is_final(self) -> bool {
        self is Done || self is Fail
    }

    /// Decides [`Action::is_final`].
    pub fn ends(&self) -> (r: bool)
        ensures
            r == self.is_final(),
    {
        match self {
            Action::Done => true,
            Action::Fail(_) => true,
            _ => false,
        }
    }
}

impl Guard {
    /// The guard in the given phase, and the action that goes with it.
    pub open spec fn enter(self, phase: Phase) -> (Guard, Action) {
        (
            Guard { operation: self.operation, policy: self.policy, phase },
            match phase {
                Phase::Lookup => Action::Lookup,
                Phase::Scan => Action::Scan,
                Phase::Write => Action::Write,
                Phase::Closed => Action::Done,
            },
        )
    }

    /// The closed guard, and the failure that ended the operation.
    pub open spec fn fail(self, error: Error) -> (Guard, Action) {
        (
            Guard { operation: self.operation, policy: self.policy, phase: Phase::Closed },
            Action::Fail(error),
        )
    }

    /// The phase after the existence check, or after none was needed: the
    /// scan where overlap is not allowed, else the write.
    pub open spec fn check_phase(policy: AllowOverlap) -> Phase {
        match policy {
            AllowOverlap::No => Phase::Scan,
            AllowOverlap::Yes => Phase::Write,
        }
    }

    /// How an operation starts: an update with the lookup of its
    /// identifier; a creation with the scan where overlap is not allowed,
    /// and with the write where it is.
    pub open spec fn first(operation: Operation, policy: AllowOverlap) -> (Guard, Action) {
        let guard = Guard { operation, policy, phase: Phase::Closed };
        match operation {
            Operation::Update => guard.enter(Phase::Lookup),
            Operation::Create => guard.enter(Guard::check_phase(policy)),
        }
    }

    /// How an operation goes on after a reply.
    ///
    /// * After a lookup: `Found` leads to the scan where overlap is not
    ///   allowed and to the write where it is; `Missing` fails with
    ///   `NotFound`.
    /// * After a scan: `Overlap` fails with `Conflict`; `Clear` leads to the
    ///   write.
    /// * After a write: `Written` ends the operation; `Missing` fails an
    ///   update with `NotFound`.
    /// * `Failed` fails with `StoreError` wherever a reply is awaited.
    /// * Any other reply, and any reply once the operation is over, fails
    ///   with `InvalidInput`.
    pub open spec fn next(self, reply: Reply) -> (Guard, Action) {
        match (self.phase, reply) {
            (Phase::Closed, _) => self.fail(Error::InvalidInput),
            (_, Reply::Failed) => self.fail(Error::StoreError),
            (Phase::Lookup, Reply::Found) => self.enter(Guard::check_phase(self.policy)),
            (Phase::Lookup, Reply::Missing) => self.fail(Error::NotFound),
            (Phase::Scan, Reply::Overlap) => self.fail(Error::Conflict),
            (Phase::Scan, Reply::Clear) => self.enter(Phase::Write),
            (Phase::Write, Reply::Written) => self.enter(Phase::Closed),
            (Phase::Write, Reply::Missing) => if self.operation == Operation::Update {
                self.fail(Error::NotFound)
            } else {
                self.fail(Error::InvalidInput)
            },
            _ => self.fail(Error::InvalidInput),
        }
    }

    /// A state that an operation can be in: only an update looks up, and
    /// only an operation that may not overlap scans.
    pub open spec fn consistent(self) -> bool {
        &&& self.phase == Phase::Lookup ==> self.operation == Operation::Update
        &&& self.phase == Phase::Scan ==> self.policy == AllowOverlap::No
    }

    /// Starts an operation and says what to do first.
    pub fn begin(operation: Operation, policy: AllowOverlap) -> (r: (Guard, Action))
        ensures
            r == Guard::first(operation, policy),
    {
        match operation {
            Operation::Update => (Guard { operation, policy, phase: Phase::Lookup }, Action::Lookup),
            Operation::Create => match policy {
                AllowOverlap::No => (Guard { operation, policy, phase: Phase::Scan }, Action::Scan),
                AllowOverlap::Yes => (
                    Guard { operation, policy, phase: Phase::Write },
                    Action::Write,
                ),
            },
        }
    }

    /// Takes the store's reply to the last action and says what to do next.
    pub fn step(self, reply: Reply) -> (r: (Guard, Action))
        ensures
            r == self.next(reply),
    {
        let Guard { operation, policy, phase } = self;
        let closed = Guard { operation, policy, phase: Phase::Closed };
        match phase {
            Phase::Closed => (closed, Action::Fail(Error::InvalidInput)),
            Phase::Lookup => match reply {
                Reply::Found => match policy {
                    AllowOverlap::No => (
                        Guard { operation, policy, phase: Phase::Scan },
                        Action::Scan,
                    ),
                    AllowOverlap::Yes => (
                        Guard { operation, policy, phase: Phase::Write },
                        Action::Write,
                    ),
                },
                Reply::Missing => (closed, Action::Fail(Error::NotFound)),
                Reply::Failed => (closed, Action::Fail(Error::StoreError)),
                _ => (closed, Action::Fail(Error::InvalidInput)),
            },
            Phase::Scan => match reply {
                Reply::Overlap => (closed, Action::Fail(Error::Conflict)),
                Reply::Clear => (Guard { operation, policy, phase: Phase::Write }, Action::Write),
                Reply::Failed => (closed, Action::Fail(Error::StoreError)),
                _ => (closed, Action::Fail(Error::InvalidInput)),
            },
            Phase::Write => match reply {
                Reply::Written => (closed, Action::Done),
                Reply::Failed => (closed, Action::Fail(Error::StoreError)),
                Reply::Missing => match operation {
                    Operation::Update => (closed, Action::Fail(Error::NotFound)),
                    Operation::Create => (closed, Action::Fail(Error::InvalidInput)),
                },
                _ => (closed, Action::Fail(Error::InvalidInput)),
            },
        }
    }
}

/// What a store answers to an action of the guard, and the store after it
/// did. Only a write changes the store: it inserts the event's fields for a
/// creation and overwrites the event for an update.
pub open spec fn answer(s: StoreModel, operation: Operation, action: Action, event: EventView) -> (
    StoreModel,
    Reply,
) {
    match action {
        Action::Lookup => (
            s,
            if s.has_id(event.id) {
                Reply::Found
            } else {
                Reply::Missing
            },
        ),
        Action::Scan => (
            s,
            if s.overlaps(event.range()) {
                Reply::Overlap
            } else {
                Reply::Clear
            },
        ),
        Action::Write => match operation {
            Operation::Create => (
                s.insert(event.fields()).0,
                if s.insert(event.fields()).1.is_ok() {
                    Reply::Written
                } else {
                    Reply::Failed
                },
            ),
            Operation::Update => (
                s.patch(event).0,
                if s.patch(event).1.is_ok() {
                    Reply::Written
                } else {
                    Reply::Missing
                },
            ),
        },
        _ => (s, Reply::Failed),
    }
}

/// The store and the action after the guard was driven against the store for
/// at most `rounds` replies, each action answered by [`answer`].
pub open spec fn drive(
    guard: Guard,
    action: Action,
    s: StoreModel,
    event: EventView,
    rounds: nat,
) -> (StoreModel, Action)
    decreases rounds,
{
    if rounds == 0 || action.is_final() {
        (s, action)
    } else {
        let (after, reply) = answer(s, guard.operation, action, event);
        let (then, action) = guard.next(reply);
        drive(then, action, after, event, (rounds - 1) as nat)
    }
}

/// The action that reports a result: `Done` for success, `Fail` with the
/// error otherwise.
pub open spec fn report<T>(result: Result<T, Error>) -> Action {
    match result {
        Ok(_) => Action::Done,
        Err(error) => Action::Fail(error),
    }
}

/// Each reply brings the operation nearer to its end: a guard that is not
/// closed moves to a phase of lower rank, and is closed exactly when the
/// action it gives is final.
pub proof fn lemma_step_descends(guard: Guard, reply: Reply)
    ensures
        guard.phase != Phase::Closed ==> guard.next(reply).0.phase.rank() < guard.phase.rank(),
        guard.next(reply).1.is_final() <==> guard.next(reply).0.phase == Phase::Closed,
        guard.next(reply).0.operation == guard.operation,
        guard.next(reply).0.policy == guard.policy,
{
}

/// A consistent state is followed by consistent states only, and every
/// operation starts in one.
pub proof fn lemma_consistent(
    operation: Operation,
    policy: AllowOverlap,
    guard: Guard,
    reply: Reply,
)
    ensures
        Guard::first(operation, policy).0.consistent(),
        guard.consistent() ==> guard.next(reply).0.consistent(),
{
}

/// The guard asks for a write only where the policy lets it: never after a
/// scan that found an overlap, and never after a lookup that found nothing.
pub proof fn lemma_no_write_after_refusal(guard: Guard)
    ensures
        guard.next(Reply::Overlap).1 != Action::Write,
        guard.next(Reply::Missing).1 != Action::Write,
        guard.next(Reply::Failed).1 != Action::Write,
{
}

/// Where overlap is allowed, no operation scans and none fails with
/// `Conflict`, whatever the store replies.
pub proof fn lemma_allowed_overlap_skips_scan(operation: Operation, guard: Guard, reply: Reply)
    requires
        guard.consistent(),
        guard.policy == AllowOverlap::Yes,
    ensures
        Guard::first(operation, AllowOverlap::Yes).1 != Action::Scan,
        guard.next(reply).1 != Action::Scan,
        guard.next(reply).1 != Action::Fail(Error::Conflict),
{
}

/// Once the operation is over, every further reply is turned away with
/// `InvalidInput`.
pub proof fn lemma_closed_stays_closed(guard: Guard, reply: Reply)
    requires
        guard.phase == Phase::Closed,
    ensures
        guard.next(reply) == (guard, Action::Fail(Error::InvalidInput)),
{
}

/// A creation driven through the guard does to a store what
/// [`StoreModel::create`] says, and ends with the report of its result.
pub proof fn lemma_driven_create(s: StoreModel, event: EventView, policy: AllowOverlap)
    ensures
        ({
            let (guard, action) = Guard::first(Operation::Create, policy);
            let (after, result) = s.create(event.fields(), policy);
            drive(guard, action, s, event, 3) == (after, report(result))
        }),
{
    reveal_with_fuel(drive, 4);
}

/// An update driven through the guard does to a store what
/// [`StoreModel::update`] says, and ends with the report of its result.
pub proof fn lemma_driven_update(s: StoreModel, event: EventView, policy: AllowOverlap)
    ensures
        ({
            let (guard, action) = Guard::first(Operation::Update, policy);
            let (after, result) = s.update(event, policy);
            drive(guard, action, s, event, 3) == (after, report(result))
        }),
{
    reveal_with_fuel(drive, 4);
}

} // verus!
