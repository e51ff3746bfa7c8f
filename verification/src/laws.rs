//! What holds of every supervisor at every step, proved of the machine it
//! follows.
//!
//! [`VaultHandler`](crate::handler::VaultHandler) moves exactly as
//! [`Supervision`] does, so each statement here is a statement about every
//! executable supervisor, whatever its driver reports.

use crate::error::VaultHandlerError;
use crate::model::{Step, Supervision};
use crate::protocol::{Action, Event, Goal, Platform};
use crate::record::FieldChange;
use vstd::prelude::*;

verus! {

/// Beginning an operation leaves the supervisor well formed, whatever state
/// it was in, and so is a supervisor that was just made.
pub proof fn lemma_start_is_well_formed<H>(s: Supervision<H>, goal: Goal, change: FieldChange)
    ensures
        s.start_lock().0.well_formed(),
        s.start_unlock().0.well_formed(),
        s.start_change(goal, change).0.well_formed(),
        Supervision::<H>::fresh(s.id, s.platform).well_formed(),
{
}

/// No step takes a well-formed supervisor to one that is not.
pub proof fn lemma_transition_keeps_well_formed<H>(s: Supervision<H>, event: Event<H>)
    requires
        s.well_formed(),
    ensures
        s.transition(event).0.well_formed(),
{
}

/// A well-formed supervisor holds at most one process handle, counting both
/// the child it tracks and a spawned process it has not accepted yet.
///
/// Together with the two lemmas above: however lock, unlock and field
/// changes follow one another on a vault, and whatever their outside work
/// reports, at no instant is more than one live process handle held for it.
pub proof fn lemma_at_most_one_handle<H>(s: Supervision<H>)
    requires
        s.well_formed(),
    ensures
        s.handles().len() <= 1,
        s.child is Some ==> s.handles() == seq![s.child->0],
{
}

/// A process is only ever spawned by a supervisor that holds no handle.
pub proof fn lemma_spawn_only_with_empty_hands<H>(s: Supervision<H>, event: Event<H>)
    requires
        s.well_formed(),
        s.transition(event).1 is Spawn,
    ensures
        s.handles().len() == 0,
        s.transition(event).0.handles().len() == 0,
{
}

/// The only handle a step can add to those a supervisor holds is the one a
/// spawn just reported, and the handle that a termination request carries
/// is the tracked child, which leaves the supervisor with that step.
pub proof fn lemma_handles_are_conserved<H>(s: Supervision<H>, event: Event<H>, handle: H)
    requires
        s.well_formed(),
        s.awaits(event),
    ensures
        s.transition(event).0.handles().contains(handle) ==> s.handles().contains(handle) || (
        event matches Event::Spawned(Some(spawned)) && spawned.handle == handle),
        s.transition(event).1 == Action::Terminate(handle) ==> s.child == Some(handle)
            && s.transition(event).0.handles().len() == 0,
{
    let next = s.transition(event).0;
    if next.handles().contains(handle) {
        let at = choose|at: int| 0 <= at < next.handles().len() && next.handles()[at] == handle;
        assert(next.handles()[at] == handle);
        if s.child == Some(handle) {
            assert(s.handles()[0] == handle);
        } else if s.task is Some && s.task->0.stage.probationer() == Some(handle) {
            assert(s.handles()[0] == handle);
        }
    }
}

/// The store's exclusive access is taken and given back in step with the
/// actions that ask for it.
///
/// The record is only read or written while the access is held; the access
/// starts being held exactly on the report that it was acquired, and stops
/// being held exactly with the request to release it; and an operation
/// ends exactly when the supervisor falls idle, which it never does while
/// the access is held.
pub proof fn lemma_store_discipline<H>(s: Supervision<H>, event: Event<H>)
    requires
        s.awaits(event),
    ensures
        ({
            let (next, action) = s.transition(event);
            &&& action is UpdateRecord || action is ReadRecord ==> next.holds_store()
            &&& !s.holds_store() && next.holds_store() <==> event is StoreAcquired
            &&& s.holds_store() && !next.holds_store() <==> action is ReleaseStore
            &&& action is AcquireStore ==> !s.holds_store() && !next.holds_store()
            &&& action is Done <==> next.is_idle()
            &&& next.is_idle() ==> !s.holds_store() && !next.holds_store()
        }),
{
}

/// Every reported failure fails the operation: all that is still asked
/// for is to give the store back, and then the error kind of the
/// operation is reported. The child is left as it was when the failure
/// came in.
pub proof fn lemma_reported_failure_fails_the_operation<H>(s: Supervision<H>, event: Event<H>)
    requires
        s.awaits(event),
        event.reports_failure(),
    ensures
        ({
            let failed = s.transition(event);
            let ended = failed.0.transition(Event::StoreReleased);
            &&& failed.1 == Action::<H>::ReleaseStore
            &&& failed.0.awaits(Event::StoreReleased)
            &&& ended.1 == Action::<H>::Done(Err(s.task->0.plan.goal.failure()))
            &&& ended.0 == Supervision { task: None, ..s }
        }),
{
}

/// Whatever step of an operation fails, the failure is reported as the
/// error kind of the operation that was asked for.
pub proof fn lemma_failure_kind_is_the_goal<H>(
    s: Supervision<H>,
    event: Event<H>,
    kind: VaultHandlerError,
)
    requires
        s.awaits(event),
        s.transition(event).1 == Action::<H>::Done(Err(kind)),
    ensures
        kind == s.task->0.plan.goal.failure(),
{
}

/// Every answer brings an operation nearer to its end, and no operation
/// needs more than nineteen: six to lock, three to write and ten to unlock.
/// A driver that answers every action therefore reaches `Done`.
pub proof fn lemma_every_answer_nears_the_end<H>(
    s: Supervision<H>,
    event: Event<H>,
    goal: Goal,
    change: FieldChange,
)
    ensures
        s.awaits(event) ==> s.transition(event).0.steps_left() < s.steps_left(),
        s.is_idle() <==> s.steps_left() == 0,
        s.start_lock().0.steps_left() <= 6,
        s.start_unlock().0.steps_left() <= 10,
        s.start_change(goal, change).0.steps_left() <= 19,
{
}

/// Something that happens to a supervisor: a caller begins an operation,
/// or the driver reports an outcome.
pub ghost enum Occurrence<H> {
    Lock,
    Unlock,
    ChangeMountPoint(String),
    ChangeDataDir(String),
    Report(Event<H>),
}

impl<H> Supervision<H> {
    /// The step the supervisor takes when `occurrence` happens.
    pub open spec fn react(self, occurrence: Occurrence<H>) -> Step<H> {
        match occurrence {
            Occurrence::Lock => self.start_lock(),
            Occurrence::Unlock => self.start_unlock(),
            Occurrence::ChangeMountPoint(path) => self.start_change(
                Goal::ChangeMountPoint,
                FieldChange::MountPoint(path),
            ),
            Occurrence::ChangeDataDir(path) => self.start_change(
                Goal::ChangeDataDir,
                FieldChange::DataDir(path),
            ),
            Occurrence::Report(event) => self.transition(event),
        }
    }

    /// The state the supervisor is in after all of `occurrences` have
    /// happened to it, in order.
    pub open spec fn after(self, occurrences: Seq<Occurrence<H>>) -> Supervision<H>
        decreases occurrences.len(),
    {
        if occurrences.len() == 0 {
            self
        } else {
            self.after(occurrences.drop_last()).react(occurrences.last()).0
        }
    }
}

/// Whatever happens to a supervisor from the moment it is made, in whatever
/// order and with whatever outcomes, it never holds more than one process
/// handle, it never spawns a process while it holds one, and it keeps the
/// vault and platform it was made for.
pub proof fn lemma_one_handle_whatever_happens<H>(
    id: u32,
    platform: Platform,
    occurrences: Seq<Occurrence<H>>,
)
    ensures
        ({
            let s = Supervision::<H>::fresh(id, platform).after(occurrences);
            &&& s.well_formed()
            &&& s.handles().len() <= 1
            &&& s.id == id
            &&& s.platform == platform
            &&& forall|next: Occurrence<H>| #[trigger] s.react(next).1 is Spawn ==> s.handles().len() == 0
        }),
    decreases occurrences.len(),
{
    if occurrences.len() > 0 {
        lemma_one_handle_whatever_happens::<H>(id, platform, occurrences.drop_last());
    }
}

} // verus!
