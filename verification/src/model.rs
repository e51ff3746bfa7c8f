//! The supervisor as a state machine.
//!
//! [`Supervision`] is what a supervisor knows at any instant; its
//! [`transition`](Supervision::transition) says what the supervisor does with
//! an event: which state it moves to and which action it hands out. The
//! executable supervisor is proved to follow this machine step for step.

use crate::command::MountCommand;
use crate::listing::marks_defunct;
use crate::protocol::{
    Action, Event, Goal, Plan, Platform, Section, Stage, Task, WARM_UP_SECONDS,
};
use crate::record::FieldChange;
use crate::status::ProcessState;
use vstd::prelude::*;

verus! {

/// The state of one vault's supervisor.
pub struct Supervision<H> {
    /// The vault this supervisor is for.
    pub id: u32,
    /// Which fallbacks the platform offers.
    pub platform: Platform,
    /// The handle of the vault's live process: present while the vault is
    /// unlocked.
    pub child: Option<H>,
    /// The operation in flight, if any.
    pub task: Option<Task<H>>,
}

/// One step of the machine: the state it reaches and the action it takes.
pub type Step<H> = (Supervision<H>, Action<H>);

impl<H> Supervision<H> {
    /// A supervisor that was just made: idle, with no process.
    pub open spec fn fresh(id: u32, platform: Platform) -> Self {
        Supervision { id, platform, child: None, task: None }
    }

    /// No operation is in flight.
    pub open spec fn is_idle(self) -> bool {
        self.task is None
    }

    /// A live process is tracked.
    pub open spec fn is_unlocked(self) -> bool {
        self.child is Some
    }

    /// `event` reports on the work the supervisor is waiting for.
    pub open spec fn awaits(self, event: Event<H>) -> bool {
        self.task matches Some(task) && task.stage.answered_by(event)
    }

    /// The store's exclusive access is held on the supervisor's behalf.
    pub open spec fn holds_store(self) -> bool {
        self.task matches Some(task) && task.stage.holds_store()
    }

    /// An upper bound on the number of answers the supervisor still needs
    /// before it is idle: zero for an idle supervisor.
    pub open spec fn steps_left(self) -> nat {
        match self.task {
            Some(task) => task.steps_left(),
            None => 0,
        }
    }

    /// Every process handle the supervisor holds: the tracked child, and a
    /// spawned process still on probation.
    pub open spec fn handles(self) -> Seq<H> {
        let owned = match self.child {
            Some(handle) => seq![handle],
            None => Seq::empty(),
        };
        let on_probation = match self.task {
            Some(task) => match task.stage.probationer() {
                Some(handle) => seq![handle],
                None => Seq::empty(),
            },
            None => Seq::empty(),
        };
        owned + on_probation
    }

    /// While an unlock section has not accepted its process, no child is
    /// tracked.
    pub open spec fn well_formed(self) -> bool {
        self.task matches Some(task) && task.stage.before_acceptance() ==> self.child is None
    }

    /// Goes on with `plan` at `stage`, handing out `action`.
    pub open spec fn enter(self, plan: Plan, stage: Stage<H>, action: Action<H>) -> Step<H> {
        (Supervision { task: Some(Task { plan, stage }), ..self }, action)
    }

    /// Ends the operation: the supervisor is idle again and reports success,
    /// or the failure kind of what was asked for.
    pub open spec fn finish(self, plan: Plan, ok: bool) -> Step<H> {
        (
            Supervision { task: None, ..self },
            Action::Done(
                if ok {
                    Ok(())
                } else {
                    Err(plan.goal.failure())
                },
            ),
        )
    }

    /// Ends `section` by giving the store back.
    pub open spec fn release(self, plan: Plan, section: Section, ok: bool) -> Step<H> {
        self.enter(plan, Stage::Releasing { section, ok }, Action::ReleaseStore)
    }

    /// Begins a lock section.
    pub open spec fn begin_lock(self, plan: Plan) -> Step<H> {
        self.enter(plan, Stage::AcquiringForLock, Action::AcquireStore)
    }

    /// Begins a write section that persists `change`.
    pub open spec fn begin_write(self, plan: Plan, change: FieldChange) -> Step<H> {
        self.enter(plan, Stage::AcquiringForWrite(change), Action::AcquireStore)
    }

    /// Begins an unlock section, unless a process is tracked already: then
    /// there is nothing to do and the operation ends well at once.
    pub open spec fn begin_unlock(self, plan: Plan) -> Step<H> {
        if self.child is Some {
            self.finish(plan, true)
        } else {
            self.enter(plan, Stage::OpeningLogs, Action::OpenLogs)
        }
    }

    /// Accepts a spawned process as the vault's child and goes on to flag the
    /// vault as unlocked.
    pub open spec fn accept(self, plan: Plan, handle: H) -> Step<H> {
        Supervision { child: Some(handle), ..self }.enter(plan,
            Stage::WritingUnlocked,
            Action::UpdateRecord(FieldChange::Locked(false)),
        )
    }

    /// What follows once the store is given back at the end of `section`.
    ///
    /// A failed section ends the operation. After a lock section that went
    /// well, a pending field change is persisted; after a write section, the
    /// process is started again if the vault was unlocked before.
    pub open spec fn proceed(self, plan: Plan, section: Section, ok: bool) -> Step<H> {
        if !ok {
            self.finish(plan, false)
        } else {
            match section {
                Section::Lock => match plan.pending {
                    Some(change) => self.begin_write(Plan { pending: None, ..plan }, change),
                    None => self.finish(plan, true),
                },
                Section::Write => if plan.restart {
                    self.begin_unlock(plan)
                } else {
                    self.finish(plan, true)
                },
                Section::Unlock => self.finish(plan, true),
            }
        }
    }

    /// What a process on probation is judged to be once the process table
    /// has answered.
    ///
    /// A process the table does not know is given up. A dead, zombie or
    /// stopped process is defunct: where the platform has a kill utility it
    /// is killed for cleanup, and either way the unlock fails. Any other
    /// process is accepted, but where the platform has a listing utility
    /// only after the listing has been consulted as well.
    pub open spec fn judge(self, plan: Plan, handle: H, pid: u32, state: ProcessState) -> Step<
        H,
    > {
        if state is NotFound {
            self.release(plan, Section::Unlock, false)
        } else if state.defunct() {
            if self.platform is Posix {
                self.enter(plan, Stage::Killing, Action::ForceKill(pid))
            } else {
                self.release(plan, Section::Unlock, false)
            }
        } else if self.platform is Posix {
            self.enter(plan, Stage::Listing { handle, pid }, Action::ListProcess(pid))
        } else {
            self.accept(plan, handle)
        }
    }

    /// The step the supervisor takes on `event`.
    ///
    /// Meant for an event the supervisor waits for. In a stage whose work
    /// can fail, every event other than the report of success counts as
    /// failure.
    pub open spec fn transition(self, event: Event<H>) -> Step<H>
        recommends
            self.awaits(event),
    {
        match self.task {
            None => (self, Action::Done(Ok(()))),
            Some(Task { plan, stage }) => match stage {
                Stage::AcquiringForLock => self.enter(plan,
                    Stage::WritingLocked,
                    Action::UpdateRecord(FieldChange::Locked(true)),
                ),
                Stage::WritingLocked => if event != Event::<H>::RecordUpdated(true) {
                    self.release(plan, Section::Lock, false)
                } else {
                    match self.child {
                        None => self.release(plan, Section::Lock, true),
                        Some(handle) => Supervision { child: None, ..self }.enter(plan,
                            Stage::Terminating,
                            Action::Terminate(handle),
                        ),
                    }
                },
                Stage::Terminating => if event != Event::<H>::Terminated(true) {
                    self.release(plan, Section::Lock, false)
                } else if self.platform is Posix {
                    self.enter(plan, Stage::ReadingMount, Action::ReadRecord)
                } else {
                    self.release(plan, Section::Lock, true)
                },
                Stage::ReadingMount => match event {
                    Event::RecordRead(Some(record)) => self.enter(plan,
                        Stage::Unmounting,
                        Action::ForceUnmount(record.mount_point),
                    ),
                    _ => self.release(plan, Section::Lock, false),
                },
                Stage::Unmounting => self.release(plan,
                    Section::Lock,
                    event == Event::<H>::Unmounted(true),
                ),
                Stage::AcquiringForWrite(change) => self.enter(plan,
                    Stage::WritingField,
                    Action::UpdateRecord(change),
                ),
                Stage::WritingField => self.release(plan,
                    Section::Write,
                    event == Event::<H>::RecordUpdated(true),
                ),
                Stage::OpeningLogs => self.enter(plan,
                    Stage::AcquiringForUnlock,
                    Action::AcquireStore,
                ),
                Stage::AcquiringForUnlock => self.enter(plan,
                    Stage::ReadingRecord,
                    Action::ReadRecord,
                ),
                Stage::ReadingRecord => match event {
                    Event::RecordRead(Some(record)) => self.enter(plan,
                        Stage::Spawning,
                        Action::Spawn(
                            MountCommand {
                                mount_point: record.mount_point,
                                data_dir: record.data_dir,
                            },
                        ),
                    ),
                    _ => self.release(plan, Section::Unlock, false),
                },
                Stage::Spawning => match event {
                    Event::Spawned(Some(spawned)) => self.enter(plan,
                        Stage::Warming(spawned),
                        Action::WarmUp(WARM_UP_SECONDS),
                    ),
                    _ => self.release(plan, Section::Unlock, false),
                },
                Stage::Warming(spawned) => match spawned.pid {
                    Some(pid) => self.enter(plan,
                        Stage::Probing { handle: spawned.handle, pid },
                        Action::Probe(pid),
                    ),
                    None => self.release(plan, Section::Unlock, false),
                },
                Stage::Probing { handle, pid } => match event {
                    Event::Probed(state) => self.judge(plan, handle, pid, state),
                    _ => self.release(plan, Section::Unlock, false),
                },
                Stage::Listing { handle, pid } => match event {
                    Event::Listed(output) => if marks_defunct(output@) {
                        self.enter(plan, Stage::Killing, Action::ForceKill(pid))
                    } else {
                        self.accept(plan, handle)
                    },
                    _ => self.release(plan, Section::Unlock, false),
                },
                Stage::Killing => self.release(plan, Section::Unlock, false),
                Stage::WritingUnlocked => self.release(plan,
                    Section::Unlock,
                    event == Event::<H>::RecordUpdated(true),
                ),
                Stage::Releasing { section, ok } => self.proceed(plan, section, ok),
            },
        }
    }

    /// The first step of a lock operation.
    pub open spec fn start_lock(self) -> Step<H> {
        self.begin_lock(Plan { goal: Goal::Lock, pending: None, restart: false })
    }

    /// The first step of an unlock operation.
    pub open spec fn start_unlock(self) -> Step<H> {
        self.begin_unlock(Plan { goal: Goal::Unlock, pending: None, restart: false })
    }

    /// The first step of changing a field, on behalf of `goal`.
    ///
    /// An unlocked vault is locked first, with the change pending and a
    /// restart due. A locked vault goes straight to the write section.
    pub open spec fn start_change(self, goal: Goal, change: FieldChange) -> Step<H> {
        if self.child is Some {
            self.begin_lock(Plan { goal, pending: Some(change), restart: true })
        } else {
            self.begin_write(Plan { goal, pending: None, restart: false }, change)
        }
    }
}

} // verus!
