//! The executable supervisor.

use crate::command::MountCommand;
use crate::listing::reports_defunct;
use crate::model::Supervision;
use crate::protocol::{
    Action, Event, Goal, Plan, Platform, Section, Stage, Task, WARM_UP_SECONDS,
};
use crate::record::FieldChange;
use crate::status::ProcessState;
use vstd::prelude::*;

verus! {

/// The supervisor of one vault.
///
/// It owns at most one handle of type `H` to a live mounting process, and at
/// most one operation is in flight at a time. It does no outside work
/// itself. [`lock`](Self::lock), [`unlock`](Self::unlock),
/// [`change_mount_point`](Self::change_mount_point) and
/// [`change_data_dir`](Self::change_data_dir) each begin an operation and return
/// the first [`Action`] to carry out; [`advance`](Self::advance) takes the
/// outcome of that action and returns the next one, until the action is
/// [`Action::Done`].
///
/// From the answer to [`Action::AcquireStore`] up to the next
/// [`Action::ReleaseStore`] the driver holds the store's exclusive access
/// for this supervisor. An unlock keeps it through the spawn, the warm-up
/// and the health check, so that what it read and what it writes belong to
/// one critical section; with one store shared by all vaults, every other
/// vault's operation waits that long.
pub struct VaultHandler<H> {
    id: u32,
    platform: Platform,
    child: Option<H>,
    task: Option<Task<H>>,
}

impl<H> View for VaultHandler<H> {
    type V = Supervision<H>;

    closed spec fn view(&self) -> Supervision<H> {
        Supervision { id: self.id, platform: self.platform, child: self.child, task: self.task }
    }
}

impl<H> VaultHandler<H> {
    /// Every supervisor is well formed at every instant, so that it never
    /// holds more than one process handle.
    #[verifier::type_invariant]
    spec fn sound(self) -> bool {
        self@.well_formed()
    }

    /// Makes the supervisor of the vault `id`: idle, with no process.
    pub fn new(id: u32, platform: Platform) -> (handler: Self)
        ensures
            handler@ == Supervision::<H>::fresh(id, platform),
            handler@.well_formed(),
    {
        VaultHandler { id, platform, child: None, task: None }
    }

    /// The vault this supervisor is for.
    pub fn id(&self) -> (id: u32)
        ensures
            id == self@.id,
    {
        self.id
    }

    /// Which fallbacks the supervisor may ask for.
    pub fn platform(&self) -> (platform: Platform)
        ensures
            platform == self@.platform,
    {
        self.platform
    }

    /// Whether a live process is tracked.
    pub fn is_unlocked(&self) -> (unlocked: bool)
        ensures
            unlocked == self@.is_unlocked(),
    {
        self.child.is_some()
    }

    /// Whether no operation is in flight.
    pub fn is_idle(&self) -> (idle: bool)
        ensures
            idle == self@.is_idle(),
    {
        self.task.is_none()
    }

    /// Whether the store's exclusive access is held on this supervisor's
    /// behalf.
    pub fn holds_store(&self) -> (held: bool)
        ensures
            held == self@.holds_store(),
    {
        match &self.task {
            None => false,
            Some(task) => match &task.stage {
                Stage::AcquiringForLock
                | Stage::AcquiringForWrite(_)
                | Stage::AcquiringForUnlock
                | Stage::OpeningLogs
                | Stage::Releasing { .. } => false,
                _ => true,
            },
        }
    }

    /// Whether `event` reports on the work this supervisor waits for, so
    /// that [`advance`](Self::advance) may be called with it.
    pub fn accepts(&self, event: &Event<H>) -> (accepted: bool)
        ensures
            accepted == self@.awaits(*event),
    {
        match &self.task {
            None => false,
            Some(task) => match &task.stage {
                Stage::AcquiringForLock
                | Stage::AcquiringForWrite(_)
                | Stage::AcquiringForUnlock => matches!(event, Event::StoreAcquired),
                Stage::WritingLocked | Stage::WritingField | Stage::WritingUnlocked => matches!(
                    event,
                    Event::RecordUpdated(_)
                ),
                Stage::ReadingMount | Stage::ReadingRecord => matches!(event, Event::RecordRead(_)),
                Stage::Terminating => matches!(event, Event::Terminated(_)),
                Stage::Unmounting => matches!(event, Event::Unmounted(_)),
                Stage::OpeningLogs => matches!(event, Event::LogsOpened),
                Stage::Spawning => matches!(event, Event::Spawned(_)),
                Stage::Warming(_) => matches!(event, Event::WarmedUp),
                Stage::Probing { .. } => matches!(event, Event::Probed(_)),
                Stage::Listing { .. } => matches!(event, Event::Listed(_)),
                Stage::Killing => matches!(event, Event::Killed),
                Stage::Releasing { .. } => matches!(event, Event::StoreReleased),
            },
        }
    }

    /// Takes the operation in flight out of the supervisor, which is idle
    /// until it is put back.
    fn take_task(&mut self) -> (task: Option<Task<H>>)
        ensures
            task == old(self)@.task,
            final(self)@ == (Supervision { task: None, ..old(self)@ }),
    {
        let mut task: Option<Task<H>> = None;
        core::mem::swap(&mut self.task, &mut task);
        task
    }

    /// Takes the tracked child out of the supervisor.
    fn take_child(&mut self) -> (child: Option<H>)
        ensures
            child == old(self)@.child,
            final(self)@ == (Supervision { child: None, ..old(self)@ }),
    {
        let mut child: Option<H> = None;
        core::mem::swap(&mut self.child, &mut child);
        child
    }

    /// Goes on with `plan` at `stage`, handing out `action`.
    fn enter(&mut self, plan: Plan, stage: Stage<H>, action: Action<H>) -> (next: Action<H>)
        requires
            stage.before_acceptance() ==> old(self)@.child is None,
        ensures
            (final(self)@, next) == old(self)@.enter(plan, stage, action),
    {
        self.task = Some(Task { plan, stage });
        action
    }

    /// Ends the operation with success or with the failure kind of its goal.
    fn finish(&mut self, plan: Plan, ok: bool) -> (next: Action<H>)
        ensures
            (final(self)@, next) == old(self)@.finish(plan, ok),
    {
        self.task = None;
        if ok {
            Action::Done(Ok(()))
        } else {
            Action::Done(Err(plan.goal.error()))
        }
    }

    /// Ends `section` by giving the store back.
    fn release(&mut self, plan: Plan, section: Section, ok: bool) -> (next: Action<H>)
        ensures
            (final(self)@, next) == old(self)@.release(plan, section, ok),
    {
        self.enter(plan, Stage::Releasing { section, ok }, Action::ReleaseStore)
    }

    /// Begins a lock section.
    fn begin_lock(&mut self, plan: Plan) -> (next: Action<H>)
        ensures
            (final(self)@, next) == old(self)@.begin_lock(plan),
    {
        self.enter(plan, Stage::AcquiringForLock, Action::AcquireStore)
    }

    /// Begins a write section that persists `change`.
    fn begin_write(&mut self, plan: Plan, change: FieldChange) -> (next: Action<H>)
        ensures
            (final(self)@, next) == old(self)@.begin_write(plan, change),
    {
        self.enter(plan, Stage::AcquiringForWrite(change), Action::AcquireStore)
    }

    /// Begins an unlock section, or ends the operation at once if a process
    /// is tracked already.
    fn begin_unlock(&mut self, plan: Plan) -> (next: Action<H>)
        ensures
            (final(self)@, next) == old(self)@.begin_unlock(plan),
    {
        if self.child.is_some() {
            self.finish(plan, true)
        } else {
            self.enter(plan, Stage::OpeningLogs, Action::OpenLogs)
        }
    }

    /// Accepts a spawned process as the vault's child and goes on to flag the
    /// vault as unlocked.
    fn accept(&mut self, plan: Plan, handle: H) -> (next: Action<H>)
        requires
            old(self)@.task is None,
        ensures
            (final(self)@, next) == old(self)@.accept(plan, handle),
    {
        self.child = Some(handle);
        self.enter(plan, Stage::WritingUnlocked, Action::UpdateRecord(FieldChange::Locked(false)))
    }

    /// Decides what follows once the store is given back at the end of
    /// `section`.
    fn proceed(&mut self, plan: Plan, section: Section, ok: bool) -> (next: Action<H>)
        ensures
            (final(self)@, next) == old(self)@.proceed(plan, section, ok),
    {
        if !ok {
            return self.finish(plan, false);
        }
        match section {
            Section::Lock => {
                let Plan { goal, pending, restart } = plan;
                match pending {
                    Some(change) => self.begin_write(Plan { goal, pending: None, restart }, change),
                    None => self.finish(Plan { goal, pending: None, restart }, true),
                }
            },
            Section::Write => if plan.restart {
                self.begin_unlock(plan)
            } else {
                self.finish(plan, true)
            },
            Section::Unlock => self.finish(plan, true),
        }
    }

    /// Judges a process on probation by what the process table says of it.
    fn judge(&mut self, plan: Plan, handle: H, pid: u32, state: ProcessState) -> (next: Action<H>)
        requires
            old(self)@.task is None,
            old(self)@.child is None,
        ensures
            (final(self)@, next) == old(self)@.judge(plan, handle, pid, state),
    {
        if matches!(state, ProcessState::NotFound) {
            self.release(plan, Section::Unlock, false)
        } else if state.is_defunct() {
            match self.platform {
                Platform::Posix => self.enter(plan, Stage::Killing, Action::ForceKill(pid)),
                Platform::Other => self.release(plan, Section::Unlock, false),
            }
        } else {
            match self.platform {
                Platform::Posix => self.enter(
                    plan,
                    Stage::Listing { handle, pid },
                    Action::ListProcess(pid),
                ),
                Platform::Other => self.accept(plan, handle),
            }
        }
    }

    /// Begins locking the vault.
    ///
    /// The vault is flagged as locked whether or not a process is tracked;
    /// only then is a tracked process asked to terminate and, on a
    /// POSIX-like platform, its mount point unmounted. An operation that was
    /// left unfinished is abandoned.
    pub fn lock(&mut self) -> (action: Action<H>)
        ensures
            (final(self)@, action) == old(self)@.start_lock(),
            final(self)@.well_formed(),
    {
        let action = self.begin_lock(Plan { goal: Goal::Lock, pending: None, restart: false });
        proof {
            use_type_invariant(&*self);
        }
        action
    }

    /// Begins unlocking the vault.
    ///
    /// If a process is tracked already the operation is over at once: the
    /// action is `Done(Ok(()))`, nothing is spawned, probed or written, and
    /// the supervisor is idle with the same child. Otherwise the log files
    /// are opened, the record is read, and the mounting executable is
    /// spawned, left to warm up and checked; a record that cannot be read
    /// fails the unlock as `CannotUnlockVault`, like every other failure on
    /// the way. An operation that was left unfinished is abandoned.
    pub fn unlock(&mut self) -> (action: Action<H>)
        ensures
            (final(self)@, action) == old(self)@.start_unlock(),
            old(self)@.is_unlocked() ==> action == Action::<H>::Done(Ok(())) && final(self)@ == (
            Supervision { task: None, ..old(self)@ }),
            !old(self)@.is_unlocked() ==> action == Action::<H>::OpenLogs,
            final(self)@.well_formed(),
    {
        let action = self.begin_unlock(Plan { goal: Goal::Unlock, pending: None, restart: false });
        proof {
            use_type_invariant(&*self);
        }
        action
    }

    /// Begins moving the vault to the mount point `mount_point`.
    ///
    /// An unlocked vault is locked first and unlocked again once the new
    /// value is persisted; a failure anywhere on the way is reported as
    /// `CannotChangeMountPoint`. Nothing is rolled back.
    pub fn change_mount_point(&mut self, mount_point: String) -> (action: Action<H>)
        ensures
            (final(self)@, action) == old(self)@.start_change(
                Goal::ChangeMountPoint,
                FieldChange::MountPoint(mount_point),
            ),
            final(self)@.well_formed(),
    {
        self.begin_change(Goal::ChangeMountPoint, FieldChange::MountPoint(mount_point))
    }

    /// Begins moving the vault to the data directory `data_dir`.
    ///
    /// An unlocked vault is locked first and unlocked again once the new
    /// value is persisted; a failure anywhere on the way is reported as
    /// `CannotChangeDataDir`. Nothing is rolled back.
    pub fn change_data_dir(&mut self, data_dir: String) -> (action: Action<H>)
        ensures
            (final(self)@, action) == old(self)@.start_change(
                Goal::ChangeDataDir,
                FieldChange::DataDir(data_dir),
            ),
            final(self)@.well_formed(),
    {
        self.begin_change(Goal::ChangeDataDir, FieldChange::DataDir(data_dir))
    }

    /// Begins changing a field: through a lock section if the vault is
    /// unlocked, with the write section otherwise.
    fn begin_change(&mut self, goal: Goal, change: FieldChange) -> (next: Action<H>)
        ensures
            (final(self)@, next) == old(self)@.start_change(goal, change),
            final(self)@.well_formed(),
    {
        let next = if self.child.is_some() {
            self.begin_lock(Plan { goal, pending: Some(change), restart: true })
        } else {
            self.begin_write(Plan { goal, pending: None, restart: false }, change)
        };
        proof {
            use_type_invariant(&*self);
        }
        next
    }

    /// Takes the outcome of the outstanding work and decides what to do
    /// next.
    ///
    /// The supervisor moves exactly as
    /// [`Supervision::transition`] says, and the action it returns is the one
    /// named there. `event` has to answer the outstanding action;
    /// [`accepts`](Self::accepts) tells whether it does.
    pub fn advance(&mut self, event: Event<H>) -> (action: Action<H>)
        requires
            old(self)@.awaits(event),
        ensures
            (final(self)@, action) == old(self)@.transition(event),
            final(self)@.well_formed(),
    {
        proof {
            use_type_invariant(&*self);
        }
        let Task { plan, stage } = self.take_task().unwrap();
        let action = match stage {
            Stage::AcquiringForLock => self.enter(
                plan,
                Stage::WritingLocked,
                Action::UpdateRecord(FieldChange::Locked(true)),
            ),
            Stage::WritingLocked => match event {
                Event::RecordUpdated(true) => match self.take_child() {
                    None => self.release(plan, Section::Lock, true),
                    Some(handle) => self.enter(plan, Stage::Terminating, Action::Terminate(handle)),
                },
                _ => self.release(plan, Section::Lock, false),
            },
            Stage::Terminating => match event {
                Event::Terminated(true) => match self.platform {
                    Platform::Posix => self.enter(plan, Stage::ReadingMount, Action::ReadRecord),
                    Platform::Other => self.release(plan, Section::Lock, true),
                },
                _ => self.release(plan, Section::Lock, false),
            },
            Stage::ReadingMount => match event {
                Event::RecordRead(Some(record)) => self.enter(
                    plan,
                    Stage::Unmounting,
                    Action::ForceUnmount(record.mount_point),
                ),
                _ => self.release(plan, Section::Lock, false),
            },
            Stage::Unmounting => match event {
                Event::Unmounted(true) => self.release(plan, Section::Lock, true),
                _ => self.release(plan, Section::Lock, false),
            },
            Stage::AcquiringForWrite(change) => self.enter(
                plan,
                Stage::WritingField,
                Action::UpdateRecord(change),
            ),
            Stage::WritingField => match event {
                Event::RecordUpdated(true) => self.release(plan, Section::Write, true),
                _ => self.release(plan, Section::Write, false),
            },
            Stage::OpeningLogs => self.enter(plan, Stage::AcquiringForUnlock, Action::AcquireStore),
            Stage::AcquiringForUnlock => self.enter(plan, Stage::ReadingRecord, Action::ReadRecord),
            Stage::ReadingRecord => match event {
                Event::RecordRead(Some(record)) => self.enter(
                    plan,
                    Stage::Spawning,
                    Action::Spawn(
                        MountCommand { mount_point: record.mount_point, data_dir: record.data_dir },
                    ),
                ),
                _ => self.release(plan, Section::Unlock, false),
            },
            Stage::Spawning => match event {
                Event::Spawned(Some(spawned)) => self.enter(
                    plan,
                    Stage::Warming(spawned),
                    Action::WarmUp(WARM_UP_SECONDS),
                ),
                _ => self.release(plan, Section::Unlock, false),
            },
            Stage::Warming(spawned) => match spawned.pid {
                Some(pid) => self.enter(
                    plan,
                    Stage::Probing { handle: spawned.handle, pid },
                    Action::Probe(pid),
                ),
                None => self.release(plan, Section::Unlock, false),
            },
            Stage::Probing { handle, pid } => match event {
                Event::Probed(state) => self.judge(plan, handle, pid, state),
                _ => self.release(plan, Section::Unlock, false),
            },
            Stage::Listing { handle, pid } => match event {
                Event::Listed(output) => if reports_defunct(output.as_slice()) {
                    self.enter(plan, Stage::Killing, Action::ForceKill(pid))
                } else {
                    self.accept(plan, handle)
                },
                _ => self.release(plan, Section::Unlock, false),
            },
            Stage::Killing => self.release(plan, Section::Unlock, false),
            Stage::WritingUnlocked => match event {
                Event::RecordUpdated(true) => self.release(plan, Section::Unlock, true),
                _ => self.release(plan, Section::Unlock, false),
            },
            Stage::Releasing { section, ok } => self.proceed(plan, section, ok),
        };
        proof {
            use_type_invariant(&*self);
        }
        action
    }

    /// Takes `event` if it answers the outstanding action, and hands it
    /// back untouched if it does not.
    ///
    /// This is [`advance`](Self::advance) for a caller that cannot show what
    /// the supervisor waits for: an event that is not awaited comes back as
    /// `Err`, with whatever handle it carries, and the supervisor stays as
    /// it was.
    pub fn try_advance(&mut self, event: Event<H>) -> (outcome: Result<Action<H>, Event<H>>)
        ensures
            old(self)@.awaits(event) ==> (final(self)@, outcome) == (
                old(self)@.transition(event).0,
                Ok::<Action<H>, Event<H>>(old(self)@.transition(event).1),
            ),
            !old(self)@.awaits(event) ==> (final(self)@, outcome) == (
                old(self)@,
                Err::<Action<H>, Event<H>>(event),
            ),
            final(self)@.well_formed(),
    {
        proof {
            use_type_invariant(&*self);
        }
        if self.accepts(&event) {
            Ok(self.advance(event))
        } else {
            Err(event)
        }
    }
}

} // verus!
