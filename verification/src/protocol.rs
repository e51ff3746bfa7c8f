//! The vocabulary in which a supervisor and its driver talk.
//!
//! The supervisor decides; the driver acts. Each [`Action`] other than
//! [`Action::Done`] names one piece of outside work and is answered by exactly
//! one [`Event`] carrying its outcome. [`Stage`] records which answer the
//! supervisor is waiting for.

use crate::command::MountCommand;
use crate::error::VaultHandlerError;
use crate::record::{FieldChange, VaultRecord};
use crate::status::ProcessState;
use vstd::prelude::*;

verus! {

/// How long a freshly spawned mounting process is left alone before its
/// health is checked, in seconds.
pub const WARM_UP_SECONDS: u64 = 8;

/// Whether the platform offers the external utilities the supervisor falls
/// back on: an unmount command, a process listing and a kill command.
#[derive(Debug, Clone, Copy, PartialEq, Eq, Structural)]
pub enum Platform {
    /// POSIX-like: a termination signal alone is not trusted to release a
    /// mount, and the utilities are there to make up for it.
    Posix,
    /// No such utilities: the supervisor relies on signals and on the process
    /// table alone.
    Other,
}

/// The operation a caller asked for. It decides which error kind a failure
/// is reported as, whatever step of the operation failed.
#[derive(Debug, Clone, Copy, PartialEq, Eq, Structural)]
pub enum Goal {
    Lock,
    Unlock,
    ChangeMountPoint,
    ChangeDataDir,
}

impl Goal {
    /// The error kind under which a failure of this operation is reported.
    pub open spec fn failure(self) -> VaultHandlerError {
        match self {
            Goal::Lock => VaultHandlerError::CannotLockVault,
            Goal::Unlock => VaultHandlerError::CannotUnlockVault,
            Goal::ChangeMountPoint => VaultHandlerError::CannotChangeMountPoint,
            Goal::ChangeDataDir => VaultHandlerError::CannotChangeDataDir,
        }
    }

    /// Gives the error kind under which a failure of this operation is
    /// reported.
    pub fn error(&self) -> (kind: VaultHandlerError)
        ensures
            kind == self.failure(),
    {
        match self {
            Goal::Lock => VaultHandlerError::CannotLockVault,
            Goal::Unlock => VaultHandlerError::CannotUnlockVault,
            Goal::ChangeMountPoint => VaultHandlerError::CannotChangeMountPoint,
            Goal::ChangeDataDir => VaultHandlerError::CannotChangeDataDir,
        }
    }
}

/// One stretch of an operation during which the store's exclusive access is
/// held. A lock or an unlock is one section; changing a field of an unlocked
/// vault is three, one after the other.
#[derive(Debug, Clone, Copy, PartialEq, Eq, Structural)]
pub enum Section {
    /// Flag the vault as locked and stop its process.
    Lock,
    /// Persist a new mount point or data directory.
    Write,
    /// Start a process and flag the vault as unlocked.
    Unlock,
}

/// A process that was just spawned: the handle that owns it, and the id
/// under which the operating system knows it, if it has one.
#[derive(Debug, PartialEq, Eq)]
pub struct Spawned<H> {
    pub handle: H,
    pub pid: Option<u32>,
}

/// Outside work the supervisor asks its driver to do.
#[derive(Debug, PartialEq, Eq)]
pub enum Action<H> {
    /// Wait for the store's exclusive access and take it.
    AcquireStore,
    /// Give the store's exclusive access back.
    ReleaseStore,
    /// Apply a field-level update to the vault's record.
    UpdateRecord(FieldChange),
    /// Read the vault's record.
    ReadRecord,
    /// Open, creating them if absent, the vault's two log files for
    /// appending.
    OpenLogs,
    /// Spawn the mounting executable, its output going to the log files.
    Spawn(MountCommand),
    /// Wait for this many seconds.
    WarmUp(u64),
    /// Ask the process table about a process id.
    Probe(u32),
    /// Run the listing utility for a process id and capture what it prints.
    ListProcess(u32),
    /// Run the kill utility against a process id.
    ForceKill(u32),
    /// Ask the process behind the handle to terminate. The handle leaves the
    /// supervisor for good.
    Terminate(H),
    /// Run the unmount utility against a path.
    ForceUnmount(String),
    /// The operation is over, with this result. No answer is expected.
    Done(Result<(), VaultHandlerError>),
}

/// The outcome of outside work, as the driver reports it.
#[derive(Debug, PartialEq, Eq)]
pub enum Event<H> {
    /// The store's exclusive access is now held.
    StoreAcquired,
    /// The store's exclusive access was given back.
    StoreReleased,
    /// The record update went through (`true`) or failed.
    RecordUpdated(bool),
    /// The record as read, or `None` if reading failed.
    RecordRead(Option<VaultRecord>),
    /// Both log files are open.
    LogsOpened,
    /// The spawned process, or `None` if spawning failed.
    Spawned(Option<Spawned<H>>),
    /// The warm-up interval has passed.
    WarmedUp,
    /// What the process table says about the process.
    Probed(ProcessState),
    /// What the listing utility printed.
    Listed(Vec<u8>),
    /// The kill utility has run.
    Killed,
    /// Termination succeeded (`true`) or failed.
    Terminated(bool),
    /// The unmount utility ran (`true`) or could not be run.
    Unmounted(bool),
}

impl<H> Event<H> {
    /// The event reports that outside work failed: a record could not be
    /// written or read, a process could not be spawned or terminated, or
    /// the unmount utility could not be run.
    pub open spec fn reports_failure(self) -> bool {
        match self {
            Event::RecordUpdated(ok) => !ok,
            Event::RecordRead(record) => record is None,
            Event::Spawned(spawned) => spawned is None,
            Event::Terminated(ok) => !ok,
            Event::Unmounted(ok) => !ok,
            _ => false,
        }
    }
}

/// Where an operation stands: which outside work is outstanding.
#[derive(Debug, PartialEq, Eq)]
pub enum Stage<H> {
    /// Lock section: waiting for the store.
    AcquiringForLock,
    /// Lock section: writing `locked = true`.
    WritingLocked,
    /// Lock section: the tracked process was asked to terminate.
    Terminating,
    /// Lock section: reading the record for the path to unmount.
    ReadingMount,
    /// Lock section: the unmount utility is running.
    Unmounting,
    /// Write section: waiting for the store, with the change to persist.
    AcquiringForWrite(FieldChange),
    /// Write section: writing the new field value.
    WritingField,
    /// Unlock section: opening the log files, before the store is taken.
    OpeningLogs,
    /// Unlock section: waiting for the store.
    AcquiringForUnlock,
    /// Unlock section: reading the record for what to mount where.
    ReadingRecord,
    /// Unlock section: the mounting executable is being spawned.
    Spawning,
    /// Unlock section: the spawned process is warming up.
    Warming(Spawned<H>),
    /// Unlock section: the process table is being asked about the process.
    Probing { handle: H, pid: u32 },
    /// Unlock section: the listing utility is running for the process.
    Listing { handle: H, pid: u32 },
    /// Unlock section: the kill utility is running for a defunct process.
    Killing,
    /// Unlock section: the process was accepted; writing `locked = false`.
    WritingUnlocked,
    /// The store is being given back at the end of `section`, which went
    /// well (`ok`) or failed.
    Releasing { section: Section, ok: bool },
}

impl<H> Stage<H> {
    /// `event` reports on the work that is outstanding in this stage.
    pub open spec fn answered_by(self, event: Event<H>) -> bool {
        match self {
            Stage::AcquiringForLock | Stage::AcquiringForWrite(_) | Stage::AcquiringForUnlock => {
                event is StoreAcquired
            },
            Stage::WritingLocked | Stage::WritingField | Stage::WritingUnlocked => {
                event is RecordUpdated
            },
            Stage::ReadingMount | Stage::ReadingRecord => event is RecordRead,
            Stage::Terminating => event is Terminated,
            Stage::Unmounting => event is Unmounted,
            Stage::OpeningLogs => event is LogsOpened,
            Stage::Spawning => event is Spawned,
            Stage::Warming(_) => event is WarmedUp,
            Stage::Probing { .. } => event is Probed,
            Stage::Listing { .. } => event is Listed,
            Stage::Killing => event is Killed,
            Stage::Releasing { .. } => event is StoreReleased,
        }
    }

    /// The store's exclusive access is held throughout this stage.
    pub open spec fn holds_store(self) -> bool {
        match self {
            Stage::AcquiringForLock
            | Stage::AcquiringForWrite(_)
            | Stage::AcquiringForUnlock
            | Stage::OpeningLogs
            | Stage::Releasing { .. } => false,
            _ => true,
        }
    }

    /// The stage belongs to an unlock section that has not yet accepted a
    /// process as the vault's child.
    pub open spec fn before_acceptance(self) -> bool {
        match self {
            Stage::OpeningLogs
            | Stage::AcquiringForUnlock
            | Stage::ReadingRecord
            | Stage::Spawning
            | Stage::Warming(_)
            | Stage::Probing { .. }
            | Stage::Listing { .. }
            | Stage::Killing => true,
            _ => false,
        }
    }

    /// The handle of a spawned process that is still on probation, if the
    /// stage holds one.
    pub open spec fn probationer(self) -> Option<H> {
        match self {
            Stage::Warming(spawned) => Some(spawned.handle),
            Stage::Probing { handle, .. } => Some(handle),
            Stage::Listing { handle, .. } => Some(handle),
            _ => None,
        }
    }
}

/// What an operation still owes beyond the section it is in.
#[derive(Debug, PartialEq, Eq)]
pub struct Plan {
    /// What the caller asked for.
    pub goal: Goal,
    /// A field change that waits for the lock section to end.
    pub pending: Option<FieldChange>,
    /// The vault was unlocked when a field change began, so its process is
    /// started again once the change is persisted.
    pub restart: bool,
}

impl Plan {
    /// How many answers the operation may still need once a write section
    /// has gone well: none, or those of the unlock section that restarts
    /// the process.
    pub open spec fn after_write(self) -> nat {
        if self.restart {
            10
        } else {
            0
        }
    }

    /// How many answers the operation may still need once a lock section
    /// has gone well: none, or those of the write section for the pending
    /// change and of what follows it.
    pub open spec fn after_lock(self) -> nat {
        if self.pending is Some {
            3 + self.after_write()
        } else {
            0
        }
    }

    /// How many answers the operation may still need once `section` has
    /// given the store back, having gone well or not.
    pub open spec fn after_section(self, section: Section, ok: bool) -> nat {
        if !ok {
            0
        } else {
            match section {
                Section::Lock => self.after_lock(),
                Section::Write => self.after_write(),
                Section::Unlock => 0,
            }
        }
    }
}

/// An operation in flight.
#[derive(Debug, PartialEq, Eq)]
pub struct Task<H> {
    /// What remains to be done.
    pub plan: Plan,
    /// The outstanding work.
    pub stage: Stage<H>,
}

impl<H> Task<H> {
    /// An upper bound on the number of answers the operation still needs
    /// before it is over.
    pub open spec fn steps_left(self) -> nat {
        match self.stage {
            Stage::AcquiringForLock => 6 + self.plan.after_lock(),
            Stage::WritingLocked => 5 + self.plan.after_lock(),
            Stage::Terminating => 4 + self.plan.after_lock(),
            Stage::ReadingMount => 3 + self.plan.after_lock(),
            Stage::Unmounting => 2 + self.plan.after_lock(),
            Stage::AcquiringForWrite(_) => 3 + self.plan.after_write(),
            Stage::WritingField => 2 + self.plan.after_write(),
            Stage::OpeningLogs => 10,
            Stage::AcquiringForUnlock => 9,
            Stage::ReadingRecord => 8,
            Stage::Spawning => 7,
            Stage::Warming(_) => 6,
            Stage::Probing { .. } => 5,
            Stage::Listing { .. } => 4,
            Stage::Killing => 2,
            Stage::WritingUnlocked => 2,
            Stage::Releasing { section, ok } => 1 + self.plan.after_section(section, ok),
        }
    }
}

} // verus!
