//! Whole operations, followed from their first action to their last.
//!
//! A [`Run`] collects the actions a supervisor hands out while it is fed one
//! event after the other. Each lemma here fixes what the outside work
//! reports and states the exact actions that follow and the state the
//! supervisor ends in.

use crate::command::MountCommand;
use crate::error::VaultHandlerError;
use crate::listing::marks_defunct;
use crate::model::{Step, Supervision};
use crate::protocol::{
    Action, Event, Goal, Plan, Platform, Spawned, Stage, Task, WARM_UP_SECONDS,
};
use crate::record::{FieldChange, VaultRecord};
use crate::status::ProcessState;
use vstd::prelude::*;

verus! {

/// A supervisor's state together with the actions it has handed out since
/// an operation began, oldest first.
pub ghost struct Run<H> {
    pub state: Supervision<H>,
    pub actions: Seq<Action<H>>,
}

impl<H> Run<H> {
    /// The run that consists of the first step of an operation.
    pub open spec fn begin(step: Step<H>) -> Run<H> {
        Run { state: step.0, actions: seq![step.1] }
    }

    /// The run extended by the supervisor's step on `event`.
    pub open spec fn on(self, event: Event<H>) -> Run<H> {
        let step = self.state.transition(event);
        Run { state: step.0, actions: self.actions.push(step.1) }
    }

    /// The run extended by a lock section in which everything goes well:
    /// the flag is written, the process terminates, and on a POSIX-like
    /// platform `mounted` is read and its mount point unmounted.
    pub open spec fn locking(self, mounted: VaultRecord) -> Run<H> {
        let stopped = self.on(Event::StoreAcquired).on(Event::RecordUpdated(true)).on(
            Event::Terminated(true),
        );
        if self.state.platform is Posix {
            stopped.on(Event::RecordRead(Some(mounted))).on(Event::Unmounted(true)).on(
                Event::StoreReleased,
            )
        } else {
            stopped.on(Event::StoreReleased)
        }
    }

    /// The run extended by a write section in which the write goes through.
    pub open spec fn writing(self) -> Run<H> {
        self.on(Event::StoreAcquired).on(Event::RecordUpdated(true)).on(Event::StoreReleased)
    }

    /// The run extended by an unlock section up to the answer of the
    /// process table: `record` is read, a process is spawned as `handle`
    /// with the id `pid`, and after the warm-up the table reports `state`.
    pub open spec fn probing(self, record: VaultRecord, handle: H, pid: u32, state: ProcessState)
        -> Run<H> {
        self.on(Event::LogsOpened).on(Event::StoreAcquired).on(Event::RecordRead(Some(record))).on(
            Event::Spawned(Some(Spawned { handle, pid: Some(pid) })),
        ).on(Event::WarmedUp).on(Event::Probed(state))
    }

    /// The run extended by the rest of an unlock section for a process
    /// found running: on a POSIX-like platform the listing prints `output`,
    /// and the write of the flag goes through.
    pub open spec fn accepting(self, output: Vec<u8>) -> Run<H> {
        if self.state.platform is Posix {
            self.on(Event::Listed(output)).on(Event::RecordUpdated(true)).on(Event::StoreReleased)
        } else {
            self.on(Event::RecordUpdated(true)).on(Event::StoreReleased)
        }
    }

    /// The run extended by the rest of an unlock section for a process
    /// that is to be rejected: on a POSIX-like platform the kill utility
    /// runs, and the store is given back.
    pub open spec fn rejecting(self) -> Run<H> {
        if self.state.platform is Posix {
            self.on(Event::Killed).on(Event::StoreReleased)
        } else {
            self.on(Event::StoreReleased)
        }
    }
}

/// What a lock section asks for when everything goes well, for a vault
/// whose process is held as `child`.
pub open spec fn lock_actions<H>(platform: Platform, child: H, mounted: VaultRecord) -> Seq<
    Action<H>,
> {
    let stop = seq![
        Action::AcquireStore,
        Action::UpdateRecord(FieldChange::Locked(true)),
        Action::Terminate(child),
    ];
    if platform is Posix {
        stop + seq![
            Action::ReadRecord,
            Action::ForceUnmount(mounted.mount_point),
            Action::ReleaseStore,
        ]
    } else {
        stop + seq![Action::ReleaseStore]
    }
}

/// What a write section asks for.
pub open spec fn write_actions<H>(change: FieldChange) -> Seq<Action<H>> {
    seq![Action::AcquireStore, Action::UpdateRecord(change), Action::ReleaseStore]
}

/// What an unlock section asks for up to its question to the process
/// table.
pub open spec fn probe_actions<H>(record: VaultRecord, pid: u32) -> Seq<Action<H>> {
    seq![
        Action::OpenLogs,
        Action::AcquireStore,
        Action::ReadRecord,
        Action::Spawn(MountCommand { mount_point: record.mount_point, data_dir: record.data_dir }),
        Action::WarmUp(WARM_UP_SECONDS),
        Action::Probe(pid),
    ]
}

/// What the rest of an unlock section asks for when the process is found
/// running.
pub open spec fn accept_actions<H>(platform: Platform, pid: u32) -> Seq<Action<H>> {
    let flag = seq![Action::UpdateRecord(FieldChange::Locked(false)), Action::ReleaseStore];
    if platform is Posix {
        seq![Action::ListProcess(pid)] + flag
    } else {
        flag
    }
}

/// What the rest of an unlock section asks for when the process table
/// reports the process as defunct.
pub open spec fn reject_actions<H>(platform: Platform, pid: u32) -> Seq<Action<H>> {
    if platform is Posix {
        seq![Action::ForceKill(pid), Action::ReleaseStore]
    } else {
        seq![Action::ReleaseStore]
    }
}

/// Unlocking a vault whose process is tracked is over at once, with
/// success and with the same child: no store access, no spawn, no health
/// check.
pub proof fn lemma_unlock_while_unlocked<H>(s: Supervision<H>)
    requires
        s.child is Some,
    ensures
        s.start_unlock() == (Supervision { task: None, ..s }, Action::<H>::Done(Ok(()))),
{
}

/// Locking a vault with no tracked process writes `locked = true` and ends
/// well, with no termination and no unmount.
pub proof fn lemma_lock_while_locked<H>(s: Supervision<H>)
    requires
        s.child is None,
    ensures
        ({
            let run = Run::begin(s.start_lock()).on(Event::StoreAcquired).on(
                Event::RecordUpdated(true),
            ).on(Event::StoreReleased);
            &&& run.actions == seq![
                Action::<H>::AcquireStore,
                Action::UpdateRecord(FieldChange::Locked(true)),
                Action::ReleaseStore,
                Action::Done(Ok(())),
            ]
            &&& run.state == Supervision { task: None, ..s }
        }),
{
}

/// If writing `locked = true` fails, the lock fails with `CannotLockVault`
/// and the child, tracked or not, is left as it was: no termination is
/// asked for.
pub proof fn lemma_lock_write_failure_spares_child<H>(s: Supervision<H>)
    ensures
        ({
            let run = Run::begin(s.start_lock()).on(Event::StoreAcquired).on(
                Event::RecordUpdated(false),
            ).on(Event::StoreReleased);
            &&& run.actions == seq![
                Action::<H>::AcquireStore,
                Action::UpdateRecord(FieldChange::Locked(true)),
                Action::ReleaseStore,
                Action::Done(Err(VaultHandlerError::CannotLockVault)),
            ]
            &&& run.state == Supervision { task: None, ..s }
        }),
{
}

/// Locking a vault whose process is tracked, when everything goes well:
/// flag, terminate, and on a POSIX-like platform unmount the record's mount
/// point. The handle leaves with the termination request.
pub proof fn lemma_lock_while_unlocked<H>(s: Supervision<H>, child: H, mounted: VaultRecord)
    requires
        s.child == Some(child),
    ensures
        ({
            let run = Run::begin(s.start_lock()).locking(mounted);
            &&& run.actions == lock_actions(s.platform, child, mounted) + seq![Action::Done(Ok(()))]
            &&& run.state == Supervision { child: None, task: None, ..s }
        }),
{
}

/// A spawned process that the process table reports as dead, zombie or
/// stopped makes the unlock fail with `CannotUnlockVault` and leaves no
/// handle behind. On a POSIX-like platform the process is killed first.
pub proof fn lemma_defunct_process_is_rejected<H>(
    s: Supervision<H>,
    record: VaultRecord,
    handle: H,
    pid: u32,
    state: ProcessState,
)
    requires
        s.child is None,
        state.defunct(),
    ensures
        ({
            let run = Run::begin(s.start_unlock()).probing(record, handle, pid, state).rejecting();
            &&& run.actions == probe_actions::<H>(record, pid) + reject_actions::<H>(
                s.platform,
                pid,
            ) + seq![Action::Done(Err(VaultHandlerError::CannotUnlockVault))]
            &&& run.actions.contains(Action::ForceKill(pid)) <==> s.platform is Posix
            &&& run.state == Supervision { task: None, ..s }
            &&& run.state.handles().len() == 0
        }),
{
    let run = Run::begin(s.start_unlock()).probing(record, handle, pid, state).rejecting();
    if s.platform is Posix {
        assert(run.actions[6] == Action::<H>::ForceKill(pid));
    }
}

/// A spawned process that the process table reports as running, but that
/// the listing marks as defunct, is killed and rejected just the same.
pub proof fn lemma_listed_defunct_is_rejected<H>(
    s: Supervision<H>,
    record: VaultRecord,
    handle: H,
    pid: u32,
    output: Vec<u8>,
)
    requires
        s.child is None,
        s.platform is Posix,
        marks_defunct(output@),
    ensures
        ({
            let run = Run::begin(s.start_unlock()).probing(
                record,
                handle,
                pid,
                ProcessState::Running,
            ).on(Event::Listed(output)).rejecting();
            &&& run.actions == probe_actions::<H>(record, pid) + seq![
                Action::ListProcess(pid),
                Action::ForceKill(pid),
                Action::ReleaseStore,
                Action::Done(Err(VaultHandlerError::CannotUnlockVault)),
            ]
            &&& run.state == Supervision { task: None, ..s }
        }),
{
}

/// A spawned process that the process table does not know makes the unlock
/// fail with `CannotUnlockVault`; nothing is killed.
pub proof fn lemma_missing_process_is_given_up<H>(
    s: Supervision<H>,
    record: VaultRecord,
    handle: H,
    pid: u32,
)
    requires
        s.child is None,
    ensures
        ({
            let run = Run::begin(s.start_unlock()).probing(
                record,
                handle,
                pid,
                ProcessState::NotFound,
            ).on(Event::StoreReleased);
            &&& run.actions == probe_actions::<H>(record, pid) + seq![
                Action::ReleaseStore,
                Action::Done(Err(VaultHandlerError::CannotUnlockVault)),
            ]
            &&& run.state == Supervision { task: None, ..s }
        }),
{
}

/// A spawned process that is found running, and on a POSIX-like platform
/// not listed as defunct, becomes the vault's child, and the vault is
/// flagged as unlocked.
pub proof fn lemma_unlock_while_locked<H>(
    s: Supervision<H>,
    record: VaultRecord,
    handle: H,
    pid: u32,
    output: Vec<u8>,
)
    requires
        s.child is None,
        s.platform is Posix ==> !marks_defunct(output@),
    ensures
        ({
            let run = Run::begin(s.start_unlock()).probing(
                record,
                handle,
                pid,
                ProcessState::Running,
            ).accepting(output);
            &&& run.actions == probe_actions::<H>(record, pid) + accept_actions::<H>(
                s.platform,
                pid,
            ) + seq![Action::Done(Ok(()))]
            &&& run.state == Supervision { child: Some(handle), task: None, ..s }
        }),
{
}

/// If the last write of an unlock, `locked = false`, fails, the unlock fails
/// with `CannotUnlockVault` although the process runs and stays tracked:
/// the record and the supervisor then disagree.
pub proof fn lemma_unlock_write_failure_keeps_child<H>(
    s: Supervision<H>,
    record: VaultRecord,
    handle: H,
    pid: u32,
    output: Vec<u8>,
)
    requires
        s.child is None,
        s.platform is Posix ==> !marks_defunct(output@),
    ensures
        ({
            let probed = Run::begin(s.start_unlock()).probing(
                record,
                handle,
                pid,
                ProcessState::Running,
            );
            let listed = if s.platform is Posix {
                probed.on(Event::Listed(output))
            } else {
                probed
            };
            let run = listed.on(Event::RecordUpdated(false)).on(Event::StoreReleased);
            &&& run.actions == probe_actions::<H>(record, pid) + accept_actions::<H>(
                s.platform,
                pid,
            ) + seq![Action::Done(Err(VaultHandlerError::CannotUnlockVault))]
            &&& run.state == Supervision { child: Some(handle), task: None, ..s }
        }),
{
}

/// Changing a field of a locked vault persists the new value and does
/// nothing else: nothing is terminated and nothing is spawned.
pub proof fn lemma_change_while_locked<H>(s: Supervision<H>, goal: Goal, change: FieldChange)
    requires
        s.child is None,
    ensures
        ({
            let run = Run::begin(s.start_change(goal, change)).writing();
            &&& run.actions == write_actions::<H>(change) + seq![Action::Done(Ok(()))]
            &&& run.state == Supervision { task: None, ..s }
        }),
{
}

/// A field change on an unlocked vault up to the end of its write section,
/// when locking and writing go well: the vault has no child any more, the
/// new value is persisted, and the restart is about to begin.
pub proof fn lemma_change_reaches_restart<H>(
    s: Supervision<H>,
    goal: Goal,
    change: FieldChange,
    child: H,
    mounted: VaultRecord,
)
    requires
        s.child == Some(child),
    ensures
        ({
            let run = Run::begin(s.start_change(goal, change)).locking(mounted).writing();
            &&& run.actions == lock_actions(s.platform, child, mounted) + write_actions::<H>(change)
                + seq![Action::OpenLogs]
            &&& run.state == Supervision { child: None, ..s }.enter(
                Plan { goal, pending: None, restart: true },
                Stage::OpeningLogs,
                Action::OpenLogs,
            ).0
        }),
{
    let locked = Run::begin(s.start_change(goal, change)).locking(mounted);
    assert(locked.actions == lock_actions(s.platform, child, mounted) + seq![Action::AcquireStore]);
    assert(locked.state == Supervision { child: None, ..s }.begin_write(
        Plan { goal, pending: None, restart: true },
        change,
    ).0);
}

/// An unlock section from its first action on, when the process table
/// reports the process as defunct: the operation fails as its goal says and
/// the process is not kept, whatever operation the section belongs to.
pub proof fn lemma_unlock_section_rejects<H>(
    run: Run<H>,
    plan: Plan,
    record: VaultRecord,
    handle: H,
    pid: u32,
    state: ProcessState,
)
    requires
        run.state.child is None,
        run.state.task == Some(Task { plan, stage: Stage::<H>::OpeningLogs }),
        run.actions.len() > 0,
        run.actions.last() == Action::<H>::OpenLogs,
        state.defunct(),
    ensures
        ({
            let end = run.probing(record, handle, pid, state).rejecting();
            &&& end.actions == run.actions.drop_last() + probe_actions::<H>(record, pid)
                + reject_actions::<H>(run.state.platform, pid) + seq![
                Action::Done(Err(plan.goal.failure())),
            ]
            &&& end.state == Supervision { task: None, ..run.state }
        }),
{
    let probed = run.probing(record, handle, pid, state);
    if run.state.platform is Posix {
        assert(probed.actions == run.actions.drop_last() + probe_actions::<H>(record, pid) + seq![
            Action::ForceKill(pid),
        ]);
    } else {
        assert(probed.actions == run.actions.drop_last() + probe_actions::<H>(record, pid) + seq![
            Action::ReleaseStore,
        ]);
    }
}

/// An unlock section from its first action on, when the process is found
/// running and the flag is written: the process becomes the child, whatever
/// operation the section belongs to.
pub proof fn lemma_unlock_section_accepts<H>(
    run: Run<H>,
    plan: Plan,
    record: VaultRecord,
    handle: H,
    pid: u32,
    output: Vec<u8>,
)
    requires
        run.state.child is None,
        run.state.task == Some(Task { plan, stage: Stage::<H>::OpeningLogs }),
        run.actions.len() > 0,
        run.actions.last() == Action::<H>::OpenLogs,
        run.state.platform is Posix ==> !marks_defunct(output@),
    ensures
        ({
            let end = run.probing(record, handle, pid, ProcessState::Running).accepting(output);
            &&& end.actions == run.actions.drop_last() + probe_actions::<H>(record, pid)
                + accept_actions::<H>(run.state.platform, pid) + seq![Action::Done(Ok(()))]
            &&& end.state == Supervision { child: Some(handle), task: None, ..run.state }
        }),
{
    let probed = run.probing(record, handle, pid, ProcessState::Running);
    if run.state.platform is Posix {
        assert(probed.actions == run.actions.drop_last() + probe_actions::<H>(record, pid) + seq![
            Action::ListProcess(pid),
        ]);
    } else {
        assert(probed.actions == run.actions.drop_last() + probe_actions::<H>(record, pid) + seq![
            Action::UpdateRecord(FieldChange::Locked(false)),
        ]);
    }
}

/// Changing a field of an unlocked vault locks it, persists the new value
/// and unlocks it again, in this order. The process that runs in the end
/// was spawned from the record as read after the new value was written, and
/// its handle is the one tracked.
pub proof fn lemma_change_while_unlocked<H>(
    s: Supervision<H>,
    goal: Goal,
    change: FieldChange,
    child: H,
    mounted: VaultRecord,
    record: VaultRecord,
    handle: H,
    pid: u32,
    output: Vec<u8>,
)
    requires
        s.child == Some(child),
        s.platform is Posix ==> !marks_defunct(output@),
    ensures
        ({
            let run = Run::begin(s.start_change(goal, change)).locking(mounted).writing().probing(
                record,
                handle,
                pid,
                ProcessState::Running,
            ).accepting(output);
            &&& run.actions == lock_actions(s.platform, child, mounted) + write_actions::<H>(change)
                + probe_actions::<H>(record, pid) + accept_actions::<H>(s.platform, pid)
                + seq![Action::Done(Ok(()))]
            &&& run.state == Supervision { child: Some(handle), task: None, ..s }
        }),
{
    let written = Run::begin(s.start_change(goal, change)).locking(mounted).writing();
    lemma_change_reaches_restart(s, goal, change, child, mounted);
    lemma_unlock_section_accepts(
        written,
        Plan { goal, pending: None, restart: true },
        record,
        handle,
        pid,
        output,
    );
    assert(written.actions.drop_last() == lock_actions(s.platform, child, mounted)
        + write_actions::<H>(change));
}

/// If the lock that precedes a field change fails, the change fails with
/// the error kind of the change and the new value is never written.
pub proof fn lemma_change_stops_at_failed_lock<H>(
    s: Supervision<H>,
    goal: Goal,
    change: FieldChange,
    child: H,
)
    requires
        s.child == Some(child),
    ensures
        ({
            let run = Run::begin(s.start_change(goal, change)).on(Event::StoreAcquired).on(
                Event::RecordUpdated(true),
            ).on(Event::Terminated(false)).on(Event::StoreReleased);
            &&& run.actions == seq![
                Action::AcquireStore,
                Action::UpdateRecord(FieldChange::Locked(true)),
                Action::Terminate(child),
                Action::ReleaseStore,
                Action::Done(Err(goal.failure())),
            ]
            &&& run.state == Supervision { child: None, task: None, ..s }
        }),
{
}

/// If the restart that follows a field change fails, the change fails with
/// the error kind of the change although the new value is persisted:
/// nothing is rolled back.
pub proof fn lemma_change_is_not_rolled_back<H>(
    s: Supervision<H>,
    goal: Goal,
    change: FieldChange,
    child: H,
    mounted: VaultRecord,
    record: VaultRecord,
    handle: H,
    pid: u32,
    state: ProcessState,
)
    requires
        s.child == Some(child),
        state.defunct(),
    ensures
        ({
            let run = Run::begin(s.start_change(goal, change)).locking(mounted).writing().probing(
                record,
                handle,
                pid,
                state,
            ).rejecting();
            &&& run.actions == lock_actions(s.platform, child, mounted) + write_actions::<H>(change)
                + probe_actions::<H>(record, pid) + reject_actions::<H>(s.platform, pid)
                + seq![Action::Done(Err(goal.failure()))]
            &&& run.state == Supervision { child: None, task: None, ..s }
        }),
{
    let written = Run::begin(s.start_change(goal, change)).locking(mounted).writing();
    lemma_change_reaches_restart(s, goal, change, child, mounted);
    lemma_unlock_section_rejects(
        written,
        Plan { goal, pending: None, restart: true },
        record,
        handle,
        pid,
        state,
    );
    assert(written.actions.drop_last() == lock_actions(s.platform, child, mounted)
        + write_actions::<H>(change));
}

} // verus!
