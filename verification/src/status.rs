//! Probing the operating system's process table.
//!
//! A freshly spawned mounting process is only accepted if the process table
//! still knows it and does not report it as dead, zombie or stopped.

use vstd::prelude::*;

verus! {

/// What the process table reports about a process: one variant for each
/// status the table can hold. Which of them an operating system uses, and
/// for what, differs from one system to the next.
#[derive(Debug, Clone, Copy, PartialEq, Eq, Structural)]
pub enum ReportedStatus {
    Idle,
    Run,
    Sleep,
    Stop,
    Zombie,
    Tracing,
    Dead,
    Wakekill,
    Waking,
    Parked,
    LockBlocked,
    UninterruptibleDiskSleep,
    Unknown(u32),
}

/// How the supervisor classifies a process it asked the process table about.
#[derive(Debug, Clone, Copy, PartialEq, Eq, Structural)]
pub enum ProcessState {
    Running,
    Dead,
    Zombie,
    Stopped,
    NotFound,
}

/// The class of a process, given what the process table holds for it, if
/// anything.
///
/// Only three reported statuses count against a process. Every other status,
/// a sleeping or idle process as much as one the table cannot name, is
/// taken as running.
pub open spec fn state_of(found: Option<ReportedStatus>) -> ProcessState {
    match found {
        None => ProcessState::NotFound,
        Some(ReportedStatus::Dead) => ProcessState::Dead,
        Some(ReportedStatus::Zombie) => ProcessState::Zombie,
        Some(ReportedStatus::Stop) => ProcessState::Stopped,
        Some(_) => ProcessState::Running,
    }
}

impl ProcessState {
    /// The process has exited, or sits in a zombie or stopped state.
    pub open spec fn defunct(self) -> bool {
        self is Dead || self is Zombie || self is Stopped
    }

    /// Tells whether the state is one of dead, zombie or stopped.
    pub fn is_defunct(&self) -> (defunct: bool)
        ensures
            defunct == self.defunct(),
    {
        match self {
            ProcessState::Dead | ProcessState::Zombie | ProcessState::Stopped => true,
            ProcessState::Running | ProcessState::NotFound => false,
        }
    }
}

/// Classifies a process from what the process table holds for it.
pub fn classify(found: Option<ReportedStatus>) -> (state: ProcessState)
    ensures
        state == state_of(found),
{
    match found {
        None => ProcessState::NotFound,
        Some(ReportedStatus::Dead) => ProcessState::Dead,
        Some(ReportedStatus::Zombie) => ProcessState::Zombie,
        Some(ReportedStatus::Stop) => ProcessState::Stopped,
        Some(_) => ProcessState::Running,
    }
}

/// `sysinfo::System`: a snapshot of what the operating system reports.
/// Opaque here; it is only made, refreshed and asked for one process.
#[verifier::external_type_specification]
#[verifier::external_body]
pub struct ExSystem(sysinfo::System);

/// `sysinfo::Process`: the entry of one process in a snapshot. Opaque
/// here; only its status is read.
#[verifier::external_type_specification]
#[verifier::external_body]
pub struct ExProcess(sysinfo::Process);

/// `sysinfo::Pid`: a process id as the snapshot keys it. Opaque here.
#[verifier::external_type_specification]
#[verifier::external_body]
pub struct ExPid(sysinfo::Pid);

/// `sysinfo::ProcessStatus`: the status of a process as the snapshot
/// records it. Opaque here; [`ReportedStatus`] mirrors its variants.
#[verifier::external_type_specification]
#[verifier::external_body]
pub struct ExProcessStatus(sysinfo::ProcessStatus);

/// `sysinfo::System::new` makes a system snapshot with nothing loaded.
/// Nothing is claimed about it.
pub assume_specification[ sysinfo::System::new ]() -> (system: sysinfo::System)
;

/// `sysinfo::System::refresh_processes` reloads the snapshot's process list
/// from the operating system. Nothing is claimed about what it then holds.
pub assume_specification[ sysinfo::System::refresh_processes ](system: &mut sysinfo::System)
;

/// `sysinfo::System::process` looks a process id up in the snapshot and
/// returns the entry or `None`. Which of the two is not claimed.
pub assume_specification[ sysinfo::System::process ](
    system: &sysinfo::System,
    pid: sysinfo::Pid,
) -> (found: Option<&sysinfo::Process>)
;

/// `sysinfo::Pid::from_u32` turns a number into a process id. Nothing is
/// claimed about the id.
pub assume_specification[ sysinfo::Pid::from_u32 ](v: u32) -> (pid: sysinfo::Pid)
;

/// `sysinfo::Process::status` reads the status recorded in a snapshot entry.
/// Nothing is claimed about it.
pub assume_specification[ sysinfo::Process::status ](process: &sysinfo::Process) -> (status:
    sysinfo::ProcessStatus)
;

/// Converts a `sysinfo::ProcessStatus` to this crate's mirror of it, variant
/// by variant. The status is opaque to the verifier, so nothing is claimed
/// about which variant comes back.
#[verifier::external_body]
fn mirror(status: sysinfo::ProcessStatus) -> (mirrored: ReportedStatus) {
    match status {
        sysinfo::ProcessStatus::Idle => ReportedStatus::Idle,
        sysinfo::ProcessStatus::Run => ReportedStatus::Run,
        sysinfo::ProcessStatus::Sleep => ReportedStatus::Sleep,
        sysinfo::ProcessStatus::Stop => ReportedStatus::Stop,
        sysinfo::ProcessStatus::Zombie => ReportedStatus::Zombie,
        sysinfo::ProcessStatus::Tracing => ReportedStatus::Tracing,
        sysinfo::ProcessStatus::Dead => ReportedStatus::Dead,
        sysinfo::ProcessStatus::Wakekill => ReportedStatus::Wakekill,
        sysinfo::ProcessStatus::Waking => ReportedStatus::Waking,
        sysinfo::ProcessStatus::Parked => ReportedStatus::Parked,
        sysinfo::ProcessStatus::LockBlocked => ReportedStatus::LockBlocked,
        sysinfo::ProcessStatus::UninterruptibleDiskSleep => ReportedStatus::UninterruptibleDiskSleep,
        sysinfo::ProcessStatus::Unknown(code) => ReportedStatus::Unknown(code),
    }
}

/// Asks the operating system what it reports for the process `pid` right
/// now: its status, or `None` if the process table does not hold it.
///
/// The answer is whatever the machine says at the moment of the call; two
/// calls may differ.
pub fn query(pid: u32) -> (found: Option<ReportedStatus>) {
    let mut system = sysinfo::System::new();
    system.refresh_processes();
    match system.process(sysinfo::Pid::from_u32(pid)) {
        Some(process) => Some(mirror(process.status())),
        None => None,
    }
}

/// Probes the process table for `pid` and classifies what it reports.
///
/// The result is [`classify`] applied to what [`query`] found at the moment
/// of the call.
pub fn probe(pid: u32) -> (state: ProcessState) {
    classify(query(pid))
}

} // verus!
