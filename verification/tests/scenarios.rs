use vault_supervisor::command::MountCommand;
use vault_supervisor::error::VaultHandlerError;
use vault_supervisor::handler::VaultHandler;
use vault_supervisor::protocol::{Action, Event, Platform, Spawned, WARM_UP_SECONDS};
use vault_supervisor::record::{locked_flag, store_key, FieldChange, VaultRecord};
use vault_supervisor::status::ProcessState;

/// The outside of a supervisor, played from a script: a store holding one
/// record, a process table, and the utilities. It keeps a log of what it
/// was asked to do.
struct World {
    record: VaultRecord,
    store_held: bool,
    update_fails: bool,
    read_fails: bool,
    next_spawn: Option<Spawned<u32>>,
    process_state: ProcessState,
    listing: Vec<u8>,
    terminate_fails: bool,
    unmount_fails: bool,
    log: Vec<String>,
}

impl World {
    fn with(record: VaultRecord) -> World {
        World {
            record,
            store_held: false,
            update_fails: false,
            read_fails: false,
            next_spawn: None,
            process_state: ProcessState::Running,
            listing: b"  PID TTY  STAT  TIME COMMAND\n 4242 ?  Sl  0:00 encrypted_fs\n".to_vec(),
            terminate_fails: false,
            unmount_fails: false,
            log: Vec::new(),
        }
    }

    fn answer(&mut self, action: Action<u32>) -> Event<u32> {
        self.log.push(format!("{:?}", action));
        match action {
            Action::AcquireStore => {
                assert!(!self.store_held);
                self.store_held = true;
                Event::StoreAcquired
            }
            Action::ReleaseStore => {
                assert!(self.store_held);
                self.store_held = false;
                Event::StoreReleased
            }
            Action::UpdateRecord(change) => {
                assert!(self.store_held);
                if self.update_fails {
                    return Event::RecordUpdated(false);
                }
                match change {
                    FieldChange::Locked(locked) => self.record.locked = locked_flag(locked),
                    FieldChange::MountPoint(path) => self.record.mount_point = path,
                    FieldChange::DataDir(path) => self.record.data_dir = path,
                }
                Event::RecordUpdated(true)
            }
            Action::ReadRecord => {
                assert!(self.store_held);
                if self.read_fails {
                    Event::RecordRead(None)
                } else {
                    Event::RecordRead(Some(self.record.clone()))
                }
            }
            Action::OpenLogs => Event::LogsOpened,
            Action::Spawn(_) => Event::Spawned(self.next_spawn.take()),
            Action::WarmUp(_) => Event::WarmedUp,
            Action::Probe(_) => Event::Probed(self.process_state),
            Action::ListProcess(_) => Event::Listed(self.listing.clone()),
            Action::ForceKill(_) => Event::Killed,
            Action::Terminate(_) => Event::Terminated(!self.terminate_fails),
            Action::ForceUnmount(_) => Event::Unmounted(!self.unmount_fails),
            Action::Done(_) => unreachable!(),
        }
    }

    /// Carries an operation through to its end and returns its result.
    fn run(
        &mut self,
        handler: &mut VaultHandler<u32>,
        first: Action<u32>,
    ) -> Result<(), VaultHandlerError> {
        let mut action = first;
        loop {
            if let Action::Done(result) = action {
                self.log.push(format!("Done({:?})", result));
                assert!(handler.is_idle());
                assert!(!handler.holds_store());
                assert!(!self.store_held);
                return result;
            }
            assert!(!handler.is_idle());
            let event = self.answer(action);
            assert!(handler.accepts(&event));
            action = handler.advance(event);
            if matches!(action, Action::ReleaseStore) {
                assert!(self.store_held);
                assert!(!handler.holds_store());
            } else {
                assert_eq!(handler.holds_store(), self.store_held);
            }
        }
    }

    fn took(&self, prefix: &str) -> bool {
        self.log.iter().any(|entry| entry.starts_with(prefix))
    }
}

fn record(id: u32, locked: bool) -> VaultRecord {
    VaultRecord {
        id: store_key(id),
        name: format!("vault {}", id),
        mount_point: format!("/mnt/v{}", id),
        data_dir: format!("/data/v{}", id),
        locked: locked_flag(locked),
    }
}

fn spawned(handle: u32, pid: u32) -> Option<Spawned<u32>> {
    Some(Spawned { handle, pid: Some(pid) })
}

/// A supervisor that has unlocked its vault in `world`, tracking `handle`.
fn unlocked(id: u32, platform: Platform, world: &mut World, handle: u32) -> VaultHandler<u32> {
    let mut handler = VaultHandler::new(id, platform);
    world.next_spawn = spawned(handle, 1000 + handle);
    let first = handler.unlock();
    assert_eq!(world.run(&mut handler, first), Ok(()));
    assert!(handler.is_unlocked());
    world.log.clear();
    handler
}

#[test]
fn new_supervisor_is_idle_and_locked() {
    let handler: VaultHandler<u32> = VaultHandler::new(9, Platform::Posix);
    assert_eq!(handler.id(), 9);
    assert_eq!(handler.platform(), Platform::Posix);
    assert!(handler.is_idle());
    assert!(!handler.is_unlocked());
    assert!(!handler.holds_store());
    assert!(!handler.accepts(&Event::StoreAcquired));
}

#[test]
fn unlock_spawns_checks_and_flags_the_vault() {
    let mut world = World::with(record(1, true));
    world.next_spawn = spawned(7, 4242);
    let mut handler = VaultHandler::new(1, Platform::Posix);
    let first = handler.unlock();
    assert_eq!(world.run(&mut handler, first), Ok(()));
    assert!(handler.is_unlocked());
    assert_eq!(world.record.locked, 0);
    assert_eq!(
        world.log,
        vec![
            "OpenLogs",
            "AcquireStore",
            "ReadRecord",
            "Spawn(MountCommand { mount_point: \"/mnt/v1\", data_dir: \"/data/v1\" })",
            "WarmUp(8)",
            "Probe(4242)",
            "ListProcess(4242)",
            "UpdateRecord(Locked(false))",
            "ReleaseStore",
            "Done(Ok(()))",
        ]
    );
}

#[test]
fn unlock_without_utilities_trusts_the_process_table() {
    let mut world = World::with(record(1, true));
    world.next_spawn = spawned(7, 4242);
    world.listing = b"4242 <defunct>".to_vec();
    let mut handler = VaultHandler::new(1, Platform::Other);
    let first = handler.unlock();
    assert_eq!(world.run(&mut handler, first), Ok(()));
    assert!(handler.is_unlocked());
    assert!(!world.took("ListProcess"));
    assert!(!world.took("ForceKill"));
    assert_eq!(world.record.locked, 0);
}

#[test]
fn lock_of_a_locked_vault_only_writes_the_flag() {
    let mut world = World::with(record(2, true));
    let mut handler = VaultHandler::new(2, Platform::Posix);
    let first = handler.lock();
    assert_eq!(world.run(&mut handler, first), Ok(()));
    assert!(!handler.is_unlocked());
    assert_eq!(world.record.locked, 1);
    assert_eq!(
        world.log,
        vec!["AcquireStore", "UpdateRecord(Locked(true))", "ReleaseStore", "Done(Ok(()))"]
    );
}

#[test]
fn lock_flags_a_vault_that_the_record_calls_unlocked() {
    let mut world = World::with(record(2, false));
    let mut handler = VaultHandler::new(2, Platform::Posix);
    let first = handler.lock();
    assert_eq!(world.run(&mut handler, first), Ok(()));
    assert_eq!(world.record.locked, 1);
    assert!(!world.took("Terminate"));
    assert!(!world.took("ForceUnmount"));
}

#[test]
fn zombie_after_warm_up_fails_the_unlock_and_is_killed() {
    let mut world = World::with(record(3, true));
    world.next_spawn = spawned(7, 5151);
    world.process_state = ProcessState::Zombie;
    let mut handler = VaultHandler::new(3, Platform::Posix);
    let first = handler.unlock();
    assert_eq!(world.run(&mut handler, first), Err(VaultHandlerError::CannotUnlockVault));
    assert!(!handler.is_unlocked());
    assert_eq!(world.record.locked, 1);
    assert_eq!(
        world.log,
        vec![
            "OpenLogs",
            "AcquireStore",
            "ReadRecord",
            "Spawn(MountCommand { mount_point: \"/mnt/v3\", data_dir: \"/data/v3\" })",
            "WarmUp(8)",
            "Probe(5151)",
            "ForceKill(5151)",
            "ReleaseStore",
            "Done(Err(CannotUnlockVault))",
        ]
    );
}

#[test]
fn dead_and_stopped_processes_fail_the_unlock_as_zombies_do() {
    for state in [ProcessState::Dead, ProcessState::Stopped] {
        let mut world = World::with(record(3, true));
        world.next_spawn = spawned(7, 5151);
        world.process_state = state;
        let mut handler = VaultHandler::new(3, Platform::Posix);
        let first = handler.unlock();
        assert_eq!(world.run(&mut handler, first), Err(VaultHandlerError::CannotUnlockVault));
        assert!(!handler.is_unlocked());
        assert!(world.took("ForceKill(5151)"));
        assert!(!world.took("UpdateRecord"));
    }
}

#[test]
fn defunct_process_is_not_killed_where_there_is_no_kill_utility() {
    let mut world = World::with(record(3, true));
    world.next_spawn = spawned(7, 5151);
    world.process_state = ProcessState::Zombie;
    let mut handler = VaultHandler::new(3, Platform::Other);
    let first = handler.unlock();
    assert_eq!(world.run(&mut handler, first), Err(VaultHandlerError::CannotUnlockVault));
    assert!(!handler.is_unlocked());
    assert!(!world.took("ForceKill"));
}

#[test]
fn process_listed_as_defunct_fails_the_unlock_and_is_killed() {
    let mut world = World::with(record(3, true));
    world.next_spawn = spawned(7, 5151);
    world.listing = b"root 5151 1 0 10:01 ? 00:00:00 [encrypted_fs] <defunct>\n".to_vec();
    let mut handler = VaultHandler::new(3, Platform::Posix);
    let first = handler.unlock();
    assert_eq!(world.run(&mut handler, first), Err(VaultHandlerError::CannotUnlockVault));
    assert!(!handler.is_unlocked());
    assert!(world.took("ListProcess(5151)"));
    assert!(world.took("ForceKill(5151)"));
    assert_eq!(world.record.locked, 1);
}

#[test]
fn process_missing_from_the_table_fails_the_unlock_without_a_kill() {
    let mut world = World::with(record(3, true));
    world.next_spawn = spawned(7, 5151);
    world.process_state = ProcessState::NotFound;
    let mut handler = VaultHandler::new(3, Platform::Posix);
    let first = handler.unlock();
    assert_eq!(world.run(&mut handler, first), Err(VaultHandlerError::CannotUnlockVault));
    assert!(!handler.is_unlocked());
    assert!(!world.took("ForceKill"));
    assert!(!world.took("ListProcess"));
}

#[test]
fn process_without_an_id_fails_the_unlock_after_the_warm_up() {
    let mut world = World::with(record(3, true));
    world.next_spawn = Some(Spawned { handle: 7, pid: None });
    let mut handler = VaultHandler::new(3, Platform::Posix);
    let first = handler.unlock();
    assert_eq!(world.run(&mut handler, first), Err(VaultHandlerError::CannotUnlockVault));
    assert!(!handler.is_unlocked());
    assert!(world.took("WarmUp(8)"));
    assert!(!world.took("Probe"));
}

#[test]
fn failed_spawn_fails_the_unlock() {
    let mut world = World::with(record(3, true));
    world.next_spawn = None;
    let mut handler = VaultHandler::new(3, Platform::Posix);
    let first = handler.unlock();
    assert_eq!(world.run(&mut handler, first), Err(VaultHandlerError::CannotUnlockVault));
    assert!(!handler.is_unlocked());
    assert!(!world.took("WarmUp"));
}

#[test]
fn unreadable_record_fails_the_unlock_as_an_unlock() {
    let mut world = World::with(record(3, true));
    world.read_fails = true;
    world.next_spawn = spawned(7, 5151);
    let mut handler = VaultHandler::new(3, Platform::Posix);
    let first = handler.unlock();
    assert_eq!(world.run(&mut handler, first), Err(VaultHandlerError::CannotUnlockVault));
    assert!(!world.took("Spawn"));
}

#[test]
fn failed_last_write_fails_the_unlock_but_keeps_the_process() {
    let mut world = World::with(record(3, true));
    world.next_spawn = spawned(7, 5151);
    world.update_fails = true;
    let mut handler = VaultHandler::new(3, Platform::Posix);
    let first = handler.unlock();
    assert_eq!(world.run(&mut handler, first), Err(VaultHandlerError::CannotUnlockVault));
    assert!(handler.is_unlocked());
    assert_eq!(world.record.locked, 1);
}

#[test]
fn unlock_of_an_unlocked_vault_does_nothing() {
    let mut world = World::with(record(1, true));
    let mut handler = unlocked(1, Platform::Posix, &mut world, 7);
    let first = handler.unlock();
    assert_eq!(first, Action::Done(Ok(())));
    assert!(handler.is_idle());
    assert!(handler.is_unlocked());
    assert_eq!(world.run(&mut handler, first), Ok(()));
    assert_eq!(world.log, vec!["Done(Ok(()))"]);
}

#[test]
fn lock_terminates_the_process_and_unmounts() {
    let mut world = World::with(record(1, true));
    let mut handler = unlocked(1, Platform::Posix, &mut world, 7);
    let first = handler.lock();
    assert_eq!(world.run(&mut handler, first), Ok(()));
    assert!(!handler.is_unlocked());
    assert_eq!(world.record.locked, 1);
    assert_eq!(
        world.log,
        vec![
            "AcquireStore",
            "UpdateRecord(Locked(true))",
            "Terminate(7)",
            "ReadRecord",
            "ForceUnmount(\"/mnt/v1\")",
            "ReleaseStore",
            "Done(Ok(()))",
        ]
    );
}

#[test]
fn lock_without_utilities_stops_at_the_termination() {
    let mut world = World::with(record(1, true));
    let mut handler = unlocked(1, Platform::Other, &mut world, 7);
    world.read_fails = true;
    let first = handler.lock();
    assert_eq!(world.run(&mut handler, first), Ok(()));
    assert!(!handler.is_unlocked());
    assert_eq!(
        world.log,
        vec![
            "AcquireStore",
            "UpdateRecord(Locked(true))",
            "Terminate(7)",
            "ReleaseStore",
            "Done(Ok(()))",
        ]
    );
}

#[test]
fn failed_flag_write_fails_the_lock_and_spares_the_process() {
    let mut world = World::with(record(1, true));
    let mut handler = unlocked(1, Platform::Posix, &mut world, 7);
    world.update_fails = true;
    let first = handler.lock();
    assert_eq!(world.run(&mut handler, first), Err(VaultHandlerError::CannotLockVault));
    assert!(handler.is_unlocked());
    assert!(!world.took("Terminate"));
    assert!(!world.took("ForceUnmount"));
    assert_eq!(world.record.locked, 0);

    world.update_fails = false;
    world.log.clear();
    let first = handler.lock();
    assert_eq!(world.run(&mut handler, first), Ok(()));
    assert!(world.took("Terminate(7)"));
}

#[test]
fn failed_flag_write_fails_the_lock_of_a_locked_vault_too() {
    let mut world = World::with(record(2, true));
    world.update_fails = true;
    let mut handler = VaultHandler::new(2, Platform::Posix);
    let first = handler.lock();
    assert_eq!(world.run(&mut handler, first), Err(VaultHandlerError::CannotLockVault));
    assert!(!handler.is_unlocked());
}

#[test]
fn failed_termination_fails_the_lock() {
    let mut world = World::with(record(1, true));
    let mut handler = unlocked(1, Platform::Posix, &mut world, 7);
    world.terminate_fails = true;
    let first = handler.lock();
    assert_eq!(world.run(&mut handler, first), Err(VaultHandlerError::CannotLockVault));
    assert!(!world.took("ForceUnmount"));
    assert_eq!(world.record.locked, 1);
}

#[test]
fn unreadable_record_fails_the_lock_after_the_termination() {
    let mut world = World::with(record(1, true));
    let mut handler = unlocked(1, Platform::Posix, &mut world, 7);
    world.read_fails = true;
    let first = handler.lock();
    assert_eq!(world.run(&mut handler, first), Err(VaultHandlerError::CannotLockVault));
    assert!(world.took("Terminate(7)"));
    assert!(!world.took("ForceUnmount"));
    assert!(!handler.is_unlocked());
}

#[test]
fn failed_unmount_fails_the_lock() {
    let mut world = World::with(record(1, true));
    let mut handler = unlocked(1, Platform::Posix, &mut world, 7);
    world.unmount_fails = true;
    let first = handler.lock();
    assert_eq!(world.run(&mut handler, first), Err(VaultHandlerError::CannotLockVault));
    assert!(world.took("ForceUnmount(\"/mnt/v1\")"));
    assert!(!handler.is_unlocked());
}

#[test]
fn change_mount_point_of_a_locked_vault_only_persists() {
    let mut world = World::with(record(4, true));
    let mut handler = VaultHandler::new(4, Platform::Posix);
    let first = handler.change_mount_point(String::from("/mnt/new"));
    assert_eq!(world.run(&mut handler, first), Ok(()));
    assert!(!handler.is_unlocked());
    assert_eq!(world.record.mount_point, "/mnt/new");
    assert_eq!(world.record.data_dir, "/data/v4");
    assert_eq!(world.record.locked, 1);
    assert_eq!(
        world.log,
        vec![
            "AcquireStore",
            "UpdateRecord(MountPoint(\"/mnt/new\"))",
            "ReleaseStore",
            "Done(Ok(()))",
        ]
    );
}

#[test]
fn change_mount_point_of_an_unlocked_vault_restarts_at_the_new_path() {
    let mut world = World::with(record(4, true));
    let mut handler = unlocked(4, Platform::Posix, &mut world, 7);
    assert_eq!(world.record.locked, 0);
    world.next_spawn = spawned(8, 4343);
    let first = handler.change_mount_point(String::from("/mnt/new"));
    assert_eq!(world.run(&mut handler, first), Ok(()));
    assert!(handler.is_unlocked());
    assert_eq!(world.record.mount_point, "/mnt/new");
    assert_eq!(world.record.locked, 0);
    assert_eq!(
        world.log,
        vec![
            "AcquireStore",
            "UpdateRecord(Locked(true))",
            "Terminate(7)",
            "ReadRecord",
            "ForceUnmount(\"/mnt/v4\")",
            "ReleaseStore",
            "AcquireStore",
            "UpdateRecord(MountPoint(\"/mnt/new\"))",
            "ReleaseStore",
            "OpenLogs",
            "AcquireStore",
            "ReadRecord",
            "Spawn(MountCommand { mount_point: \"/mnt/new\", data_dir: \"/data/v4\" })",
            "WarmUp(8)",
            "Probe(4343)",
            "ListProcess(4343)",
            "UpdateRecord(Locked(false))",
            "ReleaseStore",
            "Done(Ok(()))",
        ]
    );

    world.log.clear();
    let first = handler.lock();
    assert_eq!(world.run(&mut handler, first), Ok(()));
    assert!(world.took("Terminate(8)"));
    assert!(world.took("ForceUnmount(\"/mnt/new\")"));
}

#[test]
fn change_data_dir_of_an_unlocked_vault_restarts_on_the_new_directory() {
    let mut world = World::with(record(5, true));
    let mut handler = unlocked(5, Platform::Other, &mut world, 7);
    world.next_spawn = spawned(8, 4343);
    let first = handler.change_data_dir(String::from("/data/new"));
    assert_eq!(world.run(&mut handler, first), Ok(()));
    assert!(handler.is_unlocked());
    assert_eq!(world.record.data_dir, "/data/new");
    assert_eq!(world.record.mount_point, "/mnt/v5");
    assert_eq!(world.record.locked, 0);
    assert!(world.took("Spawn(MountCommand { mount_point: \"/mnt/v5\", data_dir: \"/data/new\" })"));
}

#[test]
fn change_data_dir_stops_when_the_process_cannot_be_terminated() {
    let mut world = World::with(record(5, true));
    let mut handler = unlocked(5, Platform::Posix, &mut world, 7);
    world.terminate_fails = true;
    let first = handler.change_data_dir(String::from("/data/new"));
    assert_eq!(world.run(&mut handler, first), Err(VaultHandlerError::CannotChangeDataDir));
    assert_eq!(world.record.data_dir, "/data/v5");
    assert!(!world.took("UpdateRecord(DataDir"));
    assert!(!world.took("Spawn"));
    assert_eq!(
        world.log,
        vec![
            "AcquireStore",
            "UpdateRecord(Locked(true))",
            "Terminate(7)",
            "ReleaseStore",
            "Done(Err(CannotChangeDataDir))",
        ]
    );
}

#[test]
fn change_mount_point_stops_when_the_flag_cannot_be_written() {
    let mut world = World::with(record(4, true));
    let mut handler = unlocked(4, Platform::Posix, &mut world, 7);
    world.update_fails = true;
    let first = handler.change_mount_point(String::from("/mnt/new"));
    assert_eq!(world.run(&mut handler, first), Err(VaultHandlerError::CannotChangeMountPoint));
    assert!(handler.is_unlocked());
    assert_eq!(world.record.mount_point, "/mnt/v4");
    assert!(!world.took("Terminate"));
}

#[test]
fn failed_field_write_fails_the_change() {
    let mut world = World::with(record(4, true));
    world.update_fails = true;
    let mut handler = VaultHandler::new(4, Platform::Posix);
    let first = handler.change_mount_point(String::from("/mnt/new"));
    assert_eq!(world.run(&mut handler, first), Err(VaultHandlerError::CannotChangeMountPoint));
    assert_eq!(world.record.mount_point, "/mnt/v4");

    let first = handler.change_data_dir(String::from("/data/new"));
    assert_eq!(world.run(&mut handler, first), Err(VaultHandlerError::CannotChangeDataDir));
    assert_eq!(world.record.data_dir, "/data/v4");
}

#[test]
fn failed_restart_fails_the_change_but_keeps_the_new_value() {
    let mut world = World::with(record(4, true));
    let mut handler = unlocked(4, Platform::Posix, &mut world, 7);
    world.next_spawn = spawned(8, 4343);
    world.process_state = ProcessState::Zombie;
    let first = handler.change_mount_point(String::from("/mnt/new"));
    assert_eq!(world.run(&mut handler, first), Err(VaultHandlerError::CannotChangeMountPoint));
    assert!(!handler.is_unlocked());
    assert_eq!(world.record.mount_point, "/mnt/new");
    assert_eq!(world.record.locked, 1);
    assert!(world.took("ForceKill(4343)"));
}

#[test]
fn lock_and_unlock_in_any_order_never_spawn_beside_a_live_process() {
    let mut world = World::with(record(6, true));
    let mut handler = VaultHandler::new(6, Platform::Posix);
    let mut live: Vec<u32> = Vec::new();
    let mut next_handle = 1;
    // true stands for an unlock, false for a lock
    let calls = [true, true, false, false, true, false, true, true, true, false, true];
    for (turn, unlock) in calls.into_iter().enumerate() {
        world.log.clear();
        world.process_state =
            if turn == 6 { ProcessState::Zombie } else { ProcessState::Running };
        world.next_spawn = spawned(next_handle, 2000 + next_handle);
        let first = if unlock { handler.unlock() } else { handler.lock() };
        let result = world.run(&mut handler, first);
        if world.took("Spawn") {
            assert!(live.is_empty());
            if result.is_ok() {
                live.push(next_handle);
            }
            next_handle += 1;
        }
        if world.took("Terminate") {
            let gone = live.pop().expect("only a live process is terminated");
            assert!(world.took(&format!("Terminate({})", gone)));
        }
        assert!(live.len() <= 1);
        assert_eq!(handler.is_unlocked(), live.len() == 1);
    }
}

#[test]
fn supervisor_accepts_only_the_answer_it_waits_for() {
    let mut handler: VaultHandler<u32> = VaultHandler::new(1, Platform::Posix);
    let first = handler.lock();
    assert_eq!(first, Action::AcquireStore);
    assert!(handler.accepts(&Event::StoreAcquired));
    assert!(!handler.accepts(&Event::StoreReleased));
    assert!(!handler.accepts(&Event::RecordUpdated(true)));
    assert!(!handler.accepts(&Event::Killed));
    let second = handler.advance(Event::StoreAcquired);
    assert_eq!(second, Action::UpdateRecord(FieldChange::Locked(true)));
    assert!(handler.holds_store());
    assert!(handler.accepts(&Event::RecordUpdated(false)));
    assert!(!handler.accepts(&Event::StoreAcquired));
}

#[test]
fn warm_up_lasts_eight_seconds() {
    assert_eq!(WARM_UP_SECONDS, 8);
    let mut handler: VaultHandler<u32> = VaultHandler::new(1, Platform::Posix);
    assert_eq!(handler.unlock(), Action::OpenLogs);
    assert_eq!(handler.advance(Event::LogsOpened), Action::AcquireStore);
    assert_eq!(handler.advance(Event::StoreAcquired), Action::ReadRecord);
    assert_eq!(
        handler.advance(Event::RecordRead(Some(record(1, true)))),
        Action::Spawn(MountCommand {
            mount_point: String::from("/mnt/v1"),
            data_dir: String::from("/data/v1"),
        })
    );
    assert_eq!(handler.advance(Event::Spawned(spawned(7, 4242))), Action::WarmUp(8));
}

#[test]
fn beginning_anew_abandons_what_was_left_unfinished() {
    let mut world = World::with(record(1, true));
    let mut handler: VaultHandler<u32> = VaultHandler::new(1, Platform::Posix);
    assert_eq!(handler.unlock(), Action::OpenLogs);
    assert!(!handler.is_idle());
    let first = handler.lock();
    assert_eq!(world.run(&mut handler, first), Ok(()));
    assert!(handler.is_idle());
    assert!(!handler.is_unlocked());
}

#[test]
fn event_that_is_not_awaited_is_handed_back() {
    let mut handler: VaultHandler<u32> = VaultHandler::new(1, Platform::Posix);
    assert_eq!(
        handler.try_advance(Event::Spawned(spawned(7, 4242))),
        Err(Event::Spawned(spawned(7, 4242)))
    );
    assert!(handler.is_idle());
    assert!(!handler.is_unlocked());

    assert_eq!(handler.lock(), Action::AcquireStore);
    assert_eq!(handler.try_advance(Event::Killed), Err(Event::Killed));
    assert!(handler.accepts(&Event::StoreAcquired));
    assert_eq!(
        handler.try_advance(Event::StoreAcquired),
        Ok(Action::UpdateRecord(FieldChange::Locked(true)))
    );
    assert!(handler.holds_store());
}
