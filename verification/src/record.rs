//! The persisted vault record, as far as the supervisor reads and writes it.

use vstd::prelude::*;

verus! {

/// A vault as the store holds it.
///
/// The store keys its records by a signed 32-bit integer and keeps the
/// `locked` flag as an integer as well: 1 for locked, 0 for unlocked.
#[derive(Debug, PartialEq, Eq)]
pub struct VaultRecord {
    pub id: i32,
    pub name: String,
    pub mount_point: String,
    pub data_dir: String,
    pub locked: i32,
}

/// One field-level update of a vault record.
#[derive(Debug, PartialEq, Eq)]
pub enum FieldChange {
    /// Set the `locked` flag.
    Locked(bool),
    /// Replace the mount point.
    MountPoint(String),
    /// Replace the data directory.
    DataDir(String),
}

impl Clone for VaultRecord {
    fn clone(&self) -> (copy: Self)
        ensures
            copy == *self,
    {
        VaultRecord {
            id: self.id,
            name: self.name.clone(),
            mount_point: self.mount_point.clone(),
            data_dir: self.data_dir.clone(),
            locked: self.locked,
        }
    }
}

impl Clone for FieldChange {
    fn clone(&self) -> (copy: Self)
        ensures
            copy == *self,
    {
        match self {
            FieldChange::Locked(locked) => FieldChange::Locked(*locked),
            FieldChange::MountPoint(path) => FieldChange::MountPoint(path.clone()),
            FieldChange::DataDir(path) => FieldChange::DataDir(path.clone()),
        }
    }
}

/// The integer the store keeps for a `locked` flag.
pub open spec fn flag_of(locked: bool) -> int {
    if locked {
        1
    } else {
        0
    }
}

/// The key under which the store holds the vault `id`: the same 32 bits read
/// as a signed integer.
pub open spec fn key_of(id: u32) -> int {
    if id <= i32::MAX {
        id as int
    } else {
        id - 0x1_0000_0000
    }
}

/// Encodes a `locked` flag as the store keeps it.
pub fn locked_flag(locked: bool) -> (flag: i32)
    ensures
        flag == flag_of(locked),
{
    if locked {
        1
    } else {
        0
    }
}

/// Gives the store key of the vault `id`.
///
/// Ids up to `i32::MAX` are their own key; a larger id wraps to the negative
/// integer with the same bit pattern.
pub fn store_key(id: u32) -> (key: i32)
    ensures
        key == key_of(id),
{
    if id <= 0x7fff_ffff {
        id as i32
    } else {
        let below: u32 = 0xffff_ffff - id;
        -1 - (below as i32)
    }
}

} // verus!
