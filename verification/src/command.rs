//! How the mounting executable is invoked.

use crate::numeral::{decimal, to_decimal};
use vstd::prelude::*;
use vstd::string::StringExecFns;

verus! {

/// One invocation of the mounting executable for a vault.
///
/// The executable exposes the decrypted view of `data_dir` at `mount_point`.
/// It is always asked to unmount a stale prior mount when it starts. The
/// decryption passphrase does not travel on the command line: it is handed
/// over in the environment variable named by [`passphrase_variable`].
#[derive(Debug, PartialEq, Eq)]
pub struct MountCommand {
    pub mount_point: String,
    pub data_dir: String,
}

impl Clone for MountCommand {
    fn clone(&self) -> (copy: Self)
        ensures
            copy == *self,
    {
        MountCommand { mount_point: self.mount_point.clone(), data_dir: self.data_dir.clone() }
    }
}

/// The argument list for mounting `data_dir` at `mount_point`.
pub open spec fn argument_list(mount_point: Seq<char>, data_dir: Seq<char>) -> Seq<Seq<char>> {
    seq!["--mount-point"@, mount_point, "--data-dir"@, data_dir, "--umount-on-start"@]
}

impl MountCommand {
    /// Builds the arguments to pass to the mounting executable, in order.
    pub fn arguments(&self) -> (args: Vec<String>)
        ensures
            args.deep_view() == argument_list(self.mount_point@, self.data_dir@),
    {
        let mut args: Vec<String> = Vec::new();
        args.push(String::from_str("--mount-point"));
        args.push(self.mount_point.clone());
        args.push(String::from_str("--data-dir"));
        args.push(self.data_dir.clone());
        args.push(String::from_str("--umount-on-start"));
        assert(args.deep_view() =~= argument_list(self.mount_point@, self.data_dir@));
        args
    }
}

/// Names the environment variable in which the mounting executable expects
/// the decryption passphrase.
pub fn passphrase_variable() -> (name: &'static str)
    ensures
        name@ == "ENCRYPTED_FS_PASSWORD"@,
{
    "ENCRYPTED_FS_PASSWORD"
}

/// One run of an external utility: the program to look up on the search
/// path, and its arguments in order.
#[derive(Debug, PartialEq, Eq)]
pub struct Invocation {
    pub program: String,
    pub arguments: Vec<String>,
}

impl Invocation {
    /// The invocation read as plain text: the program, then the arguments.
    pub open spec fn words(self) -> Seq<Seq<char>> {
        seq![self.program@] + self.arguments.deep_view()
    }
}

/// Says how to unmount `mount_point` by force: `umount`, then the path.
pub fn unmount_invocation(mount_point: &str) -> (invocation: Invocation)
    ensures
        invocation.words() == seq!["umount"@, mount_point@],
{
    let mut arguments: Vec<String> = Vec::new();
    arguments.push(String::from_str(mount_point));
    let invocation = Invocation { program: String::from_str("umount"), arguments };
    assert(invocation.words() =~= seq!["umount"@, mount_point@]);
    invocation
}

/// Says how to list the process `pid` in full format: `ps -f`, then the
/// process id in decimal.
pub fn listing_invocation(pid: u32) -> (invocation: Invocation)
    ensures
        invocation.words() == seq!["ps"@, "-f"@, decimal(pid as nat)],
{
    let mut arguments: Vec<String> = Vec::new();
    arguments.push(String::from_str("-f"));
    arguments.push(to_decimal(pid));
    let invocation = Invocation { program: String::from_str("ps"), arguments };
    assert(invocation.words() =~= seq!["ps"@, "-f"@, decimal(pid as nat)]);
    invocation
}

/// Says how to kill the process `pid`: `kill`, then the process id in
/// decimal.
pub fn kill_invocation(pid: u32) -> (invocation: Invocation)
    ensures
        invocation.words() == seq!["kill"@, decimal(pid as nat)],
{
    let mut arguments: Vec<String> = Vec::new();
    arguments.push(to_decimal(pid));
    let invocation = Invocation { program: String::from_str("kill"), arguments };
    assert(invocation.words() =~= seq!["kill"@, decimal(pid as nat)]);
    invocation
}

} // verus!
