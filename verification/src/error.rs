//! The coarse error kinds that cross the supervisor boundary.

use vstd::prelude::*;
use vstd::string::StringExecFns;

verus! {

/// Why an operation on a vault failed.
///
/// Lower-level causes (store errors, spawn errors, process errors) never
/// leave the supervisor; each is folded into the kind of the operation that
/// was asked for.
#[derive(Debug, Clone, Copy, PartialEq, Eq, Structural)]
pub enum VaultHandlerError {
    CannotLockVault,
    CannotUnlockVault,
    CannotChangeMountPoint,
    CannotChangeDataDir,
}

impl VaultHandlerError {
    /// The text shown to a user for this kind.
    pub open spec fn text(self) -> Seq<char> {
        match self {
            VaultHandlerError::CannotLockVault => "cannot lock vault"@,
            VaultHandlerError::CannotUnlockVault => "cannot unlock vault"@,
            VaultHandlerError::CannotChangeMountPoint => "cannot change mount point"@,
            VaultHandlerError::CannotChangeDataDir => "cannot change data dir"@,
        }
    }

    /// Renders the kind as its user-facing message.
    pub fn message(&self) -> (s: String)
        ensures
            s@ == self.text(),
    {
        match self {
            VaultHandlerError::CannotLockVault => String::from_str("cannot lock vault"),
            VaultHandlerError::CannotUnlockVault => String::from_str("cannot unlock vault"),
            VaultHandlerError::CannotChangeMountPoint => String::from_str(
                "cannot change mount point",
            ),
            VaultHandlerError::CannotChangeDataDir => String::from_str("cannot change data dir"),
        }
    }
}

} // verus!
