//! The failures that a run can end with.

use vstd::prelude::*;
use crate::debug::DumpError;
use crate::integrity::QueryError;
use crate::privilege::PrivilegeError;
use crate::process::SnapshotError;

verus! {

/// Why a run failed. Every failure is final: nothing is retried.
#[derive(Clone, Copy, Debug, PartialEq, Eq, Structural)]
pub enum DumperError {
    /// A query of the operating system failed: for the trust level, for the
    /// session or for the processes.
    SystemQuery(QueryError),
    /// The process snapshot cannot be decoded.
    Snapshot(SnapshotError),
    /// The debug privilege could not be enabled.
    Privilege(PrivilegeError),
    /// No process of the session has the name looked for.
    NotFound,
    /// The dump could not be taken.
    Dump(DumpError),
    /// The destination is no dump file.
    InvalidArgument,
    /// The key combination could not be registered; the code says why.
    HotKey(u32),
}

} // verus!
