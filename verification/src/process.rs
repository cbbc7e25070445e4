use vstd::prelude::*;

verus! {

/// A process, as the kernel names it. A restarted process is given a new
/// identifier, so a stale one never matches the process that replaced it.
#[derive(Copy, Clone, Debug, PartialEq, Eq, Structural)]
pub struct ProcessId {
    pub id: usize,
}

/// Why entering a process's grant failed.
#[derive(Copy, Clone, Debug, PartialEq, Eq, Structural)]
pub enum ProcessError {
    /// The process behind the identifier no longer exists.
    NoSuchApp,
    /// The process exists but can never run again.
    InactiveApp,
    /// The grant region could not be allocated.
    OutOfMemory,
    /// The grant lies outside the process's memory.
    AddressOutOfBounds,
    /// Some other kernel failure.
    KernelError,
}

/// The answer to entering a process's grant says that the process is gone:
/// `NoSuchApp` or `InactiveApp`. Any other answer, success included, is not
/// evidence of that.
pub open spec fn spec_is_gone(entry: Result<(), ProcessError>) -> bool {
    entry == Err::<(), ProcessError>(ProcessError::NoSuchApp)
        || entry == Err::<(), ProcessError>(ProcessError::InactiveApp)
}

/// Whether entering a process's grant showed the process is gone.
pub fn is_gone(entry: Result<(), ProcessError>) -> (gone: bool)
    ensures
        gone == spec_is_gone(entry),
{
    match entry {
        Err(ProcessError::NoSuchApp) | Err(ProcessError::InactiveApp) => true,
        _ => false,
    }
}

/// Whether the recorded owner, if any, is still there, given what entering
/// its grant answered. No owner is never live.
pub open spec fn spec_owner_is_live(owner: Option<ProcessId>, entry: Result<(), ProcessError>) -> bool {
    owner is Some && !spec_is_gone(entry)
}

/// Whether the recorded owner is still there.
pub fn owner_is_live(owner: Option<ProcessId>, entry: Result<(), ProcessError>) -> (live: bool)
    ensures
        live == spec_owner_is_live(owner, entry),
{
    match owner {
        Some(_) => !is_gone(entry),
        None => false,
    }
}

} // verus!
