//! The process supervisor: the single shared slot that owns at most one
//! live external process, and the operations that install a handle into it
//! and remove one from it.
//!
//! The slot has swap semantics: `install` replaces whatever is there, and
//! `terminate` takes whatever is there, leaving the slot empty either way.
//! Killing the process, like spawning it, is operating-system work that the
//! surrounding shell performs on the handle this supervisor hands out; no
//! outcome of that work changes the slot again.

use vstd::prelude::*;
use vstd::string::StringExecFns;

verus! {

/// A live external process, as the supervisor knows it: its operating
/// system process identifier. The stream endpoints of the process are taken
/// by the publishers before the handle is installed, so the slot never
/// carries them.
#[derive(Clone, Copy, PartialEq, Eq, Structural, Debug)]
pub struct ProcessHandle {
    pub pid: u32,
}

/// What an operation of this library can fail with: the executable could
/// not be launched, cancellation found nothing to cancel, or the kill
/// signal could not be delivered. No failure is fatal; each is rendered as
/// plain error text at the operation boundary.
#[derive(Clone, PartialEq, Eq, Debug)]
pub enum SessionError {
    SpawnError(String),
    NoActiveProcess,
    KillError(String),
}

impl SessionError {
    /// The error text shown to the caller.
    pub open spec fn message_model(&self) -> Seq<char> {
        match self {
            SessionError::SpawnError(cause) => "Failed to spawn codex: "@ + cause@,
            SessionError::NoActiveProcess => "No active process to stop"@,
            SessionError::KillError(cause) => "Failed to kill process: "@ + cause@,
        }
    }

    /// Renders the error as the plain text the presentation layer shows.
    pub fn message(&self) -> (r: String)
        ensures
            r@ == self.message_model(),
    {
        match self {
            SessionError::SpawnError(cause) => {
                let mut text = String::from_str("Failed to spawn codex: ");
                text.append(cause.as_str());
                text
            },
            SessionError::NoActiveProcess => String::from_str("No active process to stop"),
            SessionError::KillError(cause) => {
                let mut text = String::from_str("Failed to kill process: ");
                text.append(cause.as_str());
                text
            },
        }
    }
}

/// The shared state of a session: the mutually exclusive slot holding the
/// zero-or-one active process. The shell shares one value of this type,
/// under a lock, between the request path, the cancellation path and the
/// end of the streams; it changes only through [`Self::install`],
/// [`Self::terminate`] and the session's end-of-stream decision.
pub struct AppState {
    pub active_process: Option<ProcessHandle>,
}

impl AppState {
    /// A session is running exactly while the slot holds a handle.
    pub open spec fn is_running(&self) -> bool {
        self.active_process is Some
    }

    /// The slot after a handle is installed, whatever it held before.
    pub open spec fn with_installed(self, handle: ProcessHandle) -> AppState {
        AppState { active_process: Some(handle) }
    }

    /// A fresh state: no process is active.
    pub fn new() -> (r: AppState)
        ensures
            r.active_process is None,
    {
        AppState { active_process: None }
    }

    /// Replaces the contents of the slot with the given handle. A previous
    /// handle is dropped without termination; rapid repeated installs
    /// therefore leak the earlier process rather than kill it, a policy the
    /// caller must choose knowingly.
    pub fn install(&mut self, handle: ProcessHandle)
        ensures
            *final(self) == old(self).with_installed(handle),
            final(self).is_running(),
    {
        self.active_process = Some(handle);
    }

    /// Takes the current handle out of the slot, to be killed by the
    /// caller. The slot is empty afterwards no matter what: with nothing
    /// active the call fails, and a later failure to deliver the kill
    /// signal cannot put the handle back.
    pub fn terminate(&mut self) -> (r: Result<ProcessHandle, SessionError>)
        ensures
            final(self).active_process is None,
            !final(self).is_running(),
            old(self).active_process matches Some(handle) ==> r == Ok::<
                ProcessHandle,
                SessionError,
            >(handle),
            old(self).active_process is None ==> r == Err::<ProcessHandle, SessionError>(
                SessionError::NoActiveProcess,
            ),
    {
        match self.active_process {
            Some(handle) => {
                self.active_process = None;
                Ok(handle)
            },
            None => Err(SessionError::NoActiveProcess),
        }
    }
}

/// Law: installing a handle and then another leaves exactly the second in
/// the slot; the first is not reachable from the slot afterwards. Replacing
/// is not merging.
pub proof fn lemma_install_replaces(state: AppState, first: ProcessHandle, second: ProcessHandle)
    ensures
        state.with_installed(first).with_installed(second).active_process == Some(second),
        first != second ==> state.with_installed(first).with_installed(second).active_process
            != Some(first),
{
}

} // verus!
