//! The service supervisor: the one child process it has started, and what
//! the outcomes of the external bring-up, tear-down and maintenance commands
//! mean for it and for its callers.
//!
//! Launching and waiting on the commands happens outside; the supervisor is
//! handed what came of them. The handle it keeps is bookkeeping only: it says
//! nothing of whether the stack is actually up.

use crate::error::ServiceError;
use vstd::prelude::*;

verus! {

/// The build tool that runs the stack's commands, from the project root.
pub const BUILD_TOOL: &'static str = "make";

/// Its verb that brings the stack up.
pub const UP_VERB: &'static str = "up";

/// Its verb that tears the stack down.
pub const DOWN_VERB: &'static str = "down";

/// Reply to a successful start.
pub open spec fn started_message() -> Seq<char> {
    "Services started successfully"@
}

/// Reply to a successful stop.
pub open spec fn stopped_message() -> Seq<char> {
    "Services stopped successfully"@
}

/// What a command that ran to completion reported.
pub struct CommandOutput {
    /// Whether it exited successfully.
    pub success: bool,
    /// Its standard output, as text.
    pub stdout: String,
    /// Its standard error, as text.
    pub stderr: String,
}

/// The reply, as text, that stopping gives for the tear-down's outcome `ran`
/// (`Err` where the command could not be launched).
pub open spec fn stop_reply(ran: Result<CommandOutput, String>) -> Result<Seq<char>, ServiceError> {
    match ran {
        Err(e) => Err(ServiceError::SpawnFailed(e)),
        Ok(out) => if out.success {
            Ok(stopped_message())
        } else {
            Err(ServiceError::ServiceCommandFailed { stderr: out.stderr })
        },
    }
}

/// The handle kept after stopping with outcome `ran`: cleared on success,
/// unchanged otherwise.
pub open spec fn handle_after_stop<H>(before: Option<H>, ran: Result<CommandOutput, String>) -> Option<H> {
    match ran {
        Ok(out) => if out.success { None } else { before },
        Err(_) => before,
    }
}

/// A reply with its message seen as text.
pub open spec fn reply_view(r: Result<String, ServiceError>) -> Result<Seq<char>, ServiceError> {
    match r {
        Ok(m) => Ok(m@),
        Err(e) => Err(e),
    }
}

/// Owner of the handle of the stack's bring-up process, `H`.
pub struct ServiceManager<H> {
    docker_process: Option<H>,
}

impl<H> ServiceManager<H> {
    /// The handle of the process that the latest successful start spawned,
    /// unless a successful stop came after it.
    pub closed spec fn handle(&self) -> Option<H> {
        self.docker_process
    }

    /// A supervisor that has started nothing.
    pub fn new() -> (r: Self)
        ensures
            r.handle() is None,
    {
        ServiceManager { docker_process: None }
    }

    /// Whether a started process is being kept.
    pub fn is_tracking(&self) -> (r: bool)
        ensures
            r == self.handle() is Some,
    {
        self.docker_process.is_some()
    }

    /// Takes the result of spawning the bring-up command. A spawned process
    /// replaces any earlier handle, which is not waited on; a failed spawn
    /// leaves the handle as it was.
    pub fn record_start(&mut self, spawned: Result<H, String>) -> (r: Result<String, ServiceError>)
        ensures
            match spawned {
                Ok(h) => final(self).handle() == Some(h) && reply_view(r) == Ok::<Seq<char>, ServiceError>(
                    started_message(),
                ),
                Err(e) => final(self).handle() == old(self).handle() && r == Err::<String, ServiceError>(
                    ServiceError::SpawnFailed(e),
                ),
            },
    {
        match spawned {
            Ok(child) => {
                self.docker_process = Some(child);
                proof {
                    reveal_strlit("Services started successfully");
                }
                Ok(String::from_str("Services started successfully"))
            },
            Err(e) => Err(ServiceError::SpawnFailed(e)),
        }
    }

    /// Takes the outcome of running the tear-down command to completion. The
    /// handle is cleared only where the command succeeded.
    pub fn record_stop(&mut self, ran: Result<CommandOutput, String>) -> (r: Result<String, ServiceError>)
        ensures
            reply_view(r) == stop_reply(ran),
            final(self).handle() == handle_after_stop(old(self).handle(), ran),
    {
        match ran {
            Err(e) => Err(ServiceError::SpawnFailed(e)),
            Ok(out) => {
                if out.success {
                    self.docker_process = None;
                    proof {
                        reveal_strlit("Services stopped successfully");
                    }
                    Ok(String::from_str("Services stopped successfully"))
                } else {
                    Err(ServiceError::ServiceCommandFailed { stderr: out.stderr })
                }
            },
        }
    }
}

/// Stopping a supervisor that has started nothing leaves it with no handle,
/// and its reply is fixed by the tear-down's outcome alone, whatever that is.
pub proof fn lemma_stop_without_start<H>(ran: Result<CommandOutput, String>, r: Result<String, ServiceError>)
    requires
        reply_view(r) == stop_reply(ran),
    ensures
        handle_after_stop::<H>(None, ran) is None,
        ran is Err ==> r == Err::<String, ServiceError>(ServiceError::SpawnFailed(ran->Err_0)),
        ran is Ok && ran->Ok_0.success ==> r is Ok && r->Ok_0@ == stopped_message(),
        ran is Ok && !ran->Ok_0.success ==> r == Err::<String, ServiceError>(
            ServiceError::ServiceCommandFailed { stderr: ran->Ok_0.stderr },
        ),
{
}

/// A successful stop clears what a successful start recorded; a failed stop
/// keeps it.
pub proof fn lemma_start_then_stop<H>(h: H, ran: Result<CommandOutput, String>)
    ensures
        ran is Ok && ran->Ok_0.success ==> handle_after_stop(Some(h), ran) is None,
        !(ran is Ok && ran->Ok_0.success) ==> handle_after_stop(Some(h), ran) == Some(h),
{
}

/// The reply of a maintenance command from its outcome `ran` (`Err` where it
/// could not be launched): its standard output where it succeeded, its
/// standard error inside `SetupCommandFailed` where it did not.
pub fn setup_result(ran: Result<CommandOutput, String>) -> (r: Result<String, ServiceError>)
    ensures
        match ran {
            Err(e) => r == Err::<String, ServiceError>(ServiceError::SpawnFailed(e)),
            Ok(out) => if out.success {
                r == Ok::<String, ServiceError>(out.stdout)
            } else {
                r == Err::<String, ServiceError>(ServiceError::SetupCommandFailed { stderr: out.stderr })
            },
        },
{
    match ran {
        Err(e) => Err(ServiceError::SpawnFailed(e)),
        Ok(out) => if out.success {
            Ok(out.stdout)
        } else {
            Err(ServiceError::SetupCommandFailed { stderr: out.stderr })
        },
    }
}

/// Whether the container runtime is installed, from probing its version:
/// `Ok(success)` where the probe ran, `Err` where it could not be launched.
pub fn runtime_installed(probe: Result<bool, String>) -> (r: bool)
    ensures
        r == (probe matches Ok(ok) && ok),
{
    match probe {
        Ok(ok) => ok,
        Err(_) => false,
    }
}

} // verus!
