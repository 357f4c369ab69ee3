//! The operations that the user interface may invoke: kill the sidecar,
//! fetch the logs, copy the logs.
use vstd::prelude::*;
use vstd::string::*;

use crate::logs::{joined, LogCollector};

verus! {

/// Why a command failed.
#[derive(Debug)]
pub enum CommandError {
    /// The log state was never set up.
    StateUnavailable,
    /// The lock of the log state cannot be had.
    LockFailed,
    /// The clipboard refused the text, for the reason given.
    ClipboardRejected(String),
}

/// An error as plain values.
pub enum CommandFailure {
    StateUnavailable,
    LockFailed,
    ClipboardRejected(Seq<char>),
}

impl View for CommandError {
    type V = CommandFailure;

    open spec fn view(&self) -> CommandFailure {
        match *self {
            CommandError::StateUnavailable => CommandFailure::StateUnavailable,
            CommandError::LockFailed => CommandFailure::LockFailed,
            CommandError::ClipboardRejected(reason) => CommandFailure::ClipboardRejected(reason@),
        }
    }
}

/// What the caller found when it reached for the log state.
pub enum LogAccess<'a> {
    /// No log state was set up.
    Unavailable,
    /// The state is there, its lock is not to be had.
    Poisoned,
    /// The state is locked for this command.
    Held(&'a LogCollector),
}

/// The place that keeps the child process for the kill command.
#[derive(Debug)]
pub struct ServerState<H> {
    child: Option<H>,
}

impl<H> View for ServerState<H> {
    type V = Option<H>;

    closed spec fn view(&self) -> Option<H> {
        self.child
    }
}

/// What a kill command found and did.
#[derive(Debug)]
pub enum KillOutcome<H> {
    /// No server state was set up: nothing was launched yet.
    NotRunning,
    /// The state holds no child process: none was spawned, or it was
    /// killed before.
    StateMissing,
    /// The child process was taken out of the state; it is to be
    /// terminated.
    Killed(H),
}

/// The text that describes a failure.
pub open spec fn failure_text(failure: CommandFailure) -> Seq<char> {
    match failure {
        CommandFailure::StateUnavailable => "Log state not found"@,
        CommandFailure::LockFailed => "Failed to acquire log lock"@,
        CommandFailure::ClipboardRejected(reason) => "Failed to copy to clipboard: "@ + reason,
    }
}

/// What fetching the logs gives: the snapshot where the state is held,
/// else the failure that stands in the way.
pub open spec fn logs_spec(access: LogAccess<'_>) -> Result<Seq<char>, CommandFailure> {
    match access {
        LogAccess::Unavailable => Err(CommandFailure::StateUnavailable),
        LogAccess::Poisoned => Err(CommandFailure::LockFailed),
        LogAccess::Held(collector) => Ok(joined(collector@)),
    }
}

/// What the clipboard's answer means for the command.
pub open spec fn clipboard_spec(written: Result<(), Seq<char>>) -> Result<(), CommandFailure> {
    match written {
        Ok(_) => Ok(()),
        Err(reason) => Err(CommandFailure::ClipboardRejected(reason)),
    }
}

/// The child process that a kill command leaves in the state: none.
pub open spec fn child_after_kill<H>(child: Option<H>) -> Option<H> {
    None
}

/// What a kill command reports of a state that holds `child`.
pub open spec fn kill_outcome<H>(child: Option<H>) -> KillOutcome<H> {
    match child {
        Some(handle) => KillOutcome::Killed(handle),
        None => KillOutcome::StateMissing,
    }
}

/// Killing twice is killing once: the second command finds the state
/// empty, reports that and changes nothing.
pub proof fn lemma_kill_idempotent<H>(child: Option<H>)
    ensures
        kill_outcome(child_after_kill(child)) == KillOutcome::<H>::StateMissing,
        child_after_kill(child_after_kill(child)) == child_after_kill(child),
{
}

impl CommandError {
    /// The failure in words.
    pub fn message(&self) -> (r: String)
        ensures
            r@ == failure_text(self@),
    {
        match self {
            CommandError::StateUnavailable => String::from_str("Log state not found"),
            CommandError::LockFailed => String::from_str("Failed to acquire log lock"),
            CommandError::ClipboardRejected(reason) => {
                let mut text = String::from_str("Failed to copy to clipboard: ");
                text.append(reason.as_str());
                text
            },
        }
    }
}

impl<H> ServerState<H> {
    /// The state after a launch: it holds the child process, if one was
    /// spawned.
    pub fn new(child: Option<H>) -> (r: ServerState<H>)
        ensures
            r@ == child,
    {
        ServerState { child }
    }

    /// Whether a child process is held.
    pub fn is_running(&self) -> (r: bool)
        ensures
            r == (self@ is Some),
    {
        self.child.is_some()
    }

    /// Takes the child process out of the state.
    pub fn take(&mut self) -> (r: Option<H>)
        ensures
            r == old(self)@,
            final(self)@ is None,
    {
        self.child.take()
    }
}

impl<H> KillOutcome<H> {
    /// The line that a kill command writes to the diagnostic output.
    pub fn diagnostic(&self) -> (r: &'static str)
        ensures
            r@ == match *self {
                KillOutcome::NotRunning => "Server not running"@,
                KillOutcome::StateMissing => "Server state missing"@,
                KillOutcome::Killed(_) => "Killed server"@,
            },
    {
        match self {
            KillOutcome::NotRunning => "Server not running",
            KillOutcome::StateMissing => "Server state missing",
            KillOutcome::Killed(_) => "Killed server",
        }
    }
}

/// The kill command. Where a child process is held it is taken out of
/// the state and handed back to be terminated; a state that was never
/// set up and a state that holds nothing are reported and left alone.
pub fn kill_sidecar<H>(state: Option<&mut ServerState<H>>) -> (r: KillOutcome<H>)
    ensures
        match state {
            Some(server) => r == kill_outcome(server@) && final(server)@ == child_after_kill(
                server@,
            ),
            None => r == KillOutcome::<H>::NotRunning,
        },
{
    match state {
        Some(server) => match server.take() {
            Some(child) => KillOutcome::Killed(child),
            None => KillOutcome::StateMissing,
        },
        None => KillOutcome::NotRunning,
    }
}

/// The command that fetches the logs: the snapshot of the collector.
pub fn get_logs(access: LogAccess<'_>) -> (r: Result<String, CommandError>)
    ensures
        match r {
            Ok(text) => Ok(text@),
            Err(error) => Err(error@),
        } == logs_spec(access),
{
    match access {
        LogAccess::Unavailable => Err(CommandError::StateUnavailable),
        LogAccess::Poisoned => Err(CommandError::LockFailed),
        LogAccess::Held(collector) => Ok(collector.snapshot()),
    }
}

/// What the clipboard's answer means for the copy command.
pub fn clipboard_outcome(written: Result<(), String>) -> (r: Result<(), CommandError>)
    ensures
        match r {
            Ok(_) => Ok(()),
            Err(error) => Err(error@),
        } == clipboard_spec(
            match written {
                Ok(_) => Ok(()),
                Err(reason) => Err(reason@),
            },
        ),
{
    match written {
        Ok(_) => Ok(()),
        Err(reason) => Err(CommandError::ClipboardRejected(reason)),
    }
}

/// The command that copies the logs. The snapshot is handed to `write`,
/// which stands for the clipboard; where the log state is not to be had,
/// `write` is not called.
pub fn copy_logs_to_clipboard<F: FnOnce(String) -> Result<(), String>>(
    access: LogAccess<'_>,
    write: F,
) -> (r: Result<(), CommandError>)
    requires
        forall|text: String| write.requires((text,)),
    ensures
        match access {
            LogAccess::Unavailable => r matches Err(error) && error@
                == CommandFailure::StateUnavailable,
            LogAccess::Poisoned => r matches Err(error) && error@ == CommandFailure::LockFailed,
            LogAccess::Held(collector) => exists|text: String, written: Result<(), String>|
                {
                    &&& text@ == joined(collector@)
                    &&& #[trigger] write.ensures((text,), written)
                    &&& match r {
                        Ok(_) => Ok(()),
                        Err(error) => Err(error@),
                    } == clipboard_spec(
                        match written {
                            Ok(_) => Ok(()),
                            Err(reason) => Err(reason@),
                        },
                    )
                },
        },
{
    match get_logs(access) {
        Ok(text) => clipboard_outcome(write(text)),
        Err(error) => Err(error),
    }
}

} // verus!
