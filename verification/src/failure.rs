//! The kinds of failure that the lifecycle layer meets, and what each one
//! means for the process in which it happens.

use crate::settings::ConfigError;
use crate::supervisor::{LockOutcome, Role};
use vstd::prelude::*;

verus! {

/// A kind of failure.
#[derive(Clone, Copy, Debug, PartialEq, Eq, Structural)]
pub enum FailureKind {
    /// The settings file is missing or malformed.
    ConfigRead,
    /// The settings file could not be written.
    ConfigWrite,
    /// Another instance holds the service lock.
    LockContention,
    /// The operating system failed to create or take the service lock.
    LockAcquisition,
    /// The login launcher could not be enabled or disabled.
    AutostartToggle,
    /// The background service could not be spawned.
    Spawn,
}

/// What a process does about a failure.
#[derive(Clone, Copy, Debug, PartialEq, Eq, Structural)]
pub enum Handling {
    /// Go on with fresh default settings.
    FallBackToDefaults,
    /// Report the failure to the caller of the operation; the process goes on.
    ReportToCaller,
    /// Log the failure; the process goes on.
    LogAndContinue,
    /// End the process, silently and with success.
    ExitCleanly,
    /// End the process with failure.
    EndProcess,
}

/// The handling of each kind of failure. `in_command` tells a failure that
/// happens while a command of the control surface runs from one that happens
/// at startup: it matters for the login launcher only, whose failure goes to
/// the caller of a command but is merely logged at startup.
pub open spec fn handling_of(kind: FailureKind, in_command: bool) -> Handling {
    match kind {
        FailureKind::ConfigRead => Handling::FallBackToDefaults,
        FailureKind::ConfigWrite => Handling::ReportToCaller,
        FailureKind::LockContention => Handling::ExitCleanly,
        FailureKind::LockAcquisition => Handling::EndProcess,
        FailureKind::AutostartToggle => if in_command {
            Handling::ReportToCaller
        } else {
            Handling::LogAndContinue
        },
        FailureKind::Spawn => Handling::LogAndContinue,
    }
}

/// The kind of a storage failure: reads that find no file or no record are
/// read failures, a failed write is a write failure.
pub open spec fn kind_of_config(e: ConfigError) -> FailureKind {
    match e {
        ConfigError::NotFound(_) => FailureKind::ConfigRead,
        ConfigError::Parse(_) => FailureKind::ConfigRead,
        ConfigError::Io(_) => FailureKind::ConfigWrite,
    }
}

/// The kind of failure that a lock attempt stands for, if any.
pub open spec fn kind_of_lock(outcome: LockOutcome) -> Option<FailureKind> {
    match outcome {
        LockOutcome::Acquired => None,
        LockOutcome::WouldBlock => Some(FailureKind::LockContention),
        LockOutcome::Failed => Some(FailureKind::LockAcquisition),
    }
}

/// The roles in which a kind of failure can happen: the lock belongs to the
/// background role, everything else to the foreground role.
pub open spec fn happens_in(kind: FailureKind) -> Role {
    match kind {
        FailureKind::LockContention => Role::Background,
        FailureKind::LockAcquisition => Role::Background,
        _ => Role::Foreground,
    }
}

impl FailureKind {
    /// What the process does about a failure of this kind.
    pub fn handling(self, in_command: bool) -> (h: Handling)
        ensures
            h == handling_of(self, in_command),
    {
        match self {
            FailureKind::ConfigRead => Handling::FallBackToDefaults,
            FailureKind::ConfigWrite => Handling::ReportToCaller,
            FailureKind::LockContention => Handling::ExitCleanly,
            FailureKind::LockAcquisition => Handling::EndProcess,
            FailureKind::AutostartToggle => {
                if in_command {
                    Handling::ReportToCaller
                } else {
                    Handling::LogAndContinue
                }
            },
            FailureKind::Spawn => Handling::LogAndContinue,
        }
    }

    /// The kind of a storage failure.
    pub fn of_config(e: &ConfigError) -> (k: FailureKind)
        ensures
            k == kind_of_config(*e),
    {
        match e {
            ConfigError::NotFound(_) => FailureKind::ConfigRead,
            ConfigError::Parse(_) => FailureKind::ConfigRead,
            ConfigError::Io(_) => FailureKind::ConfigWrite,
        }
    }

    /// The kind of failure that a lock attempt stands for, if any.
    pub fn of_lock(outcome: LockOutcome) -> (k: Option<FailureKind>)
        ensures
            k == kind_of_lock(outcome),
    {
        match outcome {
            LockOutcome::Acquired => None,
            LockOutcome::WouldBlock => Some(FailureKind::LockContention),
            LockOutcome::Failed => Some(FailureKind::LockAcquisition),
        }
    }
}

/// No failure ends the foreground process: the only kind that ends a process
/// with failure is a failed lock acquisition, which belongs to the background
/// role, and the only kinds that end a process at all are the two of the lock.
pub proof fn lemma_foreground_survives(kind: FailureKind, in_command: bool)
    ensures
        handling_of(kind, in_command) == Handling::EndProcess <==> kind
            == FailureKind::LockAcquisition,
        handling_of(kind, in_command) == Handling::ExitCleanly <==> kind
            == FailureKind::LockContention,
        happens_in(kind) == Role::Foreground ==> handling_of(kind, in_command)
            != Handling::EndProcess && handling_of(kind, in_command) != Handling::ExitCleanly,
{
}

/// The handling of a lock attempt agrees with the supervisor: contention ends
/// the process cleanly, a failed acquisition ends it with failure.
pub proof fn lemma_lock_handling_matches_supervisor(outcome: LockOutcome)
    ensures
        match kind_of_lock(outcome) {
            None => crate::supervisor::next(
                crate::supervisor::State::AwaitingLock,
                crate::supervisor::Event::Lock(outcome),
            ).0 == crate::supervisor::State::Monitoring,
            Some(kind) => crate::supervisor::next(
                crate::supervisor::State::AwaitingLock,
                crate::supervisor::Event::Lock(outcome),
            ).0 == crate::supervisor::State::Finished(
                if handling_of(kind, false) == Handling::ExitCleanly {
                    crate::supervisor::ExitStatus::Success
                } else {
                    crate::supervisor::ExitStatus::Failure
                },
            ),
        },
{
}

} // verus!
