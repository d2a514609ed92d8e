//! The two roles of the executable and what each does on startup, as a state
//! machine: the program performs each action and reports what came of it.

use named_lock::{NamedLock, NamedLockGuard};
use vstd::prelude::*;

verus! {

/// `named_lock::NamedLock`: a named lock of the operating system, visible to
/// every process on the machine. Opaque here.
#[verifier::external_type_specification]
#[verifier::external_body]
pub struct ExNamedLock(NamedLock);

/// `named_lock::NamedLockGuard`: the token that holds a named lock; the lock
/// is released when it is dropped or the process ends. Opaque here.
#[verifier::external_type_specification]
#[verifier::external_body]
pub struct ExNamedLockGuard(NamedLockGuard);

/// `named_lock::Error`: why a named lock could not be created or taken.
/// Opaque here.
#[verifier::external_type_specification]
#[verifier::external_body]
pub struct ExLockError(named_lock::Error);

/// The role in which the executable was started.
#[derive(Clone, Copy, Debug, PartialEq, Eq, Structural)]
pub enum Role {
    /// The interactive control surface.
    Foreground,
    /// The long-lived monitoring service.
    Background,
}

/// What came of trying to take the service's named lock without waiting.
#[derive(Clone, Copy, Debug, PartialEq, Eq, Structural)]
pub enum LockOutcome {
    /// This process now holds the lock.
    Acquired,
    /// Another process holds it.
    WouldBlock,
    /// The operating system failed to create or take the lock.
    Failed,
}

/// What came of trying to take the service's named lock, with the token
/// where it was taken.
#[derive(Debug)]
pub enum Acquire {
    /// This process holds the lock for as long as it keeps the token.
    Held(NamedLockGuard),
    /// Another holder exists.
    WouldBlock,
    /// The lock could not be created or taken, for this cause.
    Failed(named_lock::Error),
}

/// Whether a text can name a lock: it is not empty and holds no NUL, slash or
/// backslash.
pub open spec fn valid_lock_name(name: Seq<char>) -> bool {
    &&& name.len() > 0
    &&& forall|i: int|
        0 <= i < name.len() ==> #[trigger] name[i] != '\0' && name[i] != '/' && name[i] != '\\'
}

/// The outcome that an attempt stands for.
pub open spec fn outcome_of(held: Acquire) -> LockOutcome {
    match held {
        Acquire::Held(_) => LockOutcome::Acquired,
        Acquire::WouldBlock => LockOutcome::WouldBlock,
        Acquire::Failed(_) => LockOutcome::Failed,
    }
}

/// Calls `named_lock::NamedLock::create`. Trusted: a name that is empty or
/// holds a NUL, a slash or a backslash is refused with an error. Whether a
/// valid name gets its lock depends on the operating system, so nothing is
/// said of it.
#[verifier::external_body]
fn create_lock(name: &str) -> (r: Result<NamedLock, named_lock::Error>)
    ensures
        !valid_lock_name(name@) ==> r is Err,
{
    NamedLock::create(name)
}

/// Calls `named_lock::NamedLock::try_lock`, which does not wait, and tells
/// its error for a lock that is held apart from every other error, which is
/// handed on as the cause. Nothing is said of the outcome: it depends on who
/// holds the lock.
#[verifier::external_body]
fn try_lock(lock: &NamedLock) -> (r: Acquire) {
    match lock.try_lock() {
        Ok(guard) => Acquire::Held(guard),
        Err(named_lock::Error::WouldBlock) => Acquire::WouldBlock,
        Err(cause) => Acquire::Failed(cause),
    }
}

impl Acquire {
    /// The outcome that this attempt stands for.
    pub fn outcome(&self) -> (r: LockOutcome)
        ensures
            r == outcome_of(*self),
    {
        match self {
            Acquire::Held(_) => LockOutcome::Acquired,
            Acquire::WouldBlock => LockOutcome::WouldBlock,
            Acquire::Failed(_) => LockOutcome::Failed,
        }
    }
}

/// Tries to take the lock of this name without waiting. A text that cannot
/// name a lock fails. For a valid name the operating system decides: the
/// caller gets the token, learns that another holder exists, or learns that
/// the attempt failed, and for what cause.
pub fn acquire(name: &str) -> (r: Acquire)
    ensures
        !valid_lock_name(name@) ==> r is Failed,
{
    match create_lock(name) {
        Ok(lock) => try_lock(&lock),
        Err(cause) => Acquire::Failed(cause),
    }
}

/// How the process ends.
#[derive(Clone, Copy, Debug, PartialEq, Eq, Structural)]
pub enum ExitStatus {
    Success,
    Failure,
}

/// Where a process stands in its lifecycle.
#[derive(Clone, Copy, Debug, PartialEq, Eq, Structural)]
pub enum State {
    /// Just started; the role is not known yet.
    Start,
    /// Background role, waiting for the outcome of the lock attempt.
    AwaitingLock,
    /// Background role, holding the lock, in the monitoring loop.
    Monitoring,
    /// Foreground role, waiting for the outcome of spawning the service.
    Spawning,
    /// Foreground role, running the control surface.
    Interface,
    /// Over.
    Finished(ExitStatus),
}

/// What the program reports to the supervisor.
#[derive(Clone, Copy, Debug, PartialEq, Eq, Structural)]
pub enum Event {
    /// The process was started in this role.
    Launched(Role),
    /// The lock attempt ended thus.
    Lock(LockOutcome),
    /// The monitoring loop returned, which it does only on a fatal error.
    LoopFailed,
    /// The attempt to spawn the background service ended; `true` on success.
    Spawned(bool),
    /// The control surface was closed.
    InterfaceClosed,
}

/// What the program is to do next.
#[derive(Clone, Copy, Debug, PartialEq, Eq, Structural)]
pub enum Action {
    /// Try to take the service's named lock, without waiting.
    AcquireLock,
    /// Enter the monitoring loop, keeping the lock.
    RunLoop,
    /// Spawn a detached process of this executable in the background role.
    SpawnService,
    /// Run the control surface.
    RunInterface,
    /// End the process with this status.
    Exit(ExitStatus),
    /// The event does not belong to this state: do nothing.
    Ignore,
}

/// The role that the service flag selects.
pub open spec fn role_for(service: bool) -> Role {
    if service {
        Role::Background
    } else {
        Role::Foreground
    }
}

/// The transition table: the state after `event` in `state`, and the action
/// that goes with it. An event that does not belong to the state leaves it
/// unchanged.
pub open spec fn next(state: State, event: Event) -> (State, Action) {
    match (state, event) {
        (State::Start, Event::Launched(Role::Background)) => (
            State::AwaitingLock,
            Action::AcquireLock,
        ),
        (State::Start, Event::Launched(Role::Foreground)) => (
            State::Spawning,
            Action::SpawnService,
        ),
        (State::AwaitingLock, Event::Lock(LockOutcome::Acquired)) => (
            State::Monitoring,
            Action::RunLoop,
        ),
        (State::AwaitingLock, Event::Lock(LockOutcome::WouldBlock)) => (
            State::Finished(ExitStatus::Success),
            Action::Exit(ExitStatus::Success),
        ),
        (State::AwaitingLock, Event::Lock(LockOutcome::Failed)) => (
            State::Finished(ExitStatus::Failure),
            Action::Exit(ExitStatus::Failure),
        ),
        (State::Monitoring, Event::LoopFailed) => (
            State::Finished(ExitStatus::Failure),
            Action::Exit(ExitStatus::Failure),
        ),
        (State::Spawning, Event::Spawned(_)) => (State::Interface, Action::RunInterface),
        (State::Interface, Event::InterfaceClosed) => (
            State::Finished(ExitStatus::Success),
            Action::Exit(ExitStatus::Success),
        ),
        _ => (state, Action::Ignore),
    }
}

/// The role that the service flag selects: background with it, foreground
/// without.
pub fn role_of(service: bool) -> (role: Role)
    ensures
        role == role_for(service),
{
    if service {
        Role::Background
    } else {
        Role::Foreground
    }
}

/// One step of the supervisor: the state after `event`, and what to do.
pub fn step(state: State, event: Event) -> (r: (State, Action))
    ensures
        r == next(state, event),
{
    match state {
        State::Start => match event {
            Event::Launched(role) => match role {
                Role::Background => (State::AwaitingLock, Action::AcquireLock),
                Role::Foreground => (State::Spawning, Action::SpawnService),
            },
            _ => (state, Action::Ignore),
        },
        State::AwaitingLock => match event {
            Event::Lock(outcome) => match outcome {
                LockOutcome::Acquired => (State::Monitoring, Action::RunLoop),
                LockOutcome::WouldBlock => finish(ExitStatus::Success),
                LockOutcome::Failed => finish(ExitStatus::Failure),
            },
            _ => (state, Action::Ignore),
        },
        State::Monitoring => match event {
            Event::LoopFailed => finish(ExitStatus::Failure),
            _ => (state, Action::Ignore),
        },
        State::Spawning => match event {
            Event::Spawned(_) => (State::Interface, Action::RunInterface),
            _ => (state, Action::Ignore),
        },
        State::Interface => match event {
            Event::InterfaceClosed => finish(ExitStatus::Success),
            _ => (state, Action::Ignore),
        },
        State::Finished(_) => (state, Action::Ignore),
    }
}

fn finish(status: ExitStatus) -> (r: (State, Action))
    ensures
        r == (State::Finished(status), Action::Exit(status)),
{
    (State::Finished(status), Action::Exit(status))
}

/// What a second launch of the foreground role asks of the running one.
#[derive(Clone, Copy, Debug, PartialEq, Eq, Structural)]
pub enum SecondLaunch {
    /// Bring the existing window to the front.
    Focus,
    /// No window was found: report it and go on.
    ReportMissing,
}

/// What the running foreground instance does when a second one is started:
/// focus its window where it has one, else report that none was found. It
/// never fails.
pub fn on_second_launch(window_found: bool) -> (r: SecondLaunch)
    ensures
        r == if window_found {
            SecondLaunch::Focus
        } else {
            SecondLaunch::ReportMissing
        },
{
    if window_found {
        SecondLaunch::Focus
    } else {
        SecondLaunch::ReportMissing
    }
}

/// The monitoring loop is entered in one way only: from waiting for the lock,
/// on the report that the lock was acquired. The state `Monitoring` is reached
/// from another state in that way only.
pub proof fn lemma_loop_needs_lock(state: State, event: Event)
    ensures
        next(state, event).1 == Action::RunLoop ==> state == State::AwaitingLock && event
            == Event::Lock(LockOutcome::Acquired),
        next(state, event).0 == State::Monitoring && state != State::Monitoring ==> state
            == State::AwaitingLock && event == Event::Lock(LockOutcome::Acquired),
{
}

/// A background process that finds the lock held ends at once, with success,
/// and does not enter the loop.
pub proof fn lemma_contention_exits_cleanly()
    ensures
        next(State::AwaitingLock, Event::Lock(LockOutcome::WouldBlock)) == (
            State::Finished(ExitStatus::Success),
            Action::Exit(ExitStatus::Success),
        ),
{
}

/// A failure to spawn the background service is never fatal: the control
/// surface runs whether or not the spawn succeeded.
pub proof fn lemma_spawn_failure_is_not_fatal(spawned: bool)
    ensures
        next(State::Spawning, Event::Spawned(spawned)) == (State::Interface, Action::RunInterface),
{
}

/// The foreground role never ends in failure: from its states no event leads
/// to a failed finish.
pub proof fn lemma_foreground_never_fails(state: State, event: Event)
    requires
        state == State::Spawning || state == State::Interface,
    ensures
        next(state, event).0 != State::Finished(ExitStatus::Failure),
        next(state, event).1 != Action::Exit(ExitStatus::Failure),
{
}

/// A finished process stays finished.
pub proof fn lemma_finished_is_final(status: ExitStatus, event: Event)
    ensures
        next(State::Finished(status), event) == (State::Finished(status), Action::Ignore),
{
}

} // verus!
