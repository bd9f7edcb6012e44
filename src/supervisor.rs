//! Lifecycle of one bundled companion process ("sidecar").
//!
//! The supervisor makes decisions only. The host feeds it an [`Event`] for
//! everything that happened (a start was asked for, the executable was or was
//! not found, the process was spawned or exited, time passed) and performs the
//! [`Action`] it hands back (look the executable up, spawn it, ask it to
//! terminate, kill it). The whole behaviour is the spec function [`next`].
use vstd::prelude::*;

verus! {

/// Why a sidecar could not be brought up.
#[derive(Clone, Copy, Debug, PartialEq, Eq, Structural)]
pub enum StartupError {
    /// No bundled executable matches the current platform.
    Resolution,
    /// The operating system refused to create the process.
    Spawn,
}

/// Where the supervisor stands. A child is named by its process id.
#[derive(Clone, Copy, Debug, PartialEq, Eq, Structural)]
pub enum Phase {
    /// No child and no start under way.
    Idle,
    /// Waiting to learn whether the bundled executable exists.
    Resolving,
    /// Waiting for the spawn of the executable to succeed or fail.
    Spawning,
    /// The child runs; no exit of it has been reported.
    Running { child: u32 },
    /// The child was asked to stop and has not yet been seen to exit.
    /// `restart` holds when a start is due once it is gone; `killed` when the
    /// forced kill was already sent.
    Stopping { child: u32, waited_ms: u64, restart: bool, killed: bool },
}

/// What the host reports to the supervisor.
#[derive(Clone, Copy, Debug, PartialEq, Eq, Structural)]
pub enum Event {
    /// Someone asked for the sidecar to be started.
    StartRequested,
    /// The lookup of the bundled executable ended.
    Resolved { found: bool },
    /// The process was created.
    Spawned { child: u32 },
    /// The operating system refused to create the process.
    SpawnFailed,
    /// The process exited (or was reaped).
    ChildExited { child: u32 },
    /// Someone asked for the sidecar to be shut down.
    ShutdownRequested,
    /// Time went by while waiting.
    Tick { elapsed_ms: u64 },
}

/// What the supervisor asks the host to do.
#[derive(Clone, Copy, Debug, PartialEq, Eq, Structural)]
pub enum Action {
    /// Nothing to do.
    Nothing,
    /// Look up the platform's bundled executable and report `Resolved`.
    Resolve,
    /// Spawn the executable and report `Spawned` or `SpawnFailed`.
    Spawn,
    /// The start succeeded: the child runs.
    Started { child: u32 },
    /// The start failed; nothing runs.
    Failed { error: StartupError },
    /// Ask the child to terminate on its own.
    Terminate { child: u32 },
    /// Kill the child: the grace period is over.
    Kill { child: u32 },
    /// The child is gone and no start is due.
    Stopped,
}

/// `a + b`, held at `u64::MAX`.
pub open spec fn saturating_sum(a: u64, b: u64) -> u64 {
    if a as int + b as int > u64::MAX as int {
        u64::MAX
    } else {
        (a + b) as u64
    }
}

/// The child that the supervisor is answerable for in phase `p`, if any.
pub open spec fn owned_child(p: Phase) -> Option<u32> {
    match p {
        Phase::Running { child } => Some(child),
        Phase::Stopping { child, .. } => Some(child),
        _ => None,
    }
}

/// The transition function: the phase after event `e` in phase `p`, and the
/// action asked of the host, with a grace period of `grace_ms` milliseconds
/// between the request to terminate and the forced kill.
pub open spec fn next(p: Phase, grace_ms: u64, e: Event) -> (Phase, Action) {
    match (p, e) {
        (Phase::Idle, Event::StartRequested) => (Phase::Resolving, Action::Resolve),
        (Phase::Resolving, Event::Resolved { found }) => if found {
            (Phase::Spawning, Action::Spawn)
        } else {
            (Phase::Idle, Action::Failed { error: StartupError::Resolution })
        },
        (Phase::Spawning, Event::Spawned { child }) => (
            Phase::Running { child },
            Action::Started { child },
        ),
        (Phase::Spawning, Event::SpawnFailed) => (
            Phase::Idle,
            Action::Failed { error: StartupError::Spawn },
        ),
        (Phase::Running { child }, Event::StartRequested) => (
            Phase::Stopping { child, waited_ms: 0, restart: true, killed: false },
            Action::Terminate { child },
        ),
        (Phase::Running { child }, Event::ShutdownRequested) => (
            Phase::Stopping { child, waited_ms: 0, restart: false, killed: false },
            Action::Terminate { child },
        ),
        (Phase::Running { child }, Event::ChildExited { child: gone }) => if gone == child {
            (Phase::Idle, Action::Stopped)
        } else {
            (p, Action::Nothing)
        },
        (Phase::Stopping { child, waited_ms, restart, killed }, Event::StartRequested) => (
            Phase::Stopping { child, waited_ms, restart: true, killed },
            Action::Nothing,
        ),
        (Phase::Stopping { child, waited_ms, restart, killed }, Event::ShutdownRequested) => (
            Phase::Stopping { child, waited_ms, restart: false, killed },
            Action::Nothing,
        ),
        (Phase::Stopping { child, waited_ms, restart, killed }, Event::Tick { elapsed_ms }) => {
            let waited = saturating_sum(waited_ms, elapsed_ms);
            if !killed && waited >= grace_ms {
                (Phase::Stopping { child, waited_ms: waited, restart, killed: true }, Action::Kill { child })
            } else {
                (Phase::Stopping { child, waited_ms: waited, restart, killed }, Action::Nothing)
            }
        },
        (Phase::Stopping { child, restart, .. }, Event::ChildExited { child: gone }) => if gone
            == child {
            if restart {
                (Phase::Resolving, Action::Resolve)
            } else {
                (Phase::Idle, Action::Stopped)
            }
        } else {
            (p, Action::Nothing)
        },
        _ => (p, Action::Nothing),
    }
}

/// What a start came to, once it came to something: the running child, or
/// the error. `None` for an action that ends no start.
pub open spec fn outcome_of(a: Action) -> Option<Result<u32, StartupError>> {
    match a {
        Action::Started { child } => Some(Ok(child)),
        Action::Failed { error } => Some(Err(error)),
        _ => None,
    }
}

impl Action {
    /// What a start came to, as [`outcome_of`] says.
    pub fn outcome(&self) -> (r: Option<Result<u32, StartupError>>)
        ensures
            r == outcome_of(*self),
    {
        match *self {
            Action::Started { child } => Some(Ok(child)),
            Action::Failed { error } => Some(Err(error)),
            _ => None,
        }
    }
}

/// Decides the lifecycle of one sidecar process.
pub struct Supervisor {
    phase: Phase,
    grace_ms: u64,
}

impl Supervisor {
    /// The current phase.
    pub closed spec fn phase_of(&self) -> Phase {
        self.phase
    }

    /// The grace period, in milliseconds, between the request to terminate
    /// and the forced kill.
    pub closed spec fn grace_of(&self) -> u64 {
        self.grace_ms
    }

    /// A supervisor with no child, that waits `grace_ms` milliseconds after a
    /// request to terminate before it kills.
    pub fn new(grace_ms: u64) -> (r: Supervisor)
        ensures
            r.phase_of() == Phase::Idle,
            r.grace_of() == grace_ms,
    {
        Supervisor { phase: Phase::Idle, grace_ms }
    }

    /// The current phase.
    pub fn phase(&self) -> (r: Phase)
        ensures
            r == self.phase_of(),
    {
        self.phase
    }

    /// The grace period in milliseconds.
    pub fn grace_ms(&self) -> (r: u64)
        ensures
            r == self.grace_of(),
    {
        self.grace_ms
    }

    /// The child this supervisor is answerable for, if any.
    pub fn child(&self) -> (r: Option<u32>)
        ensures
            r == owned_child(self.phase_of()),
    {
        match self.phase {
            Phase::Running { child } => Some(child),
            Phase::Stopping { child, .. } => Some(child),
            _ => None,
        }
    }

    /// Takes in event `e`, moves to the next phase and returns what the host
    /// must do, both as [`next`] says.
    pub fn step(&mut self, e: Event) -> (a: Action)
        ensures
            (final(self).phase_of(), a) == next(old(self).phase_of(), old(self).grace_of(), e),
            final(self).grace_of() == old(self).grace_of(),
    {
        let (p, a) = transition(self.phase, self.grace_ms, e);
        self.phase = p;
        a
    }
}

/// `a + b`, held at `u64::MAX`.
fn add_saturating(a: u64, b: u64) -> (r: u64)
    ensures
        r == saturating_sum(a, b),
{
    if b > u64::MAX - a {
        u64::MAX
    } else {
        a + b
    }
}

/// The executable form of [`next`].
pub fn transition(p: Phase, grace_ms: u64, e: Event) -> (r: (Phase, Action))
    ensures
        r == next(p, grace_ms, e),
{
    match (p, e) {
        (Phase::Idle, Event::StartRequested) => (Phase::Resolving, Action::Resolve),
        (Phase::Resolving, Event::Resolved { found }) => if found {
            (Phase::Spawning, Action::Spawn)
        } else {
            (Phase::Idle, Action::Failed { error: StartupError::Resolution })
        },
        (Phase::Spawning, Event::Spawned { child }) => (
            Phase::Running { child },
            Action::Started { child },
        ),
        (Phase::Spawning, Event::SpawnFailed) => (
            Phase::Idle,
            Action::Failed { error: StartupError::Spawn },
        ),
        (Phase::Running { child }, Event::StartRequested) => (
            Phase::Stopping { child, waited_ms: 0, restart: true, killed: false },
            Action::Terminate { child },
        ),
        (Phase::Running { child }, Event::ShutdownRequested) => (
            Phase::Stopping { child, waited_ms: 0, restart: false, killed: false },
            Action::Terminate { child },
        ),
        (Phase::Running { child }, Event::ChildExited { child: gone }) => if gone == child {
            (Phase::Idle, Action::Stopped)
        } else {
            (p, Action::Nothing)
        },
        (Phase::Stopping { child, waited_ms, restart: _, killed }, Event::StartRequested) => (
            Phase::Stopping { child, waited_ms, restart: true, killed },
            Action::Nothing,
        ),
        (Phase::Stopping { child, waited_ms, restart: _, killed }, Event::ShutdownRequested) => (
            Phase::Stopping { child, waited_ms, restart: false, killed },
            Action::Nothing,
        ),
        (Phase::Stopping { child, waited_ms, restart, killed }, Event::Tick { elapsed_ms }) => {
            let waited = add_saturating(waited_ms, elapsed_ms);
            if !killed && waited >= grace_ms {
                (Phase::Stopping { child, waited_ms: waited, restart, killed: true }, Action::Kill { child })
            } else {
                (Phase::Stopping { child, waited_ms: waited, restart, killed }, Action::Nothing)
            }
        },
        (Phase::Stopping { child, restart, .. }, Event::ChildExited { child: gone }) => if gone
            == child {
            if restart {
                (Phase::Resolving, Action::Resolve)
            } else {
                (Phase::Idle, Action::Stopped)
            }
        } else {
            (p, Action::Nothing)
        },
        _ => (p, Action::Nothing),
    }
}

/// A start reports success only when the spawn it was waiting for succeeded,
/// and the child it reports is then the running one. After a start has been
/// asked for, the spawn step ends in a running child, a spawn failure, or
/// nothing yet: never in a reported child that is not running.
pub proof fn lemma_started_only_with_live_child(p: Phase, grace_ms: u64, e: Event, child: u32)
    ensures
        next(p, grace_ms, e).1 == (Action::Started { child }) ==> {
            &&& p == Phase::Spawning
            &&& e == (Event::Spawned { child })
            &&& next(p, grace_ms, e).0 == (Phase::Running { child })
        },
        p == Phase::Spawning ==> ({
            let (q, a) = next(p, grace_ms, e);
            ||| (a is Started && q == (Phase::Running { child: a->Started_child }))
            ||| (q == Phase::Idle && a == (Action::Failed { error: StartupError::Spawn }))
            ||| (q == p && a == Action::Nothing)
        }),
{
}

/// Once the child's exit is reported, the supervisor holds no child any more:
/// it never goes on presenting a process that is gone.
pub proof fn lemma_exit_releases_child(p: Phase, grace_ms: u64, child: u32)
    requires
        owned_child(p) == Some(child),
    ensures
        owned_child(next(p, grace_ms, Event::ChildExited { child }).0) is None,
{
}

/// With the bundled executable missing, a start from idle fails with a
/// resolution error in two steps, whatever the grace period; no spawn is ever
/// asked for and the supervisor is idle again.
pub proof fn lemma_missing_executable_fails(grace_ms: u64)
    ensures
        next(Phase::Idle, grace_ms, Event::StartRequested) == (Phase::Resolving, Action::Resolve),
        next(Phase::Resolving, grace_ms, Event::Resolved { found: false }) == (
            Phase::Idle,
            Action::Failed { error: StartupError::Resolution },
        ),
{
}

/// A child is never let go silently: the supervisor stops being answerable
/// for a child only on the report of that child's exit.
pub proof fn lemma_child_released_only_on_exit(p: Phase, grace_ms: u64, e: Event, child: u32)
    requires
        owned_child(p) == Some(child),
        owned_child(next(p, grace_ms, e).0) != Some(child),
    ensures
        e == (Event::ChildExited { child }),
{
}

/// A second start while a child runs tears the first child down before
/// anything else: it asks the child to terminate and keeps it until its exit,
/// after which the start goes ahead.
pub proof fn lemma_second_start_tears_down_first(grace_ms: u64, child: u32)
    ensures
        next(Phase::Running { child }, grace_ms, Event::StartRequested) == (
            Phase::Stopping { child, waited_ms: 0, restart: true, killed: false },
            Action::Terminate { child },
        ),
        next(
            Phase::Stopping { child, waited_ms: 0, restart: true, killed: false },
            grace_ms,
            Event::ChildExited { child },
        ) == (Phase::Resolving, Action::Resolve),
{
}

/// At most one child at a time: a spawn is asked for, and a new child taken
/// on, only when the supervisor holds no child.
pub proof fn lemma_one_child_at_a_time(p: Phase, grace_ms: u64, e: Event)
    ensures
        next(p, grace_ms, e).1 == Action::Spawn ==> owned_child(p) is None,
        owned_child(p) is None && owned_child(next(p, grace_ms, e).0) is Some ==> p
            == Phase::Spawning,
        owned_child(p) is Some && owned_child(next(p, grace_ms, e).0) is Some ==> owned_child(
            next(p, grace_ms, e).0,
        ) == owned_child(p),
{
}

/// Shutdown is bounded: while the child has not exited and no kill was sent,
/// the tick that brings the time waited to the grace period yields the kill,
/// and an earlier one yields nothing.
pub proof fn lemma_kill_after_grace(
    grace_ms: u64,
    child: u32,
    waited_ms: u64,
    restart: bool,
    elapsed_ms: u64,
)
    ensures
        ({
            let (q, a) = next(
                Phase::Stopping { child, waited_ms, restart, killed: false },
                grace_ms,
                Event::Tick { elapsed_ms },
            );
            &&& saturating_sum(waited_ms, elapsed_ms) >= grace_ms ==> a == (Action::Kill { child })
                && q == (Phase::Stopping {
                child,
                waited_ms: saturating_sum(waited_ms, elapsed_ms),
                restart,
                killed: true,
            })
            &&& saturating_sum(waited_ms, elapsed_ms) < grace_ms ==> a == Action::Nothing
        }),
{
}

} // verus!
