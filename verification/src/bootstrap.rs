//! The startup routine that locates and launches the bundled backend
//! executable, reduced to its decisions. The unverified shell performs the
//! two outside steps — resolving the resource identifier against its install
//! layout, and asking the operating system to spawn the resolved path with
//! both output streams discarded — and reports each outcome here. Both
//! failures are fatal by design: a shell without a backend is not viable, so
//! there is no retry and no degraded mode.

use vstd::prelude::*;

verus! {

/// Why startup must abort: the backend executable could not be located, or
/// the operating system refused or failed to start it.
#[derive(Clone, Copy, Debug, PartialEq, Eq, Structural)]
pub enum BootError {
    ResourcePathUnresolved,
    SpawnFailed,
}

/// How far startup has come. `NotStarted` until the backend's path resolves,
/// `Resolved` once it has, `Spawned` once the one spawn has succeeded. A
/// failed step leaves the phase where it was: startup aborts instead of
/// going on, so no later phase is reached.
#[derive(Clone, Copy, Debug, PartialEq, Eq, Structural)]
pub enum BootPhase {
    NotStarted,
    Resolved,
    Spawned,
}

/// The logical name under which the backend executable is bundled, to be
/// resolved against the shell's resource directory for the current platform
/// and install mode.
pub open spec fn backend_resource_id() -> Seq<char> {
    "bin/flask-backend"@
}

/// What the resolution step decides, given whether the shell could resolve
/// the identifier to a path: the path goes on to the spawn step, and a miss
/// is the fatal unresolved-path error.
pub open spec fn resolution_outcome(resolved: Option<Seq<char>>) -> Result<Seq<char>, BootError> {
    match resolved {
        Some(path) => Ok(path),
        None => Err(BootError::ResourcePathUnresolved),
    }
}

/// The phase after the resolution step, which starts from `NotStarted`.
pub open spec fn phase_after_resolution(resolved: Option<Seq<char>>) -> BootPhase {
    if resolved is Some {
        BootPhase::Resolved
    } else {
        BootPhase::NotStarted
    }
}

/// What the spawn step decides, given whether the operating system started
/// the process: failure is the fatal spawn error.
pub open spec fn spawn_outcome(spawn_ok: bool) -> Result<(), BootError> {
    if spawn_ok {
        Ok(())
    } else {
        Err(BootError::SpawnFailed)
    }
}

/// The phase after the spawn step, which starts from `Resolved`.
pub open spec fn phase_after_spawn(spawn_ok: bool) -> BootPhase {
    if spawn_ok {
        BootPhase::Spawned
    } else {
        BootPhase::Resolved
    }
}

/// The outcome of one whole startup run, given how the two outside steps
/// went: resolution is decided first, and the spawn step is reached only
/// when a path resolved.
pub open spec fn bootstrap_outcome(resolved: Option<Seq<char>>, spawn_ok: bool) -> Result<
    (),
    BootError,
> {
    match resolved {
        None => Err(BootError::ResourcePathUnresolved),
        Some(_) => spawn_outcome(spawn_ok),
    }
}

/// The phase a whole startup run ends in.
pub open spec fn final_boot_phase(resolved: Option<Seq<char>>, spawn_ok: bool) -> BootPhase {
    match resolved {
        None => BootPhase::NotStarted,
        Some(_) => phase_after_spawn(spawn_ok),
    }
}

/// The identifier the shell must resolve to find the backend executable.
pub fn backend_resource_identifier() -> (r: String)
    ensures
        r@ == backend_resource_id(),
{
    String::from_str("bin/flask-backend")
}

/// The startup routine, holding only its phase. The shell drives it through
/// one resolution step and, when that succeeds, one spawn step; each step
/// says what the shell must do next or why startup must abort.
pub struct Bootstrapper {
    phase: BootPhase,
}

impl Bootstrapper {
    /// The phase the bootstrapper is in.
    pub closed spec fn phase(&self) -> BootPhase {
        self.phase
    }

    /// A bootstrapper that has done nothing yet.
    pub fn new() -> (b: Bootstrapper)
        ensures
            b.phase() == BootPhase::NotStarted,
    {
        Bootstrapper { phase: BootPhase::NotStarted }
    }

    /// The phase, readable by the shell so it can keep the steps in order.
    pub fn current_phase(&self) -> (p: BootPhase)
        ensures
            p == self.phase(),
    {
        self.phase
    }

    /// Takes the outcome of the shell's path resolution. A resolved path is
    /// handed back for the spawn step and the phase advances to `Resolved`;
    /// a miss is the fatal unresolved-path error and the phase stays put.
    pub fn on_resolution(&mut self, resolved: Option<String>) -> (r: Result<String, BootError>)
        requires
            old(self).phase() == BootPhase::NotStarted,
        ensures
            final(self).phase() == phase_after_resolution(resolved.deep_view()),
            (match r {
                Ok(path) => resolution_outcome(resolved.deep_view()) == Ok::<
                    Seq<char>,
                    BootError,
                >(path@),
                Err(e) => resolution_outcome(resolved.deep_view()) == Err::<
                    Seq<char>,
                    BootError,
                >(e),
            }),
    {
        match resolved {
            Some(path) => {
                self.phase = BootPhase::Resolved;
                Ok(path)
            },
            None => Err(BootError::ResourcePathUnresolved),
        }
    }

    /// Takes the outcome of the shell's one spawn attempt on the resolved
    /// path. Success ends startup in the `Spawned` phase; failure is the
    /// fatal spawn error and the phase stays at `Resolved`.
    pub fn on_spawn(&mut self, spawn_ok: bool) -> (r: Result<(), BootError>)
        requires
            old(self).phase() == BootPhase::Resolved,
        ensures
            final(self).phase() == phase_after_spawn(spawn_ok),
            r == spawn_outcome(spawn_ok),
    {
        if spawn_ok {
            self.phase = BootPhase::Spawned;
            Ok(())
        } else {
            Err(BootError::SpawnFailed)
        }
    }
}

impl BootError {
    /// The diagnostic text each error aborts startup with.
    pub open spec fn message_spec(&self) -> Seq<char> {
        match *self {
            BootError::ResourcePathUnresolved => "Failed to resolve resource path"@,
            BootError::SpawnFailed => "Failed to launch Flask backend"@,
        }
    }

    /// The diagnostic the shell prints when it aborts startup on this error.
    pub fn message(&self) -> (r: String)
        ensures
            r@ == self.message_spec(),
    {
        match *self {
            BootError::ResourcePathUnresolved => String::from_str(
                "Failed to resolve resource path",
            ),
            BootError::SpawnFailed => String::from_str("Failed to launch Flask backend"),
        }
    }
}

/// Law: a startup run ends in the `Spawned` phase exactly when it reports
/// success, and it reports success exactly when the path resolved and the one
/// spawn that follows succeeded — so one run asks for at most one spawn, and
/// exactly one when it succeeds.
pub proof fn lemma_spawned_iff_run_succeeds(resolved: Option<Seq<char>>, spawn_ok: bool)
    ensures
        (final_boot_phase(resolved, spawn_ok) == BootPhase::Spawned) <==> bootstrap_outcome(
            resolved,
            spawn_ok,
        ) is Ok,
        bootstrap_outcome(resolved, spawn_ok) is Ok <==> (resolved is Some && spawn_ok),
{
}

/// Law: when the resource path does not resolve, startup fails with the
/// unresolved-path error and never reaches the `Spawned` phase, whatever a
/// spawn attempt would have done: there is no way to continue past a missing
/// backend.
pub proof fn lemma_unresolved_path_is_fatal(spawn_ok: bool)
    ensures
        bootstrap_outcome(None, spawn_ok) == Err::<(), BootError>(
            BootError::ResourcePathUnresolved,
        ),
        final_boot_phase(None, spawn_ok) != BootPhase::Spawned,
{
}

/// Law: when the path resolved but the spawn fails, startup fails with the
/// spawn error and never reaches the `Spawned` phase.
pub proof fn lemma_failed_spawn_is_fatal(path: Seq<char>)
    ensures
        bootstrap_outcome(Some(path), false) == Err::<(), BootError>(BootError::SpawnFailed),
        final_boot_phase(Some(path), false) != BootPhase::Spawned,
{
}

} // verus!
