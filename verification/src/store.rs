//! The process handle store: the one place where the host keeps the handle of
//! a running sidecar, and the steps of launch, shutdown and exit over it.
//!
//! The store holds at most one handle. The host guards it with a lock and
//! calls the steps here while it holds that lock; spawning the child and
//! writing to its input are the host's work, whose outcome it hands back.

use vstd::prelude::*;
use crate::error::{store_inaccessible_text, SidecarError};
use crate::protocol::{shutdown_line, shutdown_line_text, sidecar_program, sidecar_program_text};

verus! {

/// What a start request has to do next.
#[derive(Debug, Clone, Copy, PartialEq, Eq)]
pub enum StartStep {
    /// A handle is tracked already: report success and spawn nothing.
    AlreadyRunning,
    /// No handle is tracked: spawn the child and register its handle.
    Spawn,
}

/// The store of the sidecar's handle. `H` is whatever the host uses to write
/// to the running child.
pub struct HandleStore<H> {
    slot: Option<H>,
}

/// The step that a start request takes on a store that holds `slot`.
pub open spec fn planned_start<H>(slot: Option<H>) -> StartStep {
    if slot is Some {
        StartStep::AlreadyRunning
    } else {
        StartStep::Spawn
    }
}

/// What the store holds once a spawn has ended in `spawned`: the new handle
/// if there is one, else what it held before.
pub open spec fn slot_after_spawn<H>(slot: Option<H>, spawned: Result<H, String>) -> Option<H> {
    match spawned {
        Ok(handle) => Some(handle),
        Err(_) => slot,
    }
}

/// What a start request reports once a spawn has ended in `spawned`.
pub open spec fn spawn_report<H>(spawned: Result<H, String>) -> Result<(), SidecarError> {
    match spawned {
        Ok(_) => Ok(()),
        Err(reason) => Err(SidecarError::Launch(reason)),
    }
}

/// What a shutdown request finds in a store that holds `slot`: the handle to
/// write to, or the failure of a request with nothing to shut down.
pub open spec fn shutdown_target<H>(slot: Option<H>) -> Result<H, SidecarError> {
    match slot {
        Some(handle) => Ok(handle),
        None => Err(SidecarError::NotRunning),
    }
}

/// What the store holds once the shutdown line written to `handle` has ended
/// in `written`: nothing after a successful write, the handle again after a
/// failed one.
pub open spec fn slot_after_write<H>(handle: H, written: Result<(), String>) -> Option<H> {
    match written {
        Ok(_) => None,
        Err(_) => Some(handle),
    }
}

/// What a shutdown request reports once its write has ended in `written`.
pub open spec fn write_report(written: Result<(), String>) -> Result<(), SidecarError> {
    match written {
        Ok(_) => Ok(()),
        Err(reason) => Err(SidecarError::Write(reason)),
    }
}

/// A whole start request on a store that holds `slot`: what the store holds
/// afterwards and what is reported. `spawned` is the outcome of the spawn; it
/// is looked at only where the request spawns.
pub open spec fn start_outcome<H>(slot: Option<H>, spawned: Result<H, String>) -> (
    Option<H>,
    Result<(), SidecarError>,
) {
    match planned_start(slot) {
        StartStep::AlreadyRunning => (slot, Ok(())),
        StartStep::Spawn => (slot_after_spawn(slot, spawned), spawn_report(spawned)),
    }
}

/// A whole shutdown request on a store that holds `slot`: what the store
/// holds afterwards and what is reported. `written` is the outcome of writing
/// the shutdown line; it is looked at only where there is a handle to write
/// to.
pub open spec fn shutdown_outcome<H>(slot: Option<H>, written: Result<(), String>) -> (
    Option<H>,
    Result<(), SidecarError>,
) {
    match shutdown_target(slot) {
        Ok(handle) => (slot_after_write(handle, written), write_report(written)),
        Err(error) => (None, Err(error)),
    }
}

impl<H> View for HandleStore<H> {
    type V = Option<H>;

    /// The tracked handle, if any.
    closed spec fn view(&self) -> Option<H> {
        self.slot
    }
}

impl<H> HandleStore<H> {
    /// A store that tracks nothing, as the host has it at startup.
    pub fn new() -> (store: Self)
        ensures
            store@ is None,
    {
        HandleStore { slot: None }
    }

    /// Whether a handle is tracked.
    pub fn is_running(&self) -> (running: bool)
        ensures
            running == (self@ is Some),
    {
        self.slot.is_some()
    }

    /// The tracked handle, if any.
    pub fn handle(&self) -> (handle: Option<&H>)
        ensures
            handle is Some == (self@ is Some),
            handle is Some ==> *handle->0 == self@->0,
    {
        self.slot.as_ref()
    }

    /// First step of a start request: decides whether a child is to be
    /// spawned. With a handle tracked the request is done, successfully, and
    /// the store stays as it is.
    pub fn plan_start(&self) -> (step: StartStep)
        ensures
            step == planned_start(self@),
    {
        if self.slot.is_some() {
            StartStep::AlreadyRunning
        } else {
            StartStep::Spawn
        }
    }

    /// Last step of a start request that spawned: registers the new handle and
    /// reports success, or reports the launch failure with the reason that the
    /// spawn gave and leaves the store as it was. A handle that was tracked
    /// before a successful spawn is replaced by the new one.
    pub fn finish_start(&mut self, spawned: Result<H, String>) -> (report: Result<(), SidecarError>)
        ensures
            final(self)@ == slot_after_spawn(old(self)@, spawned),
            report == spawn_report(spawned),
    {
        match spawned {
            Ok(handle) => {
                self.slot = Some(handle);
                Ok(())
            },
            Err(reason) => Err(SidecarError::Launch(reason)),
        }
    }

    /// First step of a shutdown request: takes the tracked handle out of the
    /// store for the shutdown line to be written to it. Fails, with the store
    /// still empty, exactly when nothing is tracked.
    pub fn begin_shutdown(&mut self) -> (target: Result<H, SidecarError>)
        ensures
            target == shutdown_target(old(self)@),
            final(self)@ is None,
    {
        match self.slot.take() {
            Some(handle) => Ok(handle),
            None => Err(SidecarError::NotRunning),
        }
    }

    /// Last step of a shutdown request: after a successful write the store
    /// stays empty and the request succeeds; after a failed one the handle
    /// goes back into the store, so that the request can be made again, and
    /// the failure is reported with the reason that the write gave.
    pub fn finish_shutdown(&mut self, handle: H, written: Result<(), String>) -> (report: Result<
        (),
        SidecarError,
    >)
        ensures
            final(self)@ == slot_after_write(handle, written),
            report == write_report(written),
    {
        match written {
            Ok(_) => {
                self.slot = None;
                Ok(())
            },
            Err(reason) => {
                self.slot = Some(handle);
                Err(SidecarError::Write(reason))
            },
        }
    }

    /// Last step of the exit hook: whatever became of the write, the handle is
    /// tracked again and nothing is reported.
    pub fn finish_exit(&mut self, handle: H, written: Result<(), String>)
        ensures
            final(self)@ == Some(handle),
    {
        self.slot = Some(handle);
    }

    /// A whole start request. With a handle in the store it succeeds at once,
    /// calls nothing and changes nothing. Otherwise it hands the name of the
    /// bundled executable to `spawn`, once, and registers the handle that
    /// comes back, or reports the launch failure.
    pub fn start<F>(&mut self, spawn: F) -> (report: Result<(), SidecarError>) where
        F: FnOnce(&'static str) -> Result<H, String>,

        requires
            forall|program: &'static str|
                old(self)@ is None && program@ == sidecar_program_text() ==> spawn.requires(
                    (program,),
                ),
        ensures
            old(self)@ is Some ==> final(self)@ == old(self)@ && report is Ok,
            old(self)@ is None ==> exists|program: &'static str, spawned: Result<H, String>|
                #![trigger spawn.ensures((program,), spawned)]
                program@ == sidecar_program_text() && spawn.ensures((program,), spawned)
                    && final(self)@ == start_outcome(old(self)@, spawned).0 && report
                    == start_outcome(old(self)@, spawned).1,
    {
        match self.plan_start() {
            StartStep::AlreadyRunning => Ok(()),
            StartStep::Spawn => {
                let program = sidecar_program();
                let spawned = spawn(program);
                let ghost outcome = spawned;
                let report = self.finish_start(spawned);
                proof {
                    assert(spawn.ensures((program,), outcome));
                    assert(self@ == start_outcome(old(self)@, outcome).0);
                    assert(report == start_outcome(old(self)@, outcome).1);
                }
                report
            },
        }
    }

    /// A whole shutdown request. With no handle in the store it fails at once
    /// and calls nothing. Otherwise it hands the handle and the shutdown line
    /// to `write`, once, which writes the line to the child's input and gives
    /// the handle back with the outcome; the store is then empty after a
    /// successful write and holds the handle again after a failed one.
    pub fn shutdown<W>(&mut self, write: W) -> (report: Result<(), SidecarError>) where
        W: FnOnce(H, &'static str) -> (H, Result<(), String>),

        requires
            forall|line: &'static str|
                old(self)@ is Some && line@ == shutdown_line_text() ==> write.requires(
                    (old(self)@->0, line),
                ),
        ensures
            old(self)@ is None ==> final(self)@ is None && report == Err::<(), SidecarError>(
                SidecarError::NotRunning,
            ),
            old(self)@ matches Some(handle) ==> exists|
                line: &'static str,
                back: H,
                written: Result<(), String>,
            |
                #![trigger write.ensures((handle, line), (back, written))]
                line@ == shutdown_line_text() && write.ensures((handle, line), (back, written))
                    && final(self)@ == shutdown_outcome(Some(back), written).0 && report
                    == shutdown_outcome(Some(back), written).1,
    {
        match self.begin_shutdown() {
            Err(error) => Err(error),
            Ok(handle) => {
                let ghost given = handle;
                let line = shutdown_line();
                let (back, written) = write(handle, line);
                let ghost returned = (back, written);
                let report = self.finish_shutdown(back, written);
                proof {
                    assert(write.ensures((given, line), returned));
                    assert(self@ == shutdown_outcome(Some(returned.0), returned.1).0);
                    assert(report == shutdown_outcome(Some(returned.0), returned.1).1);
                }
                report
            },
        }
    }

    /// The exit hook. With a handle in the store it hands the handle and the
    /// shutdown line to `write`, once, and keeps the handle whatever the write
    /// came to; nothing is reported. With no handle it does nothing.
    pub fn notify_exit<W>(&mut self, write: W) where
        W: FnOnce(H, &'static str) -> (H, Result<(), String>),

        requires
            forall|line: &'static str|
                old(self)@ is Some && line@ == shutdown_line_text() ==> write.requires(
                    (old(self)@->0, line),
                ),
        ensures
            old(self)@ is None ==> final(self)@ is None,
            old(self)@ matches Some(handle) ==> exists|
                line: &'static str,
                back: H,
                written: Result<(), String>,
            |
                #![trigger write.ensures((handle, line), (back, written))]
                line@ == shutdown_line_text() && write.ensures((handle, line), (back, written))
                    && final(self)@ == Some(back),
    {
        match self.begin_shutdown() {
            Err(_) => {},
            Ok(handle) => {
                let ghost given = handle;
                let line = shutdown_line();
                let (back, written) = write(handle, line);
                let ghost returned = (back, written);
                self.finish_exit(back, written);
                proof {
                    assert(write.ensures((given, line), returned));
                }
            },
        }
    }
}

/// A start request of a host that holds no store. The child is spawned all
/// the same; where that succeeds its handle is dropped, so the child runs
/// unmanaged, and the request fails because the store is inaccessible. Where
/// it fails the request fails with the reason that the spawn gave.
pub fn start_without_store<H>(spawned: Result<H, String>) -> (report: Result<(), SidecarError>)
    ensures
        match spawned {
            Ok(_) => report matches Err(SidecarError::Launch(reason)) && reason@
                == store_inaccessible_text(),
            Err(reason) => report == Err::<(), SidecarError>(SidecarError::Launch(reason)),
        },
{
    match spawned {
        Ok(_) => Err(SidecarError::store_inaccessible()),
        Err(reason) => Err(SidecarError::Launch(reason)),
    }
}

/// Starting is idempotent: once a start request has reported success, the
/// store holds exactly one handle, and a further start request, with no
/// shutdown in between, reports success too, spawns nothing and leaves that
/// handle in place, whatever a spawn would have given.
pub proof fn law_start_is_idempotent<H>(
    slot: Option<H>,
    spawned: Result<H, String>,
    again: Result<H, String>,
)
    requires
        start_outcome(slot, spawned).1 is Ok,
    ensures
        start_outcome(slot, spawned).0 is Some,
        planned_start(start_outcome(slot, spawned).0) == StartStep::AlreadyRunning,
        start_outcome(start_outcome(slot, spawned).0, again) == (
            start_outcome(slot, spawned).0,
            Ok::<(), SidecarError>(()),
        ),
{
}

/// A shutdown request whose write succeeds empties the store, and the next
/// shutdown request fails because nothing is running, whatever a write would
/// have given.
pub proof fn law_shutdown_success_empties_store<H>(
    handle: H,
    again: Result<(), String>,
)
    ensures
        shutdown_outcome(Some(handle), Ok(())) == (None::<H>, Ok::<(), SidecarError>(())),
        shutdown_outcome(shutdown_outcome(Some(handle), Ok(())).0, again) == (
            None::<H>,
            Err::<(), SidecarError>(SidecarError::NotRunning),
        ),
{
}

/// A shutdown request on an empty store fails because nothing is running and
/// leaves the store empty, whatever a write would have given.
pub proof fn law_shutdown_without_handle_fails<H>(written: Result<(), String>)
    ensures
        shutdown_outcome(None::<H>, written) == (
            None::<H>,
            Err::<(), SidecarError>(SidecarError::NotRunning),
        ),
{
}

/// A shutdown request whose write fails reports that failure and keeps the
/// handle, so that a following request whose write succeeds goes through and
/// empties the store.
pub proof fn law_failed_write_keeps_handle<H>(handle: H, reason: String)
    ensures
        shutdown_outcome(Some(handle), Err(reason)) == (
            Some(handle),
            Err::<(), SidecarError>(SidecarError::Write(reason)),
        ),
        shutdown_outcome(shutdown_outcome(Some(handle), Err(reason)).0, Ok(())) == (
            None::<H>,
            Ok::<(), SidecarError>(()),
        ),
{
}

} // verus!
