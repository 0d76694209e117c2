use vstd::prelude::*;

verus! {

/// Why an operation of the supervisor failed.
#[derive(Debug, PartialEq, Eq)]
pub enum SupervisorError {
    /// `start` found a worker in the slot and spawned nothing.
    AlreadyRunning,
    /// `stop` found the slot empty and did nothing.
    NotRunning,
    /// The OS could not create the worker; the slot stays empty.
    SpawnFailed(String),
    /// The termination signal could not be delivered; the handle was dropped.
    TerminateFailed(String),
    /// The signal was delivered but confirming the exit failed.
    WaitFailed(String),
    /// The liveness poll failed; the slot is left as it was.
    CheckFailed(String),
}

/// What `status` reports about the worker.
#[derive(Debug, Clone, Copy, PartialEq, Eq)]
pub enum WorkerStatus {
    Running,
    Stopped,
}

/// A spawned worker: the platform handle and the identifier the OS gave it.
pub struct Process<H> {
    pub handle: H,
    pub pid: u32,
}

/// The next thing a `status` call does once the slot has been looked at.
pub enum StatusStep<H> {
    /// The slot was empty: report this and ask nothing of the OS.
    Report(WorkerStatus),
    /// The slot held this worker: poll it without blocking, then hand it
    /// back to `finish_status`.
    Poll(Process<H>),
}

/// The single slot for the one worker process.
///
/// Each operation is split where the OS has to be asked something: the
/// supervisor decides, the caller performs the spawn, the signal, the reap or
/// the poll, and hands the answer back. The caller holds one lock around the
/// whole operation, so no other caller sees the slot in between.
pub struct Supervisor<H> {
    slot: Option<Process<H>>,
}

// The model: the slot as the identifier of the worker it holds, if any, and
// what each operation answers and leaves behind, given what the OS answered.

/// Identifier of a spawned worker, or the reason the spawn failed.
pub open spec fn spawned_pid<H>(spawned: Result<Process<H>, String>) -> Result<u32, String> {
    match spawned {
        Ok(p) => Ok(p.pid),
        Err(e) => Err(e),
    }
}

pub open spec fn start_reply(s: Option<u32>, spawned: Result<u32, String>) -> Result<
    u32,
    SupervisorError,
> {
    match s {
        Some(_) => Err(SupervisorError::AlreadyRunning),
        None => match spawned {
            Ok(pid) => Ok(pid),
            Err(e) => Err(SupervisorError::SpawnFailed(e)),
        },
    }
}

pub open spec fn start_next(s: Option<u32>, spawned: Result<u32, String>) -> Option<u32> {
    match s {
        Some(_) => s,
        None => match spawned {
            Ok(pid) => Some(pid),
            Err(_) => None,
        },
    }
}

/// `terminated` is the answer to the termination signal; `reaped` the answer
/// to the wait, consulted only after the signal was delivered.
pub open spec fn stop_reply(
    s: Option<u32>,
    terminated: Result<(), String>,
    reaped: Result<(), String>,
) -> Result<(), SupervisorError> {
    match s {
        None => Err(SupervisorError::NotRunning),
        Some(_) => match terminated {
            Err(e) => Err(SupervisorError::TerminateFailed(e)),
            Ok(()) => match reaped {
                Err(e) => Err(SupervisorError::WaitFailed(e)),
                Ok(()) => Ok(()),
            },
        },
    }
}

/// Whatever happens, `stop` leaves the slot empty.
pub open spec fn stop_next(s: Option<u32>) -> Option<u32> {
    None
}

/// `polled` is the answer of the liveness poll: `Ok(true)` when the worker
/// has exited.
pub open spec fn status_reply(s: Option<u32>, polled: Result<bool, String>) -> Result<
    WorkerStatus,
    SupervisorError,
> {
    match s {
        None => Ok(WorkerStatus::Stopped),
        Some(_) => match polled {
            Ok(true) => Ok(WorkerStatus::Stopped),
            Ok(false) => Ok(WorkerStatus::Running),
            Err(e) => Err(SupervisorError::CheckFailed(e)),
        },
    }
}

pub open spec fn status_next(s: Option<u32>, polled: Result<bool, String>) -> Option<u32> {
    match s {
        None => None,
        Some(_) => match polled {
            Ok(true) => None,
            _ => s,
        },
    }
}

impl<H> Supervisor<H> {
    /// The worker held in the slot, handle included.
    pub closed spec fn held(&self) -> Option<Process<H>> {
        self.slot
    }

    /// The slot as the identifier of the worker it holds.
    pub open spec fn view(&self) -> Option<u32> {
        match self.held() {
            Some(p) => Some(p.pid),
            None => None,
        }
    }

    /// An empty slot.
    pub fn new() -> (r: Self)
        ensures
            r.held() is None,
            r@ == None::<u32>,
    {
        Supervisor { slot: None }
    }

    /// The identifier of the worker in the slot, if any.
    pub fn pid(&self) -> (r: Option<u32>)
        ensures
            r == self@,
    {
        match &self.slot {
            Some(p) => Some(p.pid),
            None => None,
        }
    }

    /// Whether the slot holds a worker.
    pub fn is_occupied(&self) -> (r: bool)
        ensures
            r == self@.is_some(),
    {
        self.slot.is_some()
    }

    /// First half of `start`: `Ok(())` means the slot is empty and the caller
    /// is to spawn the worker; an occupied slot refuses without spawning.
    pub fn check_start(&self) -> (r: Result<(), SupervisorError>)
        ensures
            r == (if self@.is_some() {
                Err(SupervisorError::AlreadyRunning)
            } else {
                Ok::<(), SupervisorError>(())
            }),
    {
        if self.slot.is_some() {
            Err(SupervisorError::AlreadyRunning)
        } else {
            Ok(())
        }
    }

    /// Second half of `start`: keeps the spawned worker and returns its
    /// identifier, or reports the spawn failure and leaves the slot empty.
    pub fn record_spawn(&mut self, spawned: Result<Process<H>, String>) -> (r: Result<
        u32,
        SupervisorError,
    >)
        requires
            old(self)@ is None,
        ensures
            r == start_reply(old(self)@, spawned_pid(spawned)),
            final(self)@ == start_next(old(self)@, spawned_pid(spawned)),
            final(self).held() == (match spawned {
                Ok(p) => Some(p),
                Err(_) => None::<Process<H>>,
            }),
    {
        match spawned {
            Ok(p) => {
                let pid = p.pid;
                self.slot = Some(p);
                Ok(pid)
            },
            Err(e) => Err(SupervisorError::SpawnFailed(e)),
        }
    }

    /// First half of `stop`: removes the worker from the slot before anything
    /// is done to it, so the slot is empty whatever follows. An empty slot
    /// gives `NotRunning` and no handle to act on.
    pub fn claim_for_stop(&mut self) -> (r: Result<Process<H>, SupervisorError>)
        ensures
            final(self).held() is None,
            final(self)@ == stop_next(old(self)@),
            r == (match old(self).held() {
                Some(p) => Ok(p),
                None => Err::<Process<H>, SupervisorError>(SupervisorError::NotRunning),
            }),
    {
        match self.slot.take() {
            Some(p) => Ok(p),
            None => Err(SupervisorError::NotRunning),
        }
    }

    /// First half of `status`: an empty slot reports `Stopped` at once; an
    /// occupied one hands its worker out to be polled.
    pub fn begin_status(&mut self) -> (r: StatusStep<H>)
        ensures
            final(self).held() is None,
            r == (match old(self).held() {
                Some(p) => StatusStep::Poll(p),
                None => StatusStep::<H>::Report(WorkerStatus::Stopped),
            }),
    {
        match self.slot.take() {
            Some(p) => StatusStep::Poll(p),
            None => StatusStep::Report(WorkerStatus::Stopped),
        }
    }

    /// Second half of `status`: given the worker handed out by `begin_status`
    /// and the answer of its poll, drops it if it has exited and otherwise
    /// puts it back.
    pub fn finish_status(&mut self, process: Process<H>, polled: Result<bool, String>) -> (r: Result<
        WorkerStatus,
        SupervisorError,
    >)
        requires
            old(self).held() is None,
        ensures
            r == status_reply(Some(process.pid), polled),
            final(self)@ == status_next(Some(process.pid), polled),
            final(self).held() == (if polled == Ok::<bool, String>(true) {
                None::<Process<H>>
            } else {
                Some(process)
            }),
    {
        match polled {
            Ok(true) => Ok(WorkerStatus::Stopped),
            Ok(false) => {
                self.slot = Some(process);
                Ok(WorkerStatus::Running)
            },
            Err(e) => {
                self.slot = Some(process);
                Err(SupervisorError::CheckFailed(e))
            },
        }
    }
}

/// Middle of `stop`: the answer to the termination signal. `Ok(())` means the
/// signal was delivered and the caller is to wait for the exit.
pub fn terminate_result(terminated: Result<(), String>) -> (r: Result<(), SupervisorError>)
    ensures
        r == (match terminated {
            Ok(()) => Ok(()),
            Err(e) => Err(SupervisorError::TerminateFailed(e)),
        }),
{
    match terminated {
        Ok(()) => Ok(()),
        Err(e) => Err(SupervisorError::TerminateFailed(e)),
    }
}

/// End of `stop`: the answer to the wait that reaps the terminated worker.
pub fn reap_result(reaped: Result<(), String>) -> (r: Result<(), SupervisorError>)
    ensures
        r == (match reaped {
            Ok(()) => Ok(()),
            Err(e) => Err(SupervisorError::WaitFailed(e)),
        }),
{
    match reaped {
        Ok(()) => Ok(()),
        Err(e) => Err(SupervisorError::WaitFailed(e)),
    }
}

} // verus!
