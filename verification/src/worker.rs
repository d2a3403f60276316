//! The worker subsystem: the supervisor of the single external worker
//! subprocess, and the protocol client that speaks the half-duplex
//! request/response protocol with it.
//!
//! The subsystem is a state machine.  The host performs the outside work of
//! each step — spawning the process, draining its output, connecting the
//! link, sending a frame — and feeds the outcome back in as an event; the
//! functions here decide every transition.  At most one worker may exist at
//! a time: a second start is an error, not a restart.  Stopping when no
//! worker runs is a no-op, not an error.

use vstd::prelude::*;
use vstd::string::{StrSliceExecFns, StringExecFns};

use crate::numtext::{dec_seq, dec_string};

verus! {

/// Where the worker subsystem stands in its lifecycle.
#[derive(PartialEq, Eq, Structural, Clone, Copy, Debug)]
pub enum WorkerPhase {
    /// No worker process exists.
    Idle,
    /// A start was requested; the process is being spawned.
    Launching,
    /// The process was spawned; its readiness signal is awaited.
    AwaitingReady,
    /// The process signaled readiness; the link is being connected.
    Connecting,
    /// The link is up: calls may be made.
    Running,
}

/// The worker subsystem: lifecycle phase, the port the worker serves on,
/// and the process-wide request-identifier counter.
pub struct WorkerSystem {
    pub phase: WorkerPhase,
    pub port: u16,
    pub counter: u64,
}

/// An error of the worker lifecycle, surfaced to the caller of a start or
/// stop command.
#[derive(Debug)]
pub enum WorkerError {
    /// A start was requested while a worker already exists.
    AlreadyRunning,
    /// The worker executable could not be spawned.
    SpawnFailed(String),
    /// The readiness signal did not arrive within the allowed time.
    ReadyTimeout,
    /// The worker's output ended before it signaled readiness.
    ReadySignalLost,
    /// The link to the ready worker could not be connected.
    ConnectFailed(String),
}

impl WorkerError {
    /// The error text, as handed to the caller of a lifecycle command.
    pub open spec fn spec_message(&self) -> Seq<char> {
        match self {
            WorkerError::AlreadyRunning => "DeepFace server already started"@,
            WorkerError::SpawnFailed(d) => "Failed to start deepface_cli: "@ + d@,
            WorkerError::ReadyTimeout => "Timeout waiting for DeepFace to start"@,
            WorkerError::ReadySignalLost => "DeepFace startup signal failed"@,
            WorkerError::ConnectFailed(d) => "Failed to connect WS: "@ + d@,
        }
    }

    /// The error text, as handed to the caller of a lifecycle command.
    pub fn message(&self) -> (r: String)
        ensures
            r@ == self.spec_message(),
    {
        match self {
            WorkerError::AlreadyRunning => String::from_str("DeepFace server already started"),
            WorkerError::SpawnFailed(d) => {
                let mut s = String::from_str("Failed to start deepface_cli: ");
                s.append(d.as_str());
                s
            },
            WorkerError::ReadyTimeout => String::from_str("Timeout waiting for DeepFace to start"),
            WorkerError::ReadySignalLost => String::from_str("DeepFace startup signal failed"),
            WorkerError::ConnectFailed(d) => {
                let mut s = String::from_str("Failed to connect WS: ");
                s.append(d.as_str());
                s
            },
        }
    }
}

/// What the host must do to launch the worker: the executable's path
/// relative to the host's own executable directory, the arguments to pass,
/// and how long to wait for readiness.  The working directory is the
/// executable's own directory.
#[derive(Debug)]
pub struct LaunchPlan {
    pub exe_rel_path: Vec<String>,
    pub args: Vec<String>,
    pub ready_timeout_secs: u64,
}

/// The plan `begin_start` hands out: run `binaries/deepface_cli/
/// deepface_cli.exe` with the fixed `serve` sub-mode, the loopback host and
/// the given port, and allow sixty seconds for readiness.
pub open spec fn launch_plan_ok(p: LaunchPlan, port: u16) -> bool {
    &&& p.exe_rel_path@.len() == 3
    &&& p.exe_rel_path@[0]@ == "binaries"@
    &&& p.exe_rel_path@[1]@ == "deepface_cli"@
    &&& p.exe_rel_path@[2]@ == "deepface_cli.exe"@
    &&& p.args@.len() == 5
    &&& p.args@[0]@ == "serve"@
    &&& p.args@[1]@ == "--host"@
    &&& p.args@[2]@ == "127.0.0.1"@
    &&& p.args@[3]@ == "--port"@
    &&& p.args@[4]@ == dec_seq(port as nat)
    &&& p.ready_timeout_secs == 60
}

/// The address the protocol client connects to once the worker on `port`
/// signals readiness.
pub open spec fn connect_url(port: u16) -> Seq<char> {
    "ws://127.0.0.1:"@ + dec_seq(port as nat)
}

/// What the host must do to connect the link to the ready worker.
#[derive(Debug)]
pub struct ConnectPlan {
    pub url: String,
}

/// How a start attempt failed: the error for the caller, and whether the
/// spawned process must be terminated so that no orphan outlives the
/// failed attempt.
#[derive(Debug)]
pub struct StartFailure {
    pub terminate: bool,
    pub error: WorkerError,
}

/// How the wait for the readiness signal ended.
#[derive(PartialEq, Eq, Structural, Clone, Copy, Debug)]
pub enum ReadyEvent {
    /// The readiness marker was seen on the worker's output.
    Signaled,
    /// The allowed time elapsed first.
    TimedOut,
    /// The worker's output ended without the marker.
    StreamEnded,
}

/// What a stop request asks of the host.
#[derive(PartialEq, Eq, Structural, Clone, Copy, Debug)]
pub enum StopAction {
    /// No worker exists: the stop is a completed no-op.
    NoWorker,
    /// Terminate the worker process, then report back.
    Terminate,
}

/// Whether a start may begin: only when no worker exists.
pub open spec fn start_allowed(w: WorkerSystem) -> bool {
    w.phase is Idle
}

/// The state after a start request: launching when one was allowed,
/// unchanged otherwise.
pub open spec fn begin_start_next(w: WorkerSystem, port: u16) -> WorkerSystem {
    if start_allowed(w) {
        WorkerSystem { phase: WorkerPhase::Launching, port, counter: w.counter }
    } else {
        w
    }
}

/// The state after the process was spawned.
pub open spec fn spawn_ok_next(w: WorkerSystem) -> WorkerSystem {
    WorkerSystem { phase: WorkerPhase::AwaitingReady, ..w }
}

/// The state after the readiness signal arrived.
pub open spec fn ready_signaled_next(w: WorkerSystem) -> WorkerSystem {
    WorkerSystem { phase: WorkerPhase::Connecting, ..w }
}

/// The state after the link came up.
pub open spec fn connect_ok_next(w: WorkerSystem) -> WorkerSystem {
    WorkerSystem { phase: WorkerPhase::Running, ..w }
}

impl WorkerSystem {
    /// Request identifiers start at one and only ever grow.
    pub open spec fn wf(self) -> bool {
        self.counter >= 1
    }

    /// A fresh subsystem: no worker, identifiers starting at one.
    pub fn new() -> (w: WorkerSystem)
        ensures
            w.wf(),
            w.phase is Idle,
            w.counter == 1,
    {
        WorkerSystem { phase: WorkerPhase::Idle, port: 0, counter: 1 }
    }

    /// Draws the next worker request identifier: returns the counter and
    /// raises it, so every later draw returns a larger identifier.
    pub fn next_request_id(&mut self) -> (r: u64)
        requires
            old(self).wf(),
            old(self).counter < u64::MAX,
        ensures
            final(self).wf(),
            r == old(self).counter,
            final(self).counter == old(self).counter + 1,
            final(self).phase == old(self).phase,
            final(self).port == old(self).port,
    {
        let r = self.counter;
        self.counter = self.counter + 1;
        r
    }

    /// Decides a start request.  When no worker exists the subsystem starts
    /// launching and the host receives the launch plan; otherwise nothing
    /// changes, no plan is handed out — so no second process can be spawned
    /// — and the caller receives the already-started error.
    pub fn begin_start(&mut self, port: u16) -> (r: Result<LaunchPlan, WorkerError>)
        requires
            old(self).wf(),
        ensures
            final(self).wf(),
            *final(self) == begin_start_next(*old(self), port),
            r is Ok <==> start_allowed(*old(self)),
            r matches Ok(p) ==> launch_plan_ok(p, port),
            r matches Err(e) ==> e is AlreadyRunning,
    {
        match self.phase {
            WorkerPhase::Idle => {
                self.phase = WorkerPhase::Launching;
                self.port = port;
                let mut exe_rel_path: Vec<String> = Vec::new();
                exe_rel_path.push(String::from_str("binaries"));
                exe_rel_path.push(String::from_str("deepface_cli"));
                exe_rel_path.push(String::from_str("deepface_cli.exe"));
                let mut args: Vec<String> = Vec::new();
                args.push(String::from_str("serve"));
                args.push(String::from_str("--host"));
                args.push(String::from_str("127.0.0.1"));
                args.push(String::from_str("--port"));
                args.push(dec_string(port as u64));
                Ok(LaunchPlan { exe_rel_path, args, ready_timeout_secs: 60 })
            },
            _ => Err(WorkerError::AlreadyRunning),
        }
    }

    /// Takes the outcome of the spawn: on success the readiness signal is
    /// awaited next; on failure the start is over and the error carries the
    /// host's detail.
    pub fn on_spawn_result(&mut self, error: Option<String>) -> (r: Result<(), StartFailure>)
        requires
            old(self).wf(),
            old(self).phase is Launching,
        ensures
            final(self).wf(),
            final(self).counter == old(self).counter,
            final(self).port == old(self).port,
            error is None ==> *final(self) == spawn_ok_next(*old(self)) && r is Ok,
            error matches Some(d) ==> final(self).phase is Idle && (r matches Err(f)
                && !f.terminate && (f.error matches WorkerError::SpawnFailed(d2) && d2@ == d@)),
    {
        match error {
            None => {
                self.phase = WorkerPhase::AwaitingReady;
                Ok(())
            },
            Some(d) => {
                self.phase = WorkerPhase::Idle;
                Err(StartFailure { terminate: false, error: WorkerError::SpawnFailed(d) })
            },
        }
    }

    /// Takes the end of the readiness wait.  The signal moves the start on
    /// to connecting the link and hands the host the address to connect to.
    /// A timeout or a lost signal ends the start: the spawned process is to
    /// be terminated, so that no worker outlives the failed attempt.
    pub fn on_ready_event(&mut self, ev: ReadyEvent) -> (r: Result<ConnectPlan, StartFailure>)
        requires
            old(self).wf(),
            old(self).phase is AwaitingReady,
        ensures
            final(self).wf(),
            final(self).counter == old(self).counter,
            final(self).port == old(self).port,
            ev is Signaled ==> *final(self) == ready_signaled_next(*old(self)) && (r matches Ok(p)
                && p.url@ == connect_url(old(self).port)),
            ev is TimedOut ==> final(self).phase is Idle && (r matches Err(f) && f.terminate
                && f.error is ReadyTimeout),
            ev is StreamEnded ==> final(self).phase is Idle && (r matches Err(f) && f.terminate
                && f.error is ReadySignalLost),
    {
        match ev {
            ReadyEvent::Signaled => {
                self.phase = WorkerPhase::Connecting;
                let mut url = String::from_str("ws://127.0.0.1:");
                let p = dec_string(self.port as u64);
                url.append(p.as_str());
                proof {
                    assert(url@ =~= connect_url(self.port));
                }
                Ok(ConnectPlan { url })
            },
            ReadyEvent::TimedOut => {
                self.phase = WorkerPhase::Idle;
                Err(StartFailure { terminate: true, error: WorkerError::ReadyTimeout })
            },
            ReadyEvent::StreamEnded => {
                self.phase = WorkerPhase::Idle;
                Err(StartFailure { terminate: true, error: WorkerError::ReadySignalLost })
            },
        }
    }

    /// Takes the outcome of connecting the link.  Success completes the
    /// start: the worker is running and calls may be made.  Failure is
    /// terminal for the start and the process is to be terminated.
    pub fn on_connect_result(&mut self, error: Option<String>) -> (r: Result<(), StartFailure>)
        requires
            old(self).wf(),
            old(self).phase is Connecting,
        ensures
            final(self).wf(),
            final(self).counter == old(self).counter,
            final(self).port == old(self).port,
            error is None ==> *final(self) == connect_ok_next(*old(self)) && r is Ok,
            error matches Some(d) ==> final(self).phase is Idle && (r matches Err(f) && f.terminate
                && (f.error matches WorkerError::ConnectFailed(d2) && d2@ == d@)),
    {
        match error {
            None => {
                self.phase = WorkerPhase::Running;
                Ok(())
            },
            Some(d) => {
                self.phase = WorkerPhase::Idle;
                Err(StartFailure { terminate: true, error: WorkerError::ConnectFailed(d) })
            },
        }
    }

    /// Decides a stop request.  With no worker the stop is a completed
    /// no-op — a success, not an error.  Otherwise the host is to terminate
    /// the process and report back through `confirm_stopped`; the state
    /// changes only then, so a failed termination leaves the worker
    /// registered.
    pub fn request_stop(&self) -> (r: StopAction)
        ensures
            r is NoWorker <==> self.phase is Idle,
    {
        match self.phase {
            WorkerPhase::Idle => StopAction::NoWorker,
            _ => StopAction::Terminate,
        }
    }

    /// Records that the worker process was terminated and its handle and
    /// link were torn down together.
    pub fn confirm_stopped(&mut self)
        requires
            old(self).wf(),
        ensures
            final(self).wf(),
            final(self).phase is Idle,
            final(self).counter == old(self).counter,
            final(self).port == old(self).port,
    {
        self.phase = WorkerPhase::Idle;
    }
}

/// Starting the worker twice without an intervening stop: at every point of
/// a start sequence that has not failed — launching, awaiting readiness,
/// connecting, and running — a second start request is refused with an
/// error, changes nothing, and hands out no launch plan, so no second
/// process is ever spawned.
pub proof fn lemma_double_start_rejected(w: WorkerSystem, port: u16, port2: u16)
    requires
        start_allowed(w),
    ensures
        ({
            let w1 = begin_start_next(w, port);
            let w2 = spawn_ok_next(w1);
            let w3 = ready_signaled_next(w2);
            let w4 = connect_ok_next(w3);
            &&& !start_allowed(w1) && begin_start_next(w1, port2) == w1
            &&& !start_allowed(w2) && begin_start_next(w2, port2) == w2
            &&& !start_allowed(w3) && begin_start_next(w3, port2) == w3
            &&& !start_allowed(w4) && begin_start_next(w4, port2) == w4
        }),
{
}

/// The fixed marker the worker prints on its error stream when its own
/// server is up.  The first line that carries it signals readiness.
pub open spec fn ready_marker() -> Seq<char> {
    "WebSocket server started successfully"@
}

/// Whether `needle` occurs in `hay` starting at position `i`.
pub open spec fn match_at(hay: Seq<char>, needle: Seq<char>, i: int) -> bool {
    &&& 0 <= i
    &&& i + needle.len() <= hay.len()
    &&& hay.subrange(i, i + needle.len()) == needle
}

/// Whether an output line carries the readiness marker.
pub open spec fn contains_marker(line: Seq<char>) -> bool {
    exists|i: int| match_at(line, ready_marker(), i)
}

/// Says whether one line of the worker's output carries the readiness
/// marker.  The supervisor signals readiness on the first line that does.
pub fn is_ready_line(line: &str) -> (r: bool)
    ensures
        r == contains_marker(line@),
{
    let marker: &str = "WebSocket server started successfully";
    proof {
        reveal_strlit("WebSocket server started successfully");
    }
    let n = line.unicode_len();
    let m = marker.unicode_len();
    if m > n {
        return false;
    }
    let mut i: usize = 0;
    while i <= n - m
        invariant
            marker@ == ready_marker(),
            n == line@.len(),
            m == marker@.len(),
            1 <= m <= n,
            i <= n - m + 1,
            forall|k: int| 0 <= k < i ==> !match_at(line@, ready_marker(), k),
        decreases n - m + 1 - i,
    {
        let mut j: usize = 0;
        let mut mismatch = false;
        while j < m
            invariant
                marker@ == ready_marker(),
                n == line@.len(),
                m == marker@.len(),
                m <= n,
                i <= n - m,
                j <= m,
                !mismatch ==> forall|t: int| 0 <= t < j ==> line@[i + t] == marker@[t],
                mismatch ==> !match_at(line@, ready_marker(), i as int),
            ensures
                mismatch ==> !match_at(line@, ready_marker(), i as int),
                !mismatch ==> j == m && (forall|t: int| 0 <= t < m ==> line@[i + t] == marker@[t]),
            decreases m - j,
        {
            if line.get_char(i + j) != marker.get_char(j) {
                proof {
                    if match_at(line@, ready_marker(), i as int) {
                        assert(line@.subrange(i as int, i + m as int)[j as int] == line@[i + j]);
                    }
                }
                mismatch = true;
                break ;
            }
            j = j + 1;
        }
        if !mismatch {
            proof {
                assert(line@.subrange(i as int, i + m as int) =~= ready_marker());
                assert(match_at(line@, ready_marker(), i as int));
            }
            return true;
        }
        i = i + 1;
    }
    proof {
        assert forall|k: int| !match_at(line@, ready_marker(), k) by {
            if 0 <= k < i {
            } else if k >= i {
                assert(k + ready_marker().len() > line@.len());
            }
        }
    }
    false
}

/// Worker request identifiers are strictly increasing across the process
/// lifetime, whichever command builders drew them: a draw returns the
/// counter and raises it, every other operation of the subsystem keeps the
/// counter, so a later draw always returns a larger identifier than an
/// earlier one.
pub proof fn lemma_request_ids_strictly_increase(
    w0: WorkerSystem,
    w1: WorkerSystem,
    w2: WorkerSystem,
    r1: u64,
    r2: u64,
)
    requires
        r1 == w0.counter,
        w1.counter == w0.counter + 1,
        w1.counter <= w2.counter,
        r2 == w2.counter,
    ensures
        r2 > r1,
{
}

} // verus!
