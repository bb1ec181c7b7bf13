//! Lifecycle of the single backend process of an application run.
//!
//! The process itself is spawned, probed and reaped by the caller; this module
//! holds the decisions: whether a start request launches anything, what to
//! launch, when startup has failed, and whether a stop request has a process
//! to terminate.
use vstd::prelude::*;
use crate::readiness::{PollStep, ReadinessPoll, step_after};
use crate::texts;

verus! {

/// File name of the packaged backend, a sibling of the host executable.
pub const BACKEND_EXECUTABLE: &'static str = "echov2-backend";

/// Directory of the backend sources in a development checkout.
pub const BACKEND_DIR: &'static str = "backend";

/// Interpreter that runs the backend in development mode.
pub const INTERPRETER: &'static str = "python";

/// Entry script of the backend in development mode.
pub const ENTRY_SCRIPT: &'static str = "main.py";

/// Where the supervisor stands in its lifecycle.
#[derive(Debug, Clone, Copy, PartialEq, Eq, Structural)]
pub enum Phase {
    NotStarted,
    Starting,
    Ready,
    Failed,
    Stopped,
}

/// Startup failures; each ends the run.
#[derive(Debug, Clone, PartialEq, Eq)]
pub enum SupervisorError {
    /// The backend executable cannot be located or the OS refused to spawn it.
    Launch,
    /// The backend did not become ready within the attempt budget.
    ReadinessTimeout,
}

/// What a start request asks of the caller.
#[derive(Debug, Clone, Copy, PartialEq, Eq, Structural)]
pub enum StartStep {
    /// A process is already live: nothing to do, the request succeeds.
    AlreadyRunning,
    /// Spawn the backend, then report with `record_spawn`.
    Launch,
    /// The run already failed or was stopped: no process is started again.
    Closed,
}

/// The backend process of one application run, as far as decisions go.
pub struct Supervisor {
    phase: Phase,
    live: bool,
    poll: ReadinessPoll,
}

impl Supervisor {
    pub closed spec fn phase_spec(&self) -> Phase {
        self.phase
    }

    /// True while a spawned process has not been reaped.
    pub closed spec fn has_live_process(&self) -> bool {
        self.live
    }

    /// Results of the health probes of the current startup.
    pub closed spec fn probes(&self) -> Seq<bool> {
        self.poll.probes()
    }

    pub closed spec fn wf(&self) -> bool {
        &&& self.poll.wf()
        &&& (self.phase == Phase::NotStarted ==> !self.live)
        &&& (self.phase == Phase::Starting && self.live) ==> self.poll.in_progress()
        &&& (self.phase == Phase::Stopped ==> !self.live)
        &&& (self.phase == Phase::Ready ==> self.live)
    }

    /// A supervisor that has launched nothing.
    pub fn new() -> (r: Self)
        ensures
            r.wf(),
            r.phase_spec() == Phase::NotStarted,
            !r.has_live_process(),
    {
        Supervisor { phase: Phase::NotStarted, live: false, poll: ReadinessPoll::new() }
    }

    pub fn phase(&self) -> (p: Phase)
        ensures
            p == self.phase_spec(),
    {
        self.phase
    }

    pub fn is_live(&self) -> (b: bool)
        ensures
            b == self.has_live_process(),
    {
        self.live
    }

    /// Handles a start request. A live process makes it a no-op; only a
    /// supervisor that never started launches one.
    pub fn begin_start(&mut self) -> (step: StartStep)
        requires
            old(self).wf(),
        ensures
            final(self).wf(),
            step == start_step(old(self).phase_spec(), old(self).has_live_process()),
            final(self).phase_spec() == phase_after_start(
                old(self).phase_spec(),
                old(self).has_live_process(),
            ),
            final(self).has_live_process() == old(self).has_live_process(),
            step != StartStep::Launch ==> *final(self) == *old(self),
    {
        if self.live {
            StartStep::AlreadyRunning
        } else if self.phase == Phase::NotStarted {
            self.phase = Phase::Starting;
            StartStep::Launch
        } else {
            StartStep::Closed
        }
    }

    /// Records whether the OS spawned the backend after `StartStep::Launch`.
    pub fn record_spawn(&mut self, spawned: bool) -> (r: Result<(), SupervisorError>)
        requires
            old(self).wf(),
            old(self).phase_spec() == Phase::Starting,
            !old(self).has_live_process(),
        ensures
            final(self).wf(),
            spawned ==> r is Ok && final(self).has_live_process() && final(self).phase_spec()
                == Phase::Starting && final(self).probes() == Seq::<bool>::empty(),
            !spawned ==> r == Err::<(), SupervisorError>(SupervisorError::Launch)
                && !final(self).has_live_process() && final(self).phase_spec() == Phase::Failed,
    {
        if spawned {
            self.live = true;
            self.poll = ReadinessPoll::new();
            Ok(())
        } else {
            self.phase = Phase::Failed;
            Err(SupervisorError::Launch)
        }
    }

    /// Records one health probe of the starting backend and says what the
    /// poll loop does next. When the budget is spent startup has failed; the
    /// process stays live until `stop` reaps it.
    pub fn record_probe(&mut self, healthy: bool) -> (step: PollStep)
        requires
            old(self).wf(),
            old(self).phase_spec() == Phase::Starting,
            old(self).has_live_process(),
        ensures
            final(self).wf(),
            final(self).has_live_process(),
            final(self).probes() == old(self).probes().push(healthy),
            step == step_after(final(self).probes()),
            final(self).phase_spec() == match step {
                PollStep::Ready => Phase::Ready,
                PollStep::SleepThenProbe => Phase::Starting,
                PollStep::SleepThenFail => Phase::Failed,
            },
    {
        let step = self.poll.record_probe(healthy);
        match step {
            PollStep::Ready => {
                self.phase = Phase::Ready;
            },
            PollStep::SleepThenProbe => {},
            PollStep::SleepThenFail => {
                self.phase = Phase::Failed;
            },
        }
        step
    }

    /// The outcome of startup once the poll loop has ended on `step`.
    pub fn startup_outcome(step: PollStep) -> (r: Result<(), SupervisorError>)
        ensures
            step == PollStep::Ready <==> r is Ok,
            step != PollStep::Ready ==> r == Err::<(), SupervisorError>(
                SupervisorError::ReadinessTimeout,
            ),
    {
        match step {
            PollStep::Ready => Ok(()),
            _ => Err(SupervisorError::ReadinessTimeout),
        }
    }

    /// Handles a stop request: true when there is a live process that the
    /// caller must terminate and reap, then report with `record_stopped`.
    /// Without one nothing changes.
    pub fn begin_stop(&self) -> (terminate: bool)
        ensures
            terminate == self.has_live_process(),
    {
        self.live
    }

    /// Records that the live process was terminated and reaped.
    pub fn record_stopped(&mut self)
        requires
            old(self).wf(),
            old(self).has_live_process(),
        ensures
            final(self).wf(),
            !final(self).has_live_process(),
            final(self).phase_spec() == Phase::Stopped,
    {
        self.live = false;
        self.phase = Phase::Stopped;
    }
}

/// How to launch the backend. Paths are lists of components.
#[derive(Debug, Clone)]
pub struct LaunchPlan {
    /// The program: a bare command name, or the components of a path.
    pub program: Vec<String>,
    pub args: Vec<String>,
    /// Working directory of the child; `None` keeps the host's.
    pub working_dir: Option<Vec<String>>,
}

/// The first `n` components of `path`, copied.
fn prefix(path: &Vec<String>, n: usize) -> (r: Vec<String>)
    requires
        n <= path.len(),
    ensures
        texts(r@) == texts(path@).take(n as int),
{
    let mut r: Vec<String> = Vec::new();
    let mut i: usize = 0;
    while i < n
        invariant
            i <= n <= path.len(),
            r@ == path@.take(i as int),
        decreases n - i,
    {
        r.push(path[i].clone());
        assert(r@ =~= path@.take(i as int + 1));
        i = i + 1;
    }
    assert(texts(r@) =~= texts(path@).take(n as int));
    r
}

/// Where and how to launch the backend, from the path components of the host
/// executable. In development the interpreter runs the entry script inside
/// the `backend` directory three levels above the executable; packaged, the
/// backend executable sits beside the host. A path too short to have those
/// ancestors cannot be resolved.
pub fn launch_plan(exe: &Vec<String>, development: bool) -> (r: Result<LaunchPlan, SupervisorError>)
    ensures
        development ==> (r is Ok <==> exe.len() > 3),
        !development ==> (r is Ok <==> exe.len() > 1),
        r is Err ==> r->Err_0 == SupervisorError::Launch,
        r is Ok && development ==> {
            let p = r->Ok_0;
            &&& texts(p.program@) == seq![INTERPRETER@]
            &&& texts(p.args@) == seq![ENTRY_SCRIPT@]
            &&& p.working_dir is Some
            &&& texts(p.working_dir->Some_0@) == texts(exe@).take(exe.len() - 3).push(
                BACKEND_DIR@,
            )
        },
        r is Ok && !development ==> {
            let p = r->Ok_0;
            &&& texts(p.program@) == texts(exe@).take(exe.len() - 1).push(BACKEND_EXECUTABLE@)
            &&& p.args@.len() == 0
            &&& p.working_dir is None
        },
{
    if development {
        if exe.len() <= 3 {
            return Err(SupervisorError::Launch);
        }
        let mut dir = prefix(exe, exe.len() - 3);
        dir.push(String::from_str(BACKEND_DIR));
        let mut program: Vec<String> = Vec::new();
        program.push(String::from_str(INTERPRETER));
        let mut args: Vec<String> = Vec::new();
        args.push(String::from_str(ENTRY_SCRIPT));
        proof {
            assert(texts(dir@) =~= texts(exe@).take(exe.len() - 3).push(BACKEND_DIR@));
            assert(texts(program@) =~= seq![INTERPRETER@]);
            assert(texts(args@) =~= seq![ENTRY_SCRIPT@]);
        }
        Ok(LaunchPlan { program, args, working_dir: Some(dir) })
    } else {
        if exe.len() <= 1 {
            return Err(SupervisorError::Launch);
        }
        let mut program = prefix(exe, exe.len() - 1);
        program.push(String::from_str(BACKEND_EXECUTABLE));
        proof {
            assert(texts(program@) =~= texts(exe@).take(exe.len() - 1).push(BACKEND_EXECUTABLE@));
        }
        Ok(LaunchPlan { program, args: Vec::new(), working_dir: None })
    }
}

/// What a start request asks for, given the phase and whether a process is live.
pub open spec fn start_step(phase: Phase, live: bool) -> StartStep {
    if live {
        StartStep::AlreadyRunning
    } else if phase == Phase::NotStarted {
        StartStep::Launch
    } else {
        StartStep::Closed
    }
}

/// The phase after a start request.
pub open spec fn phase_after_start(phase: Phase, live: bool) -> Phase {
    if !live && phase == Phase::NotStarted {
        Phase::Starting
    } else {
        phase
    }
}

/// Two start requests in sequence: the first launches the backend; once it is
/// spawned, the second launches nothing, fails nothing and leaves the phase
/// as it was. A launch is only ever asked for when no process is live.
pub proof fn lemma_start_twice_keeps_one_process(phase: Phase)
    ensures
        start_step(Phase::NotStarted, false) == StartStep::Launch,
        start_step(phase_after_start(Phase::NotStarted, false), true) == StartStep::AlreadyRunning,
        phase_after_start(phase, true) == phase,
        start_step(phase, true) == StartStep::AlreadyRunning,
        forall|p: Phase, live: bool| #[trigger] start_step(p, live) == StartStep::Launch ==> !live,
{
}

} // verus!
