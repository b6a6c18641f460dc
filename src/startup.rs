//! The startup sequence as a state machine. The host performs each action
//! (a filesystem check, opening the log, spawning, binding, storing) and
//! reports what happened; the machine decides what comes next. Every failure
//! is absorbed: the sequence ends with an outcome, never an error.
use vstd::prelude::*;
use crate::launch::{
    binding_supported, binding_supported_spec, creation_flags_spec, log_file_name,
    log_file_path, spawn_request, Platform, SpawnRequest,
};
use crate::paths::{clean_spec, join_spec, LAYOUT_COUNT};
use crate::resolve::{all_candidates, probe_outcome, Candidate, Probe, Resolver};

verus! {

/// Where the startup sequence stands.
#[derive(Clone, Copy, Debug, PartialEq, Eq, Structural)]
pub enum Stage {
    /// Probing candidate runtimes.
    Resolving,
    /// A runtime was found; checking its entry script.
    CheckingScript,
    /// Opening the log file.
    OpeningLog,
    /// Spawning the child.
    Spawning,
    /// Binding the child to the host's lifetime.
    Binding,
    /// Storing the child's handle.
    Storing,
    /// Finished.
    Done,
}

/// What the host reports after performing an action.
#[derive(Clone, Debug, PartialEq, Eq)]
pub enum Event {
    /// Whether the checked path exists.
    Exists(bool),
    /// Whether the log file could be opened.
    LogOpened(bool),
    /// The child was spawned with this process id.
    Spawned(u32),
    /// The OS refused to spawn the child, for this reason.
    SpawnRefused(String),
    /// The binding was attempted; whether it took.
    BindAttempted(bool),
    /// The handle was stored.
    Stored,
}

/// How startup ended.
#[derive(Clone, Debug, PartialEq, Eq)]
pub enum Outcome {
    /// No candidate runtime exists: no server is launched.
    NoServer,
    /// The runtime exists but its entry script does not.
    ScriptMissing,
    /// The OS refused to create the process, for this reason.
    SpawnFailed(String),
    /// The child runs; whether its output is captured and whether it is
    /// bound to the host's lifetime.
    Running { pid: u32, log_captured: bool, bound: bool },
}

/// What the host is asked to do next.
#[derive(Clone, Debug)]
pub enum Action {
    /// Report whether this path exists.
    CheckExists(String),
    /// Create this log file (its directory first) and report whether it opened.
    OpenLog(String),
    /// Start the child as described.
    Spawn(SpawnRequest),
    /// Bind the child with this process id to the host's lifetime.
    Bind(u32),
    /// Store the child with this process id in the supervisor slot.
    Store(u32),
    /// Nothing more to do.
    Finish(Outcome),
    /// The event did not fit the current stage and was ignored.
    Ignored,
}

/// The state of the startup sequence.
pub struct Startup {
    resolver: Resolver,
    platform: Platform,
    log_path: String,
    stage: Stage,
    found: usize,
    log_captured: bool,
    pid: u32,
    bound: bool,
}

/// Whether `r` asks whether path `p` exists.
pub open spec fn checks_path(r: Action, p: Seq<char>) -> bool {
    match r {
        Action::CheckExists(q) => q@ == p,
        _ => false,
    }
}

/// Whether `req` starts candidate `c` on `p`, with output to `log_path`
/// exactly when `log_ok`.
pub open spec fn spawns(
    req: SpawnRequest,
    c: Candidate,
    log_ok: bool,
    log_path: Seq<char>,
    p: Platform,
) -> bool {
    &&& req.program@ == clean_spec(c.runtime@)
    &&& req.args@.len() == 1
    &&& req.args@[0]@ == clean_spec(c.script@)
    &&& req.current_dir@ == clean_spec(c.working_dir@)
    &&& match req.log_file {
        Some(f) => log_ok && f@ == log_path,
        None => !log_ok,
    }
    &&& req.creation_flags == creation_flags_spec(p)
}

impl Startup {
    /// The current stage.
    pub closed spec fn stage_view(&self) -> Stage {
        self.stage
    }

    /// The candidates, in probing order.
    pub closed spec fn candidates_view(&self) -> Seq<Candidate> {
        self.resolver.candidates_view()
    }

    /// The existence answers for the candidates probed so far.
    pub closed spec fn answers_view(&self) -> Seq<bool> {
        self.resolver.answers_view()
    }

    /// The target platform.
    pub closed spec fn platform_view(&self) -> Platform {
        self.platform
    }

    /// The log file that the child's output goes to.
    pub closed spec fn log_path_view(&self) -> Seq<char> {
        self.log_path@
    }

    /// The index of the candidate that was found, once one was.
    pub closed spec fn found_view(&self) -> int {
        self.found as int
    }

    /// Whether the log file was opened.
    pub closed spec fn log_captured_view(&self) -> bool {
        self.log_captured
    }

    /// The process id of the spawned child, once there is one.
    pub closed spec fn pid_view(&self) -> u32 {
        self.pid
    }

    /// Whether the child was bound to the host's lifetime.
    pub closed spec fn bound_view(&self) -> bool {
        self.bound
    }

    /// The state's invariant: a found candidate is one of the candidates.
    pub closed spec fn wf(&self) -> bool {
        &&& self.resolver.wf()
        &&& (self.stage != Stage::Resolving && self.stage != Stage::Done) ==> self.found
            < self.resolver.candidates_view().len()
    }

    /// The candidate that was found.
    pub open spec fn found_candidate(&self) -> Candidate {
        self.candidates_view()[self.found_view()]
    }

    /// A sequence that probes every candidate under `roots` for `binary`
    /// with entry script `script`, and logs into `log_dir`.
    pub fn new(roots: &Vec<String>, binary: &str, script: &str, log_dir: &str, platform: Platform) -> (r:
        Startup)
        requires
            roots@.len() * LAYOUT_COUNT <= usize::MAX,
        ensures
            r.wf(),
            r.stage_view() == Stage::Resolving,
            all_candidates(r.candidates_view(), roots@, binary@, script@, platform),
            r.answers_view().len() == 0,
            r.log_path_view() == join_spec(log_dir@, log_file_name(), platform),
            r.platform_view() == platform,
    {
        Startup {
            resolver: Resolver::new(roots, binary, script, platform),
            platform,
            log_path: log_file_path(log_dir, platform),
            stage: Stage::Resolving,
            found: 0,
            log_captured: false,
            pid: 0,
            bound: false,
        }
    }

    /// Whether, while resolving, `r` and the new state follow the next
    /// probing step: check the next runtime; or, once one exists, check its
    /// entry script; or, when none exists, finish with no server.
    pub open spec fn resolution_follows(&self, r: Action) -> bool {
        let cs = self.candidates_view();
        let a = self.answers_view();
        ||| exists|i: usize|
            #[trigger] probe_outcome(cs.len() as int, a, Probe::Check(i)) && self.stage_view() == Stage::Resolving
                && checks_path(r, cs[i as int].runtime@)
        ||| exists|i: usize|
            #[trigger] probe_outcome(cs.len() as int, a, Probe::Found(i)) && self.stage_view()
                == Stage::CheckingScript && self.found_view() == i && checks_path(
                r,
                cs[i as int].script@,
            )
        ||| probe_outcome(cs.len() as int, a, Probe::Exhausted) && self.stage_view() == Stage::Done
            && r == Action::Finish(Outcome::NoServer)
    }

    fn advance_resolution(&mut self) -> (r: Action)
        requires
            old(self).resolver.wf(),
            old(self).stage == Stage::Resolving,
        ensures
            final(self).wf(),
            final(self).resolution_follows(r),
            final(self).resolver == old(self).resolver,
            final(self).platform == old(self).platform,
            final(self).log_path == old(self).log_path,
    {
        match self.resolver.step() {
            Probe::Check(i) => {
                let c = self.resolver.candidate(i);
                let r = Action::CheckExists(c.runtime.clone());
                assert(probe_outcome(
                    self.candidates_view().len() as int,
                    self.answers_view(),
                    Probe::Check(i),
                ));
                r
            },
            Probe::Found(i) => {
                self.stage = Stage::CheckingScript;
                self.found = i;
                let c = self.resolver.candidate(i);
                let r = Action::CheckExists(c.script.clone());
                assert(probe_outcome(
                    self.candidates_view().len() as int,
                    self.answers_view(),
                    Probe::Found(i),
                ));
                r
            },
            Probe::Exhausted => {
                self.stage = Stage::Done;
                Action::Finish(Outcome::NoServer)
            },
        }
    }

    /// The first action of the sequence.
    pub fn start(&mut self) -> (r: Action)
        requires
            old(self).wf(),
            old(self).stage_view() == Stage::Resolving,
        ensures
            final(self).wf(),
            final(self).candidates_view() == old(self).candidates_view(),
            final(self).answers_view() == old(self).answers_view(),
            final(self).platform_view() == old(self).platform_view(),
            final(self).log_path_view() == old(self).log_path_view(),
            final(self).resolution_follows(r),
    {
        self.advance_resolution()
    }
}

impl Startup {
    /// Whether the state carries over unchanged and `r` says the event was
    /// ignored.
    pub open spec fn ignores(&self, next: Startup, r: Action) -> bool {
        next == *self && r == Action::Ignored
    }

    /// Whether `next` differs from `self` only in its stage.
    pub open spec fn keeps_all_but_stage(&self, next: Startup) -> bool {
        &&& next.answers_view() == self.answers_view()
        &&& next.found_view() == self.found_view()
        &&& next.log_captured_view() == self.log_captured_view()
        &&& next.pid_view() == self.pid_view()
        &&& next.bound_view() == self.bound_view()
    }

    /// Takes the outcome of the last action and returns the next one.
    /// Each failure is absorbed: a missing runtime or script, or a refused
    /// spawn, finishes without a server; a log file that cannot be opened
    /// still leads to a spawn, without captured output; a failed binding
    /// still leads to storing the handle. Binding is asked for only after a
    /// successful spawn, and only where the platform offers it; storing
    /// only after that. An event that does not fit the stage is ignored.
    pub fn on_event(&mut self, e: Event) -> (r: Action)
        requires
            old(self).wf(),
        ensures
            final(self).wf(),
            final(self).candidates_view() == old(self).candidates_view(),
            final(self).platform_view() == old(self).platform_view(),
            final(self).log_path_view() == old(self).log_path_view(),
            ({
                let s = *old(self);
                let n = *final(self);
                match e {
                    Event::Exists(b) => if s.stage_view() == Stage::Resolving && s.answers_view().len()
                        < s.candidates_view().len() {
                        &&& n.answers_view() == s.answers_view().push(b)
                        &&& n.resolution_follows(r)
                    } else if s.stage_view() == Stage::CheckingScript {
                        &&& s.keeps_all_but_stage(n)
                        &&& b ==> (n.stage_view() == Stage::OpeningLog && (r matches Action::OpenLog(
                            p,
                        ) && p@ == s.log_path_view()))
                        &&& !b ==> n.stage_view() == Stage::Done && r == Action::Finish(
                            Outcome::ScriptMissing,
                        )
                    } else {
                        s.ignores(n, r)
                    },
                    Event::LogOpened(ok) => if s.stage_view() == Stage::OpeningLog {
                        &&& n.stage_view() == Stage::Spawning
                        &&& n.answers_view() == s.answers_view()
                        &&& n.found_view() == s.found_view()
                        &&& n.log_captured_view() == ok
                        &&& (r matches Action::Spawn(req) && spawns(
                            req,
                            s.found_candidate(),
                            ok,
                            s.log_path_view(),
                            s.platform_view(),
                        ))
                    } else {
                        s.ignores(n, r)
                    },
                    Event::Spawned(pid) => if s.stage_view() == Stage::Spawning {
                        &&& n.answers_view() == s.answers_view()
                        &&& n.found_view() == s.found_view()
                        &&& n.log_captured_view() == s.log_captured_view()
                        &&& n.pid_view() == pid
                        &&& n.bound_view() == false
                        &&& binding_supported_spec(s.platform_view()) ==> n.stage_view()
                            == Stage::Binding && r == Action::Bind(pid)
                        &&& !binding_supported_spec(s.platform_view()) ==> n.stage_view()
                            == Stage::Storing && r == Action::Store(pid)
                    } else {
                        s.ignores(n, r)
                    },
                    Event::SpawnRefused(cause) => if s.stage_view() == Stage::Spawning {
                        &&& s.keeps_all_but_stage(n)
                        &&& n.stage_view() == Stage::Done
                        &&& r == Action::Finish(Outcome::SpawnFailed(cause))
                    } else {
                        s.ignores(n, r)
                    },
                    Event::BindAttempted(ok) => if s.stage_view() == Stage::Binding {
                        &&& n.stage_view() == Stage::Storing
                        &&& n.answers_view() == s.answers_view()
                        &&& n.found_view() == s.found_view()
                        &&& n.log_captured_view() == s.log_captured_view()
                        &&& n.pid_view() == s.pid_view()
                        &&& n.bound_view() == ok
                        &&& r == Action::Store(s.pid_view())
                    } else {
                        s.ignores(n, r)
                    },
                    Event::Stored => if s.stage_view() == Stage::Storing {
                        &&& s.keeps_all_but_stage(n)
                        &&& n.stage_view() == Stage::Done
                        &&& r == Action::Finish(
                            Outcome::Running {
                                pid: s.pid_view(),
                                log_captured: s.log_captured_view(),
                                bound: s.bound_view(),
                            },
                        )
                    } else {
                        s.ignores(n, r)
                    },
                }
            }),
    {
        match e {
            Event::Exists(b) => {
                if self.stage == Stage::Resolving && self.resolver.probed() < self.resolver.count() {
                    self.resolver.report(b);
                    self.advance_resolution()
                } else if self.stage == Stage::CheckingScript {
                    if b {
                        self.stage = Stage::OpeningLog;
                        Action::OpenLog(self.log_path.clone())
                    } else {
                        self.stage = Stage::Done;
                        Action::Finish(Outcome::ScriptMissing)
                    }
                } else {
                    Action::Ignored
                }
            },
            Event::LogOpened(ok) => {
                if self.stage == Stage::OpeningLog {
                    let log = if ok {
                        Some(self.log_path.clone())
                    } else {
                        None
                    };
                    let req = spawn_request(self.resolver.candidate(self.found), log, self.platform);
                    self.stage = Stage::Spawning;
                    self.log_captured = ok;
                    Action::Spawn(req)
                } else {
                    Action::Ignored
                }
            },
            Event::Spawned(pid) => {
                if self.stage == Stage::Spawning {
                    self.pid = pid;
                    self.bound = false;
                    if binding_supported(self.platform) {
                        self.stage = Stage::Binding;
                        Action::Bind(pid)
                    } else {
                        self.stage = Stage::Storing;
                        Action::Store(pid)
                    }
                } else {
                    Action::Ignored
                }
            },
            Event::SpawnRefused(cause) => {
                if self.stage == Stage::Spawning {
                    self.stage = Stage::Done;
                    Action::Finish(Outcome::SpawnFailed(cause))
                } else {
                    Action::Ignored
                }
            },
            Event::BindAttempted(ok) => {
                if self.stage == Stage::Binding {
                    self.bound = ok;
                    self.stage = Stage::Storing;
                    Action::Store(self.pid)
                } else {
                    Action::Ignored
                }
            },
            Event::Stored => {
                if self.stage == Stage::Storing {
                    self.stage = Stage::Done;
                    Action::Finish(
                        Outcome::Running {
                            pid: self.pid,
                            log_captured: self.log_captured,
                            bound: self.bound,
                        },
                    )
                } else {
                    Action::Ignored
                }
            },
        }
    }
}

} // verus!
