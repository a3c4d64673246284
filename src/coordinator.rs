use vstd::prelude::*;
use crate::settings::{config_of, timer_config_from_settings, Settings};
use crate::timer::{duration_of, Phase, PhaseCompleteEvent, TimerConfig, TimerState};

verus! {

/// What the distraction blocker is asked to do.
#[derive(Debug, Clone, Copy, PartialEq, Eq, Structural)]
pub enum BlockerRequest {
    Enable,
    Disable,
}

/// Blocking follows the phase: on during work, off during breaks.
pub open spec fn request_for(phase: Phase) -> BlockerRequest {
    if phase == Phase::Work {
        BlockerRequest::Enable
    } else {
        BlockerRequest::Disable
    }
}

/// What `start` asks its caller to carry out once the lock is released.
#[derive(Debug, Clone, Copy, PartialEq, Eq, Structural)]
pub struct StartPlan {
    pub snapshot: TimerState,
    pub blocker: BlockerRequest,
    pub spawn_worker: bool,
}

/// The side effects owed to one finished phase, in the order they are due:
/// drive the blocker, record the finished phase, then publish the event.
#[derive(Debug, Clone, Copy, PartialEq, Eq, Structural)]
pub struct PhaseEffects {
    pub blocker: BlockerRequest,
    pub record_phase: Phase,
    pub record_seconds: u32,
    pub event: PhaseCompleteEvent,
}

/// The effects owed to the transition `e`.
pub open spec fn effects_of(e: PhaseCompleteEvent) -> PhaseEffects {
    PhaseEffects {
        blocker: request_for(e.to),
        record_phase: e.from,
        record_seconds: e.completed_seconds,
        event: e,
    }
}

/// One iteration of the background worker.
#[derive(Debug, Clone, Copy, PartialEq, Eq, Structural)]
pub enum WorkerStep {
    /// The timer is paused: the worker ends and gives up its claim.
    Stop,
    /// Publish `snapshot`; carry out `effects` first when a phase finished.
    Continue { snapshot: TimerState, effects: Option<PhaseEffects> },
}

/// The timer's configuration and state, with the claim of the single
/// background worker. Callers keep it behind one lock and perform the
/// returned effects after releasing it.
#[derive(Debug, Clone, Copy, PartialEq, Eq, Structural)]
pub struct TimerManager {
    pub cfg: TimerConfig,
    pub state: TimerState,
    pub worker_running: bool,
}

impl TimerManager {
    pub open spec fn wf(self) -> bool {
        self.state.wf()
    }

    /// The manager after `start`.
    pub open spec fn started(self) -> TimerManager {
        TimerManager {
            state: TimerState { is_running: true, ..self.state },
            worker_running: true,
            ..self
        }
    }

    /// The plan that `start` returns.
    pub open spec fn start_plan(self) -> StartPlan {
        StartPlan {
            snapshot: self.started().state,
            blocker: request_for(self.state.phase),
            spawn_worker: !self.worker_running,
        }
    }

    /// The manager after one worker iteration, and what it reports.
    pub open spec fn step_spec(self) -> (TimerManager, WorkerStep) {
        if !self.state.is_running {
            (TimerManager { worker_running: false, ..self }, WorkerStep::Stop)
        } else {
            let (s, e) = self.state.tick_spec(self.cfg);
            (
                TimerManager { state: s, ..self },
                WorkerStep::Continue {
                    snapshot: s,
                    effects: match e {
                        Some(ev) => Some(effects_of(ev)),
                        None => None,
                    },
                },
            )
        }
    }

    /// The manager after applying settings `s`.
    pub open spec fn with_settings(self, s: Settings) -> TimerManager {
        let cfg = config_of(s);
        let kept = TimerState {
            long_break_after: cfg.long_break_after,
            daily_goal: cfg.daily_goal,
            ..self.state
        };
        TimerManager {
            cfg,
            state: if self.state.is_running {
                kept
            } else {
                TimerState {
                    total_seconds: duration_of(cfg, kept.phase),
                    remaining_seconds: duration_of(cfg, kept.phase),
                    ..kept
                }
            },
            ..self
        }
    }

    pub fn new(cfg: TimerConfig) -> (r: Self)
        ensures
            r.cfg == cfg,
            r.state == TimerState::fresh(cfg),
            !r.worker_running,
            r.wf(),
    {
        TimerManager { cfg, state: TimerState::new(cfg), worker_running: false }
    }

    /// A copy of the current state.
    pub fn snapshot(&self) -> (r: TimerState)
        ensures
            r == self.state,
    {
        self.state
    }

    /// Sets the timer running and claims the worker if none holds the claim.
    pub fn start(&mut self) -> (r: StartPlan)
        ensures
            *final(self) == old(self).started(),
            r == old(self).start_plan(),
            old(self).wf() ==> final(self).wf(),
    {
        self.state.is_running = true;
        let snapshot = self.state;
        let blocker = if snapshot.phase == Phase::Work {
            BlockerRequest::Enable
        } else {
            BlockerRequest::Disable
        };
        let spawn_worker = !self.worker_running;
        self.worker_running = true;
        StartPlan { snapshot, blocker, spawn_worker }
    }

    /// One iteration of the background worker: stop and release the claim
    /// when paused, else advance the timer by one second.
    pub fn worker_step(&mut self) -> (r: WorkerStep)
        ensures
            (*final(self), r) == old(self).step_spec(),
            old(self).wf() ==> final(self).wf(),
    {
        if !self.state.is_running {
            self.worker_running = false;
            return WorkerStep::Stop;
        }
        let evt = self.state.tick(self.cfg);
        let effects = match evt {
            Some(e) => Some(
                PhaseEffects {
                    blocker: if e.to == Phase::Work {
                        BlockerRequest::Enable
                    } else {
                        BlockerRequest::Disable
                    },
                    record_phase: e.from,
                    record_seconds: e.completed_seconds,
                    event: e,
                },
            ),
            None => None,
        };
        WorkerStep::Continue { snapshot: self.state, effects }
    }

    /// Gives up the worker claim when the worker has to end without a
    /// regular stop; the timer state is left alone.
    pub fn release_worker(&mut self)
        ensures
            *final(self) == (TimerManager { worker_running: false, ..*old(self) }),
    {
        self.worker_running = false;
    }

    /// Pauses the timer; the worker ends on its next iteration.
    pub fn pause(&mut self) -> (r: TimerState)
        ensures
            *final(self) == (TimerManager {
                state: TimerState { is_running: false, ..old(self).state },
                ..*old(self)
            }),
            r == final(self).state,
    {
        self.state.is_running = false;
        self.state
    }

    /// Rewinds the current phase and pauses.
    pub fn reset(&mut self) -> (r: TimerState)
        ensures
            *final(self) == (TimerManager {
                state: TimerState {
                    remaining_seconds: old(self).state.total_seconds,
                    is_running: false,
                    ..old(self).state
                },
                ..*old(self)
            }),
            r == final(self).state,
            final(self).wf(),
    {
        self.state.reset_current_phase();
        self.state
    }

    /// Takes new settings: the configuration is replaced, the cadence and
    /// goal apply at once, and a paused phase is re-timed; a running phase
    /// keeps its countdown.
    pub fn apply_settings(&mut self, s: &Settings) -> (r: TimerState)
        ensures
            *final(self) == old(self).with_settings(*s),
            r == final(self).state,
            old(self).wf() ==> final(self).wf(),
    {
        let cfg = timer_config_from_settings(s);
        self.cfg = cfg;
        self.state.long_break_after = cfg.long_break_after;
        self.state.daily_goal = cfg.daily_goal;
        if !self.state.is_running {
            let current = self.state.phase;
            self.state.apply_phase(current, cfg);
        }
        self.state
    }
}

/// At most one worker: of two `start` calls in a row, at most the first asks
/// for a worker, the second never does, and the claim is held afterwards.
/// While a worker holds the claim no `start` asks for another.
pub proof fn lemma_single_worker(m: TimerManager)
    ensures
        !(m.start_plan().spawn_worker && m.started().start_plan().spawn_worker),
        !m.started().start_plan().spawn_worker,
        m.started().started().worker_running,
        m.worker_running ==> !m.start_plan().spawn_worker,
{
}

/// Only an iteration that finds the timer paused gives up the claim; a
/// running timer keeps its worker.
pub proof fn lemma_claim_released_only_when_paused(m: TimerManager)
    requires
        m.worker_running,
    ensures
        !m.step_spec().0.worker_running <==> !m.state.is_running,
        m.step_spec().1 is Stop <==> !m.state.is_running,
{
}

} // verus!
