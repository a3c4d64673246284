use vstd::prelude::*;

verus! {

/// One segment of the focus cycle.
#[derive(Debug, Clone, Copy, PartialEq, Eq, Structural)]
pub enum Phase {
    Work,
    ShortBreak,
    LongBreak,
}

/// Durations in seconds for each phase, plus the cadence of long breaks.
#[derive(Debug, Clone, Copy, PartialEq, Eq, Structural)]
pub struct TimerConfig {
    pub work_seconds: u32,
    pub short_break_seconds: u32,
    pub long_break_seconds: u32,
    pub long_break_after: u32,
    pub daily_goal: u32,
}

/// The configured duration of `phase`.
pub open spec fn duration_of(cfg: TimerConfig, phase: Phase) -> u32 {
    match phase {
        Phase::Work => cfg.work_seconds,
        Phase::ShortBreak => cfg.short_break_seconds,
        Phase::LongBreak => cfg.long_break_seconds,
    }
}

/// The phase entered after finishing `from`, where `completed` is the number of
/// work phases finished so far (the one just finished included) and `k` the
/// long-break cadence.
pub open spec fn phase_after(from: Phase, completed: u32, k: u32) -> Phase {
    match from {
        Phase::Work => if k > 0 && completed % k == 0 {
            Phase::LongBreak
        } else {
            Phase::ShortBreak
        },
        _ => Phase::Work,
    }
}

/// The work-session counter after finishing a phase `from`: it grows by one
/// (saturating) on work phases only.
pub open spec fn count_after(from: Phase, completed: u32) -> u32 {
    match from {
        Phase::Work => if completed < u32::MAX {
            (completed + 1) as u32
        } else {
            u32::MAX
        },
        _ => completed,
    }
}

impl Default for TimerConfig {
    fn default() -> (r: Self)
        ensures
            r.work_seconds == 1500,
            r.short_break_seconds == 300,
            r.long_break_seconds == 900,
            r.long_break_after == 4,
            r.daily_goal == 8,
    {
        TimerConfig {
            work_seconds: 25 * 60,
            short_break_seconds: 5 * 60,
            long_break_seconds: 15 * 60,
            long_break_after: 4,
            daily_goal: 8,
        }
    }
}

impl TimerConfig {
    pub fn seconds_for(self, phase: Phase) -> (r: u32)
        ensures
            r == duration_of(self, phase),
    {
        match phase {
            Phase::Work => self.work_seconds,
            Phase::ShortBreak => self.short_break_seconds,
            Phase::LongBreak => self.long_break_seconds,
        }
    }
}

/// The countdown state machine.
#[derive(Debug, Clone, Copy, PartialEq, Eq, Structural)]
pub struct TimerState {
    pub phase: Phase,
    pub total_seconds: u32,
    pub remaining_seconds: u32,
    pub is_running: bool,
    pub completed_work_sessions: u32,
    pub long_break_after: u32,
    pub daily_goal: u32,
}

/// Published once for every natural phase transition.
#[derive(Debug, Clone, Copy, PartialEq, Eq, Structural)]
pub struct PhaseCompleteEvent {
    pub from: Phase,
    pub to: Phase,
    pub completed_seconds: u32,
}

impl TimerState {
    /// Well-formed: the countdown never exceeds the phase's length.
    pub open spec fn wf(self) -> bool {
        self.remaining_seconds <= self.total_seconds
    }

    /// The state that `tick` leaves behind, and the event it returns.
    pub open spec fn tick_spec(self, cfg: TimerConfig) -> (TimerState, Option<PhaseCompleteEvent>) {
        if !self.is_running {
            (self, None)
        } else if self.remaining_seconds > 1 {
            (TimerState { remaining_seconds: (self.remaining_seconds - 1) as u32, ..self }, None)
        } else {
            let count = count_after(self.phase, self.completed_work_sessions);
            let to = phase_after(self.phase, count, cfg.long_break_after);
            let d = duration_of(cfg, to);
            (
                TimerState {
                    phase: to,
                    total_seconds: d,
                    remaining_seconds: d,
                    completed_work_sessions: count,
                    ..self
                },
                Some(
                    PhaseCompleteEvent {
                        from: self.phase,
                        to,
                        completed_seconds: self.total_seconds,
                    },
                ),
            )
        }
    }

    /// A fresh timer: a full work phase, paused, nothing completed.
    pub open spec fn fresh(cfg: TimerConfig) -> TimerState {
        TimerState {
            phase: Phase::Work,
            total_seconds: cfg.work_seconds,
            remaining_seconds: cfg.work_seconds,
            is_running: false,
            completed_work_sessions: 0,
            long_break_after: cfg.long_break_after,
            daily_goal: cfg.daily_goal,
        }
    }

    pub fn new(cfg: TimerConfig) -> (r: Self)
        ensures
            r == TimerState::fresh(cfg),
            r.wf(),
    {
        let total = cfg.seconds_for(Phase::Work);
        TimerState {
            phase: Phase::Work,
            total_seconds: total,
            remaining_seconds: total,
            is_running: false,
            completed_work_sessions: 0,
            long_break_after: cfg.long_break_after,
            daily_goal: cfg.daily_goal,
        }
    }

    /// Rewinds the current phase and pauses; phase and counters stay.
    pub fn reset_current_phase(&mut self)
        ensures
            *final(self) == (TimerState {
                remaining_seconds: old(self).total_seconds,
                is_running: false,
                ..*old(self)
            }),
            final(self).wf(),
    {
        self.remaining_seconds = self.total_seconds;
        self.is_running = false;
    }

    /// Enters `phase` with its full configured duration.
    pub fn apply_phase(&mut self, phase: Phase, cfg: TimerConfig)
        ensures
            *final(self) == (TimerState {
                phase,
                total_seconds: duration_of(cfg, phase),
                remaining_seconds: duration_of(cfg, phase),
                ..*old(self)
            }),
            final(self).wf(),
    {
        self.phase = phase;
        self.total_seconds = cfg.seconds_for(phase);
        self.remaining_seconds = self.total_seconds;
    }

    /// Advances the countdown by one second while running; on reaching zero
    /// moves to the next phase and reports the one that finished.
    pub fn tick(&mut self, cfg: TimerConfig) -> (r: Option<PhaseCompleteEvent>)
        ensures
            (*final(self), r) == old(self).tick_spec(cfg),
            old(self).wf() ==> final(self).wf(),
    {
        if !self.is_running {
            return None;
        }
        if self.remaining_seconds > 0 {
            self.remaining_seconds = self.remaining_seconds - 1;
        }
        if self.remaining_seconds != 0 {
            return None;
        }
        let from = self.phase;
        let completed_seconds = self.total_seconds;
        let to = match from {
            Phase::Work => {
                self.completed_work_sessions = self.completed_work_sessions.saturating_add(1);
                if cfg.long_break_after > 0 && self.completed_work_sessions % cfg.long_break_after
                    == 0 {
                    Phase::LongBreak
                } else {
                    Phase::ShortBreak
                }
            },
            Phase::ShortBreak | Phase::LongBreak => Phase::Work,
        };
        self.apply_phase(to, cfg);
        Some(PhaseCompleteEvent { from, to, completed_seconds })
    }
}

/// A tick on a paused timer changes nothing and reports nothing, whatever the
/// state holds.
pub proof fn lemma_paused_tick_is_noop(s: TimerState, cfg: TimerConfig)
    requires
        !s.is_running,
    ensures
        s.tick_spec(cfg) == (s, Option::<PhaseCompleteEvent>::None),
{
}

/// The state after `t` ticks under `cfg`.
pub open spec fn run(s: TimerState, cfg: TimerConfig, t: nat) -> TimerState
    decreases t,
{
    if t == 0 {
        s
    } else {
        run(s, cfg, (t - 1) as nat).tick_spec(cfg).0
    }
}

/// Whether the tick taken from `s` finishes a work phase.
pub open spec fn finishes_work(s: TimerState, cfg: TimerConfig) -> bool {
    match s.tick_spec(cfg).1 {
        Some(e) => e.from == Phase::Work,
        None => false,
    }
}

/// How many work phases finish during the first `t` ticks from `s`.
pub open spec fn work_completions(s: TimerState, cfg: TimerConfig, t: nat) -> nat
    decreases t,
{
    if t == 0 {
        0
    } else {
        let prev = run(s, cfg, (t - 1) as nat);
        work_completions(s, cfg, (t - 1) as nat) + if finishes_work(prev, cfg) {
            1nat
        } else {
            0nat
        }
    }
}

/// Along any run of ticks, the work counter grows by exactly the number of
/// work phases finished (as long as it has not saturated).
pub proof fn lemma_counter_counts_work(s: TimerState, cfg: TimerConfig, t: nat)
    requires
        s.completed_work_sessions + work_completions(s, cfg, t) <= u32::MAX,
    ensures
        run(s, cfg, t).completed_work_sessions == s.completed_work_sessions + work_completions(
            s,
            cfg,
            t,
        ),
    decreases t,
{
    if t > 0 {
        lemma_counter_counts_work(s, cfg, (t - 1) as nat);
    }
}

/// Long-break cadence: counting from a timer with no finished work phase, the
/// phase entered after the `n`-th finished work phase is a long break exactly
/// when `n` is a multiple of `k`, and a short break otherwise; a break always
/// leads back to work.
pub proof fn lemma_long_break_cadence(s: TimerState, cfg: TimerConfig, t: nat)
    requires
        s.completed_work_sessions == 0,
        cfg.long_break_after > 0,
        work_completions(s, cfg, t) < u32::MAX,
    ensures
        ({
            let cur = run(s, cfg, t);
            let n = work_completions(s, cfg, t) as int + 1;
            let k = cfg.long_break_after;
            match cur.tick_spec(cfg).1 {
                Some(e) => (e.from == Phase::Work ==> (e.to == Phase::LongBreak <==> n % (k as int)
                    == 0) && (e.to == Phase::ShortBreak <==> n % (k as int) != 0)) && (e.from
                    != Phase::Work ==> e.to == Phase::Work),
                None => true,
            }
        }),
{
    lemma_counter_counts_work(s, cfg, t);
}

} // verus!
