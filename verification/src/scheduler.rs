//! The decisions of the periodic processing loop.
//!
//! The loop itself, with its timer and its input and output, belongs to the caller. Each
//! tick it asks the scheduler twice: first how to obtain the tick's sample, then, once it
//! knows whether a sample was obtained, what to do with it.

use vstd::prelude::*;

verus! {

/// The period of the loop in milliseconds: a nominal rate of 250 ticks per second.
pub const TICK_PERIOD_MS: u64 = 4;

/// Samples are emitted on every tick whose number is a multiple of this.
pub const EMIT_EVERY: u64 = 2;

/// The least time, in milliseconds, between two analysis cycles.
pub const ANALYSIS_PERIOD_MS: u64 = 250;

/// Whether the loop is running.
#[derive(Clone, Copy, Debug, PartialEq, Eq, Structural)]
pub enum RunState {
    /// The loop is not running; ticks are ignored.
    Stopped,
    /// The loop is running.
    Running,
}

/// How the sample of a tick is to be obtained.
#[derive(Clone, Copy, Debug, PartialEq, Eq, Structural)]
pub enum Acquire {
    /// The loop is stopped: obtain nothing.
    Idle,
    /// A stream is connected: try to pull one sample from it.
    Pull,
    /// No stream is connected: synthesize a sample.
    Synthesize,
}

/// One step of the work of a tick.
#[derive(Clone, Copy, Debug, PartialEq, Eq, Structural)]
pub enum Action {
    /// Run the raw sample through the filter chain.
    Filter,
    /// Append the raw and the filtered sample to the windows.
    UpdateWindows,
    /// Emit the raw sample.
    EmitRaw,
    /// Emit the filtered sample.
    EmitFiltered,
    /// Analyze the windows and emit the band powers.
    Analyze,
}

/// The number of the tick after tick number `ticks`. The count starts over after the
/// largest 64-bit number, which keeps its remainder modulo [`EMIT_EVERY`] in step.
pub open spec fn next_tick(ticks: u64) -> u64 {
    if ticks == u64::MAX {
        0
    } else {
        (ticks + 1) as u64
    }
}

/// Whether the samples of tick number `ticks` are emitted.
pub open spec fn emits(ticks: u64) -> bool {
    ticks % EMIT_EVERY == 0
}

/// Whether an analysis cycle is due at `elapsed` milliseconds when the last one ran at
/// `last` milliseconds.
pub open spec fn analysis_due(last: u64, elapsed: u64) -> bool {
    elapsed - last >= ANALYSIS_PERIOD_MS
}

/// The work of a tick, in the order in which it is to be done. Without a sample nothing
/// is done. With one, the sample is filtered and the windows are updated; then, on ticks
/// that emit, the raw and the filtered sample are emitted in this order; and last, when
/// an analysis cycle is due, the windows are analyzed as they stand after the update.
pub open spec fn tick_actions(sample_ready: bool, emit: bool, analyze: bool) -> Seq<Action> {
    if !sample_ready {
        Seq::empty()
    } else {
        seq![Action::Filter, Action::UpdateWindows] + (if emit {
            seq![Action::EmitRaw, Action::EmitFiltered]
        } else {
            Seq::empty()
        }) + (if analyze {
            seq![Action::Analyze]
        } else {
            Seq::empty()
        })
    }
}

/// Order of the work of a tick: filtering and the update of the windows come first; the
/// raw sample is emitted before the filtered one; an analysis comes last, and so sees the
/// windows after the update; and no step is listed twice or without its condition.
pub proof fn lemma_tick_order(sample_ready: bool, emit: bool, analyze: bool)
    ensures
        ({
            let actions = tick_actions(sample_ready, emit, analyze);
            &&& actions.no_duplicates()
            &&& sample_ready ==> actions[0] == Action::Filter && actions[1]
                == Action::UpdateWindows
            &&& sample_ready && emit ==> actions[2] == Action::EmitRaw && actions[3]
                == Action::EmitFiltered
            &&& sample_ready && analyze ==> actions.last() == Action::Analyze
            &&& actions.contains(Action::Filter) == sample_ready
            &&& actions.contains(Action::UpdateWindows) == sample_ready
            &&& actions.contains(Action::EmitRaw) == (sample_ready && emit)
            &&& actions.contains(Action::EmitFiltered) == (sample_ready && emit)
            &&& actions.contains(Action::Analyze) == (sample_ready && analyze)
        }),
{
    let actions = tick_actions(sample_ready, emit, analyze);
    if sample_ready {
        assert(actions[0] == Action::Filter);
        assert(actions[1] == Action::UpdateWindows);
        if emit {
            assert(actions[2] == Action::EmitRaw);
            assert(actions[3] == Action::EmitFiltered);
        }
        if analyze {
            assert(actions[actions.len() - 1] == Action::Analyze);
        }
    }
}

/// The state of the processing loop between ticks.
pub struct Scheduler {
    state: RunState,
    ticks: u64,
    last_analysis: u64,
}

impl Scheduler {
    /// Whether the loop is running.
    pub closed spec fn run_state(&self) -> RunState {
        self.state
    }

    /// The number of ticks begun since the loop was started, counted modulo 2^64.
    pub closed spec fn tick_count(&self) -> u64 {
        self.ticks
    }

    /// The time of the last analysis cycle, in milliseconds since the loop was started;
    /// zero before the first cycle.
    pub closed spec fn last_analysis(&self) -> u64 {
        self.last_analysis
    }

    /// A stopped scheduler.
    pub fn new() -> (scheduler: Self)
        ensures
            scheduler.run_state() == RunState::Stopped,
            scheduler.tick_count() == 0,
            scheduler.last_analysis() == 0,
    {
        Scheduler { state: RunState::Stopped, ticks: 0, last_analysis: 0 }
    }

    /// Whether the loop is running.
    pub fn is_running(&self) -> (running: bool)
        ensures
            running == (self.run_state() == RunState::Running),
    {
        match self.state {
            RunState::Running => true,
            RunState::Stopped => false,
        }
    }

    /// Starts the loop. A stopped scheduler starts to run with its counters at zero, and
    /// `true` is returned: the caller is to begin ticking. A running scheduler is left as
    /// it is, and `false` is returned.
    pub fn start(&mut self) -> (started: bool)
        ensures
            started == (old(self).run_state() == RunState::Stopped),
            final(self).run_state() == RunState::Running,
            started ==> final(self).tick_count() == 0 && final(self).last_analysis() == 0,
            !started ==> *final(self) == *old(self),
    {
        match self.state {
            RunState::Running => false,
            RunState::Stopped => {
                self.state = RunState::Running;
                self.ticks = 0;
                self.last_analysis = 0;
                true
            },
        }
    }

    /// Stops the loop. The counters stay as they are until the next start.
    pub fn stop(&mut self)
        ensures
            final(self).run_state() == RunState::Stopped,
            final(self).tick_count() == old(self).tick_count(),
            final(self).last_analysis() == old(self).last_analysis(),
    {
        self.state = RunState::Stopped;
    }

    /// Begins a tick and says how its sample is to be obtained: by a pull while a stream
    /// is connected, by synthesis otherwise. A stopped scheduler does not count the tick.
    pub fn begin_tick(&mut self, is_real: bool) -> (acquire: Acquire)
        ensures
            final(self).run_state() == old(self).run_state(),
            final(self).last_analysis() == old(self).last_analysis(),
            old(self).run_state() == RunState::Stopped ==> {
                &&& acquire == Acquire::Idle
                &&& final(self).tick_count() == old(self).tick_count()
            },
            old(self).run_state() == RunState::Running ==> {
                &&& acquire == (if is_real {
                    Acquire::Pull
                } else {
                    Acquire::Synthesize
                })
                &&& final(self).tick_count() == next_tick(old(self).tick_count())
            },
    {
        match self.state {
            RunState::Stopped => Acquire::Idle,
            RunState::Running => {
                self.ticks = if self.ticks == u64::MAX {
                    0
                } else {
                    self.ticks + 1
                };
                if is_real {
                    Acquire::Pull
                } else {
                    Acquire::Synthesize
                }
            },
        }
    }

    /// Completes the tick begun last, `elapsed` milliseconds after the loop was started,
    /// and lists the work to be done, in order. `sample_ready` says whether a sample was
    /// obtained; a tick without one is skipped entirely. An analysis cycle is due when at
    /// least [`ANALYSIS_PERIOD_MS`] have passed since the last one, and then the time of
    /// the last cycle becomes `elapsed`. A stopped scheduler asks for nothing.
    pub fn finish_tick(&mut self, elapsed: u64, sample_ready: bool) -> (actions: Vec<Action>)
        ensures
            final(self).run_state() == old(self).run_state(),
            final(self).tick_count() == old(self).tick_count(),
            actions@ == tick_actions(
                sample_ready && old(self).run_state() == RunState::Running,
                emits(old(self).tick_count()),
                analysis_due(old(self).last_analysis(), elapsed),
            ),
            final(self).last_analysis() == (if sample_ready && old(self).run_state()
                == RunState::Running && analysis_due(old(self).last_analysis(), elapsed) {
                elapsed
            } else {
                old(self).last_analysis()
            }),
    {
        let mut actions: Vec<Action> = Vec::new();
        let running = match self.state {
            RunState::Running => true,
            RunState::Stopped => false,
        };
        if !running || !sample_ready {
            return actions;
        }
        actions.push(Action::Filter);
        actions.push(Action::UpdateWindows);
        let emit = self.ticks % EMIT_EVERY == 0;
        if emit {
            actions.push(Action::EmitRaw);
            actions.push(Action::EmitFiltered);
        }
        let analyze = elapsed >= self.last_analysis && elapsed - self.last_analysis
            >= ANALYSIS_PERIOD_MS;
        if analyze {
            actions.push(Action::Analyze);
            self.last_analysis = elapsed;
        }
        assert(actions@ =~= tick_actions(true, emit, analyze));
        actions
    }
}

} // verus!
