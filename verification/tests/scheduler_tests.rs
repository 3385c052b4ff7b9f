use eeg_pipeline::scheduler::{
    Acquire, Action, Scheduler, ANALYSIS_PERIOD_MS, EMIT_EVERY, TICK_PERIOD_MS,
};

#[test]
fn cadence_constants() {
    assert_eq!(TICK_PERIOD_MS, 4);
    assert_eq!(EMIT_EVERY, 2);
    assert_eq!(ANALYSIS_PERIOD_MS, 250);
}

#[test]
fn new_scheduler_is_stopped_and_idle() {
    let mut scheduler = Scheduler::new();
    assert!(!scheduler.is_running());
    assert_eq!(scheduler.begin_tick(true), Acquire::Idle);
    assert_eq!(scheduler.begin_tick(false), Acquire::Idle);
    assert_eq!(scheduler.finish_tick(1000, true), Vec::<Action>::new());
}

#[test]
fn start_runs_once() {
    let mut scheduler = Scheduler::new();
    assert!(scheduler.start());
    assert!(scheduler.is_running());
    assert!(!scheduler.start());
    assert!(scheduler.is_running());
    scheduler.stop();
    assert!(!scheduler.is_running());
    assert!(scheduler.start());
}

#[test]
fn sample_source_follows_the_connection() {
    let mut scheduler = Scheduler::new();
    scheduler.start();
    assert_eq!(scheduler.begin_tick(true), Acquire::Pull);
    assert_eq!(scheduler.begin_tick(false), Acquire::Synthesize);
}

#[test]
fn samples_are_emitted_on_every_second_tick() {
    let mut scheduler = Scheduler::new();
    scheduler.start();
    scheduler.begin_tick(false);
    assert_eq!(scheduler.finish_tick(4, true), vec![Action::Filter, Action::UpdateWindows]);
    scheduler.begin_tick(false);
    assert_eq!(
        scheduler.finish_tick(8, true),
        vec![Action::Filter, Action::UpdateWindows, Action::EmitRaw, Action::EmitFiltered]
    );
    scheduler.begin_tick(false);
    assert_eq!(scheduler.finish_tick(12, true), vec![Action::Filter, Action::UpdateWindows]);
    scheduler.begin_tick(false);
    assert_eq!(
        scheduler.finish_tick(16, true),
        vec![Action::Filter, Action::UpdateWindows, Action::EmitRaw, Action::EmitFiltered]
    );
}

#[test]
fn tick_without_sample_is_skipped_entirely() {
    let mut scheduler = Scheduler::new();
    scheduler.start();
    scheduler.begin_tick(true);
    scheduler.begin_tick(true);
    assert_eq!(scheduler.finish_tick(1000, false), Vec::<Action>::new());
    scheduler.begin_tick(true);
    scheduler.begin_tick(true);
    assert_eq!(
        scheduler.finish_tick(1008, true),
        vec![
            Action::Filter,
            Action::UpdateWindows,
            Action::EmitRaw,
            Action::EmitFiltered,
            Action::Analyze
        ]
    );
}

#[test]
fn analysis_runs_every_250_milliseconds() {
    let mut scheduler = Scheduler::new();
    scheduler.start();
    let mut analyzed_at = Vec::new();
    for tick in 1..=200u64 {
        scheduler.begin_tick(false);
        let elapsed = tick * TICK_PERIOD_MS;
        let actions = scheduler.finish_tick(elapsed, true);
        assert_eq!(actions[0], Action::Filter);
        assert_eq!(actions[1], Action::UpdateWindows);
        assert_eq!(actions.contains(&Action::EmitRaw), tick % 2 == 0);
        assert_eq!(actions.contains(&Action::EmitFiltered), tick % 2 == 0);
        if actions.contains(&Action::Analyze) {
            assert_eq!(actions.last(), Some(&Action::Analyze));
            analyzed_at.push(elapsed);
        }
    }
    assert_eq!(analyzed_at, vec![252, 504, 756]);
}

#[test]
fn analysis_is_due_exactly_at_the_period() {
    let mut scheduler = Scheduler::new();
    scheduler.start();
    scheduler.begin_tick(false);
    assert!(!scheduler.finish_tick(249, true).contains(&Action::Analyze));
    scheduler.begin_tick(false);
    assert!(scheduler.finish_tick(250, true).contains(&Action::Analyze));
    scheduler.begin_tick(false);
    assert!(!scheduler.finish_tick(499, true).contains(&Action::Analyze));
    scheduler.begin_tick(false);
    assert!(scheduler.finish_tick(500, true).contains(&Action::Analyze));
}

#[test]
fn clock_that_runs_backwards_does_not_trigger_analysis() {
    let mut scheduler = Scheduler::new();
    scheduler.start();
    scheduler.begin_tick(false);
    assert!(scheduler.finish_tick(1000, true).contains(&Action::Analyze));
    scheduler.begin_tick(false);
    assert!(!scheduler.finish_tick(10, true).contains(&Action::Analyze));
    scheduler.begin_tick(false);
    assert!(scheduler.finish_tick(1250, true).contains(&Action::Analyze));
}

#[test]
fn restart_resets_the_counters() {
    let mut scheduler = Scheduler::new();
    scheduler.start();
    scheduler.begin_tick(false);
    assert!(scheduler.finish_tick(300, true).contains(&Action::Analyze));
    scheduler.stop();
    assert_eq!(scheduler.begin_tick(false), Acquire::Idle);
    assert_eq!(scheduler.finish_tick(900, true), Vec::<Action>::new());
    scheduler.start();
    scheduler.begin_tick(false);
    assert_eq!(scheduler.finish_tick(4, true), vec![Action::Filter, Action::UpdateWindows]);
    scheduler.begin_tick(false);
    assert_eq!(
        scheduler.finish_tick(250, true),
        vec![
            Action::Filter,
            Action::UpdateWindows,
            Action::EmitRaw,
            Action::EmitFiltered,
            Action::Analyze
        ]
    );
}
