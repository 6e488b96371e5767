use aw_screenshot::scheduler::{Scheduler, SchedulerAction, SchedulerEvent, SchedulerState};

#[test]
fn the_first_cycle_runs_at_once() {
    let (scheduler, action) = Scheduler::start(5);
    assert_eq!(scheduler.state, SchedulerState::Running);
    assert_eq!(scheduler.interval, 5);
    assert_eq!(action, SchedulerAction::RunCycle);
}

#[test]
fn a_cycle_is_followed_by_the_full_wait() {
    let (mut scheduler, _) = Scheduler::start(5);
    let action = scheduler.step(SchedulerEvent::CycleCompleted { failed: false });
    assert_eq!(action, SchedulerAction::Sleep { seconds: 5 });
    assert_eq!(scheduler.state, SchedulerState::Idle);
}

#[test]
fn a_failed_cycle_is_followed_by_the_same_wait() {
    let (mut scheduler, _) = Scheduler::start(5);
    let action = scheduler.step(SchedulerEvent::CycleCompleted { failed: true });
    assert_eq!(action, SchedulerAction::Sleep { seconds: 5 });
    assert_eq!(scheduler.state, SchedulerState::Idle);
    assert_eq!(scheduler.step(SchedulerEvent::TimerFired), SchedulerAction::RunCycle);
    assert_eq!(scheduler.state, SchedulerState::Running);
}

#[test]
fn the_scheduler_goes_round_for_ever() {
    let (mut scheduler, first) = Scheduler::start(2);
    assert_eq!(first, SchedulerAction::RunCycle);
    for round in 0..50u32 {
        let failed = round % 3 == 0;
        assert_eq!(
            scheduler.step(SchedulerEvent::CycleCompleted { failed }),
            SchedulerAction::Sleep { seconds: 2 }
        );
        assert_eq!(scheduler.step(SchedulerEvent::TimerFired), SchedulerAction::RunCycle);
        assert_eq!(scheduler.interval, 2);
    }
}

#[test]
fn a_tick_during_a_cycle_starts_no_second_cycle() {
    let (mut scheduler, _) = Scheduler::start(5);
    assert_eq!(scheduler.step(SchedulerEvent::TimerFired), SchedulerAction::Ignore);
    assert_eq!(scheduler.state, SchedulerState::Running);
}

#[test]
fn a_completion_without_a_cycle_is_ignored() {
    let (mut scheduler, _) = Scheduler::start(5);
    scheduler.step(SchedulerEvent::CycleCompleted { failed: false });
    assert_eq!(
        scheduler.step(SchedulerEvent::CycleCompleted { failed: true }),
        SchedulerAction::Ignore
    );
    assert_eq!(scheduler.state, SchedulerState::Idle);
}

#[test]
fn the_wait_is_the_configured_interval() {
    for interval in [0u16, 1, 5, 60, u16::MAX] {
        let (mut scheduler, _) = Scheduler::start(interval);
        assert_eq!(
            scheduler.step(SchedulerEvent::CycleCompleted { failed: true }),
            SchedulerAction::Sleep { seconds: interval as u64 }
        );
    }
}
