use std::time::Duration;
use timer_lib::Timer;
use timer_lib::TimerError;
use timer_lib::TimerManager;
use timer_lib::TimerState;

fn running_timer() -> Timer {
    let mut timer = Timer::new();
    assert!(timer.start_recurring(Duration::from_secs(3), Some(5)).is_ok());
    timer
}

#[test]
fn new_manager_is_empty() {
    let mut manager = TimerManager::new();
    assert_eq!(manager.next_id(), 0);
    assert!(manager.list_timers().is_empty());
    assert!(manager.get_timer(0).is_none());
    let mut by_default = TimerManager::default();
    assert_eq!(by_default.next_id(), 0);
    assert!(by_default.get_timer(0).is_none());
}

#[test]
fn identifiers_count_up_from_zero() {
    let mut manager = TimerManager::new();
    assert_eq!(manager.add_timer(Timer::new()), 0);
    assert_eq!(manager.add_timer(running_timer()), 1);
    assert_eq!(manager.add_timer(Timer::new()), 2);
    assert_eq!(manager.next_id(), 3);
}

#[test]
fn two_running_and_one_stopped_timer() {
    let mut manager = TimerManager::new();
    let first = manager.add_timer(running_timer());
    let idle = manager.add_timer(Timer::new());
    let mut one_time = Timer::new();
    assert!(one_time.start_once(Duration::from_secs(2)).is_ok());
    let second = manager.add_timer(one_time);
    let mut listed = manager.list_timers();
    listed.sort();
    assert_eq!(listed, vec![first, second]);
    assert!(!listed.contains(&idle));
    manager.stop_all();
    assert!(manager.list_timers().is_empty());
    for id in [first, idle, second] {
        let timer = manager.get_timer(id).expect("the timer was added");
        assert_eq!(timer.get_state(), TimerState::Stopped);
    }
}

#[test]
fn list_timers_is_in_ascending_order() {
    let mut manager = TimerManager::new();
    for round in 0..20u64 {
        if round % 3 == 0 {
            manager.add_timer(Timer::new());
        } else {
            manager.add_timer(running_timer());
        }
    }
    let expected: Vec<u64> = (0..20u64).filter(|id| id % 3 != 0).collect();
    assert_eq!(manager.list_timers(), expected);
}

#[test]
fn a_paused_timer_is_listed() {
    let mut manager = TimerManager::new();
    let id = manager.add_timer(running_timer());
    assert!(manager.get_timer(id).expect("the timer was added").pause().is_ok());
    assert_eq!(manager.list_timers(), vec![id]);
}

#[test]
fn get_timer_operates_the_timer_that_the_manager_holds() {
    let mut manager = TimerManager::new();
    let id = manager.add_timer(running_timer());
    {
        let timer = manager.get_timer(id).expect("the timer was added");
        assert_eq!(timer.get_state(), TimerState::Running);
        assert!(timer.stop().is_ok());
    }
    assert!(manager.list_timers().is_empty());
    let timer = manager.get_timer(id).expect("the timer was added");
    assert_eq!(timer.get_state(), TimerState::Stopped);
    assert!(matches!(timer.stop(), Err(TimerError::TimerStopped)));
}

#[test]
fn get_timer_of_an_unknown_identifier_is_none() {
    let mut manager = TimerManager::new();
    let id = manager.add_timer(running_timer());
    assert!(manager.get_timer(id + 1).is_none());
    assert!(manager.get_timer(u64::MAX).is_none());
    assert_eq!(manager.list_timers(), vec![id]);
}

#[test]
fn stop_all_passes_over_stopped_timers() {
    let mut manager = TimerManager::new();
    let stopped = manager.add_timer(Timer::new());
    let running = manager.add_timer(running_timer());
    manager.stop_all();
    manager.stop_all();
    assert!(manager.list_timers().is_empty());
    assert_eq!(manager.get_timer(stopped).unwrap().get_state(), TimerState::Stopped);
    assert_eq!(manager.get_timer(running).unwrap().get_state(), TimerState::Stopped);
    assert_eq!(manager.next_id(), 2);
}

#[test]
fn stop_all_keeps_the_statistics() {
    let mut manager = TimerManager::new();
    let id = manager.add_timer(running_timer());
    {
        let timer = manager.get_timer(id).unwrap();
        let ok: Result<(), TimerError> = Ok(());
        assert!(!timer.record_tick(&ok, Duration::from_secs(3)));
    }
    manager.stop_all();
    let stats = manager.get_timer(id).unwrap().get_statistics();
    assert_eq!(stats.execution_count, 1);
    assert_eq!(stats.elapsed_time, Duration::from_secs(3));
}
