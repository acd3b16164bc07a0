use beejs::event_loop::timers::{sort_ids, TimerTable};
use beejs::event_loop::{EventLoopConfig, EventLoopState, EventLoopTask, V8EventLoop};
use std::time::{Duration, Instant};

fn task(id: u64) -> EventLoopTask {
    EventLoopTask {
        id,
        task_type: "t".to_string(),
        description: "d".to_string(),
        created_at: Instant::now(),
        estimated_duration: Duration::from_millis(1),
    }
}

#[test]
fn event_loop_state_transitions() {
    let mut l = V8EventLoop::new_with_default_config();
    assert_eq!(l.get_state(), EventLoopState::Stopped);
    assert_eq!(l.resume(), Err("Event loop is not paused".to_string()));
    l.start().unwrap();
    assert_eq!(l.get_state(), EventLoopState::Running);
    l.pause().unwrap();
    assert_eq!(l.get_state(), EventLoopState::Paused);
    l.resume().unwrap();
    assert_eq!(l.get_state(), EventLoopState::Running);
    l.stop().unwrap();
    assert_eq!(l.get_state(), EventLoopState::Stopped);
}

#[test]
fn event_loop_queue_limit_and_processing() {
    let config = EventLoopConfig { max_queue_size: 2, ..EventLoopConfig::default() };
    let mut l = V8EventLoop::new(config);
    l.add_task(task(1)).unwrap();
    l.add_task(task(2)).unwrap();
    assert_eq!(l.add_task(task(3)), Err("Task queue is full".to_string()));
    assert_eq!(l.get_queue_size(), 2);
    assert_eq!(l.take_pending_tasks().err(), Some("Event loop is not running".to_string()));
    l.start().unwrap();
    let tasks = l.take_pending_tasks().unwrap();
    assert_eq!(tasks.iter().map(|t| t.id).collect::<Vec<_>>(), vec![1, 2]);
    assert_eq!(l.get_queue_size(), 0);
    assert_eq!(l.complete_tasks(tasks), 2);
    assert_eq!(l.get_completed_count(), 2);
    l.clear_completed();
    assert_eq!(l.get_completed_count(), 0);
    l.add_task(task(4)).unwrap();
    l.reset().unwrap();
    assert_eq!(l.get_queue_size(), 0);
    assert_eq!(l.get_state(), EventLoopState::Stopped);
}

#[test]
fn test_schedule_timeout() {
    let mut table = TimerTable::new();
    let id = 1000;
    table.schedule_timeout(id, 10, 0);
    assert!(id > 0);
    table.tick(5);
    assert!(table.cancel(id));
    table.tick(100);
    assert!(!table.has_fired_timers());
}

#[test]
fn test_schedule_interval() {
    let mut table = TimerTable::new();
    table.schedule_interval(2000, 10, 3, 0);
    table.tick(10);
    table.tick(20);
    table.tick(30);
    table.tick(40);
    assert_eq!(table.poll_fired_timers(), vec![2000, 2000, 2000]);
    assert!(!table.has_scheduled_timers());
}

#[test]
fn test_cancel_timeout() {
    let mut table = TimerTable::new();
    table.schedule_timeout(3000, 50, 0);
    assert!(table.cancel(3000));
    assert!(table.cancel(3000));
    assert!(!table.cancel(0));
    assert!(!table.has_scheduled_timers());
}

#[test]
fn test_clear_timers() {
    let mut table = TimerTable::new();
    table.schedule_timeout(4000, 100, 0);
    table.schedule_timeout(4001, 200, 0);
    table.schedule_timeout(4002, 300, 0);
    table.tick(150);
    table.clear();
    assert!(!table.has_scheduled_timers());
    assert!(!table.has_fired_timers());
    table.schedule_timeout(4003, 10, 0);
    assert!(table.has_scheduled_timers());
}

#[test]
fn test_zero_delay_timeout() {
    let mut table = TimerTable::new();
    table.schedule_timeout(5000, 0, 42);
    table.tick(42);
    assert_eq!(table.poll_fired_timers(), vec![5000]);
}

#[test]
fn test_timer_id_sequential() {
    let mut table = TimerTable::new();
    table.schedule_timeout(6002, 300, 0);
    table.schedule_timeout(6000, 100, 0);
    table.schedule_timeout(6001, 100, 0);
    table.tick(1000);
    assert_eq!(table.poll_fired_timers(), vec![6000, 6001, 6002]);
}

#[test]
fn interval_zero_repeats_until_cancelled() {
    let mut table = TimerTable::new();
    table.schedule_interval(7, 5, 0, 0);
    for t in 1..=10u64 {
        table.tick(t * 5);
    }
    assert_eq!(table.poll_fired_timers().len(), 10);
    assert!(table.has_scheduled_timers());
    assert!(table.cancel(7));
    assert!(!table.has_scheduled_timers());
}

#[test]
fn rescheduling_replaces_a_timer() {
    let mut table = TimerTable::new();
    table.schedule_timeout(9, 10, 0);
    table.schedule_timeout(9, 100, 0);
    table.tick(50);
    assert!(!table.has_fired_timers());
    table.tick(100);
    assert_eq!(table.poll_fired_timers(), vec![9]);
}

#[test]
fn sort_ids_sorts_with_duplicates() {
    assert_eq!(sort_ids(vec![5, 1, 3, 1, 9, 0]), vec![0, 1, 1, 3, 5, 9]);
    assert_eq!(sort_ids(vec![]), Vec::<u64>::new());
}
