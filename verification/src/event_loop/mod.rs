//! The event loop: its run state, its task queue, and its timers.

pub mod timers;

use vstd::prelude::*;

verus! {

/// Whether the loop runs.
#[derive(Debug, Clone, Copy, PartialEq, Eq, Structural)]
pub enum EventLoopState {
    Running,
    Stopped,
    Paused,
}

/// Limits of the event loop.
#[derive(Debug, Clone)]
pub struct EventLoopConfig {
    pub max_execution_time: std::time::Duration,
    pub max_queue_size: usize,
    pub enable_promise_tracking: bool,
}

/// The default limits: thirty seconds per run, ten thousand queued tasks,
/// promise tracking on.
pub open spec fn default_loop_config() -> EventLoopConfig {
    EventLoopConfig {
        max_execution_time: crate::time::duration_of_secs(30),
        max_queue_size: 10000,
        enable_promise_tracking: true,
    }
}

impl Default for EventLoopConfig {
    /// Thirty seconds per run, ten thousand queued tasks, promise tracking on.
    fn default() -> (c: EventLoopConfig)
        ensures
            c == default_loop_config(),
    {
        EventLoopConfig {
            max_execution_time: crate::time::duration_from_secs(30),
            max_queue_size: 10000,
            enable_promise_tracking: true,
        }
    }
}

/// A unit of work queued on the loop.
#[derive(Debug, Clone)]
pub struct EventLoopTask {
    pub id: u64,
    pub task_type: String,
    pub description: String,
    pub created_at: std::time::Instant,
    pub estimated_duration: std::time::Duration,
}

/// The event loop's state: run state, pending tasks and completed tasks.
pub struct V8EventLoop {
    state: EventLoopState,
    config: EventLoopConfig,
    task_queue: Vec<EventLoopTask>,
    completed_tasks: Vec<EventLoopTask>,
}

/// The message of a refused `resume`.
pub open spec fn not_paused_text() -> Seq<char> {
    "Event loop is not paused"@
}

/// The message of a refused `add_task`.
pub open spec fn queue_full_text() -> Seq<char> {
    "Task queue is full"@
}

/// The message of a refused processing run.
pub open spec fn not_running_text() -> Seq<char> {
    "Event loop is not running"@
}

impl V8EventLoop {
    /// The run state.
    pub closed spec fn state_spec(&self) -> EventLoopState {
        self.state
    }

    /// The limits in force.
    pub closed spec fn config_spec(&self) -> &EventLoopConfig {
        &self.config
    }

    /// The pending tasks, oldest first.
    pub closed spec fn queue(&self) -> Seq<EventLoopTask> {
        self.task_queue@
    }

    /// The completed tasks, in completion order.
    pub closed spec fn completed(&self) -> Seq<EventLoopTask> {
        self.completed_tasks@
    }

    /// A stopped loop with no tasks.
    pub fn new(config: EventLoopConfig) -> (l: V8EventLoop)
        ensures
            l.state_spec() == EventLoopState::Stopped,
            *l.config_spec() == config,
            l.queue() == Seq::<EventLoopTask>::empty(),
            l.completed() == Seq::<EventLoopTask>::empty(),
    {
        V8EventLoop { state: EventLoopState::Stopped, config, task_queue: Vec::new(), completed_tasks: Vec::new() }
    }

    /// A stopped loop with the default limits.
    pub fn new_with_default_config() -> (l: V8EventLoop)
        ensures
            l.state_spec() == EventLoopState::Stopped,
            *l.config_spec() == default_loop_config(),
            l.queue() == Seq::<EventLoopTask>::empty(),
            l.completed() == Seq::<EventLoopTask>::empty(),
    {
        Self::new(EventLoopConfig::default())
    }

    /// Sets the loop running; starting a running loop changes nothing.
    pub fn start(&mut self) -> (r: Result<(), String>)
        ensures
            r is Ok,
            final(self).state_spec() == EventLoopState::Running,
            final(self).queue() == old(self).queue(),
            final(self).completed() == old(self).completed(),
            final(self).config_spec() == old(self).config_spec(),
    {
        if self.state == EventLoopState::Running {
            return Ok(());
        }
        self.state = EventLoopState::Running;
        Ok(())
    }

    /// Stops the loop.
    pub fn stop(&mut self) -> (r: Result<(), String>)
        ensures
            r is Ok,
            final(self).state_spec() == EventLoopState::Stopped,
            final(self).queue() == old(self).queue(),
            final(self).completed() == old(self).completed(),
            final(self).config_spec() == old(self).config_spec(),
    {
        self.state = EventLoopState::Stopped;
        Ok(())
    }

    /// Pauses the loop, from any state.
    pub fn pause(&mut self) -> (r: Result<(), String>)
        ensures
            r is Ok,
            final(self).state_spec() == EventLoopState::Paused,
            final(self).queue() == old(self).queue(),
            final(self).completed() == old(self).completed(),
            final(self).config_spec() == old(self).config_spec(),
    {
        self.state = EventLoopState::Paused;
        Ok(())
    }

    /// Resumes a paused loop; any other state is refused and kept.
    pub fn resume(&mut self) -> (r: Result<(), String>)
        ensures
            old(self).state_spec() == EventLoopState::Paused <==> r is Ok,
            r is Ok ==> final(self).state_spec() == EventLoopState::Running,
            match r {
                Ok(_) => final(self).state_spec() == EventLoopState::Running,
                Err(m) => m@ == not_paused_text() && final(self).state_spec() == old(self).state_spec(),
            },
            final(self).queue() == old(self).queue(),
            final(self).completed() == old(self).completed(),
            final(self).config_spec() == old(self).config_spec(),
    {
        match self.state {
            EventLoopState::Paused => {
                self.state = EventLoopState::Running;
                Ok(())
            },
            _ => Err("Event loop is not paused".to_string()),
        }
    }

    /// The run state.
    pub fn get_state(&self) -> (s: EventLoopState)
        ensures
            s == self.state_spec(),
    {
        self.state
    }

    /// Queues a task, unless the queue already holds the configured maximum.
    pub fn add_task(&mut self, task: EventLoopTask) -> (r: Result<(), String>)
        ensures
            r is Ok <==> old(self).queue().len() < old(self).config_spec().max_queue_size,
            match r {
                Ok(_) => final(self).queue() == old(self).queue().push(task),
                Err(m) => m@ == queue_full_text() && final(self).queue() == old(self).queue(),
            },
            final(self).state_spec() == old(self).state_spec(),
            final(self).completed() == old(self).completed(),
            final(self).config_spec() == old(self).config_spec(),
    {
        if self.task_queue.len() >= self.config.max_queue_size {
            return Err("Task queue is full".to_string());
        }
        self.task_queue.push(task);
        Ok(())
    }

    /// Takes every pending task out of the queue for a processing run, oldest
    /// first; a loop that is not running is refused and kept.
    pub fn take_pending_tasks(&mut self) -> (r: Result<Vec<EventLoopTask>, String>)
        ensures
            r is Ok <==> old(self).state_spec() == EventLoopState::Running,
            match r {
                Ok(tasks) => tasks@ == old(self).queue() && final(self).queue() == Seq::<EventLoopTask>::empty(),
                Err(m) => m@ == not_running_text() && final(self).queue() == old(self).queue(),
            },
            final(self).state_spec() == old(self).state_spec(),
            final(self).completed() == old(self).completed(),
            final(self).config_spec() == old(self).config_spec(),
    {
        if self.state != EventLoopState::Running {
            return Err("Event loop is not running".to_string());
        }
        let mut tasks: Vec<EventLoopTask> = Vec::new();
        std::mem::swap(&mut tasks, &mut self.task_queue);
        Ok(tasks)
    }

    /// Records the tasks of a processing run as completed, in order; returns
    /// how many there were.
    pub fn complete_tasks(&mut self, tasks: Vec<EventLoopTask>) -> (n: usize)
        requires
            old(self).completed().len() + tasks@.len() <= usize::MAX,
        ensures
            n == tasks@.len(),
            final(self).completed() == old(self).completed() + tasks@,
            final(self).queue() == old(self).queue(),
            final(self).state_spec() == old(self).state_spec(),
            final(self).config_spec() == old(self).config_spec(),
    {
        let n = tasks.len();
        let mut tasks = tasks;
        self.completed_tasks.append(&mut tasks);
        n
    }

    /// The number of pending tasks.
    pub fn get_queue_size(&self) -> (n: usize)
        ensures
            n == self.queue().len(),
    {
        self.task_queue.len()
    }

    /// The number of completed tasks.
    pub fn get_completed_count(&self) -> (n: usize)
        ensures
            n == self.completed().len(),
    {
        self.completed_tasks.len()
    }

    /// Forgets the completed tasks.
    pub fn clear_completed(&mut self)
        ensures
            final(self).completed() == Seq::<EventLoopTask>::empty(),
            final(self).queue() == old(self).queue(),
            final(self).state_spec() == old(self).state_spec(),
            final(self).config_spec() == old(self).config_spec(),
    {
        self.completed_tasks.clear();
    }

    /// Stops the loop and drops every task, pending or completed.
    pub fn reset(&mut self) -> (r: Result<(), String>)
        ensures
            r is Ok,
            final(self).state_spec() == EventLoopState::Stopped,
            final(self).queue() == Seq::<EventLoopTask>::empty(),
            final(self).completed() == Seq::<EventLoopTask>::empty(),
            final(self).config_spec() == old(self).config_spec(),
    {
        let _ = self.stop();
        self.task_queue.clear();
        self.completed_tasks.clear();
        Ok(())
    }
}

} // verus!
