//! Task execution pipeline: the decisions of the polling loop and of the
//! run of one task, and the bookkeeping of the tasks in flight.
//!
//! 1. Poll the platform for assigned tasks.
//! 2. For each task, plan a container.
//! 3. The container feeds the input to the local model.
//! 4. Submit the output to the platform, or report the failure.
//!
//! Concurrency is bounded by the operator's `max_concurrent` setting
//! (5 to 15 is realistic for consumer hardware): a task starts only while
//! fewer tasks than that run.

use vstd::prelude::*;
use crate::api_client::{
    ApiClient, ApiRequest, PlatformTask, submit_result_spec, task_failed_spec,
};
use crate::config::SandboxConfig;
use crate::docker::{ContainerSpec, ContainerView, container_spec, planned_container};
use crate::ollama::{
    build_task_prompt, lemma_prompt_holds_title_and_description, lemma_prompt_holds_whole_input,
    task_prompt,
};
use crate::text::{contains_text, lemma_contains_in_wider};

verus! {

/// The monotonic clock's instant type of std.
#[verifier::external_type_specification]
#[verifier::external_body]
pub struct ExInstant(std::time::Instant);

/// Reads the monotonic clock.
///
/// Trusted: calls `std::time::Instant::now`. The reading depends on the
/// time; nothing is stated of it.
#[verifier::external_body]
fn instant_now() -> std::time::Instant {
    std::time::Instant::now()
}

/// The time gone by since an instant.
///
/// Trusted: calls `std::time::Instant::elapsed`. The value depends on the
/// time; nothing is stated of it.
#[verifier::external_body]
fn elapsed_since(start: &std::time::Instant) -> std::time::Duration {
    start.elapsed()
}

/// Whole seconds of a duration.
///
/// Trusted: calls `std::time::Duration::as_secs`. A duration is opaque
/// here, so nothing is stated of the number.
#[verifier::external_body]
fn whole_seconds(d: &std::time::Duration) -> u64 {
    d.as_secs()
}

/// Counters of a [`TaskRunner`].
pub struct RunnerCounts {
    pub tasks_completed: nat,
    pub current_load: nat,
}

/// Keeps count of the tasks that run and of those that completed.
pub struct TaskRunner {
    start_time: std::time::Instant,
    tasks_completed: u64,
    current_load: u32,
}

impl View for TaskRunner {
    type V = RunnerCounts;

    closed spec fn view(&self) -> RunnerCounts {
        RunnerCounts {
            tasks_completed: self.tasks_completed as nat,
            current_load: self.current_load as nat,
        }
    }
}

/// The counters once a task has started.
pub open spec fn after_begin(c: RunnerCounts) -> RunnerCounts {
    RunnerCounts { tasks_completed: c.tasks_completed, current_load: c.current_load + 1 }
}

/// The counters once a task's result was submitted.
pub open spec fn after_completion(c: RunnerCounts) -> RunnerCounts {
    RunnerCounts { tasks_completed: c.tasks_completed + 1, current_load: c.current_load }
}

/// The counters once a task has ended; the load never drops below zero.
pub open spec fn after_end(c: RunnerCounts) -> RunnerCounts {
    RunnerCounts {
        tasks_completed: c.tasks_completed,
        current_load: if c.current_load == 0 {
            0
        } else {
            (c.current_load - 1) as nat
        },
    }
}

impl TaskRunner {
    /// A runner with no task run yet, whose uptime starts now.
    pub fn new() -> (res: Self)
        ensures
            res@ == (RunnerCounts { tasks_completed: 0, current_load: 0 }),
    {
        TaskRunner { start_time: instant_now(), tasks_completed: 0, current_load: 0 }
    }

    /// Number of tasks running now.
    pub fn current_load(&self) -> (res: u32)
        ensures
            res == self@.current_load,
    {
        self.current_load
    }

    /// Number of tasks whose result was submitted.
    pub fn tasks_completed(&self) -> (res: u64)
        ensures
            res == self@.tasks_completed,
    {
        self.tasks_completed
    }

    /// Whole seconds since the runner was made; read from the clock.
    pub fn uptime_seconds(&self) -> u64 {
        let d = elapsed_since(&self.start_time);
        whole_seconds(&d)
    }

    /// Starts a task when fewer than `max_concurrent` tasks run: counts it
    /// as running and gives the event that announces it. When the limit is
    /// reached, nothing changes and no event is given; the task waits.
    pub fn try_begin_task(&mut self, task_id: &str, max_concurrent: u32) -> (event: Option<UiEvent>)
        ensures
            old(self)@.current_load < max_concurrent ==> {
                &&& final(self)@ == after_begin(old(self)@)
                &&& event matches Some(ev) && ev@ == EventView::TaskStarted(task_id@)
            },
            old(self)@.current_load >= max_concurrent ==> {
                &&& final(self)@ == old(self)@
                &&& event is None
            },
    {
        if self.current_load < max_concurrent {
            self.current_load = self.current_load + 1;
            Some(UiEvent::TaskStarted(task_id.to_owned()))
        } else {
            None
        }
    }

    /// Counts a task as completed.
    pub fn record_completion(&mut self)
        requires
            old(self)@.tasks_completed < u64::MAX,
        ensures
            final(self)@ == after_completion(old(self)@),
    {
        self.tasks_completed = self.tasks_completed + 1;
    }

    /// Counts a task as no longer running.
    pub fn end_task(&mut self)
        ensures
            final(self)@ == after_end(old(self)@),
    {
        self.current_load = self.current_load.saturating_sub(1);
    }
}

/// An event for the user interface.
pub enum UiEvent {
    /// Tasks arrived; the payload is their number.
    TasksReceived(usize),
    /// Polling failed, with this message.
    PollError(String),
    /// The task with this id started.
    TaskStarted(String),
    /// A task completed.
    TaskCompleted { task_id: String, duration: u64, success: bool },
    /// A task failed.
    TaskFailed { task_id: String, error: String },
}

/// What an event holds.
pub enum EventView {
    TasksReceived(usize),
    PollError(Seq<char>),
    TaskStarted(Seq<char>),
    TaskCompleted { task_id: Seq<char>, duration: u64, success: bool },
    TaskFailed { task_id: Seq<char>, error: Seq<char> },
}

impl View for UiEvent {
    type V = EventView;

    open spec fn view(&self) -> EventView {
        match self {
            UiEvent::TasksReceived(n) => EventView::TasksReceived(*n),
            UiEvent::PollError(e) => EventView::PollError(e@),
            UiEvent::TaskStarted(id) => EventView::TaskStarted(id@),
            UiEvent::TaskCompleted { task_id, duration, success } => EventView::TaskCompleted {
                task_id: task_id@,
                duration: *duration,
                success: *success,
            },
            UiEvent::TaskFailed { task_id, error } => EventView::TaskFailed {
                task_id: task_id@,
                error: error@,
            },
        }
    }
}

/// The name under which an event is emitted.
pub open spec fn event_name_text(e: EventView) -> Seq<char> {
    match e {
        EventView::TasksReceived(_) => "tasks-received"@,
        EventView::PollError(_) => "poll-error"@,
        EventView::TaskStarted(_) => "task-started"@,
        EventView::TaskCompleted { .. } => "task-completed"@,
        EventView::TaskFailed { .. } => "task-failed"@,
    }
}

impl UiEvent {
    /// The name under which the event is emitted.
    pub fn name(&self) -> (res: String)
        ensures
            res@ == event_name_text(self@),
    {
        match self {
            UiEvent::TasksReceived(_) => "tasks-received".to_owned(),
            UiEvent::PollError(_) => "poll-error".to_owned(),
            UiEvent::TaskStarted(_) => "task-started".to_owned(),
            UiEvent::TaskCompleted { .. } => "task-completed".to_owned(),
            UiEvent::TaskFailed { .. } => "task-failed".to_owned(),
        }
    }
}

/// What one round of polling does.
pub enum PollRound {
    /// Run these tasks, after emitting `announce` when there is one. Each
    /// task starts once the runner has room for it.
    Dispatch { announce: Option<UiEvent>, tasks: Vec<PlatformTask> },
    /// Polling failed; emit this event.
    Failed { event: UiEvent },
}

/// Decides a round of polling from what the poll returned.
pub fn poll_round(polled: Result<Vec<PlatformTask>, String>) -> (res: PollRound)
    ensures
        match polled {
            Ok(tasks) => match res {
                PollRound::Dispatch { announce, tasks: run } => {
                    &&& run@ == tasks@
                    &&& if tasks@.len() == 0 {
                        announce is None
                    } else {
                        announce matches Some(ev) && ev@ == EventView::TasksReceived(tasks@.len() as usize)
                    }
                },
                PollRound::Failed { .. } => false,
            },
            Err(e) => match res {
                PollRound::Failed { event } => event@ == EventView::PollError(e@),
                PollRound::Dispatch { .. } => false,
            },
        },
{
    match polled {
        Ok(tasks) => {
            let announce = if tasks.len() == 0 {
                None
            } else {
                Some(UiEvent::TasksReceived(tasks.len()))
            };
            PollRound::Dispatch { announce, tasks }
        },
        Err(e) => PollRound::Failed { event: UiEvent::PollError(e) },
    }
}

/// The text of an optional field, empty when absent.
pub open spec fn text_or_empty(o: Option<String>) -> Seq<char> {
    match o {
        Some(s) => s@,
        None => Seq::empty(),
    }
}

fn str_or_empty(o: &Option<String>) -> (res: &str)
    ensures
        res@ == text_or_empty(*o),
{
    match o {
        Some(s) => s.as_str(),
        None => {
            proof {
                reveal_strlit("");
            }
            ""
        },
    }
}

/// The container planned for a task under the given settings.
pub open spec fn planned_task_container(task: PlatformTask, config: SandboxConfig) -> ContainerView {
    let input = text_or_empty(task.input_text);
    planned_container(
        config.docker_image@,
        task.id@,
        input,
        task_prompt(task.category_name@, task.title@, text_or_empty(task.description), input),
        config.ollama_url@,
        config.model_name@,
        config.container_memory_mb,
        config.container_nano_cpus,
    )
}

/// Plans how a task runs: its prompt, built from the category, title,
/// description and input, goes into a container made from the settings.
pub fn plan_task(task: &PlatformTask, config: &SandboxConfig) -> (res: ContainerSpec)
    requires
        config.container_memory_mb * 1048576 <= u64::MAX,
    ensures
        res@ == planned_task_container(*task, *config),
{
    let input = str_or_empty(&task.input_text);
    let prompt = build_task_prompt(
        task.category_name.as_str(),
        task.title.as_str(),
        str_or_empty(&task.description),
        input,
    );
    container_spec(
        config.docker_image.as_str(),
        task.id.as_str(),
        input,
        prompt.as_str(),
        config.ollama_url.as_str(),
        config.model_name.as_str(),
        config.container_memory_mb,
        config.container_nano_cpus,
    )
}

/// What is done once a task's container is done.
pub struct TaskReport {
    /// The request that reports the outcome to the platform
    pub request: ApiRequest,
    /// The event for the user interface
    pub event: UiEvent,
    /// Whether the task counts as completed
    pub succeeded: bool,
}

/// Decides how a task's outcome is reported: an output is submitted as
/// the result, with no token count and the elapsed seconds as processing
/// time; an error is reported as the task's failure.
pub fn report_task(
    api: &ApiClient,
    task_id: &str,
    model: &str,
    outcome: Result<String, String>,
    elapsed_secs: u64,
) -> (res: TaskReport)
    ensures
        match outcome {
            Ok(output) => {
                &&& res.request@ == submit_result_spec(
                    api@,
                    task_id@,
                    output@,
                    model@,
                    0,
                    elapsed_secs,
                )
                &&& res.event@ == EventView::TaskCompleted {
                    task_id: task_id@,
                    duration: elapsed_secs,
                    success: true,
                }
                &&& res.succeeded
            },
            Err(e) => {
                &&& res.request@ == task_failed_spec(api@, task_id@, e@)
                &&& res.event@ == EventView::TaskFailed { task_id: task_id@, error: e@ }
                &&& !res.succeeded
            },
        },
{
    match outcome {
        Ok(output) => TaskReport {
            request: api.submit_result_request(task_id, output.as_str(), model, 0, elapsed_secs),
            event: UiEvent::TaskCompleted {
                task_id: task_id.to_owned(),
                duration: elapsed_secs,
                success: true,
            },
            succeeded: true,
        },
        Err(e) => TaskReport {
            request: api.task_failed_request(task_id, e.as_str()),
            event: UiEvent::TaskFailed { task_id: task_id.to_owned(), error: e },
            succeeded: false,
        },
    }
}


/// One step in the life of the tasks a runner counts.
#[derive(PartialEq, Eq, Structural)]
pub enum TaskStep {
    /// A task starts.
    Start,
    /// A task's result was submitted.
    Complete,
    /// A task ends.
    Finish,
}

/// The counters after a run of steps, the tasks' steps interleaved in any
/// order.
pub open spec fn apply_steps(c: RunnerCounts, steps: Seq<TaskStep>) -> RunnerCounts
    decreases steps.len(),
{
    if steps.len() == 0 {
        c
    } else {
        let prev = apply_steps(c, steps.drop_last());
        match steps.last() {
            TaskStep::Start => after_begin(prev),
            TaskStep::Complete => after_completion(prev),
            TaskStep::Finish => after_end(prev),
        }
    }
}

/// How many steps of a run are of the given kind.
pub open spec fn count_steps(steps: Seq<TaskStep>, kind: TaskStep) -> nat
    decreases steps.len(),
{
    if steps.len() == 0 {
        0
    } else {
        count_steps(steps.drop_last(), kind) + if steps.last() == kind {
            1nat
        } else {
            0nat
        }
    }
}

/// Every task that ends has started: no prefix of the run ends more tasks
/// than it starts.
pub open spec fn ends_follow_starts(steps: Seq<TaskStep>) -> bool {
    forall|k: int|
        0 <= k <= steps.len() ==> count_steps(#[trigger] steps.take(k), TaskStep::Finish)
            <= count_steps(steps.take(k), TaskStep::Start)
}

/// The counters count what happened: after any interleaving of the steps
/// of many tasks in which no task ends before it starts, the load is the
/// load before plus the starts minus the ends, and the completed count is
/// the count before plus the submitted results; failed tasks add nothing.
pub proof fn lemma_runner_counts_steps(c: RunnerCounts, steps: Seq<TaskStep>)
    requires
        ends_follow_starts(steps),
    ensures
        apply_steps(c, steps).current_load + count_steps(steps, TaskStep::Finish) == c.current_load
            + count_steps(steps, TaskStep::Start),
        apply_steps(c, steps).tasks_completed == c.tasks_completed + count_steps(
            steps,
            TaskStep::Complete,
        ),
    decreases steps.len(),
{
    if steps.len() > 0 {
        let pre = steps.drop_last();
        assert forall|k: int| 0 <= k <= pre.len() implies count_steps(
            #[trigger] pre.take(k),
            TaskStep::Finish,
        ) <= count_steps(pre.take(k), TaskStep::Start) by {
            assert(pre.take(k) =~= steps.take(k));
        }
        lemma_runner_counts_steps(c, pre);
        assert(steps.take(steps.len() as int) =~= steps);
        assert(count_steps(steps.take(steps.len() as int), TaskStep::Finish) <= count_steps(
            steps.take(steps.len() as int),
            TaskStep::Start,
        ));
    }
}

/// Every start in the run comes when fewer than `max` tasks run.
pub open spec fn starts_have_room(c: RunnerCounts, steps: Seq<TaskStep>, max: nat) -> bool {
    forall|k: int|
        0 <= k < steps.len() && steps[k] == TaskStep::Start ==> apply_steps(
            c,
            #[trigger] steps.take(k),
        ).current_load < max
}

proof fn lemma_load_at_most(c: RunnerCounts, steps: Seq<TaskStep>, max: nat)
    requires
        c.current_load <= max,
        starts_have_room(c, steps, max),
    ensures
        apply_steps(c, steps).current_load <= max,
    decreases steps.len(),
{
    if steps.len() > 0 {
        let pre = steps.drop_last();
        assert forall|k: int| 0 <= k < pre.len() && pre[k] == TaskStep::Start implies apply_steps(
            c,
            #[trigger] pre.take(k),
        ).current_load < max by {
            assert(pre.take(k) =~= steps.take(k));
            assert(steps[k] == pre[k]);
        }
        lemma_load_at_most(c, pre, max);
        if steps.last() == TaskStep::Start {
            assert(steps.take(steps.len() - 1) =~= pre);
            assert(steps[steps.len() - 1] == TaskStep::Start);
        }
    }
}

/// The concurrency limit holds: when the load starts within `max` and each
/// task starts only while fewer than `max` run, as `try_begin_task`
/// allows, the load stays within `max` at every point of the run.
pub proof fn lemma_load_within_limit(c: RunnerCounts, steps: Seq<TaskStep>, max: nat)
    requires
        c.current_load <= max,
        starts_have_room(c, steps, max),
    ensures
        forall|k: int| 0 <= k <= steps.len() ==> #[trigger] apply_steps(c, steps.take(k)).current_load <= max,
{
    assert forall|k: int| 0 <= k <= steps.len() implies #[trigger] apply_steps(
        c,
        steps.take(k),
    ).current_load <= max by {
        let t = steps.take(k);
        assert forall|j: int| 0 <= j < t.len() && t[j] == TaskStep::Start implies apply_steps(
            c,
            #[trigger] t.take(j),
        ).current_load < max by {
            assert(t.take(j) =~= steps.take(j));
            assert(t[j] == steps[j]);
        }
        lemma_load_at_most(c, t, max);
    }
}

/// One task's whole course, from its start to its end, leaves the load as
/// it was and adds one to the completed count exactly when the task
/// succeeded.
pub proof fn lemma_task_course(c: RunnerCounts, succeeded: bool)
    ensures
        after_end(
            if succeeded {
                after_completion(after_begin(c))
            } else {
                after_begin(c)
            },
        ) == (RunnerCounts {
            tasks_completed: c.tasks_completed + if succeeded {
                1nat
            } else {
                0nat
            },
            current_load: c.current_load,
        }),
{
}

/// A task's container carries the task itself: its `PROMPT` entry holds
/// the task's title word for word, its description whenever it has one,
/// and its whole input whenever it has one and the category is not an
/// email draft; its `INPUT` entry is the input, empty when there is none;
/// and the container is named after the task and made from the configured
/// image.
pub proof fn lemma_task_plan_carries_task(task: PlatformTask, config: SandboxConfig)
    ensures
        ({
            let v = planned_task_container(task, config);
            &&& v.env.len() == 5
            &&& contains_text(v.env[3], task.title@)
            &&& (task.description matches Some(d) ==> contains_text(v.env[3], d@))
            &&& (task.input_text matches Some(i) ==> (task.category_name@ != "email-draft"@
                ==> contains_text(v.env[3], i@)))
            &&& v.env[4] == "INPUT="@ + text_or_empty(task.input_text)
            &&& v.name == "workingclaw-task-"@ + task.id@
            &&& v.image == config.docker_image@
        }),
{
    let v = planned_task_container(task, config);
    let input = text_or_empty(task.input_text);
    let desc = text_or_empty(task.description);
    let p = task_prompt(task.category_name@, task.title@, desc, input);
    assert(v.env[3] == "PROMPT="@ + p);
    lemma_prompt_holds_title_and_description(task.category_name@, task.title@, desc, input);
    lemma_prompt_holds_whole_input(task.category_name@, task.title@, desc, input, input);
    assert("PROMPT="@ + p =~= "PROMPT="@ + p + Seq::<char>::empty());
    lemma_contains_in_wider("PROMPT="@, p, Seq::empty(), task.title@);
    lemma_contains_in_wider("PROMPT="@, p, Seq::empty(), desc);
    if task.category_name@ != "email-draft"@ {
        lemma_contains_in_wider("PROMPT="@, p, Seq::empty(), input);
    }
}

} // verus!
