//! Schedules, their tasks, and the decisions of the schedule executor.
//!
//! The executor itself sleeps, sends power actions and waits for events; what
//! it does next is decided here.

use vstd::prelude::*;
use vstd::string::StringExecFns;
use crate::events::Event;
use crate::server::power::ProcessState;
use crate::text::text_is;

verus! {

/// One task of a schedule.
#[derive(Debug, Clone)]
pub struct ScheduleTask {
    pub id: String,
    pub action: String,
    pub payload: Option<String>,
    pub time_offset: u64,
    pub sequence: u32,
    pub trigger_mode: String,
}

/// A schedule: a cron expression and an ordered list of tasks.
#[derive(Debug, Clone)]
pub struct Schedule {
    pub id: String,
    pub name: String,
    pub cron_expression: String,
    pub enabled: bool,
    pub tasks: Vec<ScheduleTask>,
}

/// What a task does.
#[derive(Debug, Clone, Copy, PartialEq, Eq, Structural)]
pub enum TaskAction {
    PowerStart,
    PowerStop,
    PowerRestart,
    Backup,
    Command,
}

/// When the schedule moves on from a task.
#[derive(Debug, Clone, Copy, PartialEq, Eq, Structural)]
pub enum TriggerMode {
    /// Sleep for the task's offset, run the task, move on.
    TimeDelay,
    /// Run the task and wait for its completion event.
    OnCompletion,
}

/// Longest wait for a completion event, in seconds.
pub const COMPLETION_TIMEOUT_SECS: u64 = 600;

/// The action a task's text names.
pub open spec fn action_of(s: Seq<char>) -> Option<TaskAction> {
    if s == "power_start"@ {
        Some(TaskAction::PowerStart)
    } else if s == "power_stop"@ {
        Some(TaskAction::PowerStop)
    } else if s == "power_restart"@ {
        Some(TaskAction::PowerRestart)
    } else if s == "backup"@ {
        Some(TaskAction::Backup)
    } else if s == "command"@ {
        Some(TaskAction::Command)
    } else {
        None
    }
}

/// The trigger mode a task's text names.
pub open spec fn trigger_of(s: Seq<char>) -> Option<TriggerMode> {
    if s == "TIME_DELAY"@ {
        Some(TriggerMode::TimeDelay)
    } else if s == "ON_COMPLETION"@ {
        Some(TriggerMode::OnCompletion)
    } else {
        None
    }
}

/// Reads a task action.
pub fn parse_action(s: &str) -> (r: Option<TaskAction>)
    ensures
        r == action_of(s@),
{
    if text_is(s, "power_start") {
        Some(TaskAction::PowerStart)
    } else if text_is(s, "power_stop") {
        Some(TaskAction::PowerStop)
    } else if text_is(s, "power_restart") {
        Some(TaskAction::PowerRestart)
    } else if text_is(s, "backup") {
        Some(TaskAction::Backup)
    } else if text_is(s, "command") {
        Some(TaskAction::Command)
    } else {
        None
    }
}

/// Reads a trigger mode.
pub fn parse_trigger_mode(s: &str) -> (r: Option<TriggerMode>)
    ensures
        r == trigger_of(s@),
{
    if text_is(s, "TIME_DELAY") {
        Some(TriggerMode::TimeDelay)
    } else if text_is(s, "ON_COMPLETION") {
        Some(TriggerMode::OnCompletion)
    } else {
        None
    }
}

/// What an ON_COMPLETION task waits for.
#[derive(Debug, Clone, Copy, PartialEq, Eq, Structural)]
pub enum Awaited {
    /// A backup-completed event.
    BackupCompleted,
    /// A change to this process state.
    State(ProcessState),
    /// Nothing: the task is complete as soon as it has run.
    Nothing,
}

/// The event that completes a task.
pub open spec fn awaited_by(action: TaskAction) -> Awaited {
    match action {
        TaskAction::Backup => Awaited::BackupCompleted,
        TaskAction::PowerStart => Awaited::State(ProcessState::Running),
        TaskAction::PowerRestart => Awaited::State(ProcessState::Running),
        TaskAction::PowerStop => Awaited::State(ProcessState::Offline),
        TaskAction::Command => Awaited::Nothing,
    }
}

/// The event that completes a task.
pub fn completion_target(action: TaskAction) -> (a: Awaited)
    ensures
        a == awaited_by(action),
{
    match action {
        TaskAction::Backup => Awaited::BackupCompleted,
        TaskAction::PowerStart => Awaited::State(ProcessState::Running),
        TaskAction::PowerRestart => Awaited::State(ProcessState::Running),
        TaskAction::PowerStop => Awaited::State(ProcessState::Offline),
        TaskAction::Command => Awaited::Nothing,
    }
}

/// Whether an event completes the wait, and with what success: a backup
/// completion counts with its own success flag, a state change counts when it
/// reaches the awaited state, every other event is passed over.
pub open spec fn completes(awaited: Awaited, event: Event) -> Option<bool> {
    match (awaited, event) {
        (Awaited::BackupCompleted, Event::BackupCompleted { successful, .. }) => Some(successful),
        (Awaited::State(target), Event::StateChange(state)) => if state == target {
            Some(true)
        } else {
            None
        },
        _ => None,
    }
}

/// Decides whether an event ends the wait of an ON_COMPLETION task.
pub fn check_completion(awaited: Awaited, event: &Event) -> (r: Option<bool>)
    ensures
        r == completes(awaited, *event),
{
    match awaited {
        Awaited::BackupCompleted => match event {
            Event::BackupCompleted { successful, .. } => Some(*successful),
            _ => None,
        },
        Awaited::State(target) => match event {
            Event::StateChange(state) => {
                if *state == target {
                    Some(true)
                } else {
                    None
                }
            },
            _ => None,
        },
        Awaited::Nothing => None,
    }
}

/// How a task ended.
#[derive(Debug, Clone, Copy, PartialEq, Eq, Structural)]
pub enum TaskOutcome {
    Succeeded,
    Failed,
    TimedOut,
}

/// Whether the schedule goes on after a task: always after success, and after
/// a failed command; any other failure or timeout aborts the schedule.
pub open spec fn continues_after(action: TaskAction, outcome: TaskOutcome) -> bool {
    outcome == TaskOutcome::Succeeded || action == TaskAction::Command
}

/// Decides whether the schedule goes on after a task.
pub fn schedule_continues(action: TaskAction, outcome: TaskOutcome) -> (r: bool)
    ensures
        r == continues_after(action, outcome),
{
    match outcome {
        TaskOutcome::Succeeded => true,
        _ => match action {
            TaskAction::Command => true,
            _ => false,
        },
    }
}

/// What the executor does for one task.
#[derive(Debug, Clone, Copy, PartialEq, Eq, Structural)]
pub enum TaskStep {
    /// Sleep `delay_secs`, run the action, do not wait.
    RunAfterDelay { delay_secs: u64, action: TaskAction },
    /// Subscribe to the event bus, run the action, wait for `awaited` for at
    /// most `timeout_secs`.
    RunAndWait { action: TaskAction, awaited: Awaited, timeout_secs: u64 },
    /// The task names an action or a trigger mode that does not exist: the
    /// schedule is aborted.
    Abort,
}

/// The step for a task with the given action and trigger mode texts.
pub open spec fn step_of(action: Seq<char>, trigger_mode: Seq<char>, time_offset: u64) -> TaskStep {
    match (trigger_of(trigger_mode), action_of(action)) {
        (Some(TriggerMode::TimeDelay), Some(a)) => TaskStep::RunAfterDelay {
            delay_secs: time_offset,
            action: a,
        },
        (Some(TriggerMode::OnCompletion), Some(a)) => TaskStep::RunAndWait {
            action: a,
            awaited: awaited_by(a),
            timeout_secs: 600,
        },
        _ => TaskStep::Abort,
    }
}

/// Decides what the executor does for a task.
pub fn plan_task(task: &ScheduleTask) -> (step: TaskStep)
    ensures
        step == step_of(task.action@, task.trigger_mode@, task.time_offset),
{
    let mode = parse_trigger_mode(task.trigger_mode.as_str());
    let action = parse_action(task.action.as_str());
    match (mode, action) {
        (Some(TriggerMode::TimeDelay), Some(a)) => TaskStep::RunAfterDelay {
            delay_secs: task.time_offset,
            action: a,
        },
        (Some(TriggerMode::OnCompletion), Some(a)) => TaskStep::RunAndWait {
            action: a,
            awaited: completion_target(a),
            timeout_secs: COMPLETION_TIMEOUT_SECS,
        },
        _ => TaskStep::Abort,
    }
}

/// Whether task `i` is next: it has not run, and no task that has not run
/// has a smaller sequence number, nor the same one at an earlier position.
pub open spec fn is_next(tasks: Seq<ScheduleTask>, done: Seq<bool>, i: int) -> bool {
    &&& 0 <= i < tasks.len()
    &&& !done[i]
    &&& forall|j: int|
        0 <= j < tasks.len() && !done[j] ==> (#[trigger] tasks[j]).sequence > tasks[i].sequence || (
        tasks[j].sequence == tasks[i].sequence && j >= i)
}

/// The task to run next, in ascending order of sequence number; `None` when
/// every task has run.
pub fn next_task(tasks: &Vec<ScheduleTask>, done: &Vec<bool>) -> (r: Option<usize>)
    requires
        done@.len() == tasks@.len(),
    ensures
        match r {
            Some(i) => is_next(tasks@, done@, i as int),
            None => forall|j: int| 0 <= j < tasks@.len() ==> done@[j],
        },
{
    let mut best: Option<usize> = None;
    let mut i: usize = 0;
    while i < tasks.len()
        invariant
            i <= tasks@.len(),
            done@.len() == tasks@.len(),
            match best {
                Some(b) => b < i && !done@[b as int] && forall|j: int|
                    0 <= j < i && !done@[j] ==> (#[trigger] tasks@[j]).sequence > tasks@[b as int].sequence
                        || (tasks@[j].sequence == tasks@[b as int].sequence && j >= b),
                None => forall|j: int| 0 <= j < i ==> done@[j],
            },
        decreases tasks@.len() - i,
    {
        if !done[i] {
            match best {
                Some(b) => {
                    if tasks[i].sequence < tasks[b].sequence {
                        best = Some(i);
                    }
                },
                None => {
                    best = Some(i);
                },
            }
        }
        i = i + 1;
    }
    best
}

/// What the control plane is told when a backup has completed.
#[derive(Debug, Clone)]
pub struct BackupRequest {
    pub successful: bool,
    pub checksum: Option<String>,
    pub checksum_type: Option<String>,
    pub size: u64,
}

/// The report of a completed backup: the checksum type is `sha256` exactly
/// when there is a checksum.
pub fn backup_status_request(successful: bool, checksum: Option<String>, size: u64) -> (r:
    BackupRequest)
    ensures
        r.successful == successful,
        r.checksum == checksum,
        r.size == size,
        r.checksum_type.is_some() == checksum.is_some(),
        r.checksum_type.is_some() ==> r.checksum_type.unwrap()@ == "sha256"@,
{
    let checksum_type: Option<String> = match &checksum {
        Some(_) => Some(String::from_str("sha256")),
        None => None,
    };
    BackupRequest { successful, checksum, checksum_type, size }
}

/// What the executor does next.
#[derive(Debug, Clone, Copy, PartialEq, Eq, Structural)]
pub enum Directive {
    /// Announce that task `index` is executing, then carry out `step`.
    RunTask { index: usize, step: TaskStep },
    /// Announce that the schedule is idle and record the result of the run.
    Finish { successful: bool },
}

/// The progress of one run of a schedule.
pub struct ScheduleRun {
    done: Vec<bool>,
    current: Option<usize>,
    finished: bool,
}

/// Whether the run ends because the task handed out last did not succeed
/// and is not a command.
pub open spec fn stops_run(tasks: Seq<ScheduleTask>, current: Option<usize>, outcome: TaskOutcome) -> bool {
    current.is_some() && outcome != TaskOutcome::Succeeded && task_action(
        tasks,
        current.unwrap() as int,
    ) != Some(TaskAction::Command)
}

/// What follows when task `i` is next: the run ends unsuccessfully if the
/// task names no action or trigger mode, else the task is handed out.
pub open spec fn directive_for(tasks: Seq<ScheduleTask>, i: int) -> Directive {
    let step = step_of(tasks[i].action@, tasks[i].trigger_mode@, tasks[i].time_offset);
    if step == TaskStep::Abort {
        Directive::Finish { successful: false }
    } else {
        Directive::RunTask { index: i as usize, step }
    }
}

/// The action of a task, if its text names one.
pub open spec fn task_action(tasks: Seq<ScheduleTask>, i: int) -> Option<TaskAction> {
    action_of(tasks[i].action@)
}

impl ScheduleRun {
    /// Which tasks have been handed out.
    pub closed spec fn done(&self) -> Seq<bool> {
        self.done@
    }

    /// The task handed out last, while its outcome is awaited.
    pub closed spec fn current(&self) -> Option<usize> {
        self.current
    }

    /// Whether the run has ended.
    pub closed spec fn finished(&self) -> bool {
        self.finished
    }

    /// The run fits a schedule of `n` tasks.
    pub open spec fn fits(&self, n: nat) -> bool {
        self.done().len() == n && (self.current().is_some() ==> self.current().unwrap() < n)
    }

    /// A run of a schedule of `n` tasks in which no task has run.
    pub fn start(n: usize) -> (r: Self)
        ensures
            r.fits(n as nat),
            !r.finished(),
            r.current().is_none(),
            forall|i: int| 0 <= i < n ==> !r.done()[i],
    {
        let mut done: Vec<bool> = Vec::new();
        let mut i: usize = 0;
        while i < n
            invariant
                i <= n,
                done@.len() == i,
                forall|j: int| 0 <= j < i ==> !done@[j],
            decreases n - i,
        {
            done.push(false);
            i = i + 1;
        }
        ScheduleRun { done, current: None, finished: false }
    }

    /// Decides what follows. `outcome` is how the task handed out last ended;
    /// it is ignored when no task is awaited. The run ends, unsuccessfully,
    /// when that task failed and is not a command, or when the next task
    /// names no action or trigger mode; it ends successfully when every task
    /// has run. Otherwise the task with the smallest sequence number among
    /// those not yet run is handed out.
    pub fn advance(&mut self, tasks: &Vec<ScheduleTask>, outcome: TaskOutcome) -> (d: Directive)
        requires
            old(self).fits(tasks@.len()),
            !old(self).finished(),
        ensures
            final(self).fits(tasks@.len()),
            match d {
                Directive::Finish { successful } => {
                    &&& final(self).finished()
                    &&& final(self).current().is_none()
                    &&& successful ==> forall|j: int| 0 <= j < tasks@.len() ==> old(self).done()[j]
                },
                Directive::RunTask { index, step } => {
                    &&& !final(self).finished()
                    &&& final(self).current() == Some(index)
                    &&& is_next(tasks@, old(self).done(), index as int)
                    &&& final(self).done() == old(self).done().update(index as int, true)
                    &&& step == step_of(
                        tasks@[index as int].action@,
                        tasks@[index as int].trigger_mode@,
                        tasks@[index as int].time_offset,
                    )
                    &&& step != TaskStep::Abort
                },
            },
            stops_run(tasks@, old(self).current(), outcome) ==> d == (Directive::Finish {
                successful: false,
            }),
            !stops_run(tasks@, old(self).current(), outcome) && (forall|j: int|
                0 <= j < tasks@.len() ==> old(self).done()[j]) ==> d == (Directive::Finish {
                successful: true,
            }),
            !stops_run(tasks@, old(self).current(), outcome) ==> forall|i: int|
                is_next(tasks@, old(self).done(), i) ==> d == directive_for(tasks@, i),
    {
        let stop: bool = match self.current {
            Some(i) => match parse_action(tasks[i].action.as_str()) {
                Some(a) => !schedule_continues(a, outcome),
                None => match outcome {
                    TaskOutcome::Succeeded => false,
                    _ => true,
                },
            },
            None => false,
        };
        self.current = None;
        if stop {
            self.finished = true;
            return Directive::Finish { successful: false };
        }
        match next_task(tasks, &self.done) {
            None => {
                self.finished = true;
                Directive::Finish { successful: true }
            },
            Some(i) => {
                let step = plan_task(&tasks[i]);
                match step {
                    TaskStep::Abort => {
                        self.finished = true;
                        Directive::Finish { successful: false }
                    },
                    _ => {
                        self.done.set(i, true);
                        self.current = Some(i);
                        Directive::RunTask { index: i, step }
                    },
                }
            },
        }
    }
}

/// Whether a cron expression is accepted by the `croner` parser.
pub uninterp spec fn cron_parses(expression: Seq<char>) -> bool;

/// Parses the expression with `croner::Cron::new(..).parse()` and reports
/// whether parsing succeeded.
#[verifier::external_body]
fn cron_is_valid(expression: &str) -> (ok: bool)
    ensures
        ok == cron_parses(expression@),
{
    croner::Cron::new(expression).parse().is_ok()
}

/// What becomes of a schedule that is created or synced.
#[derive(Debug, Clone, Copy, PartialEq, Eq, Structural)]
pub enum Registration {
    /// The cron expression is invalid: the schedule is refused.
    Refuse,
    /// The schedule is stored; it is disabled, so no cron job is registered.
    Store,
    /// The schedule is stored and its cron job registered.
    StoreAndRegister,
}

/// Decides what becomes of a schedule from the validity of its expression.
pub fn registration_for(cron_valid: bool, enabled: bool) -> (r: Registration)
    ensures
        r == if !cron_valid {
            Registration::Refuse
        } else if enabled {
            Registration::StoreAndRegister
        } else {
            Registration::Store
        },
{
    if !cron_valid {
        Registration::Refuse
    } else if enabled {
        Registration::StoreAndRegister
    } else {
        Registration::Store
    }
}

/// Decides what becomes of a schedule.
pub fn plan_registration(schedule: &Schedule) -> (r: Registration)
    ensures
        r == if !cron_parses(schedule.cron_expression@) {
            Registration::Refuse
        } else if schedule.enabled {
            Registration::StoreAndRegister
        } else {
            Registration::Store
        },
{
    registration_for(cron_is_valid(schedule.cron_expression.as_str()), schedule.enabled)
}

} // verus!
