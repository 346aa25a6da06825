//! The decisions of running the client in the foreground: while the client
//! task runs, interrupts and Python signal errors are watched for, and the
//! task's end is turned into the outcome of the run.
use vstd::prelude::*;

verus! {

/// How the client task ended.
#[derive(Clone, Copy, Debug, PartialEq, Eq, Structural)]
pub enum TaskEnd {
    /// It returned success.
    Completed,
    /// It returned an error.
    Failed,
    /// It was cancelled.
    Cancelled,
    /// It could not be joined (it panicked).
    JoinFailed,
}

/// What happens while the foreground run waits.
#[derive(Clone, Copy, Debug, PartialEq, Eq, Structural)]
pub enum RunEvent {
    /// The process received an interrupt signal.
    Interrupt,
    /// A periodic check found no pending Python signal.
    SignalsClear,
    /// A periodic check raised `KeyboardInterrupt`.
    KeyboardInterrupt,
    /// A periodic check raised another Python exception.
    SignalError,
    /// The client task ended.
    TaskEnded(TaskEnd),
}

/// How a run ends.
#[derive(Clone, Copy, Debug, PartialEq, Eq, Structural)]
pub enum RunOutcome {
    /// Successfully.
    Success,
    /// With the error the client task returned.
    TaskError,
    /// With the Python exception a signal check raised.
    SignalException,
    /// With a runtime error describing why the task could not be joined.
    JoinError,
}

/// What the foreground run does next.
#[derive(Clone, Copy, Debug, PartialEq, Eq, Structural)]
pub enum RunStep {
    /// Keep waiting.
    Wait,
    /// Cancel the task, wait for it to end, and take the outcome of that end.
    CancelAndCollect,
    /// Cancel the task and end the run with this outcome.
    CancelAndEnd(RunOutcome),
    /// End the run with this outcome.
    End(RunOutcome),
}

/// The outcome of a task's end: success when it completed or was cancelled.
pub open spec fn end_outcome(end: TaskEnd) -> RunOutcome {
    match end {
        TaskEnd::Completed => RunOutcome::Success,
        TaskEnd::Failed => RunOutcome::TaskError,
        TaskEnd::Cancelled => RunOutcome::Success,
        TaskEnd::JoinFailed => RunOutcome::JoinError,
    }
}

/// The step for each event while waiting.
pub open spec fn step_for(event: RunEvent) -> RunStep {
    match event {
        RunEvent::Interrupt => RunStep::CancelAndCollect,
        RunEvent::SignalsClear => RunStep::Wait,
        RunEvent::KeyboardInterrupt => RunStep::CancelAndCollect,
        RunEvent::SignalError => RunStep::CancelAndEnd(RunOutcome::SignalException),
        RunEvent::TaskEnded(end) => RunStep::End(end_outcome(end)),
    }
}

/// The outcome of a task's end, whether it ended by itself or after being
/// cancelled.
pub fn task_outcome(end: TaskEnd) -> (r: RunOutcome)
    ensures
        r == end_outcome(end),
{
    match end {
        TaskEnd::Completed => RunOutcome::Success,
        TaskEnd::Failed => RunOutcome::TaskError,
        TaskEnd::Cancelled => RunOutcome::Success,
        TaskEnd::JoinFailed => RunOutcome::JoinError,
    }
}

/// What to do on an event while the client task runs.
pub fn run_step(event: RunEvent) -> (r: RunStep)
    ensures
        r == step_for(event),
{
    match event {
        RunEvent::Interrupt => RunStep::CancelAndCollect,
        RunEvent::SignalsClear => RunStep::Wait,
        RunEvent::KeyboardInterrupt => RunStep::CancelAndCollect,
        RunEvent::SignalError => RunStep::CancelAndEnd(RunOutcome::SignalException),
        RunEvent::TaskEnded(end) => RunStep::End(task_outcome(end)),
    }
}

/// An interrupt, from the process or from Python, never ends the run with
/// an error of its own: the run ends as the cancelled task does, which is a
/// success unless the task had already failed.
pub proof fn lemma_interrupt_is_not_an_error(event: RunEvent, end: TaskEnd)
    requires
        event == RunEvent::Interrupt || event == RunEvent::KeyboardInterrupt,
    ensures
        step_for(event) == RunStep::CancelAndCollect,
        end != TaskEnd::Failed && end != TaskEnd::JoinFailed ==> end_outcome(end) == RunOutcome::Success,
{
}

/// The message refusing a call made while no client runs.
pub open spec fn not_running_message() -> Seq<char> {
    "Client is not running. Call Tryx.run() or Tryx.run_blocking() first."@
}

/// The running client the namespace calls on contacts, events, polls and the
/// like go through; refused while none runs.
pub fn get_client<C>(current: Option<C>) -> (r: Result<C, String>)
    ensures
        current matches Some(c) ==> r == Ok::<C, String>(c),
        current is None ==> (r matches Err(m) && m@ == not_running_message()),
{
    match current {
        Some(c) => Ok(c),
        None => Err(String::from_str("Client is not running. Call Tryx.run() or Tryx.run_blocking() first.")),
    }
}

/// The message refusing a call made while no bot runs.
pub open spec fn bot_not_running_message() -> Seq<char> {
    "Bot is not running"@
}

/// The running client that sends, chat actions, groups, channels, status
/// updates, blocking and profiles go through; refused while none runs.
pub fn get_bot_client<C>(current: Option<C>) -> (r: Result<C, String>)
    ensures
        current matches Some(c) ==> r == Ok::<C, String>(c),
        current is None ==> (r matches Err(m) && m@ == bot_not_running_message()),
{
    match current {
        Some(c) => Ok(c),
        None => Err(String::from_str("Bot is not running")),
    }
}

/// What becomes of an event's callbacks: nothing when none is registered
/// (the payload is not even built); a report when the payload cannot be
/// built or the callbacks cannot be scheduled, in which case none runs;
/// otherwise each is run in registration order.
#[derive(Clone, Copy, Debug, PartialEq, Eq, Structural)]
pub enum EmitPlan {
    Skip,
    ReportPayloadError,
    ReportScheduleError,
    RunAll(usize),
}

/// The plan for an event with `count` callbacks, given whether its payload
/// was built and whether the callbacks were scheduled.
pub open spec fn emit_plan_of(count: nat, payload_built: bool, scheduled: bool) -> EmitPlan {
    if count == 0 {
        EmitPlan::Skip
    } else if !payload_built {
        EmitPlan::ReportPayloadError
    } else if !scheduled {
        EmitPlan::ReportScheduleError
    } else {
        EmitPlan::RunAll(count as usize)
    }
}

pub fn emit_plan(count: usize, payload_built: bool, scheduled: bool) -> (r: EmitPlan)
    ensures
        r == emit_plan_of(count as nat, payload_built, scheduled),
{
    if count == 0 {
        EmitPlan::Skip
    } else if !payload_built {
        EmitPlan::ReportPayloadError
    } else if !scheduled {
        EmitPlan::ReportScheduleError
    } else {
        EmitPlan::RunAll(count)
    }
}

/// After the callback at `index` of `count` returned: whether to report its
/// error, and the next callback to await. A failing callback is reported
/// and the round goes on; the round itself never fails.
pub fn after_callback(index: usize, count: usize, succeeded: bool) -> (r: (bool, Option<usize>))
    requires
        index < count,
    ensures
        r.0 == !succeeded,
        index + 1 < count ==> r.1 == Some((index + 1) as usize),
        index + 1 == count ==> r.1 is None,
{
    let next = if index + 1 < count {
        Some(index + 1)
    } else {
        None
    };
    (!succeeded, next)
}

/// Every registered callback runs: an event with at least one callback,
/// whose payload is built and whose callbacks are scheduled, runs all of
/// them; only an event with no callback is skipped, and one with callbacks
/// is never skipped.
pub proof fn lemma_registered_callbacks_run(count: usize, payload_built: bool, scheduled: bool)
    ensures
        count >= 1 ==> emit_plan_of(count as nat, true, true) == EmitPlan::RunAll(count),
        count >= 1 ==> emit_plan_of(count as nat, payload_built, scheduled) != EmitPlan::Skip,
        emit_plan_of(0, payload_built, scheduled) == EmitPlan::Skip,
        emit_plan_of(count as nat, payload_built, scheduled) matches EmitPlan::RunAll(n) ==> n == count && payload_built
            && scheduled,
{
}

} // verus!
