use tryx::player::{command_result, CommandDelivery};
use tryx::runner::{after_callback, emit_plan, get_bot_client, get_client, run_step, EmitPlan, task_outcome, RunEvent, RunOutcome, RunStep, TaskEnd};

#[test]
fn foreground_run_steps() {
    assert_eq!(run_step(RunEvent::SignalsClear), RunStep::Wait);
    assert_eq!(run_step(RunEvent::Interrupt), RunStep::CancelAndCollect);
    assert_eq!(run_step(RunEvent::KeyboardInterrupt), RunStep::CancelAndCollect);
    assert_eq!(run_step(RunEvent::SignalError), RunStep::CancelAndEnd(RunOutcome::SignalException));
    assert_eq!(run_step(RunEvent::TaskEnded(TaskEnd::Completed)), RunStep::End(RunOutcome::Success));
    assert_eq!(run_step(RunEvent::TaskEnded(TaskEnd::Failed)), RunStep::End(RunOutcome::TaskError));
    assert_eq!(run_step(RunEvent::TaskEnded(TaskEnd::Cancelled)), RunStep::End(RunOutcome::Success));
    assert_eq!(run_step(RunEvent::TaskEnded(TaskEnd::JoinFailed)), RunStep::End(RunOutcome::JoinError));
    assert_eq!(task_outcome(TaskEnd::Cancelled), RunOutcome::Success);
}

#[test]
fn player_command_answers() {
    assert_eq!(command_result(CommandDelivery::NotSent), Err("player command queue is closed".to_string()));
    assert_eq!(command_result(CommandDelivery::Acknowledged), Ok(()));
    assert_eq!(command_result(CommandDelivery::Pending), Ok(()));
    assert_eq!(command_result(CommandDelivery::Refused("bad path".to_string())), Err("bad path".to_string()));
    assert_eq!(command_result(CommandDelivery::LoopGone), Err("player manager stopped".to_string()));
}

#[test]
fn calls_need_a_running_client() {
    assert_eq!(get_client(Some(7u8)), Ok(7u8));
    assert_eq!(
        get_client::<u8>(None),
        Err("Client is not running. Call Tryx.run() or Tryx.run_blocking() first.".to_string())
    );
}

#[test]
fn bot_calls_need_a_running_bot() {
    assert_eq!(get_bot_client(Some(3u8)), Ok(3u8));
    assert_eq!(get_bot_client::<u8>(None), Err("Bot is not running".to_string()));
}

#[test]
fn callback_rounds() {
    assert_eq!(emit_plan(0, false, false), EmitPlan::Skip);
    assert_eq!(emit_plan(2, false, true), EmitPlan::ReportPayloadError);
    assert_eq!(emit_plan(2, true, false), EmitPlan::ReportScheduleError);
    assert_eq!(emit_plan(2, true, true), EmitPlan::RunAll(2));
    assert_eq!(after_callback(0, 2, false), (true, Some(1)));
    assert_eq!(after_callback(1, 2, true), (false, None));
}
