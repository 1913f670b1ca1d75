use mcp_runner::ending::{ending_step, first_stage, EndAction, EndStage};
use mcp_runner::protocol::RunCommandArgs;
use mcp_runner::run::run_command;
use mcp_runner::signal::Signal;

fn actions(mut stage: EndStage, obeys: bool) -> Vec<EndAction> {
    let mut done = Vec::new();
    while stage != EndStage::Over {
        let (action, next) = ending_step(stage, obeys);
        done.push(action);
        stage = next;
    }
    done
}

#[test]
fn a_process_that_obeys_is_not_killed() {
    assert_eq!(
        actions(first_stage(Some(1)), true),
        [
            EndAction::Wait { seconds: 1 },
            EndAction::Signal(Signal::Term),
            EndAction::Wait { seconds: 5 },
            EndAction::Collect,
        ]
    );
}

#[test]
fn a_process_that_does_not_obey_is_killed() {
    assert_eq!(
        actions(first_stage(Some(60)), false),
        [
            EndAction::Wait { seconds: 60 },
            EndAction::Signal(Signal::Term),
            EndAction::Wait { seconds: 5 },
            EndAction::Signal(Signal::Kill),
            EndAction::Collect,
        ]
    );
}

#[test]
fn a_process_without_a_limit_is_left_alone() {
    assert!(actions(first_stage(None), false).is_empty());
    assert_eq!(ending_step(first_stage(None), true), (EndAction::Nothing, EndStage::Over));
}

#[test]
fn a_run_has_five_minutes() {
    let plan = run_command(RunCommandArgs {
        command: "make".to_string(),
        args: None,
        working_dir: None,
        env: None,
        timeout_seconds: None,
    });
    assert_eq!(plan.ending(), EndStage::Limited(300));
    assert_eq!(actions(plan.ending(), false)[0], EndAction::Wait { seconds: 300 });
}
