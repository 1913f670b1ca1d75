//! Ending processes that take too long.

use vstd::prelude::*;

use crate::signal::Signal;

verus! {

/// How long a process that is asked to end has before it is killed, in seconds.
pub const KILL_GRACE_SECONDS: u64 = 5;

/// How far the ending of a process has come.
#[derive(Clone, Copy, Debug, PartialEq, Eq, Structural)]
pub enum EndStage {
    /// It may run for that many seconds.
    Limited(u64),
    /// Its time is over.
    Due,
    /// It was asked to end.
    Asked,
    /// It had its grace.
    Waited,
    /// It was killed.
    Killed,
    /// Nothing is left to do.
    Over,
}

/// What is to be done to end a process.
#[derive(Clone, Copy, Debug, PartialEq, Eq, Structural)]
pub enum EndAction {
    /// Send it that signal.
    Signal(Signal),
    /// Wait until it has ended, but no longer than that.
    Wait { seconds: u64 },
    /// Wait for its end and take its status.
    Collect,
    Nothing,
}

/// The stage at which a process with that time limit starts. One without a limit is never ended.
pub open spec fn initial_stage(timeout_seconds: Option<u64>) -> EndStage {
    match timeout_seconds {
        Some(seconds) => EndStage::Limited(seconds),
        None => EndStage::Over,
    }
}

/// The stage at which a process with that time limit starts. One without a limit is never ended.
pub fn first_stage(timeout_seconds: Option<u64>) -> (r: EndStage)
    ensures
        r == initial_stage(timeout_seconds),
{
    match timeout_seconds {
        Some(seconds) => EndStage::Limited(seconds),
        None => EndStage::Over,
    }
}

/// What is done at a stage, and the stage after it. `ended` says whether the process has ended.
pub open spec fn end_step(stage: EndStage, ended: bool) -> (EndAction, EndStage) {
    match stage {
        EndStage::Limited(seconds) => (EndAction::Wait { seconds }, EndStage::Due),
        EndStage::Due => (EndAction::Signal(Signal::Term), EndStage::Asked),
        EndStage::Asked => (EndAction::Wait { seconds: KILL_GRACE_SECONDS }, EndStage::Waited),
        EndStage::Waited => if ended {
            (EndAction::Collect, EndStage::Over)
        } else {
            (EndAction::Signal(Signal::Kill), EndStage::Killed)
        },
        EndStage::Killed => (EndAction::Collect, EndStage::Over),
        EndStage::Over => (EndAction::Nothing, EndStage::Over),
    }
}

/// What is done at a stage, and the stage after it. `ended` says whether the process has ended.
pub fn ending_step(stage: EndStage, ended: bool) -> (r: (EndAction, EndStage))
    ensures
        r == end_step(stage, ended),
{
    match stage {
        EndStage::Limited(seconds) => (EndAction::Wait { seconds }, EndStage::Due),
        EndStage::Due => (EndAction::Signal(Signal::Term), EndStage::Asked),
        EndStage::Asked => (EndAction::Wait { seconds: KILL_GRACE_SECONDS }, EndStage::Waited),
        EndStage::Waited => if ended {
            (EndAction::Collect, EndStage::Over)
        } else {
            (EndAction::Signal(Signal::Kill), EndStage::Killed)
        },
        EndStage::Killed => (EndAction::Collect, EndStage::Over),
        EndStage::Over => (EndAction::Nothing, EndStage::Over),
    }
}

/// How many actions a stage is away from the end at most.
pub open spec fn steps_left(stage: EndStage) -> nat {
    match stage {
        EndStage::Limited(_) => 5,
        EndStage::Due => 4,
        EndStage::Asked => 3,
        EndStage::Waited => 2,
        EndStage::Killed => 1,
        EndStage::Over => 0,
    }
}

/// All that is done from a stage on. `obeys` says whether the process ends within its grace.
pub open spec fn actions_from(stage: EndStage, obeys: bool) -> Seq<EndAction>
    decreases steps_left(stage),
{
    if stage == EndStage::Over {
        Seq::empty()
    } else {
        let (action, next) = end_step(stage, obeys);
        seq![action] + actions_from(next, obeys)
    }
}

/// A process that is still there when its time is over is first asked to end. It is killed five
/// seconds later, and only where it has not ended by then. Its status is taken last.
pub proof fn law_process_is_asked_before_it_is_killed(seconds: u64, obeys: bool)
    ensures
        actions_from(initial_stage(Some(seconds)), obeys) == seq![
            EndAction::Wait { seconds },
            EndAction::Signal(Signal::Term),
            EndAction::Wait { seconds: 5 },
        ] + if obeys {
            seq![EndAction::Collect]
        } else {
            seq![EndAction::Signal(Signal::Kill), EndAction::Collect]
        },
{
    reveal_with_fuel(actions_from, 6);
    assert(actions_from(initial_stage(Some(seconds)), obeys) =~= seq![
        EndAction::Wait { seconds },
        EndAction::Signal(Signal::Term),
        EndAction::Wait { seconds: 5 },
    ] + if obeys {
        seq![EndAction::Collect]
    } else {
        seq![EndAction::Signal(Signal::Kill), EndAction::Collect]
    });
}

/// Nothing is done to a process without a time limit.
pub proof fn law_process_without_limit_is_left_alone(obeys: bool)
    ensures
        actions_from(initial_stage(None), obeys) == Seq::<EndAction>::empty(),
        end_step(initial_stage(None), obeys).0 == EndAction::Nothing,
{
}

/// A process with a limit is waited for that long, asked to end, waited for five more seconds,
/// and killed only if it has not ended by then; its status is collected last. What is known of it
/// at the earlier steps makes no difference.
pub proof fn law_ending_takes_its_steps(seconds: u64, a: bool, b: bool, c: bool, d: bool, e: bool)
    ensures
        ({
            let (first, due) = end_step(initial_stage(Some(seconds)), a);
            let (second, asked) = end_step(due, b);
            let (third, waited) = end_step(asked, c);
            let (fourth, after_fourth) = end_step(waited, d);
            let (fifth, after_fifth) = end_step(after_fourth, e);
            &&& first == EndAction::Wait { seconds }
            &&& second == EndAction::Signal(Signal::Term)
            &&& third == EndAction::Wait { seconds: 5 }
            &&& d ==> fourth == EndAction::Collect && fifth == EndAction::Nothing
            &&& !d ==> fourth == EndAction::Signal(Signal::Kill) && fifth == EndAction::Collect
            &&& end_step(after_fifth, e).0 == EndAction::Nothing
            &&& end_step(initial_stage(None), a).0 == EndAction::Nothing
        }),
{
}

} // verus!
