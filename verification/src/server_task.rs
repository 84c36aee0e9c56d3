//! The task that runs the server: it picks a listener, builds the state that
//! the server works on, and serves until it is told to stop.
use vstd::prelude::*;

use crate::diag::Trace;

verus! {

/// What the task does next.
#[derive(Clone, Copy, Debug, PartialEq, Eq, Structural)]
pub enum TaskAction {
    PickListener,
    BuildState,
    Serve,
    End,
}

/// A step of the task: what it notes, and what it does next.
#[derive(Debug)]
pub struct TaskStep {
    pub traces: Vec<Trace>,
    pub action: TaskAction,
}

fn step(trace: Trace, action: TaskAction) -> (step: TaskStep)
    ensures
        step.traces@ == seq![trace],
        step.action == action,
{
    let mut traces: Vec<Trace> = Vec::new();
    traces.push(trace);
    assert(traces@ =~= seq![trace]);
    TaskStep { traces, action }
}

/// The task begins.
pub fn task_entered() -> (next: TaskStep)
    ensures
        next.traces@ == seq![Trace::TaskEntered],
        next.action == TaskAction::PickListener,
{
    step(Trace::TaskEntered, TaskAction::PickListener)
}

/// A listener was picked, and describes itself; or it was not, with a report of
/// the reason. Without a listener the task is over.
pub fn listener_picked(picked: Result<String, String>) -> (next: TaskStep)
    ensures
        match picked {
            Ok(description) => {
                &&& next.traces@ == seq![Trace::TaskListening { description }]
                &&& next.action == TaskAction::BuildState
            },
            Err(report) => {
                &&& next.traces@ == seq![Trace::TaskListenerFailed { report }]
                &&& next.action == TaskAction::End
            },
        },
{
    match picked {
        Ok(description) => step(Trace::TaskListening { description }, TaskAction::BuildState),
        Err(report) => step(Trace::TaskListenerFailed { report }, TaskAction::End),
    }
}

/// The state was built; or it was not, for the reason in `failure`. Without a
/// state the task is over.
pub fn state_built(failure: Option<String>) -> (next: TaskStep)
    ensures
        match failure {
            None => {
                &&& next.traces@ == seq![Trace::TaskServing]
                &&& next.action == TaskAction::Serve
            },
            Some(report) => {
                &&& next.traces@ == seq![Trace::TaskStateFailed { report }]
                &&& next.action == TaskAction::End
            },
        },
{
    match failure {
        None => step(Trace::TaskServing, TaskAction::Serve),
        Some(report) => step(Trace::TaskStateFailed { report }, TaskAction::End),
    }
}

/// The server no longer serves, on request or for the reason in `failure`. The
/// task is over.
pub fn serve_returned(failure: Option<String>) -> (next: TaskStep)
    ensures
        next.traces@ == (match failure {
            None => seq![Trace::TaskEnding],
            Some(report) => seq![Trace::TaskServerError { report }, Trace::TaskEnding],
        }),
        next.action == TaskAction::End,
{
    match failure {
        None => step(Trace::TaskEnding, TaskAction::End),
        Some(report) => {
            let mut next = step(Trace::TaskServerError { report }, TaskAction::End);
            next.traces.push(Trace::TaskEnding);
            assert(next.traces@ =~= seq![Trace::TaskServerError { report }, Trace::TaskEnding]);
            next
        },
    }
}

} // verus!
