//! The one server of the process: when it may start, how it is stopped, and
//! whether it runs. `S` stands for whatever keeps a running server alive.
//!
//! A start and a stop first try to lock the slot that holds the server. They
//! pass on the slot, or `None` where another call holds the lock. A question
//! whether the server runs waits for the lock, so that it always gets an answer.
use vstd::prelude::*;

use crate::decimal::{signed_decimal, signed_decimal_text};
use crate::diag::Trace;
use crate::status::{
    ALREADY_RUNNING, INTERNAL_ERROR, INVALID_ARGUMENT, NOT_RUNNING, OK, RUNTIME_INIT_FAILED,
    RUNTIME_TASK_FAILED,
};

verus! {

/// How long a stopping server is given to finish before it is cut off, in
/// seconds.
pub const SHUTDOWN_TIMEOUT: u64 = 5;

/// Holds the running server, where there is one.
pub struct ServerSlot<S> {
    server: Option<S>,
}

impl<S> View for ServerSlot<S> {
    type V = Option<S>;

    closed spec fn view(&self) -> Option<S> {
        self.server
    }
}

/// A slot with no server in it.
pub fn state<S>() -> (slot: ServerSlot<S>)
    ensures
        slot@ == None::<S>,
{
    ServerSlot { server: None }
}

impl<S> ServerSlot<S> {
    /// The server, where there is one.
    pub fn server(&self) -> (server: Option<&S>)
        ensures
            server == (match self@ {
                Some(held) => Some(&held),
                None => None,
            }),
    {
        self.server.as_ref()
    }
}

/// The server that is left of `server` once a dead one has been cleared out.
/// `finished` says whether the task of the server has ended.
pub open spec fn alive<S>(server: Option<S>, finished: bool) -> Option<S> {
    if finished {
        None
    } else {
        server
    }
}

/// The server that is cleared out as dead.
pub open spec fn dead<S>(server: Option<S>, finished: bool) -> Option<S> {
    if finished {
        server
    } else {
        None
    }
}

/// Clears the slot if the task of the server in it has ended, and gives the dead
/// server back.
pub fn reap_if_dead<S>(slot: &mut ServerSlot<S>, finished: bool) -> (reaped: Option<S>)
    ensures
        final(slot)@ == alive(old(slot)@, finished),
        reaped == dead(old(slot)@, finished),
        finished ==> final(slot)@ is None && reaped == old(slot)@,
        !finished ==> final(slot)@ == old(slot)@ && reaped is None,
{
    if finished {
        slot.server.take()
    } else {
        None
    }
}

/// What is noted of a server that `reap_if_dead` gave back: that it was cleared
/// out, and nothing where there was none.
pub fn reap_trace<S>(reaped: &Option<S>) -> (trace: Option<Trace>)
    ensures
        trace == (match reaped {
            Some(_) => Some(Trace::Reaped),
            None => None,
        }),
{
    match reaped {
        Some(_) => Some(Trace::Reaped),
        None => None,
    }
}

/// What is to be done first to start the server.
#[derive(Debug)]
pub enum StartStep {
    /// Nothing; return `status`.
    Return { status: i32, trace: Trace },
    /// Launch the server, listening on this TCP port; note `trace` once its
    /// runtime stands.
    Launch { tcp_port: String, trace: Trace },
}

/// The answer to a call that wants to start the server.
#[derive(Debug)]
pub struct Start<S> {
    /// A dead server that was found and cleared out.
    pub reaped: Option<S>,
    pub step: StartStep,
}

/// A call wants to start the server on `port`. One that runs already stays as it
/// is; one whose task has ended does not count.
pub fn begin_start<S>(slot: Option<&mut ServerSlot<S>>, finished: bool, port: i32) -> (start:
    Start<S>)
    ensures
        match slot {
            None => {
                &&& start.reaped is None
                &&& start.step == (StartStep::Return {
                    status: INTERNAL_ERROR,
                    trace: Trace::StartLockBusy,
                })
            },
            Some(held) => {
                &&& final(held)@ == alive((*held)@, finished)
                &&& final(held)@ == held_after(
                    (*held)@,
                    (Call::Start { finished, launched: None }),
                )
                &&& start.reaped == dead((*held)@, finished)
                &&& finished ==> final(held)@ is None && start.reaped == (*held)@
                &&& !finished ==> final(held)@ == (*held)@ && start.reaped is None
                &&& start.step is Launch <==> finished || (*held)@ is None
                &&& listed(start.reaped) == handed_out_by(
                    (*held)@,
                    (Call::Start { finished, launched: None }),
                )
                &&& match alive((*held)@, finished) {
                    Some(_) => start.step == (StartStep::Return {
                        status: ALREADY_RUNNING,
                        trace: Trace::StartAlreadyRunning,
                    }),
                    None => start.step matches StartStep::Launch { tcp_port, trace } && tcp_port@
                        == signed_decimal(port as int) && trace == Trace::StartSpawning,
                }
            },
        },
{
    match slot {
        None => Start {
            reaped: None,
            step: StartStep::Return { status: INTERNAL_ERROR, trace: Trace::StartLockBusy },
        },
        Some(held) => {
            let reaped = reap_if_dead(held, finished);
            let step = if held.server.is_some() {
                StartStep::Return { status: ALREADY_RUNNING, trace: Trace::StartAlreadyRunning }
            } else {
                StartStep::Launch {
                    tcp_port: signed_decimal_text(port),
                    trace: Trace::StartSpawning,
                }
            };
            Start { reaped, step }
        },
    }
}

/// The server in a slot that held `server` once the launch of another has come
/// to its end, with `launched` or without one.
pub open spec fn settled<S>(server: Option<S>, launched: Option<S>) -> Option<S> {
    match launched {
        Some(_) => launched,
        None => server,
    }
}

/// The launch that `begin_start` asked for has come to its end: `launched` is
/// the new server, or `None` where its runtime could not be set up. Gives the
/// status to return.
pub fn finish_start<S>(slot: &mut ServerSlot<S>, launched: Option<S>) -> (status: i32)
    ensures
        final(slot)@ == settled(old(slot)@, launched),
        launched is Some ==> final(slot)@ == launched && status == 0,
        launched is None ==> final(slot)@ == old(slot)@ && status == 3,
        status == (match launched {
            Some(_) => OK,
            None => RUNTIME_INIT_FAILED,
        }),
{
    match launched {
        Some(server) => {
            slot.server = Some(server);
            OK
        },
        None => RUNTIME_INIT_FAILED,
    }
}

/// What is to be done first to stop the server.
#[derive(Debug)]
pub enum StopStep<S> {
    /// Nothing; return `status`.
    Return { status: i32, trace: Trace },
    /// Note `trace` and bring this server to its end.
    Drain { server: S, trace: Trace },
}

/// A call wants to stop the server. The slot is empty from here on, so that the
/// next server can start while this one is still on its way out.
pub fn begin_stop<S>(slot: Option<&mut ServerSlot<S>>) -> (step: StopStep<S>)
    ensures
        match slot {
            None => step == (StopStep::<S>::Return {
                status: INTERNAL_ERROR,
                trace: Trace::StopLockBusy,
            }),
            Some(held) => {
                &&& final(held)@ is None
                &&& final(held)@ == held_after((*held)@, Call::Stop)
                &&& handed_out_by((*held)@, Call::Stop) == (match step {
                    StopStep::Drain { server, .. } => seq![server],
                    StopStep::Return { .. } => Seq::empty(),
                })
                &&& match (*held)@ {
                    Some(server) => step == (StopStep::Drain {
                        server,
                        trace: Trace::StopSignaling,
                    }),
                    None => step == (StopStep::<S>::Return {
                        status: NOT_RUNNING,
                        trace: Trace::StopNotRunning,
                    }),
                }
            },
        },
{
    match slot {
        None => StopStep::Return { status: INTERNAL_ERROR, trace: Trace::StopLockBusy },
        Some(held) => match held.server.take() {
            Some(server) => StopStep::Drain { server, trace: Trace::StopSignaling },
            None => StopStep::Return { status: NOT_RUNNING, trace: Trace::StopNotRunning },
        },
    }
}

/// One step in bringing a server to its end.
#[derive(Clone, Copy, Debug, PartialEq, Eq, Structural)]
pub enum DrainAction {
    /// Ask the server to finish what it has begun.
    SignalShutdown,
    /// Wait for its task to end, but no longer than this.
    AwaitTask { seconds: u64 },
    /// End the task if it is still there.
    AbortTask,
    /// Drop the runtime, and with it whatever is left.
    DropRuntime,
}

/// The steps that bring a server to its end. `signal` says whether there is a
/// way to ask it to finish.
pub open spec fn drain_steps(signal: bool) -> Seq<DrainAction> {
    let request = if signal {
        seq![DrainAction::SignalShutdown]
    } else {
        Seq::empty()
    };
    request + seq![
        DrainAction::AwaitTask { seconds: SHUTDOWN_TIMEOUT },
        DrainAction::AbortTask,
        DrainAction::DropRuntime,
    ]
}

/// The steps that bring a server to its end, in order: it is asked to finish,
/// waited for, and only then cut off.
pub fn drain_plan(signal: bool) -> (plan: Vec<DrainAction>)
    ensures
        plan@ == drain_steps(signal),
        signal ==> plan@ == seq![
            DrainAction::SignalShutdown,
            DrainAction::AwaitTask { seconds: 5 },
            DrainAction::AbortTask,
            DrainAction::DropRuntime,
        ],
        !signal ==> plan@ == seq![
            DrainAction::AwaitTask { seconds: 5 },
            DrainAction::AbortTask,
            DrainAction::DropRuntime,
        ],
{
    let mut plan: Vec<DrainAction> = Vec::new();
    if signal {
        plan.push(DrainAction::SignalShutdown);
    }
    plan.push(DrainAction::AwaitTask { seconds: SHUTDOWN_TIMEOUT });
    plan.push(DrainAction::AbortTask);
    plan.push(DrainAction::DropRuntime);
    assert(plan@ =~= drain_steps(signal));
    plan
}

/// The drain that `begin_stop` asked for has come to its end. Gives the status to
/// return and what is noted: a stop that found a server succeeds, whether the
/// server ended by itself or was cut off.
pub fn finish_stop() -> (end: (i32, Trace))
    ensures
        end.0 == OK,
        end.1 == Trace::StopDone,
{
    (OK, Trace::StopDone)
}

/// What a call gets to know that asks whether the server runs.
#[derive(Debug)]
pub struct Running<S> {
    /// A dead server that was found and cleared out.
    pub reaped: Option<S>,
    pub answer: i32,
}

/// Whether a server runs: 1 if so, 0 if not. One whose task has ended does not.
pub open spec fn running_answer<S>(server: Option<S>, finished: bool) -> int {
    if alive(server, finished) is Some {
        1
    } else {
        0
    }
}

/// Tells whether the server runs.
pub fn is_running<S>(slot: &mut ServerSlot<S>, finished: bool) -> (running: Running<S>)
    ensures
        final(slot)@ == alive(old(slot)@, finished),
        final(slot)@ == held_after(old(slot)@, (Call::IsRunning { finished })),
        running.reaped == dead(old(slot)@, finished),
        listed(running.reaped) == handed_out_by(old(slot)@, (Call::IsRunning { finished })),
        running.answer == running_answer(old(slot)@, finished),
        finished ==> final(slot)@ is None && running.reaped == old(slot)@,
        !finished ==> final(slot)@ == old(slot)@ && running.reaped is None,
        running.answer == 1 <==> old(slot)@ is Some && !finished,
        running.answer == 0 <==> old(slot)@ is None || finished,
{
    let reaped = reap_if_dead(slot, finished);
    let answer: i32 = if slot.server.is_some() {
        1
    } else {
        0
    };
    Running { reaped, answer }
}

/// Clearing out a dead server loses nothing: the server is either still there or
/// handed back.
pub proof fn law_reaping_loses_nothing<S>(server: Option<S>, finished: bool)
    ensures
        alive(server, finished) is None || dead(server, finished) is None,
        alive(server, finished) == server || dead(server, finished) == server,
        server is None ==> alive(server, finished) is None && dead(server, finished) is None,
{
}

/// A server whose task goes on is left in place and runs; one whose task has
/// ended is handed back and does not.
pub proof fn law_only_a_dead_server_is_reaped<S>(server: Option<S>)
    ensures
        alive(server, false) == server,
        dead(server, false) is None,
        alive(server, true) is None,
        dead(server, true) == server,
        running_answer(server, false) == 1 <==> server is Some,
        running_answer(server, false) == 0 <==> server is None,
        running_answer(server, true) == 0,
{
}

/// A launch that succeeded puts its server into the slot; one that failed leaves
/// the slot alone.
pub proof fn law_launch_settles_the_slot<S>(server: Option<S>, launched: Option<S>)
    ensures
        launched is Some ==> settled(server, launched) == launched,
        launched is None ==> settled(server, launched) == server,
{
}

/// What a call leaves in the slot: a start the server that runs, and else the one
/// it launched; a stop nothing; a question the server that runs.
pub proof fn law_calls_leave_what_they_should<S>(
    server: Option<S>,
    finished: bool,
    launched: Option<S>,
)
    ensures
        server is Some && !finished ==> held_after(
            server,
            (Call::Start { finished, launched }),
        ) == server,
        server is None || finished ==> held_after(
            server,
            (Call::Start { finished, launched }),
        ) == launched,
        held_after(server, Call::Stop) is None,
        finished ==> held_after(server, (Call::IsRunning { finished })) is None,
        !finished ==> held_after(server, (Call::IsRunning { finished })) == server,
        listed(None::<S>).len() == 0,
        server matches Some(one) ==> listed(server) == seq![one],
{
}

/// A server whose task has ended is not reported as running, and does not stand
/// in the way of a new one.
pub proof fn law_dead_server_does_not_count<S>(server: Option<S>)
    ensures
        running_answer(server, true) == 0,
        alive(server, true) is None,
{
}

/// A server is reported as running exactly where a second one is refused.
pub proof fn law_running_iff_start_is_refused<S>(server: Option<S>, finished: bool)
    ensures
        running_answer(server, finished) == 1 <==> alive(server, finished) is Some,
        running_answer(server, finished) == 0 <==> alive(server, finished) is None,
{
}

/// Asking whether the server runs does not change the answer.
pub proof fn law_asking_changes_nothing<S>(server: Option<S>, finished: bool)
    ensures
        running_answer(alive(server, finished), finished) == running_answer(server, finished),
        alive(alive(server, finished), finished) == alive(server, finished),
{
}

/// A call that found the lock free.
pub enum Call<S> {
    /// A start; `launched` is the server that comes up if one is launched.
    Start { finished: bool, launched: Option<S> },
    Stop,
    IsRunning { finished: bool },
}

/// `server` as a list of at most one.
pub open spec fn listed<S>(server: Option<S>) -> Seq<S> {
    match server {
        Some(held) => seq![held],
        None => Seq::empty(),
    }
}

/// The server in the slot after `call`, where it was `server` before.
pub open spec fn held_after<S>(server: Option<S>, call: Call<S>) -> Option<S> {
    match call {
        Call::Start { finished, launched } => match alive(server, finished) {
            Some(held) => Some(held),
            None => launched,
        },
        Call::Stop => None,
        Call::IsRunning { finished } => alive(server, finished),
    }
}

/// The server that `call` puts into the slot, where it was `server` before.
pub open spec fn launched_by<S>(server: Option<S>, call: Call<S>) -> Seq<S> {
    match call {
        Call::Start { finished, launched } if alive(server, finished) is None => listed(launched),
        _ => Seq::empty(),
    }
}

/// The server that `call` takes out of the slot to be dropped or drained.
pub open spec fn handed_out_by<S>(server: Option<S>, call: Call<S>) -> Seq<S> {
    match call {
        Call::Start { finished, .. } => listed(dead(server, finished)),
        Call::Stop => listed(server),
        Call::IsRunning { finished } => listed(dead(server, finished)),
    }
}

/// The server in the slot after `calls`, starting with an empty slot.
pub open spec fn held<S>(calls: Seq<Call<S>>) -> Option<S>
    decreases calls.len(),
{
    if calls.len() == 0 {
        None
    } else {
        held_after(held(calls.drop_last()), calls.last())
    }
}

/// The servers that `calls` launch, in order, starting with an empty slot.
pub open spec fn launched<S>(calls: Seq<Call<S>>) -> Seq<S>
    decreases calls.len(),
{
    if calls.len() == 0 {
        Seq::empty()
    } else {
        launched(calls.drop_last()) + launched_by(held(calls.drop_last()), calls.last())
    }
}

/// The servers that `calls` take out again, in order, starting with an empty
/// slot.
pub open spec fn handed_out<S>(calls: Seq<Call<S>>) -> Seq<S>
    decreases calls.len(),
{
    if calls.len() == 0 {
        Seq::empty()
    } else {
        handed_out(calls.drop_last()) + handed_out_by(held(calls.drop_last()), calls.last())
    }
}

/// A start in two halves is one call: what `begin_start` leaves and hands back
/// and, where it asks for a launch, what `finish_start` leaves of that, is what
/// the call as a whole does.
pub proof fn law_start_is_one_call<S>(server: Option<S>, finished: bool, launched: Option<S>)
    ensures
        ({
            let call = Call::Start { finished, launched };
            let begun = alive(server, finished);
            &&& held_after(server, call) == (if begun is Some {
                begun
            } else {
                settled(begun, launched)
            })
            &&& launched_by(server, call) == (if begun is Some {
                Seq::empty()
            } else {
                listed(launched)
            })
            &&& handed_out_by(server, call) == listed(dead(server, finished))
        }),
{
}

/// Whatever the calls, there is at most one server at a time, and none is ever
/// lost: every server that was launched has been handed out again, once and in
/// order, but for the last one while it is held.
pub proof fn law_no_server_is_lost<S>(calls: Seq<Call<S>>)
    ensures
        launched(calls) == handed_out(calls) + listed(held(calls)),
    decreases calls.len(),
{
    if calls.len() > 0 {
        let before = calls.drop_last();
        law_no_server_is_lost(before);
        let server = held(before);
        let call = calls.last();
        assert(listed(server) + launched_by(server, call) =~= handed_out_by(server, call) + listed(
            held_after(server, call),
        ));
        assert(launched(calls) =~= handed_out(before) + (listed(server) + launched_by(
            server,
            call,
        )));
        assert(handed_out(calls) + listed(held(calls)) =~= handed_out(before) + (handed_out_by(
            server,
            call,
        ) + listed(held_after(server, call))));
    }
}

/// A stopping server is waited for as long as the shutdown may take, and never
/// cut off before that.
pub proof fn law_drain_is_bounded_and_ordered(signal: bool, i: int, j: int)
    requires
        0 <= i < drain_steps(signal).len(),
        0 <= j < drain_steps(signal).len(),
        drain_steps(signal)[i] is AwaitTask,
    ensures
        drain_steps(signal)[i]->seconds == SHUTDOWN_TIMEOUT,
        drain_steps(signal)[j] is SignalShutdown ==> j < i,
        drain_steps(signal)[j] is AbortTask || drain_steps(signal)[j] is DropRuntime ==> i < j,
{
}

/// The status codes tell every two outcomes apart.
pub proof fn law_status_codes_are_distinct()
    ensures
        seq![
            OK,
            ALREADY_RUNNING,
            INVALID_ARGUMENT,
            RUNTIME_INIT_FAILED,
            RUNTIME_TASK_FAILED,
            NOT_RUNNING,
            INTERNAL_ERROR,
        ].no_duplicates(),
{
}

} // verus!
