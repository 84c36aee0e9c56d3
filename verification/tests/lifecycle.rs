use rakuyomi_bridge::diag::Trace;
use rakuyomi_bridge::lifecycle::{
    begin_start, begin_stop, drain_plan, finish_start, finish_stop, is_running, reap_if_dead,
    reap_trace, state,
    DrainAction, ServerSlot, StartStep, StopStep,
};
use rakuyomi_bridge::polyfills::epoll_needs_cloexec;
use rakuyomi_bridge::server_task::{
    listener_picked, serve_returned, state_built, task_entered, TaskAction, TaskStep,
};
use rakuyomi_bridge::status;

fn running(server: u8) -> ServerSlot<u8> {
    let mut slot = state();
    assert_eq!(finish_start(&mut slot, Some(server)), status::OK);
    slot
}

#[test]
fn the_first_start_launches_a_server() {
    let mut slot: ServerSlot<u8> = state();
    let start = begin_start(Some(&mut slot), false, 30727);
    assert_eq!(start.reaped, None);
    assert!(matches!(start.step, StartStep::Launch { tcp_port, trace: Trace::StartSpawning } if tcp_port == "30727"));
    assert_eq!(finish_start(&mut slot, Some(1)), status::OK);
    assert_eq!(slot.server(), Some(&1));
}

#[test]
fn ports_are_written_as_they_come() {
    for port in [0, -1, 10, i32::MIN, i32::MAX] {
        let mut slot: ServerSlot<u8> = state();
        match begin_start(Some(&mut slot), false, port).step {
            StartStep::Launch { tcp_port, .. } => assert_eq!(tcp_port, port.to_string()),
            StartStep::Return { status, .. } => panic!("{status}"),
        }
    }
}

#[test]
fn a_second_start_is_refused() {
    let mut slot = running(1);
    let start = begin_start(Some(&mut slot), false, 1);
    assert_eq!(start.reaped, None);
    assert!(matches!(
        start.step,
        StartStep::Return { status: status::ALREADY_RUNNING, trace: Trace::StartAlreadyRunning }
    ));
    assert_eq!(slot.server(), Some(&1));
}

#[test]
fn a_dead_server_makes_way_for_a_new_one() {
    let mut slot = running(1);
    let start = begin_start(Some(&mut slot), true, 1);
    assert_eq!(start.reaped, Some(1));
    assert!(matches!(start.step, StartStep::Launch { .. }));
    assert_eq!(slot.server(), None);
    assert_eq!(finish_start(&mut slot, Some(2)), status::OK);
    assert_eq!(slot.server(), Some(&2));
}

#[test]
fn a_failed_launch_leaves_no_server() {
    let mut slot: ServerSlot<u8> = state();
    assert_eq!(finish_start(&mut slot, None), status::RUNTIME_INIT_FAILED);
    assert_eq!(slot.server(), None);
}

#[test]
fn a_busy_lock_refuses_a_start_and_a_stop() {
    let start = begin_start(None::<&mut ServerSlot<u8>>, false, 1);
    assert!(matches!(
        start.step,
        StartStep::Return { status: status::INTERNAL_ERROR, trace: Trace::StartLockBusy }
    ));
    assert!(matches!(
        begin_stop(None::<&mut ServerSlot<u8>>),
        StopStep::Return { status: status::INTERNAL_ERROR, trace: Trace::StopLockBusy }
    ));
}

#[test]
fn stopping_takes_the_server_out() {
    let mut slot = running(4);
    assert!(matches!(begin_stop(Some(&mut slot)), StopStep::Drain { server: 4, trace: Trace::StopSignaling }));
    assert_eq!(slot.server(), None);
    assert!(matches!(
        begin_stop(Some(&mut slot)),
        StopStep::Return { status: status::NOT_RUNNING, trace: Trace::StopNotRunning }
    ));
    assert!(matches!(begin_start(Some(&mut slot), false, 1).step, StartStep::Launch { .. }));
}

#[test]
fn a_server_runs_until_its_task_ends() {
    let mut slot: ServerSlot<u8> = state();
    assert_eq!(is_running(&mut slot, false).answer, 0);
    let mut slot = running(1);
    assert_eq!(is_running(&mut slot, false).answer, 1);
    assert_eq!(is_running(&mut slot, false).answer, 1);
    let gone = is_running(&mut slot, true);
    assert_eq!(gone.answer, 0);
    assert_eq!(gone.reaped, Some(1));
    assert_eq!(is_running(&mut slot, false).answer, 0);
}

#[test]
fn reaping_loses_no_server() {
    let mut slot = running(1);
    assert_eq!(reap_if_dead(&mut slot, false), None);
    assert_eq!(slot.server(), Some(&1));
    assert_eq!(reap_if_dead(&mut slot, true), Some(1));
    assert_eq!(slot.server(), None);
    assert_eq!(reap_if_dead(&mut slot, true), None);
}

#[test]
fn every_launched_server_is_handed_out_once() {
    let mut slot: ServerSlot<u8> = state();
    let mut handed_out = Vec::new();
    for (server, finished) in [(1, false), (2, true), (3, false), (4, true)] {
        let start = begin_start(Some(&mut slot), finished, 1);
        handed_out.extend(start.reaped);
        if matches!(start.step, StartStep::Launch { .. }) {
            finish_start(&mut slot, Some(server));
        }
    }
    handed_out.extend(is_running(&mut slot, false).reaped);
    assert_eq!(handed_out, [1, 2]);
    if let StopStep::Drain { server, .. } = begin_stop(Some(&mut slot)) {
        handed_out.push(server);
    }
    assert_eq!(handed_out, [1, 2, 4]);
}

#[test]
fn a_stop_that_found_a_server_succeeds() {
    let mut slot = running(1);
    assert!(matches!(begin_stop(Some(&mut slot)), StopStep::Drain { .. }));
    let (status, trace) = finish_stop();
    assert_eq!(status, status::OK);
    assert!(matches!(trace, Trace::StopDone));
}

#[test]
fn a_reap_is_noted_where_a_server_was_reaped() {
    let mut slot = running(1);
    assert!(reap_trace(&reap_if_dead(&mut slot, false)).is_none());
    assert!(matches!(reap_trace(&reap_if_dead(&mut slot, true)), Some(Trace::Reaped)));
    assert!(reap_trace(&reap_if_dead(&mut slot, true)).is_none());
}

#[test]
fn a_start_in_two_halves_is_one_call() {
    for (held, finished, launched, left) in [
        (None, false, Some(9), Some(9)),
        (None, false, None, None),
        (Some(1), false, Some(9), Some(1)),
        (Some(1), true, Some(9), Some(9)),
        (Some(1), true, None, None),
    ] {
        let mut slot: ServerSlot<u8> = state();
        finish_start(&mut slot, held);
        if let StartStep::Launch { .. } = begin_start(Some(&mut slot), finished, 1).step {
            finish_start(&mut slot, launched);
        }
        assert_eq!(slot.server().copied(), left);
    }
}

#[test]
fn a_stopping_server_is_waited_for_before_it_is_cut_off() {
    assert_eq!(
        drain_plan(true),
        vec![
            DrainAction::SignalShutdown,
            DrainAction::AwaitTask { seconds: 5 },
            DrainAction::AbortTask,
            DrainAction::DropRuntime,
        ]
    );
    assert_eq!(
        drain_plan(false),
        vec![
            DrainAction::AwaitTask { seconds: 5 },
            DrainAction::AbortTask,
            DrainAction::DropRuntime,
        ]
    );
}

#[test]
fn status_codes_are_the_published_ones() {
    assert_eq!(status::OK, 0);
    assert_eq!(status::ALREADY_RUNNING, 1);
    assert_eq!(status::INVALID_ARGUMENT, 2);
    assert_eq!(status::RUNTIME_INIT_FAILED, 3);
    assert_eq!(status::RUNTIME_TASK_FAILED, 4);
    assert_eq!(status::NOT_RUNNING, 5);
    assert_eq!(status::INTERNAL_ERROR, 100);
}

fn notes(step: &TaskStep) -> Vec<String> {
    step.traces.iter().map(|trace| trace.message()).collect()
}

#[test]
fn a_task_that_serves_goes_through_every_step() {
    let step = task_entered();
    assert_eq!(notes(&step), ["task: entered, calling pick_listener()"]);
    assert_eq!(step.action, TaskAction::PickListener);
    let step = listener_picked(Ok("tcp 127.0.0.1:1".to_string()));
    assert_eq!(
        notes(&step),
        ["task: pick_listener() OK (tcp 127.0.0.1:1), calling build_state()"]
    );
    assert_eq!(step.action, TaskAction::BuildState);
    let step = state_built(None);
    assert_eq!(notes(&step), ["task: build_state() OK, serving"]);
    assert_eq!(step.action, TaskAction::Serve);
    let step = serve_returned(None);
    assert_eq!(notes(&step), ["task: axum::serve() returned, task ending"]);
    assert_eq!(step.action, TaskAction::End);
}

#[test]
fn a_task_ends_at_its_first_failure() {
    let step = listener_picked(Err("in use".to_string()));
    assert_eq!(notes(&step), ["task: pick_listener() FAILED: in use"]);
    assert_eq!(step.action, TaskAction::End);
    let step = state_built(Some("no db".to_string()));
    assert_eq!(notes(&step), ["task: build_state() FAILED: no db"]);
    assert_eq!(step.action, TaskAction::End);
    let step = serve_returned(Some("reset".to_string()));
    assert_eq!(
        notes(&step),
        ["task: server error: reset", "task: axum::serve() returned, task ending"]
    );
    assert_eq!(step.action, TaskAction::End);
}

#[test]
fn close_on_exec_is_set_on_request_only() {
    assert!(epoll_needs_cloexec(3, 0o2000000, 0o2000000));
    assert!(epoll_needs_cloexec(0, 0o2000001, 0o2000000));
    assert!(!epoll_needs_cloexec(3, 1, 0o2000000));
    assert!(!epoll_needs_cloexec(-1, 0o2000000, 0o2000000));
}
