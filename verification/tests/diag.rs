use rakuyomi_bridge::decimal::{decimal_text, signed_decimal_text};
use rakuyomi_bridge::diag::{
    diag_home, diag_log, diag_log_default, home_path, log_start, start_line, Trace,
    DIAG_FILE,
};

#[test]
fn numbers_are_written_in_base_ten() {
    for n in [0, 7, 9, 10, 99, 100, 1234567890, u64::MAX as u128, u128::MAX] {
        assert_eq!(decimal_text(n), n.to_string());
    }
    for n in [0, 5, -5, 42, -305, i32::MAX, i32::MIN] {
        assert_eq!(signed_decimal_text(n), n.to_string());
    }
}

#[test]
fn a_line_is_stamped_and_ended() {
    let entry = diag_log("/sdcard/koreader", Some(1725029869123), "hello");
    assert_eq!(entry.home, "/sdcard/koreader");
    assert_eq!(entry.line, "[1725029869123] hello\n");
    assert_eq!(diag_log(".", None, "").line, "[0] \n");
    assert_eq!(DIAG_FILE, "rakuyomi_bridge_diag.log");
}

#[test]
fn nothing_is_noted_before_the_home_is_known() {
    let mut home = diag_home();
    assert!(diag_log_default(&home, Some(1), "hello").is_none());
    home.remember("/home".to_string());
    let entry = diag_log_default(&home, Some(1), "hello").unwrap();
    assert_eq!(entry.home, "/home");
    assert_eq!(entry.line, "[1] hello\n");
}

#[test]
fn the_home_of_the_first_start_is_kept() {
    let mut home = diag_home();
    for given in [None, Some("/first".to_string()), Some("/second".to_string())] {
        home.remember(home_path(given));
        assert_eq!(diag_log_default(&home, None, "x").unwrap().home, ".");
    }
    let mut home = diag_home();
    for given in [Some("/first".to_string()), None, Some("/second".to_string())] {
        home.remember(home_path(given));
        assert_eq!(diag_log_default(&home, None, "x").unwrap().home, "/first");
    }
}

#[test]
fn a_missing_home_is_the_current_directory() {
    assert_eq!(home_path(None), ".");
    assert_eq!(home_path(Some(String::new())), ".");
    assert_eq!(home_path(Some("/data".to_string())), "/data");
}

#[test]
fn a_start_is_logged_with_its_circumstances() {
    assert_eq!(
        log_start("/data", 8080, Some("main".to_string())),
        "rakuyomi server started on thread=main home=/data port=8080"
    );
    assert_eq!(
        log_start(".", -1, None),
        "rakuyomi server started on thread=unknown home=. port=-1"
    );
}

#[test]
fn only_a_successful_start_is_logged() {
    assert_eq!(
        start_line(0, "/data", 8080, None),
        Some("rakuyomi server started on thread=unknown home=/data port=8080".to_string())
    );
    for status in [1, 2, 3, 4, 5, 100, -1] {
        assert_eq!(start_line(status, "/data", 8080, None), None);
    }
}

#[test]
fn each_trace_has_its_line() {
    let report = "why".to_string();
    let lines = [
        (Trace::Reaped, "reap_if_dead: task had finished, clearing stale state"),
        (Trace::StartCalled, "nativeStart: called, acquiring lock"),
        (Trace::StartLockBusy, "nativeStart: lock busy, returning INTERNAL_ERROR"),
        (
            Trace::StartAlreadyRunning,
            "nativeStart: guard already Some, returning ALREADY_RUNNING",
        ),
        (Trace::StartSpawning, "nativeStart: spawning task"),
        (Trace::TaskEntered, "task: entered, calling pick_listener()"),
        (
            Trace::TaskListening { description: "unix".to_string() },
            "task: pick_listener() OK (unix), calling build_state()",
        ),
        (
            Trace::TaskListenerFailed { report: report.clone() },
            "task: pick_listener() FAILED: why",
        ),
        (Trace::TaskStateFailed { report: report.clone() }, "task: build_state() FAILED: why"),
        (Trace::TaskServing, "task: build_state() OK, serving"),
        (Trace::TaskServerError { report }, "task: server error: why"),
        (Trace::TaskEnding, "task: axum::serve() returned, task ending"),
        (Trace::StopCalled, "nativeStop: called, acquiring lock"),
        (Trace::StopLockBusy, "nativeStop: lock busy, returning INTERNAL_ERROR"),
        (Trace::StopNotRunning, "nativeStop: guard already None, returning NOT_RUNNING"),
        (Trace::StopSignaling, "nativeStop: signaling shutdown, starting drain wait"),
        (Trace::StopDone, "nativeStop: runtime dropped, returning OK"),
    ];
    for (trace, line) in lines {
        assert_eq!(trace.message(), line);
    }
}
