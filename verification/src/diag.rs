//! The diagnostic file in the home directory, and what is written to it.
use vstd::prelude::*;
use vstd::string::*;

use crate::decimal::{
    decimal, decimal_text, law_decimal_reads_back, signed_decimal, signed_decimal_text,
};
use crate::status::OK;

verus! {

/// The name of the diagnostic file.
pub const DIAG_FILE: &'static str = "rakuyomi_bridge_diag.log";

/// The home directory where the app names none.
pub const DEFAULT_HOME: &'static str = ".";

/// The thread name where a thread has none.
pub const UNNAMED_THREAD: &'static str = "unknown";

fn around(before: &str, middle: &str, after: &str) -> (text: String)
    ensures
        text@ == before@ + middle@ + after@,
{
    let mut text = String::from_str(before);
    text.append(middle);
    text.append(after);
    text
}

/// A point in the life of the server that is worth a line in the diagnostic
/// file.
#[derive(Debug)]
pub enum Trace {
    Reaped,
    StartCalled,
    StartLockBusy,
    StartAlreadyRunning,
    StartSpawning,
    TaskEntered,
    TaskListening { description: String },
    TaskListenerFailed { report: String },
    TaskStateFailed { report: String },
    TaskServing,
    TaskServerError { report: String },
    TaskEnding,
    StopCalled,
    StopLockBusy,
    StopNotRunning,
    StopSignaling,
    StopDone,
}

impl Trace {
    /// The line that is written.
    pub open spec fn text(self) -> Seq<char> {
        match self {
            Trace::Reaped => "reap_if_dead: task had finished, clearing stale state"@,
            Trace::StartCalled => "nativeStart: called, acquiring lock"@,
            Trace::StartLockBusy => "nativeStart: lock busy, returning INTERNAL_ERROR"@,
            Trace::StartAlreadyRunning =>
                "nativeStart: guard already Some, returning ALREADY_RUNNING"@,
            Trace::StartSpawning => "nativeStart: spawning task"@,
            Trace::TaskEntered => "task: entered, calling pick_listener()"@,
            Trace::TaskListening { description } => "task: pick_listener() OK ("@ + description@
                + "), calling build_state()"@,
            Trace::TaskListenerFailed { report } => "task: pick_listener() FAILED: "@ + report@,
            Trace::TaskStateFailed { report } => "task: build_state() FAILED: "@ + report@,
            Trace::TaskServing => "task: build_state() OK, serving"@,
            Trace::TaskServerError { report } => "task: server error: "@ + report@,
            Trace::TaskEnding => "task: axum::serve() returned, task ending"@,
            Trace::StopCalled => "nativeStop: called, acquiring lock"@,
            Trace::StopLockBusy => "nativeStop: lock busy, returning INTERNAL_ERROR"@,
            Trace::StopNotRunning => "nativeStop: guard already None, returning NOT_RUNNING"@,
            Trace::StopSignaling => "nativeStop: signaling shutdown, starting drain wait"@,
            Trace::StopDone => "nativeStop: runtime dropped, returning OK"@,
        }
    }

    /// The line that is written.
    pub fn message(&self) -> (message: String)
        ensures
            message@ == self.text(),
            self matches Trace::TaskListening { description } ==> message@
                == "task: pick_listener() OK ("@ + description@ + "), calling build_state()"@,
            self matches Trace::TaskListenerFailed { report } ==> message@
                == "task: pick_listener() FAILED: "@ + report@,
            self matches Trace::TaskStateFailed { report } ==> message@
                == "task: build_state() FAILED: "@ + report@,
            self matches Trace::TaskServerError { report } ==> message@ == "task: server error: "@
                + report@,
    {
        match self {
            Trace::Reaped => String::from_str(
                "reap_if_dead: task had finished, clearing stale state",
            ),
            Trace::StartCalled => String::from_str("nativeStart: called, acquiring lock"),
            Trace::StartLockBusy => String::from_str(
                "nativeStart: lock busy, returning INTERNAL_ERROR",
            ),
            Trace::StartAlreadyRunning => String::from_str(
                "nativeStart: guard already Some, returning ALREADY_RUNNING",
            ),
            Trace::StartSpawning => String::from_str("nativeStart: spawning task"),
            Trace::TaskEntered => String::from_str("task: entered, calling pick_listener()"),
            Trace::TaskListening { description } => around(
                "task: pick_listener() OK (",
                description.as_str(),
                "), calling build_state()",
            ),
            Trace::TaskListenerFailed { report } => String::from_str(
                "task: pick_listener() FAILED: ",
            ).concat(report.as_str()),
            Trace::TaskStateFailed { report } => String::from_str(
                "task: build_state() FAILED: ",
            ).concat(report.as_str()),
            Trace::TaskServing => String::from_str("task: build_state() OK, serving"),
            Trace::TaskServerError { report } => String::from_str("task: server error: ").concat(
                report.as_str(),
            ),
            Trace::TaskEnding => String::from_str("task: axum::serve() returned, task ending"),
            Trace::StopCalled => String::from_str("nativeStop: called, acquiring lock"),
            Trace::StopLockBusy => String::from_str(
                "nativeStop: lock busy, returning INTERNAL_ERROR",
            ),
            Trace::StopNotRunning => String::from_str(
                "nativeStop: guard already None, returning NOT_RUNNING",
            ),
            Trace::StopSignaling => String::from_str(
                "nativeStop: signaling shutdown, starting drain wait",
            ),
            Trace::StopDone => String::from_str("nativeStop: runtime dropped, returning OK"),
        }
    }
}

/// The home directory that a start asks for with `given`: the current directory
/// where that is nothing or empty.
pub open spec fn home_of(given: Option<Seq<char>>) -> Seq<char> {
    match given {
        Some(path) => if path.len() == 0 {
            DEFAULT_HOME@
        } else {
            path
        },
        None => DEFAULT_HOME@,
    }
}

/// The home directory that the app asks for; the current directory where it
/// gives none or an empty one.
pub fn home_path(given: Option<String>) -> (home: String)
    ensures
        home@ == home_of(
            match given {
                Some(path) => Some(path@),
                None => None,
            },
        ),
        given matches Some(path) ==> path@.len() > 0 ==> home@ == path@,
        given matches Some(path) ==> path@.len() == 0 ==> home@ == "."@,
        given is None ==> home@ == "."@,
{
    match given {
        Some(path) => {
            if path.as_str().is_empty() {
                String::from_str(DEFAULT_HOME)
            } else {
                path
            }
        },
        None => String::from_str(DEFAULT_HOME),
    }
}

/// The milliseconds since the epoch that a line is stamped with; 0 where the
/// clock stands before it.
pub open spec fn stamp(now: Option<u128>) -> nat {
    match now {
        Some(millis) => millis as nat,
        None => 0,
    }
}

/// A line of the diagnostic file: the time stamp in brackets, a blank, the
/// message, and the end of the line.
pub open spec fn diag_line(now: Option<u128>, msg: Seq<char>) -> Seq<char> {
    "["@ + decimal(stamp(now)) + "] "@ + msg + "\n"@
}

/// A line to append to the diagnostic file under `home`.
#[derive(Debug)]
pub struct DiagEntry {
    pub home: String,
    pub line: String,
}

/// The line that notes `msg` in the diagnostic file under `home`.
pub fn diag_log(home: &str, now: Option<u128>, msg: &str) -> (entry: DiagEntry)
    ensures
        entry.home@ == home@,
        entry.line@ == diag_line(now, msg@),
        now matches Some(millis) ==> entry.line@ == "["@ + decimal(millis as nat) + "] "@ + msg@
            + "\n"@,
        now is None ==> entry.line@ == "["@ + decimal(0) + "] "@ + msg@ + "\n"@,
{
    let millis: u128 = match now {
        Some(millis) => millis,
        None => 0,
    };
    let mut line = around("[", decimal_text(millis).as_str(), "] ");
    line.append(msg);
    line.append("\n");
    DiagEntry { home: String::from_str(home), line }
}

/// The home directory that serves for the life of the process: that of the first
/// start.
pub struct DiagHome {
    path: Option<String>,
}

impl View for DiagHome {
    type V = Option<Seq<char>>;

    closed spec fn view(&self) -> Option<Seq<char>> {
        match self.path {
            Some(path) => Some(path@),
            None => None,
        }
    }
}

/// The home that is kept once `home` has come along, where it was `kept` before.
pub open spec fn first_home(kept: Option<Seq<char>>, home: Seq<char>) -> Option<Seq<char>> {
    match kept {
        Some(first) => Some(first),
        None => Some(home),
    }
}

/// No home is known yet.
pub fn diag_home() -> (home: DiagHome)
    ensures
        home@ is None,
{
    DiagHome { path: None }
}

impl DiagHome {
    /// Keeps `home`, unless one is kept already.
    pub fn remember(&mut self, home: String)
        ensures
            final(self)@ == first_home(old(self)@, home@),
            old(self)@ is Some ==> final(self)@ == old(self)@,
            old(self)@ is None ==> final(self)@ == Some(home@),
    {
        if self.path.is_none() {
            self.path = Some(home);
        }
    }
}

/// The home and the line that note `msg`, where `home` is kept; nothing where
/// none is.
pub open spec fn noted(home: Option<Seq<char>>, now: Option<u128>, msg: Seq<char>) -> Option<
    (Seq<char>, Seq<char>),
> {
    match home {
        Some(path) => Some((path, diag_line(now, msg))),
        None => None,
    }
}

/// The line that notes `msg` under the home directory that is kept; none before
/// there is one.
pub fn diag_log_default(home: &DiagHome, now: Option<u128>, msg: &str) -> (entry: Option<DiagEntry>)
    ensures
        noted(home@, now, msg@) == (match entry {
            Some(written) => Some((written.home@, written.line@)),
            None => None,
        }),
        entry is Some <==> home@ is Some,
        entry matches Some(written) ==> home@ == Some(written.home@) && written.line@ == diag_line(
            now,
            msg@,
        ),
{
    match &home.path {
        Some(path) => Some(diag_log(path.as_str(), now, msg)),
        None => None,
    }
}

/// The home that is kept after starts that asked for the homes `given`, in
/// order.
pub open spec fn kept_home(given: Seq<Option<Seq<char>>>) -> Option<Seq<char>>
    decreases given.len(),
{
    if given.len() == 0 {
        None
    } else {
        first_home(kept_home(given.drop_last()), home_of(given.last()))
    }
}

/// Nothing is noted before the first start; from then on everything is noted
/// under the home of that start, whatever homes later ones ask for.
pub proof fn law_first_home_is_kept(
    given: Seq<Option<Seq<char>>>,
    now: Option<u128>,
    msg: Seq<char>,
)
    ensures
        given.len() == 0 ==> noted(kept_home(given), now, msg) is None,
        given.len() > 0 ==> noted(kept_home(given), now, msg) == Some(
            (home_of(given[0]), diag_line(now, msg)),
        ),
    decreases given.len(),
{
    if given.len() > 0 {
        law_first_home_is_kept(given.drop_last(), now, msg);
    }
}

/// The line that tells of a start by `thread` under `home`, on `port`.
pub open spec fn start_text(home: Seq<char>, port: i32, thread: Option<String>) -> Seq<char> {
    "rakuyomi server started on thread="@ + (match thread {
        Some(name) => name@,
        None => UNNAMED_THREAD@,
    }) + " home="@ + home + " port="@ + signed_decimal(port as int)
}

/// What is logged once the server has been started.
pub fn log_start(home: &str, port: i32, thread: Option<String>) -> (message: String)
    ensures
        message@ == start_text(home@, port, thread),
        thread matches Some(name) ==> message@ == "rakuyomi server started on thread="@ + name@
            + " home="@ + home@ + " port="@ + signed_decimal(port as int),
        thread is None ==> message@ == "rakuyomi server started on thread="@ + "unknown"@
            + " home="@ + home@ + " port="@ + signed_decimal(port as int),
{
    let thread = match thread {
        Some(name) => name,
        None => String::from_str(UNNAMED_THREAD),
    };
    let mut message = around(
        "rakuyomi server started on thread=",
        thread.as_str(),
        " home=",
    );
    message.append(home);
    message.append(" port=");
    message.append(signed_decimal_text(port).as_str());
    message
}

/// What is logged of a start that ends with `status`: a line exactly where the
/// server has been started.
pub fn start_line(status: i32, home: &str, port: i32, thread: Option<String>) -> (line: Option<
    String,
>)
    ensures
        match line {
            Some(message) => status == OK && message@ == start_text(home@, port, thread),
            None => status != OK,
        },
        line is Some <==> status == 0,
{
    if status == OK {
        Some(log_start(home, port, thread))
    } else {
        None
    }
}

/// A trace that carries a description or a report is written with all of it.
pub proof fn law_traces_are_whole(trace: Trace)
    ensures
        trace matches Trace::TaskListening { description } ==> trace.text()
            == "task: pick_listener() OK ("@ + description@ + "), calling build_state()"@,
        trace matches Trace::TaskListenerFailed { report } ==> trace.text()
            == "task: pick_listener() FAILED: "@ + report@,
        trace matches Trace::TaskStateFailed { report } ==> trace.text()
            == "task: build_state() FAILED: "@ + report@,
        trace matches Trace::TaskServerError { report } ==> trace.text() == "task: server error: "@
            + report@,
{
}

/// A home that is given is taken as it is; a missing or empty one is the current
/// directory.
pub proof fn law_given_home_is_taken(given: Option<Seq<char>>)
    ensures
        given matches Some(path) ==> path.len() > 0 ==> home_of(given) == path,
        given matches Some(path) ==> path.len() == 0 ==> home_of(given) == "."@,
        given is None ==> home_of(given) == "."@,
{
}

/// A line of the diagnostic file starts with the time in brackets, has the
/// message whole, and ends with the end of the line and nothing more.
pub proof fn law_diag_line_is_whole(now: Option<u128>, msg: Seq<char>)
    ensures
        now matches Some(millis) ==> diag_line(now, msg) == seq!['['] + decimal(millis as nat)
            + seq![']', ' '] + msg + seq!['\n'],
        now is None ==> diag_line(now, msg) == seq!['[', '0', ']', ' '] + msg + seq!['\n'],
{
    reveal_strlit("[");
    reveal_strlit("] ");
    reveal_strlit("\n");
    assert("["@ =~= seq!['[']);
    assert("] "@ =~= seq![']', ' ']);
    assert("\n"@ =~= seq!['\n']);
    if now is None {
        law_decimal_reads_back(0);
        assert(diag_line(now, msg) =~= seq!['[', '0', ']', ' '] + msg + seq!['\n']);
    }
}

/// The first home that comes along is kept, and none after it.
pub proof fn law_home_is_never_replaced(kept: Option<Seq<char>>, home: Seq<char>)
    ensures
        kept is Some ==> first_home(kept, home) == kept,
        kept is None ==> first_home(kept, home) == Some(home),
{
}

/// A message is noted under the home that is kept, and nowhere else.
pub proof fn law_noted_under_the_kept_home(
    home: Option<Seq<char>>,
    now: Option<u128>,
    msg: Seq<char>,
)
    ensures
        home is None ==> noted(home, now, msg) is None,
        home matches Some(path) ==> noted(home, now, msg) == Some((path, diag_line(now, msg))),
{
}

/// The line that tells of a start names the thread, the home and the port in
/// full.
pub proof fn law_start_text_is_whole(home: Seq<char>, port: i32, thread: Option<String>)
    ensures
        thread matches Some(name) ==> start_text(home, port, thread)
            == "rakuyomi server started on thread="@ + name@ + " home="@ + home + " port="@
            + signed_decimal(port as int),
        thread is None ==> start_text(home, port, thread) == "rakuyomi server started on thread="@
            + "unknown"@ + " home="@ + home + " port="@ + signed_decimal(port as int),
{
}

} // verus!
