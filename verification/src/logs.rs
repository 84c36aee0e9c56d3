//! The queue of log lines that the companion app polls.
use vstd::prelude::*;
use vstd::string::*;

verus! {

/// The queue keeps no more than this many lines.
pub const LOG_CAPACITY: usize = 1000;

/// Stands between two lines when the queue is handed over.
pub const LOG_SEPARATOR: &'static str = ";";

/// The last `n` elements of `lines`, or all of them where there are fewer.
pub open spec fn last_n(lines: Seq<Seq<char>>, n: nat) -> Seq<Seq<char>> {
    if lines.len() <= n {
        lines
    } else {
        lines.skip(lines.len() - n)
    }
}

/// What a queue that holds `lines` holds once `log` has been pushed.
pub open spec fn pushed(lines: Seq<Seq<char>>, log: Seq<char>) -> Seq<Seq<char>> {
    last_n(lines.push(log), LOG_CAPACITY as nat)
}

/// What a queue that holds `lines` holds once every element of `logs` has been
/// pushed, in order.
pub open spec fn pushed_all(lines: Seq<Seq<char>>, logs: Seq<Seq<char>>) -> Seq<Seq<char>>
    decreases logs.len(),
{
    if logs.len() == 0 {
        lines
    } else {
        pushed(pushed_all(lines, logs.drop_last()), logs.last())
    }
}

/// `lines` put together, with `separator` between each two neighbours.
pub open spec fn joined(lines: Seq<Seq<char>>, separator: Seq<char>) -> Seq<char>
    decreases lines.len(),
{
    if lines.len() == 0 {
        Seq::empty()
    } else if lines.len() == 1 {
        lines[0]
    } else {
        joined(lines.drop_last(), separator) + separator + lines.last()
    }
}

/// Log lines waiting to be polled, oldest first, never more than
/// `LOG_CAPACITY` of them.
pub struct LogQueue {
    lines: Vec<String>,
}

impl View for LogQueue {
    type V = Seq<Seq<char>>;

    closed spec fn view(&self) -> Seq<Seq<char>> {
        self.lines@.map_values(|line: String| line@)
    }
}

impl LogQueue {
    /// The queue is within its bound.
    pub open spec fn wf(&self) -> bool {
        self@.len() <= LOG_CAPACITY
    }
}

/// A queue with no lines in it.
pub fn log_queue() -> (queue: LogQueue)
    ensures
        queue.wf(),
        queue@ == Seq::<Seq<char>>::empty(),
{
    let queue = LogQueue { lines: Vec::new() };
    assert(queue@ =~= Seq::<Seq<char>>::empty());
    queue
}

/// Appends `log`; once the queue is over its bound, the oldest line goes.
pub fn push_log(queue: &mut LogQueue, log: String)
    requires
        old(queue).wf(),
    ensures
        final(queue).wf(),
        final(queue)@ == pushed(old(queue)@, log@),
        final(queue)@.last() == log@,
        old(queue)@.len() < 1000 ==> final(queue)@ == old(queue)@.push(log@),
        old(queue)@.len() >= 1000 ==> final(queue)@ == old(queue)@.drop_first().push(log@),
{
    let ghost before = queue@;
    queue.lines.push(log);
    assert(queue@ =~= before.push(log@));
    if queue.lines.len() > LOG_CAPACITY {
        let _ = queue.lines.remove(0);
        assert(queue@ =~= before.push(log@).skip(1));
    }
}

/// Takes every line out of the queue and hands them over as one string; `None`
/// where the queue was empty.
pub fn poll_logs(queue: &mut LogQueue) -> (logs: Option<String>)
    ensures
        final(queue).wf(),
        final(queue)@ == Seq::<Seq<char>>::empty(),
        match logs {
            Some(text) => old(queue)@.len() > 0 && text@ == joined(old(queue)@, LOG_SEPARATOR@),
            None => old(queue)@.len() == 0,
        },
        old(queue)@.len() == 1 ==> logs->0@ == old(queue)@[0],
        old(queue)@.len() > 1 ==> logs->0@ == joined(old(queue)@.drop_last(), seq![';']) + seq![';']
            + old(queue)@.last(),
{
    if queue.lines.len() == 0 {
        assert(queue@ =~= Seq::<Seq<char>>::empty());
        return None;
    }
    proof {
        law_separator_is_a_semicolon();
    }
    let mut text = queue.lines[0].clone();
    let mut taken: usize = 1;
    assert(queue@.take(1).len() == 1);
    while taken < queue.lines.len()
        invariant
            1 <= taken <= queue.lines@.len(),
            queue@ == old(queue)@,
            queue@.len() == queue.lines@.len(),
            text@ == joined(queue@.take(taken as int), LOG_SEPARATOR@),
        decreases queue.lines@.len() - taken,
    {
        text.append(LOG_SEPARATOR);
        text.append(queue.lines[taken].as_str());
        assert(queue@.take(taken + 1).drop_last() =~= queue@.take(taken as int));
        taken += 1;
    }
    assert(queue@.take(taken as int) =~= queue@);
    queue.lines.clear();
    assert(queue@ =~= Seq::<Seq<char>>::empty());
    Some(text)
}

/// The queue never outgrows its bound, whatever it held before.
pub proof fn law_push_is_bounded(lines: Seq<Seq<char>>, log: Seq<char>)
    ensures
        pushed(lines, log).len() <= LOG_CAPACITY,
{
}

/// After any number of pushes into an empty queue, the queue holds exactly the
/// most recent lines, in the order in which they came: all of them up to the
/// bound.
pub proof fn law_queue_keeps_the_latest(logs: Seq<Seq<char>>)
    ensures
        pushed_all(Seq::empty(), logs) == last_n(logs, LOG_CAPACITY as nat),
        logs.len() <= LOG_CAPACITY ==> pushed_all(Seq::empty(), logs) == logs,
        logs.len() <= 1000 ==> pushed_all(Seq::empty(), logs) == logs,
        logs.len() > 1000 ==> pushed_all(Seq::empty(), logs) == logs.skip(logs.len() - 1000),
    decreases logs.len(),
{
    if logs.len() > 0 {
        let earlier = logs.drop_last();
        law_queue_keeps_the_latest(earlier);
        let cap = LOG_CAPACITY as nat;
        assert(earlier.push(logs.last()) =~= logs);
        assert(last_n(last_n(earlier, cap).push(logs.last()), cap) =~= last_n(logs, cap));
    }
}

/// Joining two runs of lines gives the two joined texts with one separator
/// between them.
pub proof fn law_join_splits(front: Seq<Seq<char>>, back: Seq<Seq<char>>, separator: Seq<char>)
    requires
        front.len() > 0,
        back.len() > 0,
    ensures
        joined(front + back, separator) == joined(front, separator) + separator + joined(
            back,
            separator,
        ),
    decreases back.len(),
{
    let all = front + back;
    assert(all.drop_last() =~= front + back.drop_last());
    assert(all.last() == back.last());
    if back.len() == 1 {
        assert(front + back.drop_last() =~= front);
    } else {
        law_join_splits(front, back.drop_last(), separator);
        assert(joined(all, separator) =~= joined(front, separator) + separator + joined(
            back,
            separator,
        ));
    }
}

/// A line that finds room is put behind the others, unchanged; one that does not
/// takes the place of the oldest, and no other line is touched.
pub proof fn law_push_appends(lines: Seq<Seq<char>>, log: Seq<char>)
    requires
        lines.len() <= 1000,
    ensures
        pushed(lines, log).last() == log,
        lines.len() < 1000 ==> pushed(lines, log) == lines.push(log),
        lines.len() == 1000 ==> pushed(lines, log) == lines.drop_first().push(log),
{
    if lines.len() == 1000 {
        assert(pushed(lines, log) =~= lines.drop_first().push(log));
    }
}

/// Lines are told apart by semicolons.
pub proof fn law_separator_is_a_semicolon()
    ensures
        LOG_SEPARATOR@ == seq![';'],
{
    reveal_strlit(";");
    assert(LOG_SEPARATOR@ =~= seq![';']);
}

/// A line by itself is joined to just that line, whatever its length.
pub proof fn law_join_of_one_line(line: Seq<char>, separator: Seq<char>)
    ensures
        joined(seq![line], separator) == line,
{
}

/// One more line adds the separator and the line, whole, behind what the others
/// are joined to.
pub proof fn law_join_appends(lines: Seq<Seq<char>>, line: Seq<char>, separator: Seq<char>)
    requires
        lines.len() > 0,
    ensures
        joined(lines.push(line), separator) == joined(lines, separator) + separator + line,
{
    assert(lines.push(line).drop_last() =~= lines);
}

/// Joining drops and adds nothing: the text is as long as its lines and the
/// separators between them.
pub proof fn law_join_length(lines: Seq<Seq<char>>, separator: Seq<char>)
    requires
        lines.len() > 0,
    ensures
        joined(lines, separator).len() == lines.fold_left(
            0int,
            |sum: int, line: Seq<char>| sum + line.len(),
        ) + separator.len() * (lines.len() - 1),
    decreases lines.len(),
{
    reveal_with_fuel(Seq::fold_left, 2);
    if lines.len() > 1 {
        law_join_length(lines.drop_last(), separator);
        assert(separator.len() * (lines.len() - 1) == separator.len() * (lines.len() - 2)
            + separator.len()) by (nonlinear_arith);
    } else {
        assert(lines.drop_last() =~= Seq::empty());
    }
}

/// A line that is pushed is found, whole, at the end of what the next poll gives:
/// by itself where the queue was empty, else behind a semicolon.
pub proof fn law_poll_ends_with_the_last_push(lines: Seq<Seq<char>>, log: Seq<char>)
    requires
        lines.len() < 1000,
    ensures
        lines.len() == 0 ==> joined(pushed(lines, log), seq![';']) == log,
        lines.len() > 0 ==> joined(pushed(lines, log), seq![';']) == joined(lines, seq![';'])
            + seq![';'] + log,
{
    if lines.len() > 0 {
        law_join_appends(lines, log, seq![';']);
    }
}

} // verus!
