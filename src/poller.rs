//! The decisions of the poller: which line of the mixer's output to read, and
//! how long to wait before trying again when an attempt fails.
use vstd::prelude::*;
use crate::status::chars_of;

verus! {

/// The wait before the first retry, in seconds.
pub const INITIAL_WAIT_SECONDS: u64 = 1;

/// The longest wait between two attempts, in seconds.
pub const MAX_WAIT_SECONDS: u64 = 30;

/// `s` after its last `\n`, or all of `s` if it holds none.
pub open spec fn after_last_newline(s: Seq<char>) -> Seq<char>
    decreases s.len(),
{
    if s.len() == 0 {
        s
    } else if s.last() == '\n' {
        seq![]
    } else {
        after_last_newline(s.drop_last()).push(s.last())
    }
}

/// `t` without a final line ending (`\n` or `\r\n`), if it has one.
pub open spec fn strip_line_end(t: Seq<char>) -> Seq<char> {
    if t.len() > 0 && t.last() == '\n' {
        let u = t.drop_last();
        if u.len() > 0 && u.last() == '\r' {
            u.drop_last()
        } else {
            u
        }
    } else {
        t
    }
}

/// The last line of `t`, as `str::lines` splits it; none if `t` is empty.
pub open spec fn last_line_of(t: Seq<char>) -> Option<Seq<char>> {
    if t.len() == 0 {
        None
    } else {
        Some(after_last_newline(strip_line_end(t)))
    }
}

/// The wait after one that lasted `w` seconds: doubled, but not past the
/// longest wait.
pub open spec fn wait_after(w: int) -> int {
    if w < MAX_WAIT_SECONDS {
        if 2 * w < MAX_WAIT_SECONDS {
            2 * w
        } else {
            MAX_WAIT_SECONDS as int
        }
    } else {
        w
    }
}

/// What the poller does after one attempt.
#[derive(Debug, Clone)]
pub enum PollStep {
    /// The attempt gave this line: stop.
    Done(String),
    /// The attempt failed: sleep this long, then try again with the next wait.
    Retry { sleep_seconds: u64, next_wait_seconds: u64 },
}

proof fn lemma_after_last_newline(s: Seq<char>, start: int, end: int)
    requires
        0 <= start <= end <= s.len(),
        start == 0 || s[start - 1] == '\n',
        forall|k: int| start <= k < end ==> s[k] != '\n',
    ensures
        after_last_newline(s.subrange(0, end)) == s.subrange(start, end),
    decreases end,
{
    let p = s.subrange(0, end);
    if end == start {
        if end > 0 {
            assert(p.last() == '\n');
        }
        assert(s.subrange(start, end) =~= seq![]);
    } else {
        lemma_after_last_newline(s, start, end - 1);
        assert(p.drop_last() =~= s.subrange(0, end - 1));
        assert(s.subrange(start, end - 1).push(s[end - 1]) =~= s.subrange(start, end));
    }
}

/// The last line of `text`, if it has any.
pub fn last_line(text: &str) -> (r: Option<String>)
    ensures
        match r {
            Some(line) => last_line_of(text@) == Some(line@),
            None => last_line_of(text@) is None,
        },
{
    let v = chars_of(text);
    let n: usize = v.len();
    if n == 0 {
        return None;
    }
    let mut end: usize = n;
    if v[end - 1] == '\n' {
        end = end - 1;
        if end > 0 && v[end - 1] == '\r' {
            end = end - 1;
        }
    }
    assert(strip_line_end(text@) =~= text@.subrange(0, end as int));
    let mut start: usize = end;
    while start > 0 && v[start - 1] != '\n'
        invariant
            v@ == text@,
            start <= end <= v@.len(),
            forall|k: int| start <= k < end ==> v@[k] != '\n',
        decreases start,
    {
        start = start - 1;
    }
    proof {
        lemma_after_last_newline(text@, start as int, end as int);
    }
    Some(String::from_str(text.substring_char(start, end)))
}

/// The next wait of the backoff.
pub fn next_wait(wait_seconds: u64) -> (r: u64)
    ensures
        r == wait_after(wait_seconds as int),
{
    if wait_seconds < MAX_WAIT_SECONDS {
        if wait_seconds * 2 < MAX_WAIT_SECONDS {
            wait_seconds * 2
        } else {
            MAX_WAIT_SECONDS
        }
    } else {
        wait_seconds
    }
}

/// Decides after one attempt of the mixer command. `output` is the attempt's
/// output decoded as text, or none where the command failed or its output was
/// not text; `wait_seconds` is the current wait.
///
/// The poller stops with the last line of the output when there is one, and
/// otherwise sleeps the current wait and goes on with the next.
pub fn poll_step(wait_seconds: u64, output: Option<&str>) -> (r: PollStep)
    ensures
        r is Done <==> (output is Some && last_line_of(output->0@) is Some),
        match r {
            PollStep::Done(line) => last_line_of(output->0@) == Some(line@),
            PollStep::Retry { sleep_seconds, next_wait_seconds } => {
                &&& sleep_seconds == wait_seconds
                &&& next_wait_seconds == wait_after(wait_seconds as int)
            },
        },
{
    let line = match output {
        Some(text) => last_line(text),
        None => None,
    };
    match line {
        Some(l) => PollStep::Done(l),
        None => PollStep::Retry {
            sleep_seconds: wait_seconds,
            next_wait_seconds: next_wait(wait_seconds),
        },
    }
}

} // verus!
