//! Bounded FIFO buffer for the supervised child's output lines.
//!
//! The supervisor drains the child's standard output and standard error into
//! this buffer line by line; only the most recent [`MAX_LOG_ENTRIES`] lines
//! are kept, older ones are silently discarded. The health-failure diagnostic
//! path reads the buffer back as one joined string.

use vstd::prelude::*;

verus! {

/// How many of the most recent output lines are retained.
pub const MAX_LOG_ENTRIES: usize = 200;

/// A bounded FIFO of the most recent [`MAX_LOG_ENTRIES`] lines of
/// child-process output. Appending past the cap drops the oldest line.
pub struct LogBuffer {
    lines: Vec<String>,
}

/// What one append does to the buffer's contents: the line goes on the back,
/// and if the buffer already sits at the cap the oldest line falls off.
pub open spec fn push_line(s: Seq<Seq<char>>, line: Seq<char>) -> Seq<Seq<char>> {
    if s.len() < MAX_LOG_ENTRIES {
        s.push(line)
    } else {
        s.subrange(1, s.len() as int).push(line)
    }
}

/// The buffer left by feeding `lines` one by one into a buffer holding `s`.
pub open spec fn feed(s: Seq<Seq<char>>, lines: Seq<Seq<char>>) -> Seq<Seq<char>>
    decreases lines.len(),
{
    if lines.len() == 0 {
        s
    } else {
        feed(push_line(s, lines[0]), lines.drop_first())
    }
}

/// The suffix of `all` that a capped buffer can still hold: `all` itself if
/// it fits, otherwise its last [`MAX_LOG_ENTRIES`] elements.
pub open spec fn most_recent(all: Seq<Seq<char>>) -> Seq<Seq<char>> {
    if all.len() <= MAX_LOG_ENTRIES {
        all
    } else {
        all.subrange(all.len() - MAX_LOG_ENTRIES, all.len() as int)
    }
}

/// The lines joined into one diagnostic string, in arrival order.
pub open spec fn joined(s: Seq<Seq<char>>) -> Seq<char>
    decreases s.len(),
{
    if s.len() == 0 {
        Seq::empty()
    } else {
        joined(s.drop_last()) + s.last()
    }
}

impl LogBuffer {
    pub closed spec fn view(&self) -> Seq<Seq<char>> {
        self.lines.deep_view()
    }

    /// The buffer never holds more than the cap.
    pub open spec fn wf(&self) -> bool {
        self@.len() <= MAX_LOG_ENTRIES
    }

    /// A fresh, empty buffer.
    pub fn new() -> (r: LogBuffer)
        ensures
            r@ == Seq::<Seq<char>>::empty(),
            r.wf(),
    {
        LogBuffer { lines: Vec::new() }
    }

    pub fn len(&self) -> (r: usize)
        ensures
            r == self@.len(),
    {
        self.lines.len()
    }

    /// Appends one output line, dropping the oldest line if the buffer
    /// already sits at the cap.
    pub fn push(&mut self, line: String)
        requires
            old(self).wf(),
        ensures
            final(self).wf(),
            final(self)@ == push_line(old(self)@, line@),
    {
        if self.lines.len() == MAX_LOG_ENTRIES {
            self.lines.remove(0);
            assert(self.lines.deep_view() =~= old(self)@.subrange(1, old(self)@.len() as int));
        }
        self.lines.push(line);
        assert(final(self)@ =~= push_line(old(self)@, line@));
    }

    /// A copy of the `i`-th retained line, oldest first.
    pub fn line(&self, i: usize) -> (r: String)
        requires
            i < self@.len(),
        ensures
            r@ == self@[i as int],
    {
        self.lines[i].clone()
    }
}

/// All retained lines joined into one string, in arrival order: the
/// diagnostic tail surfaced when a spawned server fails its health check.
pub fn get_logs(logs: &LogBuffer) -> (r: String)
    ensures
        r@ == joined(logs@),
{
    let mut out = String::new();
    let mut i: usize = 0;
    let n = logs.len();
    while i < n
        invariant
            i <= n,
            n == logs@.len(),
            out@ == joined(logs@.take(i as int)),
        decreases n - i,
    {
        let line = logs.line(i);
        out.append(line.as_str());
        proof {
            assert(logs@.take(i + 1).drop_last() =~= logs@.take(i as int));
            assert(logs@.take(i + 1).last() == logs@[i as int]);
        }
        i = i + 1;
    }
    proof {
        assert(logs@.take(n as int) =~= logs@);
    }
    out
}

/// Feeding any run of lines into a buffer within its cap leaves exactly the
/// most recent lines of the whole run, in arrival order: the cap is never
/// exceeded and nothing newer than a dropped line is ever lost.
pub proof fn law_feed_keeps_most_recent(s: Seq<Seq<char>>, lines: Seq<Seq<char>>)
    requires
        s.len() <= MAX_LOG_ENTRIES,
    ensures
        feed(s, lines) == most_recent(s + lines),
        feed(s, lines).len() <= MAX_LOG_ENTRIES,
    decreases lines.len(),
{
    if lines.len() == 0 {
        assert(s + lines =~= s);
    } else {
        let l0 = lines[0];
        let rest = lines.drop_first();
        let stepped = push_line(s, l0);
        assert(stepped.len() <= MAX_LOG_ENTRIES);
        law_feed_keeps_most_recent(stepped, rest);
        if s.len() < MAX_LOG_ENTRIES {
            assert(stepped + rest =~= s + lines);
        } else {
            // The oldest line is dropped; it lies outside the retained window.
            let t = s + lines;
            assert(stepped + rest =~= t.subrange(1, t.len() as int));
            lemma_most_recent_drop_first(t);
        }
    }
}

/// Dropping the first element of an over-full run does not change which
/// lines the capped window retains.
proof fn lemma_most_recent_drop_first(t: Seq<Seq<char>>)
    requires
        t.len() > MAX_LOG_ENTRIES,
    ensures
        most_recent(t.subrange(1, t.len() as int)) == most_recent(t),
{
    let d = t.subrange(1, t.len() as int);
    if d.len() <= MAX_LOG_ENTRIES {
        assert(d =~= most_recent(t));
    } else {
        assert(d.subrange(d.len() - MAX_LOG_ENTRIES, d.len() as int) =~= t.subrange(
            t.len() - MAX_LOG_ENTRIES,
            t.len() as int,
        ));
    }
}

} // verus!
