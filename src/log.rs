//! A bounded first-in first-out buffer of diagnostic lines.
use std::collections::VecDeque;
use vstd::prelude::*;
use vstd::string::*;

verus! {

/// How many lines the log keeps; older lines are evicted first.
pub const LOG_CAPACITY: usize = 100;

/// The last `n` elements of `s`, or all of `s` when it is shorter.
pub open spec fn keep_last<T>(s: Seq<T>, n: nat) -> Seq<T> {
    if s.len() > n {
        s.subrange(s.len() - n, s.len() as int)
    } else {
        s
    }
}

/// The lines held after `line` is logged to a log holding `lines`.
pub open spec fn logged(lines: Seq<Seq<char>>, line: Seq<char>) -> Seq<Seq<char>> {
    keep_last(lines.push(line), LOG_CAPACITY as nat)
}

/// The lines held after each of `entries` is logged in turn.
pub open spec fn logged_all(lines: Seq<Seq<char>>, entries: Seq<Seq<char>>) -> Seq<Seq<char>>
    decreases entries.len(),
{
    if entries.len() == 0 {
        lines
    } else {
        logged(logged_all(lines, entries.drop_last()), entries.last())
    }
}

/// Each line followed by a newline, in order.
pub open spec fn joined_lines(lines: Seq<Seq<char>>) -> Seq<char>
    decreases lines.len(),
{
    if lines.len() == 0 {
        Seq::empty()
    } else {
        joined_lines(lines.drop_last()) + lines.last() + seq!['\n']
    }
}

/// Diagnostic lines, oldest first, at most `LOG_CAPACITY` of them.
pub struct Logger {
    logs: VecDeque<String>,
}

impl View for Logger {
    type V = Seq<Seq<char>>;

    closed spec fn view(&self) -> Seq<Seq<char>> {
        self.logs@.map_values(|s: String| s@)
    }
}

impl Logger {
    /// The log never holds more than its capacity.
    pub closed spec fn wf(&self) -> bool {
        self.logs@.len() <= LOG_CAPACITY
    }

    pub fn new() -> (r: Logger)
        ensures
            r.wf(),
            r@ == Seq::<Seq<char>>::empty(),
    {
        let r = Logger { logs: VecDeque::new() };
        assert(r@ =~= Seq::<Seq<char>>::empty());
        r
    }

    pub fn len(&self) -> (r: usize)
        ensures
            r == self@.len(),
    {
        self.logs.len()
    }

    /// Appends `log_text`, evicting the oldest line when the log is full.
    pub fn log(&mut self, log_text: &str)
        requires
            old(self).wf(),
        ensures
            final(self).wf(),
            final(self)@ == logged(old(self)@, log_text@),
    {
        let line = log_text.to_owned();
        self.logs.push_back(line);
        if self.logs.len() > LOG_CAPACITY {
            self.logs.pop_front();
        }
        assert(self@ =~= logged(old(self)@, log_text@));
    }

    /// The last `n` lines (all of them when fewer are held), each followed
    /// by a newline.
    pub fn get_logs(&self, n: usize) -> (r: String)
        ensures
            r@ == joined_lines(keep_last(self@, n as nat)),
    {
        let len = self.logs.len();
        let start: usize = if n < len { len - n } else { 0 };
        let mut s = String::new();
        let mut i: usize = start;
        while i < len
            invariant
                start <= i <= len,
                len == self@.len(),
                s@ == joined_lines(self@.subrange(start as int, i as int)),
            decreases len - i,
        {
            let ghost prev = s@;
            s.append(self.logs[i].as_str());
            proof { reveal_strlit("\n"); }
            s.append("\n");
            proof {
                let next = self@.subrange(start as int, i + 1);
                assert(next.drop_last() =~= self@.subrange(start as int, i as int));
                assert(next.last() == self.logs@[i as int]@);
                assert(s@ =~= prev + next.last() + seq!['\n']);
            }
            i = i + 1;
        }
        assert(self@.subrange(start as int, len as int) =~= keep_last(self@, n as nat));
        s
    }
}

/// Logging one line after another keeps the most recent lines, up to the
/// capacity, oldest first.
pub proof fn lemma_logged_all_keeps_last(lines: Seq<Seq<char>>, entries: Seq<Seq<char>>)
    requires
        lines.len() <= LOG_CAPACITY,
    ensures
        logged_all(lines, entries) == keep_last(lines + entries, LOG_CAPACITY as nat),
    decreases entries.len(),
{
    if entries.len() > 0 {
        lemma_logged_all_keeps_last(lines, entries.drop_last());
        let all = lines + entries;
        assert(lines + entries.drop_last() =~= all.drop_last());
        let k = LOG_CAPACITY as nat;
        assert(keep_last(all.drop_last(), k).push(entries.last()).len() <= k + 1);
        assert(logged_all(lines, entries) =~= keep_last(all, k));
    }
}

/// Once more than the capacity of lines has been logged to an empty log,
/// exactly the most recent `LOG_CAPACITY` of them remain, oldest first.
pub proof fn lemma_log_holds_most_recent(entries: Seq<Seq<char>>)
    requires
        entries.len() > LOG_CAPACITY,
    ensures
        logged_all(Seq::empty(), entries).len() == LOG_CAPACITY,
        logged_all(Seq::empty(), entries)
            == entries.subrange(entries.len() - LOG_CAPACITY, entries.len() as int),
{
    lemma_logged_all_keeps_last(Seq::empty(), entries);
    assert(Seq::<Seq<char>>::empty() + entries =~= entries);
}

} // verus!
