//! The bounded diagnostic log: a FIFO of the most recent `LOG_CAPACITY`
//! lines, oldest evicted first, paired with a single "last error" slot
//! that is displayed separately and is not a log entry.

use std::collections::VecDeque;
use vstd::prelude::*;

verus! {

/// How many log lines the console keeps.
pub const LOG_CAPACITY: usize = 10;

/// The most recent diagnostic lines plus the most recent error string.
pub struct LogBuffer {
    entries: VecDeque<String>,
    last_error: Option<String>,
}

impl LogBuffer {
    /// The retained log lines, oldest first.
    pub closed spec fn lines(self) -> Seq<Seq<char>> {
        self.entries.deep_view()
    }

    /// The error slot.
    pub closed spec fn error(self) -> Option<Seq<char>> {
        match self.last_error {
            Some(e) => Some(e@),
            None => None,
        }
    }

    /// The bound the buffer never exceeds.
    pub open spec fn wf(self) -> bool {
        self.lines().len() <= LOG_CAPACITY
    }

    pub fn new() -> (b: LogBuffer)
        ensures
            b.wf(),
            b.lines() == Seq::<Seq<char>>::empty(),
            b.error() is None,
    {
        let b = LogBuffer { entries: VecDeque::new(), last_error: None };
        proof {
            assert(b.lines() =~= Seq::<Seq<char>>::empty());
        }
        b
    }

    /// Appends one line, evicting the oldest when the buffer is full.
    pub fn push_line(&mut self, text: String)
        requires
            old(self).wf(),
        ensures
            final(self).wf(),
            final(self).lines() == (if old(self).lines().len() < LOG_CAPACITY {
                old(self).lines().push(text@)
            } else {
                old(self).lines().drop_first().push(text@)
            }),
            final(self).error() == old(self).error(),
    {
        if self.entries.len() == LOG_CAPACITY {
            self.entries.pop_front();
        }
        self.entries.push_back(text);
        proof {
            if old(self).lines().len() < LOG_CAPACITY {
                assert(final(self).lines() =~= old(self).lines().push(text@));
            } else {
                assert(final(self).lines() =~= old(self).lines().drop_first().push(text@));
            }
        }
    }

    /// Replaces the error slot with the most recent error string.
    pub fn set_error(&mut self, text: String)
        ensures
            final(self).lines() == old(self).lines(),
            final(self).error() == Some(text@),
    {
        self.last_error = Some(text);
    }

    /// The retained lines, oldest first, for a frontend to render.
    pub fn snapshot(&self) -> (r: Vec<String>)
        ensures
            r.deep_view() == self.lines(),
    {
        let mut r: Vec<String> = Vec::new();
        let mut i: usize = 0;
        let n = self.entries.len();
        while i < n
            invariant
                i <= n,
                n == self.lines().len(),
                r@.len() == i,
                forall|j: int| 0 <= j < i ==> r@[j]@ == self.lines()[j],
            decreases n - i,
        {
            r.push(self.entries[i].clone());
            i = i + 1;
        }
        proof {
            assert(r.deep_view() =~= self.lines());
        }
        r
    }

    /// The error slot, for the frontend's dedicated error line.
    pub fn error_text(&self) -> (r: Option<&String>)
        ensures
            match r {
                Some(e) => self.error() == Some(e@),
                None => self.error() is None,
            },
    {
        self.last_error.as_ref()
    }
}

} // verus!
