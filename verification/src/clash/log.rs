use vstd::prelude::*;

use crate::text::{spec_contains_text, str_contains};

verus! {

/// How many log lines are shown at once.
pub const LOG_COUNT: usize = 9;

/// The battle log.
#[derive(Clone)]
pub struct Log {
    pub logs: Vec<String>,
}

impl Log {
    /// An empty log.
    pub fn init() -> (r: Log)
        ensures
            r.logs@.len() == 0,
    {
        Log { logs: Vec::new() }
    }

    /// Appends `entry` as a new line.
    pub fn add(&mut self, entry: &str)
        ensures
            final(self).logs@.len() == old(self).logs@.len() + 1,
            forall|k: int| 0 <= k < old(self).logs@.len() ==> #[trigger] final(self).logs@[k] == old(self).logs@[k],
            final(self).logs@[old(self).logs@.len() as int]@ == entry@,
    {
        self.logs.push(String::from_str(entry));
    }

    /// How many lines hold `value`.
    pub fn contains_count(&self, value: &str) -> (r: usize)
        ensures
            r == count_containing(self.logs@, value@),
    {
        let mut count: usize = 0;
        let mut k: usize = 0;
        while k < self.logs.len()
            invariant
                k <= self.logs@.len(),
                count == count_containing(self.logs@.take(k as int), value@),
                count <= k,
            decreases self.logs@.len() - k,
        {
            assert(self.logs@.take(k + 1).drop_last() =~= self.logs@.take(k as int));
            if str_contains(self.logs[k].as_str(), value) {
                count = count + 1;
            }
            k = k + 1;
        }
        assert(self.logs@.take(k as int) =~= self.logs@);
        count
    }
}

/// How many of `lines` hold `value`.
pub open spec fn count_containing(lines: Seq<String>, value: Seq<char>) -> int
    decreases lines.len(),
{
    if lines.len() == 0 {
        0
    } else {
        count_containing(lines.drop_last(), value) + if spec_contains_text(lines.last()@, value) {
            1int
        } else {
            0
        }
    }
}

} // verus!
