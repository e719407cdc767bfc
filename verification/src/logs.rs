//! The daemon's ring of recent log lines.

use std::collections::VecDeque;
use vstd::prelude::*;

verus! {

/// The last `limit` lines of `lines`, or all of them if there are fewer.
pub open spec fn recent(lines: Seq<Seq<char>>, limit: usize) -> Seq<Seq<char>> {
    if lines.len() <= limit {
        lines
    } else {
        lines.subrange(lines.len() - limit, lines.len() as int)
    }
}

/// The ring after `line` was added to a ring for `capacity` lines: the
/// oldest line leaves a full ring first.
pub open spec fn ring_after(lines: Seq<Seq<char>>, capacity: usize, line: Seq<char>) -> Seq<Seq<char>> {
    if lines.len() >= capacity && lines.len() > 0 {
        lines.subrange(1, lines.len() as int).push(line)
    } else {
        lines.push(line)
    }
}

/// The newest `limit` lines of the ring, oldest first.
pub fn read_recent_logs(buffer: &VecDeque<String>, limit: usize) -> (lines: Vec<String>)
    ensures
        lines@.map_values(|line: String| line@) == recent(
            buffer@.map_values(|line: String| line@),
            limit,
        ),
{
    let n = buffer.len();
    let start = n.saturating_sub(limit);
    let mut lines: Vec<String> = Vec::new();
    let mut i: usize = start;
    while i < n
        invariant
            start <= i <= n,
            n == buffer@.len(),
            start == if n <= limit {
                0
            } else {
                (n - limit) as usize
            },
            lines@.len() == i - start,
            forall|j: int| 0 <= j < i - start ==> (#[trigger] lines@[j])@ == buffer@[start + j]@,
        decreases n - i,
    {
        lines.push(buffer[i].clone());
        i = i + 1;
    }
    assert(lines@.map_values(|line: String| line@) =~= recent(
        buffer@.map_values(|line: String| line@),
        limit,
    ));
    lines
}

/// Adds `line` to a ring for `capacity` lines.
pub fn push_log_line(buffer: &mut VecDeque<String>, capacity: usize, line: String)
    ensures
        final(buffer)@.map_values(|line: String| line@) == ring_after(
            old(buffer)@.map_values(|line: String| line@),
            capacity,
            line@,
        ),
{
    let ghost before = buffer@;
    if buffer.len() >= capacity {
        let _ = buffer.pop_front();
    }
    buffer.push_back(line);
    assert(buffer@.map_values(|line: String| line@) =~= ring_after(
        before.map_values(|line: String| line@),
        capacity,
        line@,
    ));
}

} // verus!
