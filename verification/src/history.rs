//! History replay: the window of recent messages a joining session is shown.
//!
//! The store hands rows most-recent-first; the replay keeps at most
//! `HISTORY_LIMIT` of them and reverses the window, so the lines read in
//! non-decreasing timestamp order, oldest of the window first. The window is
//! a pure function of the snapshot it is given: nothing appended after the
//! snapshot can appear in it.

use vstd::prelude::*;
use crate::line::{chat_line, render_chat_line};

verus! {

/// How many messages a joining session is shown at most.
pub const HISTORY_LIMIT: usize = 20;

/// The length of the replay window for `n` available rows.
pub open spec fn window_len(n: nat) -> nat {
    if n < HISTORY_LIMIT { n } else { HISTORY_LIMIT as nat }
}

/// Renders the replay window from `(identity, content)` rows given
/// most-recent-first: at most `HISTORY_LIMIT` lines, the window reversed
/// into natural reading order, each line `"<identity>: <content>"`.
pub fn replay_window(rows: &Vec<(Vec<u8>, Vec<u8>)>) -> (r: Vec<Vec<u8>>)
    ensures
        r@.len() == window_len(rows@.len()),
        forall|i: int|
            0 <= i < r@.len() ==> r@[i]@ == chat_line(
                rows@[r@.len() - 1 - i].0@,
                rows@[r@.len() - 1 - i].1@,
            ),
{
    let n = if rows.len() < HISTORY_LIMIT {
        rows.len()
    } else {
        HISTORY_LIMIT
    };
    let mut r: Vec<Vec<u8>> = Vec::new();
    let mut i: usize = 0;
    while i < n
        invariant
            0 <= i <= n,
            n == window_len(rows@.len()),
            n <= rows@.len(),
            r@.len() == i,
            forall|k: int|
                0 <= k < i ==> r@[k]@ == chat_line(rows@[n - 1 - k].0@, rows@[n - 1 - k].1@),
        decreases n - i,
    {
        let row = &rows[n - 1 - i];
        r.push(render_chat_line(&row.0, &row.1));
        i = i + 1;
    }
    r
}

} // verus!
